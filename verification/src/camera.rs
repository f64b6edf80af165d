//! The decisions behind the camera viewfinder: explaining a refused camera,
//! telling whether a frame has arrived, and taking the payload out of an
//! encoded frame. The browser calls themselves stay with the caller.

use vstd::prelude::*;

use crate::text::{after_first, occurs_at, owned, same_text};

verus! {

/// The type a captured frame is encoded as.
pub open spec fn capture_mime() -> Seq<char> {
    "image/jpeg"@
}

/// The explanation for a camera that could not be opened, by the `name` of
/// the `DOMException` the browser raised (`None` when it raised something
/// else).
pub open spec fn camera_error_text(exception_name: Option<Seq<char>>) -> Seq<char> {
    match exception_name {
        None => "The camera could not be opened"@,
        Some(name) => if name == "NotAllowedError"@ || name == "SecurityError"@ {
            "Permission to use the camera was refused. Allow it for this site in the browser's settings, then try again."@
        } else if name == "NotFoundError"@ || name == "OverconstrainedError"@ {
            "No camera was found on this device."@
        } else if name == "NotReadableError"@ {
            "The camera is already in use by another app."@
        } else {
            "The camera could not be opened ("@ + name + ")."@
        },
    }
}

/// Explains a refused camera in terms of what to do about it. The exception's
/// name is what distinguishes the cases; the message alongside it is usually
/// empty or too generic to act on.
pub fn describe_camera_error(exception_name: Option<&str>) -> (m: String)
    ensures
        m@ == camera_error_text(
            match exception_name {
                Some(n) => Some(n@),
                None => None,
            },
        ),
{
    match exception_name {
        None => owned("The camera could not be opened"),
        Some(name) => {
            if same_text(name, "NotAllowedError") || same_text(name, "SecurityError") {
                owned(
                    "Permission to use the camera was refused. Allow it for this site in the browser's settings, then try again.",
                )
            } else if same_text(name, "NotFoundError") || same_text(name, "OverconstrainedError") {
                owned("No camera was found on this device.")
            } else if same_text(name, "NotReadableError") {
                owned("The camera is already in use by another app.")
            } else {
                let mut m = owned("The camera could not be opened (");
                m.append(name);
                m.append(").");
                m
            }
        },
    }
}

/// Whether a frame can be captured from a stream that reports these
/// dimensions. Both are zero until the first frame has arrived, and drawing
/// then would save a blank rectangle, which is worse than asking for another
/// try.
pub fn check_frame_ready(width: u32, height: u32) -> (r: Result<(), String>)
    ensures
        width != 0 && height != 0 ==> r is Ok,
        width == 0 || height == 0 ==> (r matches Err(m) && m@
            == "The camera is still starting up. Try again in a moment."@),
{
    if width == 0 || height == 0 {
        Err(owned("The camera is still starting up. Try again in a moment."))
    } else {
        Ok(())
    }
}

/// Turns the data URL a canvas encoded a frame into (`data:image/jpeg;base64,
/// <payload>`) into `(mime, payload)`, the payload being everything after the
/// first `;base64,`, ready to be uploaded unchanged.
pub fn captured_photo(data_url: &str) -> (r: Result<(String, String), String>)
    ensures
        match r {
            Ok((mime, payload)) => {
                &&& mime@ == capture_mime()
                &&& exists|i: int|
                    occurs_at(data_url@, ";base64,"@, i) && (forall|j: int|
                        0 <= j < i ==> !occurs_at(data_url@, ";base64,"@, j)) && payload@
                        == data_url@.subrange(i + ";base64,"@.len(), data_url@.len() as int)
            },
            Err(m) => {
                &&& m@ == "The frame came back in an unexpected format"@
                &&& forall|j: int| !occurs_at(data_url@, ";base64,"@, j)
            },
        },
{
    match after_first(data_url, ";base64,") {
        Some(payload) => Ok((owned("image/jpeg"), owned(payload))),
        None => Err(owned("The frame came back in an unexpected format")),
    }
}

} // verus!
