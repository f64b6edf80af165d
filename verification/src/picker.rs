//! The photo picker beside the recipe form: a file input that is always
//! offered, and a live viewfinder offered in addition wherever the browser
//! lets the page use the camera. This is its state and what each event does
//! to it; the browser work is done by the caller.

use vstd::prelude::*;

use crate::form::unreadable_photo_text;
use crate::photos::{base64_encoded, photo_from_file, too_large_message, too_large_text, MAX_PHOTO_BYTES};
use crate::text::owned;

verus! {

/// The picker's state.
pub struct PickerState {
    /// Whether a live viewfinder can be offered here. Probed after the first
    /// render, so it starts out false on the server and the client alike.
    pub camera_available: bool,
    /// Whether the viewfinder is on screen, and with it the camera.
    pub viewfinder_open: bool,
    /// Whether the camera is still being opened.
    pub starting: bool,
}

/// What the picker hands to the form after an event.
pub enum PickerOutput {
    /// Nothing to report.
    Nothing,
    /// A photo, as (MIME type, base64).
    Photo { mime: String, data: String },
    /// A message to show.
    Error { message: String },
}

impl PickerState {
    /// The picker as first rendered: no camera offered, viewfinder closed.
    pub fn new() -> (s: PickerState)
        ensures
            !s.camera_available,
            !s.viewfinder_open,
            !s.starting,
    {
        PickerState { camera_available: false, viewfinder_open: false, starting: false }
    }

    /// The browser was probed for a usable camera.
    pub fn camera_probed(&mut self, supported: bool)
        ensures
            final(self).camera_available == supported,
            final(self).viewfinder_open == old(self).viewfinder_open,
            final(self).starting == old(self).starting,
    {
        self.camera_available = supported;
    }

    /// Whether the "Take photo" button is shown at all.
    pub fn offers_camera(&self) -> (r: bool)
        ensures
            r == self.camera_available,
    {
        self.camera_available
    }

    /// Whether the "Take photo" button can be pressed: not while the
    /// viewfinder is already open.
    pub fn can_open_viewfinder(&self) -> (r: bool)
        ensures
            r == !self.viewfinder_open,
    {
        !self.viewfinder_open
    }

    /// "Take photo" was pressed.
    pub fn open_viewfinder(&mut self)
        ensures
            final(self).viewfinder_open,
            final(self).camera_available == old(self).camera_available,
            final(self).starting == old(self).starting,
    {
        self.viewfinder_open = true;
    }

    /// The viewfinder was mounted and the camera is being opened.
    pub fn camera_starting(&mut self)
        ensures
            final(self).starting,
            final(self).camera_available == old(self).camera_available,
            final(self).viewfinder_open == old(self).viewfinder_open,
    {
        self.starting = true;
    }

    /// Opening the camera finished. A camera that could not be opened closes
    /// the viewfinder and its explanation is reported.
    pub fn camera_opened(&mut self, result: Result<(), String>) -> (out: PickerOutput)
        ensures
            !final(self).starting,
            final(self).camera_available == old(self).camera_available,
            match result {
                Ok(()) => final(self).viewfinder_open == old(self).viewfinder_open
                    && out is Nothing,
                Err(m) => !final(self).viewfinder_open && (out matches PickerOutput::Error {
                    message,
                } && message@ == m@),
            },
    {
        let out = match result {
            Ok(()) => PickerOutput::Nothing,
            Err(message) => {
                self.viewfinder_open = false;
                PickerOutput::Error { message }
            },
        };
        self.starting = false;
        out
    }

    /// Whether "Capture" can be pressed: not while the camera is starting.
    pub fn can_capture(&self) -> (r: bool)
        ensures
            r == !self.starting,
    {
        !self.starting
    }

    /// A capture finished. A captured photo closes the viewfinder, and with
    /// it the camera, so the indicator light never outlives the preview; a
    /// failed capture leaves it open for another try.
    pub fn capture_finished(&mut self, result: Result<(String, String), String>) -> (out:
        PickerOutput)
        ensures
            final(self).camera_available == old(self).camera_available,
            final(self).starting == old(self).starting,
            match result {
                Ok((mime, data)) => !final(self).viewfinder_open && (out matches PickerOutput::Photo {
                    mime: m,
                    data: d,
                } && m@ == mime@ && d@ == data@),
                Err(e) => final(self).viewfinder_open == old(self).viewfinder_open && (
                out matches PickerOutput::Error { message } && message@ == e@),
            },
    {
        match result {
            Ok((mime, data)) => {
                self.viewfinder_open = false;
                PickerOutput::Photo { mime, data }
            },
            Err(message) => PickerOutput::Error { message },
        }
    }

    /// "Cancel" was pressed: the viewfinder closes, and with it the camera.
    pub fn cancel(&mut self)
        ensures
            !final(self).viewfinder_open,
            final(self).camera_available == old(self).camera_available,
            final(self).starting == old(self).starting,
    {
        self.viewfinder_open = false;
    }
}

/// A file was chosen in the picker. One over the limit is refused with its
/// explanation before it is read; otherwise the caller reads it.
pub fn picker_file_chosen(size: u64) -> (out: PickerOutput)
    ensures
        size <= MAX_PHOTO_BYTES ==> out is Nothing,
        size > MAX_PHOTO_BYTES ==> (out matches PickerOutput::Error { message } && message@
            == too_large_text(size as nat)),
{
    if size > MAX_PHOTO_BYTES {
        PickerOutput::Error { message: too_large_message(size) }
    } else {
        PickerOutput::Nothing
    }
}

/// Reading the chosen file finished. Its bytes become the photo, as its type
/// (`image/jpeg` when the browser does not say) and its base64; a file that
/// could not be read is reported with the reason.
pub fn picker_file_read(content_type: Option<String>, read: Result<Vec<u8>, String>) -> (out:
    PickerOutput)
    requires
        read matches Ok(bytes) ==> bytes@.len() <= usize::MAX / 2,
    ensures
        match read {
            Ok(bytes) => out matches PickerOutput::Photo { mime, data } && mime@ == match content_type {
                Some(t) => t@,
                None => "image/jpeg"@,
            } && data@ == base64_encoded(bytes@),
            Err(reason) => out matches PickerOutput::Error { message } && message@
                == unreadable_photo_text(reason@),
        },
{
    match read {
        Ok(bytes) => {
            let (mime, data) = photo_from_file(content_type, bytes.as_slice());
            PickerOutput::Photo { mime, data }
        },
        Err(reason) => {
            let mut message = owned("Could not read that photo: ");
            message.append(reason.as_str());
            PickerOutput::Error { message }
        },
    }
}

} // verus!
