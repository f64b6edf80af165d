//! Recipe photos: the size limit, checking an upload, encoding a chosen
//! file, and answering a request for a stored photo.

use base64::engine::general_purpose::STANDARD;
use base64::Engine;
use vstd::prelude::*;

use crate::text::{
    decimal, decimal_nat, digit_char, has_prefix, lemma_decimal_chars,
    lemma_decimal_injective, owned, push_char, push_decimal, push_signed_decimal, starts_with,
};

verus! {

/// Ceiling on a stored photo, in bytes: 15 MiB.
///
/// The server's request-body limit has to allow this plus the third that
/// base64 adds, so that an oversized photo is refused here with an
/// explanation rather than by the transport.
pub const MAX_PHOTO_BYTES: u64 = 15728640u64;

/// What `base64::engine::general_purpose::STANDARD.decode` gives for an
/// input: the decoded bytes, or `None` where it reports an error.
pub uninterp spec fn base64_decoded(input: Seq<u8>) -> Option<Seq<u8>>;

/// What `base64::engine::general_purpose::STANDARD.encode` gives for some
/// bytes: their padded standard-alphabet encoding.
pub uninterp spec fn base64_encoded(bytes: Seq<u8>) -> Seq<char>;

/// `STANDARD.decode`: the decoded bytes, or `None` in place of its
/// `DecodeError`. The result is the named decoding of the input.
#[verifier::external_body]
fn decode_standard(input: &[u8]) -> (r: Option<Vec<u8>>)
    ensures
        match r {
            Some(bytes) => base64_decoded(input@) == Some(bytes@),
            None => base64_decoded(input@) is None,
        },
{
    match STANDARD.decode(input) {
        Ok(bytes) => Some(bytes),
        Err(_) => None,
    }
}

/// The length of the padded base64 encoding of `n` bytes: four characters
/// for every group of three bytes, a last short group included.
pub open spec fn padded_base64_len(n: nat) -> nat {
    4 * ((n + 2) / 3)
}

/// `STANDARD.encode`. It panics when the encoded length overflows `usize`,
/// which the bound on the input rules out. The result is the named encoding
/// of the bytes; it is as long as `encoded_len` with padding says, and being
/// made of the ASCII alphabet, has one character per byte.
#[verifier::external_body]
fn encode_standard(bytes: &[u8]) -> (r: String)
    requires
        bytes@.len() <= usize::MAX / 2,
    ensures
        r@ == base64_encoded(bytes@),
        r@.len() == padded_base64_len(bytes@.len()),
{
    STANDARD.encode(bytes)
}

/// Ceiling on an incoming request body: 24 MiB. A photo arrives as base64
/// inside the JSON of a request, a third larger than its bytes.
pub const MAX_REQUEST_BODY_BYTES: u64 = 25165824u64;

/// The request-body limit admits the largest photo the server accepts: its
/// base64 encoding, with a mebibyte to spare for the JSON around it. An
/// oversized body is refused while it is still being read, before any check
/// here could explain why, so the photo limit has to be what refuses first.
pub proof fn request_limit_admits_every_accepted_photo(size: nat)
    requires
        size <= MAX_PHOTO_BYTES,
    ensures
        padded_base64_len(size) + 1048576 <= MAX_REQUEST_BODY_BYTES,
{
    assert((size + 2) / 3 <= (MAX_PHOTO_BYTES + 2) / 3);
}

/// A size in mebibytes, rounded to one decimal place and counted in tenths,
/// with a tie going to the even tenth.
pub open spec fn tenths_of_mebibyte(size: nat) -> nat {
    let scaled = size * 10;
    let q = scaled / 1048576;
    let r = scaled % 1048576;
    if r * 2 > 1048576 || (r * 2 == 1048576 && q % 2 == 1) {
        q + 1
    } else {
        q
    }
}

/// A size in mebibytes written with one decimal place, as `{:.1}` writes it.
pub open spec fn mebibytes_text(size: nat) -> Seq<char> {
    let t = tenths_of_mebibyte(size);
    decimal_nat(t / 10).push('.').push(digit_char(t % 10))
}

/// Appends `size`, in mebibytes with one decimal place, to `out`.
fn push_mebibytes(out: &mut String, size: u64)
    ensures
        final(out)@ == old(out)@ + mebibytes_text(size as nat),
{
    let scaled: u128 = size as u128 * 10;
    let q: u128 = scaled / 1048576;
    let r: u128 = scaled % 1048576;
    let tenths: u128 = if r * 2 > 1048576 || (r * 2 == 1048576 && q % 2 == 1) {
        q + 1
    } else {
        q
    };
    assert(tenths == tenths_of_mebibyte(size as nat));
    let whole: u64 = (tenths / 10) as u64;
    let tenth: u8 = (tenths % 10) as u8;
    push_decimal(out, whole);
    push_char(out, '.');
    let c: u8 = 48 + tenth;
    push_char(out, c as char);
    assert(final(out)@ =~= old(out)@ + mebibytes_text(size as nat));
}

/// The explanation given for a photo of `size` bytes, over the limit.
pub open spec fn too_large_text(size: nat) -> Seq<char> {
    "That photo is "@ + mebibytes_text(size) + " MB; the limit is "@ + mebibytes_text(
        MAX_PHOTO_BYTES as nat,
    ) + " MB"@
}

/// Says how large a photo is and what the limit is, each in megabytes with
/// one decimal place: whole megabytes would round a 1.2 MB photo down to the
/// same "1 MB" as a limit it exceeded.
pub fn too_large_message(size: u64) -> (m: String)
    ensures
        m@ == too_large_text(size as nat),
{
    let mut m = owned("That photo is ");
    push_mebibytes(&mut m, size);
    m.append(" MB; the limit is ");
    push_mebibytes(&mut m, MAX_PHOTO_BYTES);
    m.append(" MB");
    m
}

/// Why an uploaded photo was refused.
#[derive(Debug, Clone, PartialEq)]
pub enum PhotoError {
    /// The upload was not valid base64.
    Undecodable,
    /// It decoded to nothing.
    Empty,
    /// It decoded to more than `MAX_PHOTO_BYTES` bytes.
    TooLarge { size: u64 },
    /// Its stated type is not an image type.
    NotAnImage { mime: String },
}

impl PhotoError {
    /// The explanation given to whoever uploaded the photo.
    pub fn message(&self) -> (m: String)
        ensures
            m@ == match self {
                PhotoError::Undecodable => "That photo could not be decoded"@,
                PhotoError::Empty => "That photo was empty"@,
                PhotoError::TooLarge { size } => too_large_text(*size as nat),
                PhotoError::NotAnImage { mime } => mime@ + " is not an image"@,
            },
    {
        match self {
            PhotoError::Undecodable => owned("That photo could not be decoded"),
            PhotoError::Empty => owned("That photo was empty"),
            PhotoError::TooLarge { size } => too_large_message(*size),
            PhotoError::NotAnImage { mime } => {
                let mut m = owned(mime.as_str());
                m.append(" is not an image");
                m
            },
        }
    }
}

/// The outcome of checking a photo whose stated type is `mime` and whose
/// upload decoded to `decoded`: refused as undecodable, empty, too large or
/// not an image, in that order of checking, or accepted as those bytes.
pub open spec fn photo_outcome(
    mime: Seq<char>,
    decoded: Option<Seq<u8>>,
    r: Result<Vec<u8>, PhotoError>,
) -> bool {
    match decoded {
        None => r == Err::<Vec<u8>, PhotoError>(PhotoError::Undecodable),
        Some(bytes) => if bytes.len() == 0 {
            r == Err::<Vec<u8>, PhotoError>(PhotoError::Empty)
        } else if bytes.len() > MAX_PHOTO_BYTES {
            r == Err::<Vec<u8>, PhotoError>(PhotoError::TooLarge { size: bytes.len() as u64 })
        } else if !has_prefix(mime, "image/"@) {
            r matches Err(PhotoError::NotAnImage { mime: m }) && m@ == mime
        } else {
            r matches Ok(v) && v@ == bytes
        },
    }
}

/// Whether `mime` begins with `image/`.
pub open spec fn is_image_type(mime: Seq<char>) -> bool {
    mime.len() >= "image/"@.len() && mime.subrange(0, "image/"@.len() as int) == "image/"@
}

/// A photo that decoded to something within the limit is accepted, as
/// exactly its bytes, when its stated type begins with `image/`, whatever
/// follows (`image/webp` as much as `image/png`), and refused otherwise.
pub proof fn accepted_exactly_when_an_image_type(
    mime: Seq<char>,
    bytes: Seq<u8>,
    r: Result<Vec<u8>, PhotoError>,
)
    requires
        photo_outcome(mime, Some(bytes), r),
        0 < bytes.len() <= MAX_PHOTO_BYTES,
    ensures
        (r matches Ok(v) && v@ == bytes) <==> is_image_type(mime),
        r is Ok <==> is_image_type(mime),
{
}

/// The bytes of a decoding result.
pub open spec fn decoded_bytes(decoded: Option<Vec<u8>>) -> Option<Seq<u8>> {
    match decoded {
        Some(v) => Some(v@),
        None => None,
    }
}

/// Checks a photo once its upload has been decoded (`None` when decoding
/// failed): it must be non-empty, within `MAX_PHOTO_BYTES`, and of a type
/// that starts with `image/`. Anything else would render as a broken picture
/// at best, so there is no reason to keep it.
pub fn check_photo(mime: &str, decoded: Option<Vec<u8>>) -> (r: Result<Vec<u8>, PhotoError>)
    ensures
        photo_outcome(mime@, decoded_bytes(decoded), r),
        match decoded {
            Some(bytes) => 0 < bytes@.len() <= MAX_PHOTO_BYTES ==> ((r matches Ok(v) && v@
                == bytes@) <==> is_image_type(mime@)),
            None => true,
        },
{
    match decoded {
        None => Err(PhotoError::Undecodable),
        Some(bytes) => {
            let size = bytes.len();
            if size == 0 {
                Err(PhotoError::Empty)
            } else if size as u64 > MAX_PHOTO_BYTES {
                Err(PhotoError::TooLarge { size: size as u64 })
            } else if !starts_with(mime, "image/") {
                Err(PhotoError::NotAnImage { mime: owned(mime) })
            } else {
                Ok(bytes)
            }
        },
    }
}

/// Decodes an uploaded photo from base64 and checks it as `check_photo`
/// does. The limit is enforced here as well as in the browser, because the
/// browser-side check is only a courtesy.
pub fn decode_photo(mime: &str, data_base64: &str) -> (r: Result<Vec<u8>, PhotoError>)
    ensures
        photo_outcome(mime@, base64_decoded(vstd::utf8::encode_utf8(data_base64@)), r),
        match base64_decoded(vstd::utf8::encode_utf8(data_base64@)) {
            Some(bytes) => 0 < bytes.len() <= MAX_PHOTO_BYTES ==> ((r matches Ok(v) && v@
                == bytes) <==> is_image_type(mime@)),
            None => true,
        },
{
    let decoded = decode_standard(data_base64.as_bytes());
    let r = check_photo(mime, decoded);
    proof {
        if let Some(bytes) = base64_decoded(vstd::utf8::encode_utf8(data_base64@)) {
            if 0 < bytes.len() <= MAX_PHOTO_BYTES {
                accepted_exactly_when_an_image_type(mime@, bytes, r);
            }
        }
    }
    r
}

/// The browser and the server draw the line in the same place: a non-empty
/// photo is refused as too large by the server exactly when its size is over
/// `MAX_PHOTO_BYTES`, which is when `check_photo_file_size` refuses the file
/// before it is read.
pub proof fn same_limit_in_browser_and_server(
    mime: Seq<char>,
    bytes: Seq<u8>,
    r: Result<Vec<u8>, PhotoError>,
)
    requires
        photo_outcome(mime, Some(bytes), r),
        0 < bytes.len() <= usize::MAX,
    ensures
        (r matches Err(PhotoError::TooLarge { size }) && size == bytes.len()) <==> bytes.len()
            > MAX_PHOTO_BYTES,
{
}

/// Checks the size of a file chosen as a photo before it is read, against
/// the same ceiling the server enforces.
pub fn check_photo_file_size(size: u64) -> (r: Result<(), PhotoError>)
    ensures
        size <= MAX_PHOTO_BYTES ==> r is Ok,
        size > MAX_PHOTO_BYTES ==> r == Err::<(), PhotoError>(PhotoError::TooLarge { size }),
{
    if size > MAX_PHOTO_BYTES {
        Err(PhotoError::TooLarge { size })
    } else {
        Ok(())
    }
}

/// A chosen file as a photo ready to upload: its type, `image/jpeg` when the
/// browser does not say, and its bytes in base64.
pub fn photo_from_file(content_type: Option<String>, bytes: &[u8]) -> (r: (String, String))
    requires
        bytes@.len() <= usize::MAX / 2,
    ensures
        r.0@ == match content_type {
            Some(t) => t@,
            None => "image/jpeg"@,
        },
        r.1@ == base64_encoded(bytes@),
        r.1@.len() == padded_base64_len(bytes@.len()),
{
    let mime = match content_type {
        Some(t) => t,
        None => owned("image/jpeg"),
    };
    (mime, encode_standard(bytes))
}

/// The version stamped on a photo written at `now_millis` for a recipe whose
/// last issued version was `last_issued` (`None` when it has never had a
/// photo): whichever is larger of the clock and one past the last issued
/// version, so the value always moves, even if two writes land in the same
/// millisecond and even after the photo was cleared in between. `None` when
/// the last issued version is already the largest there is.
pub open spec fn spec_photo_version_after(last_issued: Option<i64>, now_millis: i64) -> Option<i64> {
    let base: int = match last_issued {
        Some(v) => v as int,
        None => 0,
    };
    if base == i64::MAX {
        None
    } else if base + 1 >= now_millis {
        Some((base + 1) as i64)
    } else {
        Some(now_millis)
    }
}

/// The version a newly written photo is stamped with, given the last version
/// ever issued for the recipe. A repeated version would leave the browser
/// holding an `immutable` copy of a photo that had been replaced, which it
/// would never fetch again, so the new version is always larger than every
/// version issued before it, and no earlier than the clock.
pub fn photo_version_after(last_issued: Option<i64>, now_millis: i64) -> (r: Option<i64>)
    ensures
        r == spec_photo_version_after(last_issued, now_millis),
        r is None <==> last_issued == Some(i64::MAX),
        r matches Some(v) ==> v >= now_millis && v > match last_issued {
            Some(p) => p,
            None => 0,
        },
{
    let base: i64 = match last_issued {
        Some(v) => v,
        None => 0,
    };
    if base == i64::MAX {
        None
    } else if base + 1 >= now_millis {
        Some(base + 1)
    } else {
        Some(now_millis)
    }
}

/// Whether `versions` is what a recipe was issued, one photo after another:
/// each version issued with the one before it as the last issued (the first
/// with none), at the clock reading in `clock`.
pub open spec fn issued_in_turn(versions: Seq<i64>, clock: Seq<i64>) -> bool {
    &&& versions.len() == clock.len()
    &&& versions.len() > 0 ==> spec_photo_version_after(None, clock[0]) == Some(versions[0])
    &&& forall|i: int|
        0 < i < versions.len() ==> spec_photo_version_after(Some(versions[i - 1]), clock[i])
            == Some(#[trigger] versions[i])
}

/// A version issued for a recipe is never issued for it again: the versions
/// it is given, one photo after another and whatever was cleared in between,
/// strictly increase. So a replaced photo never reappears under an address
/// the browser has cached.
pub proof fn issued_versions_never_repeat(versions: Seq<i64>, clock: Seq<i64>)
    requires
        issued_in_turn(versions, clock),
    ensures
        forall|i: int, j: int| 0 <= i < j < versions.len() ==> versions[i] < versions[j],
    decreases versions.len(),
{
    if versions.len() > 1 {
        let shorter = versions.drop_last();
        let earlier_clock = clock.drop_last();
        assert forall|i: int| 0 < i < shorter.len() implies spec_photo_version_after(
            Some(shorter[i - 1]),
            earlier_clock[i],
        ) == Some(#[trigger] shorter[i]) by {
            assert(spec_photo_version_after(Some(versions[i - 1]), clock[i]) == Some(versions[i]));
        }
        issued_versions_never_repeat(shorter, earlier_clock);
        let last = versions.len() - 1;
        assert(spec_photo_version_after(Some(versions[last - 1]), clock[last]) == Some(
            versions[last],
        ));
        assert forall|i: int, j: int| 0 <= i < j < versions.len() implies versions[i]
            < versions[j] by {
            if j < last {
                assert(shorter[i] < shorter[j]);
            } else if i < last - 1 {
                assert(shorter[i] < shorter[last - 1]);
            }
        }
    }
}

/// The version the recipe list reports: the last issued one while the recipe
/// has a photo, and none once it has been cleared. Clearing a photo keeps the
/// last issued version on record, so the next photo's version moves past it.
pub fn listed_photo_version(has_photo: bool, last_issued: Option<i64>) -> (r: Option<i64>)
    ensures
        r == (if has_photo {
            last_issued
        } else {
            None::<i64>
        }),
{
    if has_photo {
        last_issued
    } else {
        None
    }
}

/// The address of a recipe's photo: `/photo/{id}?v={version}`.
pub open spec fn spec_photo_url(id: i64, version: i64) -> Seq<char> {
    "/photo/"@ + decimal(id as int) + "?v="@ + decimal(version as int)
}

/// Where the browser fetches a recipe's photo. The photo is served as bytes
/// by its own route, so the browser caches it and holds off until it scrolls
/// into view; the version makes the address change when the photo does,
/// which is what lets a cached copy live for a year.
pub fn photo_url(id: i64, version: i64) -> (url: String)
    ensures
        url@ == spec_photo_url(id, version),
{
    let mut url = owned("/photo/");
    push_signed_decimal(&mut url, id);
    url.append("?v=");
    push_signed_decimal(&mut url, version);
    url
}

/// A photo address names one recipe and one version: two addresses are the
/// same only for the same recipe and the same version, so a replaced photo,
/// which carries a new version, is never fetched under an address the
/// browser has cached.
pub proof fn photo_url_identifies_recipe_and_version(id1: i64, version1: i64, id2: i64, version2: i64)
    ensures
        spec_photo_url(id1, version1) == spec_photo_url(id2, version2) <==> (id1 == id2 && version1
            == version2),
{
    reveal_strlit("/photo/");
    reveal_strlit("?v=");
    let u1 = spec_photo_url(id1, version1);
    let u2 = spec_photo_url(id2, version2);
    let d1 = decimal(id1 as int);
    let d2 = decimal(id2 as int);
    if u1 == u2 {
        lemma_decimal_chars(id1 as int);
        lemma_decimal_chars(id2 as int);
        if d1.len() < d2.len() {
            assert(u1[7int + d1.len()] == '?');
            assert(u2[7int + d1.len()] == d2[d1.len() as int]);
        } else if d2.len() < d1.len() {
            assert(u2[7int + d2.len()] == '?');
            assert(u1[7int + d2.len()] == d1[d2.len() as int]);
        }
        assert(d1 =~= u1.subrange(7, 7int + d1.len()));
        assert(d2 =~= u2.subrange(7, 7int + d2.len()));
        lemma_decimal_injective(id1 as int, id2 as int);
        assert(decimal(version1 as int) =~= u1.subrange(10int + d1.len(), u1.len() as int));
        assert(decimal(version2 as int) =~= u2.subrange(10int + d2.len(), u2.len() as int));
        lemma_decimal_injective(version1 as int, version2 as int);
    }
}

/// The `Cache-Control` sent with a photo: cached for a year and never
/// revalidated, which is safe because a replaced photo has a new address;
/// `public` so that a reverse proxy may serve repeat requests itself.
pub open spec fn photo_cache_control() -> Seq<char> {
    "public, max-age=31536000, immutable"@
}

/// What the database gave for a request for a recipe's photo.
pub enum PhotoLookup {
    /// The database could not be opened.
    DatabaseUnavailable,
    /// The query failed.
    QueryFailed,
    /// No recipe has the requested id.
    NoSuchRecipe,
    /// The recipe's stored photo and its type, either of which may be absent.
    Found { photo: Option<Vec<u8>>, mime: Option<String> },
}

/// The answer to a request for a recipe's photo.
pub enum PhotoResponse {
    /// 500: the database could not be reached.
    InternalError,
    /// 404: there is no such recipe, or it has no photo.
    NotFound,
    /// 200: the image bytes, with their type and caching instructions.
    Image { content_type: String, cache_control: String, body: Vec<u8> },
}

/// Answers a request for a recipe's photo with the image itself rather than
/// JSON, so the browser can cache it, defer it and decode it off the main
/// thread. A stored photo without a type is served as `image/jpeg`.
pub fn photo_response(lookup: PhotoLookup) -> (r: PhotoResponse)
    ensures
        match lookup {
            PhotoLookup::DatabaseUnavailable => r is InternalError,
            PhotoLookup::QueryFailed | PhotoLookup::NoSuchRecipe => r is NotFound,
            PhotoLookup::Found { photo: None, mime: _ } => r is NotFound,
            PhotoLookup::Found { photo: Some(bytes), mime } => match r {
                PhotoResponse::Image { content_type, cache_control, body } => {
                    &&& content_type@ == match mime {
                        Some(m) => m@,
                        None => "image/jpeg"@,
                    }
                    &&& cache_control@ == photo_cache_control()
                    &&& body@ == bytes@
                },
                _ => false,
            },
        },
{
    match lookup {
        PhotoLookup::DatabaseUnavailable => PhotoResponse::InternalError,
        PhotoLookup::QueryFailed => PhotoResponse::NotFound,
        PhotoLookup::NoSuchRecipe => PhotoResponse::NotFound,
        PhotoLookup::Found { photo, mime } => match photo {
            None => PhotoResponse::NotFound,
            Some(body) => {
                let content_type = match mime {
                    Some(m) => m,
                    None => owned("image/jpeg"),
                };
                PhotoResponse::Image {
                    content_type,
                    cache_control: owned("public, max-age=31536000, immutable"),
                    body,
                }
            },
        },
    }
}

} // verus!
