//! Signature and size checks for uploaded images and files, and the
//! content-type rule for request bodies.

use vstd::prelude::*;

verus! {

/// Largest accepted image, in bytes (500 kB).
pub const MAX_IMAGE_BYTES: usize = 512000;

/// Largest accepted file attachment, in bytes (10 000 kB).
pub const MAX_FILE_BYTES: usize = 10240000;

/// Uploads shorter than this are never recognised, whatever they start with.
pub const MIN_SNIFF_BYTES: usize = 8;

pub open spec fn png_signature() -> Seq<u8> {
    seq![137u8, 80u8, 78u8, 71u8, 13u8, 10u8, 26u8, 10u8]
}

pub open spec fn jpeg_signature() -> Seq<u8> {
    seq![255u8, 216u8, 255u8]
}

pub open spec fn pdf_signature() -> Seq<u8> {
    seq![37u8, 80u8, 68u8, 70u8]
}

pub open spec fn txt_signature() -> Seq<u8> {
    seq![84u8, 69u8, 88u8, 84u8]
}

pub open spec fn docx_signature() -> Seq<u8> {
    seq![80u8, 75u8, 3u8, 4u8]
}

pub open spec fn doc_signature() -> Seq<u8> {
    seq![208u8, 207u8, 17u8, 224u8]
}

/// The label of the image format that `data` starts with, if any.
///
/// PNG is tried before JPEG, and nothing under eight bytes is recognised.
pub open spec fn image_format_of(data: Seq<u8>) -> Option<Seq<char>> {
    if data.len() < MIN_SNIFF_BYTES {
        None
    } else if png_signature().is_prefix_of(data) {
        Some("PNG"@)
    } else if jpeg_signature().is_prefix_of(data) {
        Some("JPEG"@)
    } else {
        None
    }
}

/// The label of the document format that `data` starts with, if any.
///
/// The signatures are tried in the order PDF, TXT, DOCX, DOC, and nothing
/// under eight bytes is recognised.
pub open spec fn file_format_of(data: Seq<u8>) -> Option<Seq<char>> {
    if data.len() < MIN_SNIFF_BYTES {
        None
    } else if pdf_signature().is_prefix_of(data) {
        Some("PDF"@)
    } else if txt_signature().is_prefix_of(data) {
        Some("TXT"@)
    } else if docx_signature().is_prefix_of(data) {
        Some("DOCX"@)
    } else if doc_signature().is_prefix_of(data) {
        Some("DOC"@)
    } else {
        None
    }
}

/// The length of `data` when it does not exceed `limit`.
pub open spec fn size_within(data: Seq<u8>, limit: usize) -> Option<usize> {
    if data.len() <= limit {
        Some(data.len() as usize)
    } else {
        None
    }
}

/// What a returned label reads as.
pub open spec fn label_text(label: Option<&str>) -> Option<Seq<char>> {
    match label {
        Some(text) => Some(text@),
        None => None,
    }
}

/// Whether `data` begins with the bytes of `signature`.
pub(crate) fn begins_with(data: &[u8], signature: &[u8]) -> (hit: bool)
    ensures
        hit == signature@.is_prefix_of(data@),
{
    if signature.len() > data.len() {
        return false;
    }
    let mut i: usize = 0;
    while i < signature.len()
        invariant
            i <= signature@.len() <= data@.len(),
            forall|k: int| 0 <= k < i ==> data@[k] == signature@[k],
        decreases signature@.len() - i,
    {
        if data[i] != signature[i] {
            proof {
                let lead = data@.subrange(0, signature@.len() as int);
                assert(lead[i as int] == data@[i as int]);
            }
            return false;
        }
        i += 1;
    }
    proof {
        assert(data@.subrange(0, signature@.len() as int) =~= signature@);
    }
    true
}

/// Recognises a PNG or JPEG image by its leading bytes.
pub fn check_image_format(data: &[u8]) -> (label: Option<&str>)
    ensures
        label_text(label) == image_format_of(data@),
{
    if data.len() >= MIN_SNIFF_BYTES {
        let png: [u8; 8] = [137, 80, 78, 71, 13, 10, 26, 10];
        let jpeg: [u8; 3] = [255, 216, 255];
        proof {
            assert(png@ =~= png_signature());
            assert(jpeg@ =~= jpeg_signature());
        }
        if begins_with(data, png.as_slice()) {
            return Some("PNG");
        } else if begins_with(data, jpeg.as_slice()) {
            return Some("JPEG");
        }
    }
    None
}

/// Returns the size of an image that is within the image size limit.
pub fn check_image_size(data: &[u8]) -> (size: Option<usize>)
    ensures
        size == size_within(data@, MAX_IMAGE_BYTES),
{
    let size: usize = data.len();
    if size <= MAX_IMAGE_BYTES {
        Some(size)
    } else {
        None
    }
}

/// Returns the size of an attachment that is within the file size limit.
pub fn check_file_size(data: &[u8]) -> (size: Option<usize>)
    ensures
        size == size_within(data@, MAX_FILE_BYTES),
{
    let size: usize = data.len();
    if size <= MAX_FILE_BYTES {
        Some(size)
    } else {
        None
    }
}

/// Recognises a PDF, TXT, DOCX or DOC attachment by its leading bytes.
pub fn check_file_format(data: &[u8]) -> (label: Option<&str>)
    ensures
        label_text(label) == file_format_of(data@),
{
    if data.len() >= MIN_SNIFF_BYTES {
        let pdf: [u8; 4] = [37, 80, 68, 70];
        let txt: [u8; 4] = [84, 69, 88, 84];
        let docx: [u8; 4] = [80, 75, 3, 4];
        let doc: [u8; 4] = [208, 207, 17, 224];
        proof {
            assert(pdf@ =~= pdf_signature());
            assert(txt@ =~= txt_signature());
            assert(docx@ =~= docx_signature());
            assert(doc@ =~= doc_signature());
        }
        if begins_with(data, pdf.as_slice()) {
            return Some("PDF");
        } else if begins_with(data, txt.as_slice()) {
            return Some("TXT");
        } else if begins_with(data, docx.as_slice()) {
            return Some("DOCX");
        } else if begins_with(data, doc.as_slice()) {
            return Some("DOC");
        }
    }
    None
}

/// The lower-case form of an ASCII letter; any other byte is left alone.
pub open spec fn ascii_lower(b: u8) -> u8 {
    if 65 <= b <= 90 {
        (b + 32) as u8
    } else {
        b
    }
}

/// `text` with every ASCII letter in lower case.
pub open spec fn ascii_lowered(text: Seq<u8>) -> Seq<u8> {
    Seq::new(text.len(), |i: int| ascii_lower(text[i]))
}

/// The bytes of `application/json`.
pub open spec fn json_media_type() -> Seq<u8> {
    seq![
        97u8, 112u8, 112u8, 108u8, 105u8, 99u8, 97u8, 116u8, 105u8, 111u8, 110u8, 47u8, 106u8,
        115u8, 111u8, 110u8,
    ]
}

/// A body is taken as JSON when the content-type header is present and
/// reads `application/json`, letter case aside.
pub open spec fn is_json_content_type(value: Option<Seq<u8>>) -> bool {
    match value {
        Some(text) => ascii_lowered(text) == json_media_type(),
        None => false,
    }
}

/// What a header value that may be absent holds.
pub open spec fn header_bytes(value: Option<&[u8]>) -> Option<Seq<u8>> {
    match value {
        Some(bytes) => Some(bytes@),
        None => None,
    }
}

fn to_ascii_lower(b: u8) -> (low: u8)
    ensures
        low == ascii_lower(b),
{
    if 65 <= b && b <= 90 {
        b + 32
    } else {
        b
    }
}

/// Decides from the raw content-type header whether a request body is JSON.
pub fn content_type_is_json(value: Option<&[u8]>) -> (accepted: bool)
    ensures
        accepted == is_json_content_type(header_bytes(value)),
{
    let text = match value {
        Some(text) => text,
        None => {
            return false;
        },
    };
    let want: [u8; 16] = [97, 112, 112, 108, 105, 99, 97, 116, 105, 111, 110, 47, 106, 115, 111, 110];
    proof {
        assert(want@ =~= json_media_type());
    }
    let ghost lowered = ascii_lowered(text@);
    if text.len() != 16 {
        return false;
    }
    let mut i: usize = 0;
    while i < 16
        invariant
            i <= 16,
            text@.len() == 16,
            header_bytes(value) == Some(text@),
            want@ == json_media_type(),
            lowered == ascii_lowered(text@),
            forall|k: int| 0 <= k < i ==> lowered[k] == want@[k],
        decreases 16 - i,
    {
        if to_ascii_lower(text[i]) != want[i] {
            assert(lowered[i as int] != json_media_type()[i as int]);
            return false;
        }
        i += 1;
    }
    assert(lowered =~= json_media_type());
    true
}

} // verus!
