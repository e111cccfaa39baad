//! Stored media: where an uploaded file lives on disk, the full-size copy
//! kept beside a resized image, and the `<width>x<height>` resolutions.

use vstd::prelude::*;
use crate::numeric::{parse_i32, parse_i32_spec, parse_u32, parse_unsigned_spec};
use crate::response::{reply, fails_with, ApiResponse};
use crate::text::{concat, pieces, replace_all, replaced, split_char, string_from, text_eq, texts};

verus! {

/// The stem of the last component of a path (`Path::file_stem`), as text;
/// empty when there is none. It depends on the path alone.
pub uninterp spec fn file_stem_text(path: Seq<char>) -> Seq<char>;

/// The extension of the last component of a path (`Path::extension`), as
/// text; empty when there is none. It depends on the path alone.
pub uninterp spec fn extension_text(path: Seq<char>) -> Seq<char>;

/// `Path::file_stem` of the path, empty when there is none. The result is
/// named by `file_stem_text`; nothing more is claimed of it.
#[verifier::external_body]
pub(crate) fn file_stem(path: &str) -> (r: String)
    ensures
        r@ == file_stem_text(path@),
{
    std::path::Path::new(path).file_stem().and_then(|s| s.to_str()).unwrap_or_default().to_string()
}

/// `Path::extension` of the path, empty when there is none. The result is
/// named by `extension_text`; nothing more is claimed of it.
#[verifier::external_body]
pub(crate) fn extension(path: &str) -> (r: String)
    ensures
        r@ == extension_text(path@),
{
    std::path::Path::new(path).extension().and_then(|s| s.to_str()).unwrap_or_default().to_string()
}

/// The file name of the full-size copy kept for an image:
/// `<stem>_original.<extension>`.
pub open spec fn original_name(path: Seq<char>) -> Seq<char> {
    file_stem_text(path) + "_original."@ + extension_text(path)
}

/// The file name of the full-size copy kept for an image.
pub fn original_image_name(path: &str) -> (r: String)
    ensures
        r@ == original_name(path@),
{
    let stem = file_stem(path);
    let ext = extension(path);
    let mut r = stem;
    r.append("_original.");
    r.append(ext.as_str());
    r
}

/// The public URL of the full-size copy of an image.
pub fn original_image_url(path: &str) -> (r: String)
    ensures
        r@ == "/images/"@ + original_name(path@),
{
    let name = original_image_name(path);
    concat("/images/", name.as_str())
}

/// Where on disk a file served under `/images` lives: every `/images` of the
/// URL becomes `./images`.
pub fn image_disk_path(url: &str) -> (r: String)
    ensures
        r@ == replaced(url@, "/images"@, "./images"@),
{
    proof {
        reveal_strlit("/images");
    }
    replace_all(url, "/images", "./images")
}

/// The name under which an image is handed to the similarity index: every
/// `/images` of the URL becomes `images`.
pub fn vector_image_path(url: &str) -> (r: String)
    ensures
        r@ == replaced(url@, "/images"@, "images"@),
{
    proof {
        reveal_strlit("/images");
    }
    replace_all(url, "/images", "images")
}

/// Where on disk a chat image lives: every `/image` of the URL becomes
/// `./image`.
pub fn message_image_disk_path(url: &str) -> (r: String)
    ensures
        r@ == replaced(url@, "/image"@, "./image"@),
{
    proof {
        reveal_strlit("/image");
    }
    replace_all(url, "/image", "./image")
}

/// The width and height a resolution `<width>x<height>` asks for: it must
/// split at `x` into exactly two pieces, each a `u32`.
pub open spec fn resolution_spec(r: Seq<char>) -> Option<(nat, nat)> {
    let p = pieces(r, 'x');
    if p.len() == 2 && parse_unsigned_spec(p[0], 0xffff_ffff) is Some && parse_unsigned_spec(
        p[1],
        0xffff_ffff,
    ) is Some {
        Some((parse_unsigned_spec(p[0], 0xffff_ffff)->0, parse_unsigned_spec(p[1], 0xffff_ffff)->0))
    } else {
        None
    }
}

/// The width and height of a resolution, when it is understood; an image
/// is resized only then.
pub fn parse_resolution(resolution: &str) -> (r: Option<(u32, u32)>)
    ensures
        match resolution_spec(resolution@) {
            None => r is None,
            Some((w, h)) => r matches Some((a, b)) && a == w && b == h,
        },
{
    let parts = split_char(resolution, 'x');
    proof {
        assert(texts(parts@).len() == parts@.len());
    }
    if parts.len() != 2 {
        return None;
    }
    proof {
        assert(texts(parts@)[0] == parts@[0]@);
        assert(texts(parts@)[1] == parts@[1]@);
    }
    let w = parse_u32(parts[0].as_str());
    let h = parse_u32(parts[1].as_str());
    match (w, h) {
        (Some(a), Some(b)) => Some((a, b)),
        _ => None,
    }
}

/// What resizing an encoded image gives: `bytes` decoded in the format that
/// `extension` names (as `image::ImageFormat::from_extension` reads it),
/// scaled to exactly `width` by `height` pixels with the triangle filter,
/// and encoded again in that format; `None` where the extension names no
/// format or decoding or encoding fails. It depends on its arguments alone.
pub uninterp spec fn resized_image(bytes: Seq<u8>, width: u32, height: u32, extension: Seq<char>) -> Option<
    Seq<u8>,
>;

/// `image::load_from_memory_with_format`, `DynamicImage::resize_exact` with
/// `FilterType::Triangle` and `DynamicImage::write_to`, in the format named
/// by the extension (`ImageFormat::from_extension`). The result is named by
/// `resized_image`; nothing more is claimed of it.
#[verifier::external_body]
pub(crate) fn resize_image_bytes(bytes: &[u8], width: u32, height: u32, extension: &str) -> (r:
    Option<Vec<u8>>)
    ensures
        match r {
            Some(v) => resized_image(bytes@, width, height, extension@) == Some(v@),
            None => resized_image(bytes@, width, height, extension@) is None,
        },
{
    let format = image::ImageFormat::from_extension(extension)?;
    let img = image::load_from_memory_with_format(bytes, format).ok()?;
    let resized = img.resize_exact(width, height, image::imageops::FilterType::Triangle);
    let mut out = std::io::Cursor::new(Vec::new());
    resized.write_to(&mut out, format).ok()?;
    Some(out.into_inner())
}

/// Resizes an image that was stored at `path` (whose extension names its
/// format) when a resolution `<width>x<height>` is asked for and understood:
/// `Ok(None)` when there is nothing to resize, the resized image when
/// resizing works, and `500 Error resizing image!` when it does not (then an
/// upload that was just stored is deleted again).
pub fn resize_upload(bytes: &[u8], resolution: Option<&str>, path: &str) -> (r: Result<
    Option<Vec<u8>>,
    ApiResponse,
>)
    ensures
        match resolution {
            None => r matches Ok(None),
            Some(res) => match resolution_spec(res@) {
                None => r matches Ok(None),
                Some((w, h)) => match resized_image(bytes@, w as u32, h as u32, extension_text(path@)) {
                    Some(v) => (r matches Ok(Some(o)) && o@ == v),
                    None => fails_with(r, 500, "Error resizing image!"@),
                },
            },
        },
{
    let res = match resolution {
        None => return Ok(None),
        Some(res) => res,
    };
    let (width, height) = match parse_resolution(res) {
        None => return Ok(None),
        Some(wh) => wh,
    };
    let ext = extension(path);
    match resize_image_bytes(bytes, width, height, ext.as_str()) {
        Some(v) => Ok(Some(v)),
        None => Err(reply(500, "Error resizing image!")),
    }
}

/// The URL under which an uploaded file is served.
pub fn uploaded_url(stored_name: &str) -> (r: String)
    ensures
        r@ == "/images/"@ + stored_name@,
{
    concat("/images/", stored_name)
}

/// Where an upload is written on disk.
pub fn upload_disk_path(stored_name: &str) -> (r: String)
    ensures
        r@ == "./images/"@ + stored_name@,
{
    concat("./images/", stored_name)
}

/// The name an upload is stored under: its random id, `_`, and the name
/// the client gave.
pub fn stored_upload_name(unique_id: &str, original_name: &str) -> (r: String)
    ensures
        r@ == unique_id@ + "_"@ + original_name@,
{
    let mut r = concat(unique_id, "_");
    r.append(original_name);
    r
}


/// An image search succeeded only where the search service answered with
/// code `200`; otherwise the request fails with `500 Something went wrong!`.
pub fn check_search_code(code: i32) -> (r: Result<(), ApiResponse>)
    ensures
        r is Ok <==> code == 200,
        code != 200 ==> fails_with(r, 500, "Something went wrong!"@),
{
    if code != 200 {
        Err(reply(500, "Something went wrong!"))
    } else {
        Ok(())
    }
}

/// Every label reads as a product id.
pub open spec fn all_ids(labels: Seq<Seq<char>>) -> bool {
    forall|i: int| 0 <= i < labels.len() ==> (#[trigger] parse_i32_spec(labels[i])) is Some
}

/// The product ids that the labels of the matches of an image search name,
/// in order; `None` where a label is not a number.
pub fn product_ids_of_labels(labels: &Vec<String>) -> (r: Option<Vec<i32>>)
    ensures
        r is Some <==> all_ids(texts(labels@)),
        r matches Some(ids) ==> ids.len() == labels.len() && forall|i: int|
            0 <= i < labels.len() ==> parse_i32_spec(#[trigger] labels@[i]@) == Some(
                ids@[i] as int,
            ),
{
    let mut ids: Vec<i32> = Vec::new();
    let mut i: usize = 0;
    while i < labels.len()
        invariant
            i <= labels.len(),
            ids.len() == i,
            forall|j: int| 0 <= j < i ==> parse_i32_spec(#[trigger] labels@[j]@) == Some(ids@[j] as int),
        decreases labels.len() - i,
    {
        match parse_i32(labels[i].as_str()) {
            Some(v) => ids.push(v),
            None => {
                assert(texts(labels@)[i as int] == labels@[i as int]@);
                return None;
            },
        }
        i = i + 1;
    }
    assert forall|j: int| 0 <= j < texts(labels@).len() implies (#[trigger] parse_i32_spec(texts(labels@)[j])) is Some by {
        assert(texts(labels@)[j] == labels@[j]@);
    }
    Some(ids)
}

/// The file to delete when the seller agreement is replaced: the old file
/// (as a disk path), unless the new contract is that same file.
pub fn replaced_contract_file(old_path: &str, new_path: &str) -> (r: Option<String>)
    ensures
        old_path@ == new_path@ ==> r is None,
        old_path@ != new_path@ ==> (r matches Some(p) && p@ == replaced(old_path@, "/images"@, "./images"@)),
{
    if text_eq(old_path, new_path) {
        None
    } else {
        Some(image_disk_path(old_path))
    }
}

} // verus!
