//! What the library decides about one picture to download: where to fetch
//! it from and the name of the file it goes to.

use vstd::prelude::*;
use vstd::utf8::{decode_utf8, encode_utf8, encode_utf8_decode_utf8, is_char_boundary};
use crate::clock::clock_millis_since_epoch;
use crate::decimal::{decimal, push_decimal};
use crate::links::ShortImgInfo;
use crate::site::{download_url, page_link_spec, LinkError, DOWNLOAD_BUTTON_SELECTOR};
use crate::text::push_char;

verus! {

/// A picture ready for download: title and page as collected, the address
/// of the image, and when that address was read (milliseconds since the
/// epoch).
pub struct ImgInfo {
    pub title: String,
    pub page_url: String,
    pub download_url: String,
    pub download_date_millis: i64,
}

/// Reads the download address of the collected picture `page` from the HTML
/// of its page, stamping it with the clock reading `now_millis`.
pub fn describe_download_at(page: &ShortImgInfo, html: &str, now_millis: i64) -> (r: Result<ImgInfo, LinkError>)
    ensures
        match page_link_spec(html@, DOWNLOAD_BUTTON_SELECTOR@) {
            Err(e) => r == Err::<ImgInfo, LinkError>(e),
            Ok(u) => r matches Ok(info) && info.title@ == page.title@ && info.page_url@
                == page.page_url@ && info.download_url@ == u && info.download_date_millis == now_millis,
        },
{
    match download_url(html) {
        Err(e) => Err(e),
        Ok(u) => Ok(ImgInfo {
            title: page.title.clone(),
            page_url: page.page_url.clone(),
            download_url: u,
            download_date_millis: now_millis,
        }),
    }
}

/// Why a collected picture could not be described for download.
#[derive(PartialEq, Eq, Structural, Debug, Clone, Copy)]
pub enum DescribeError {
    /// No download address could be read from the picture page.
    Link(LinkError),
    /// The clock could not be read as an instant at or after the epoch.
    ClockUnreadable,
}

/// Reads the download address of the collected picture `page` from the HTML
/// of its page and, once it is found, stamps it with the current time.
pub fn describe_download(page: &ShortImgInfo, html: &str) -> (r: Result<ImgInfo, DescribeError>)
    ensures
        match page_link_spec(html@, DOWNLOAD_BUTTON_SELECTOR@) {
            Err(e) => r == Err::<ImgInfo, DescribeError>(DescribeError::Link(e)),
            Ok(u) => match r {
                Ok(info) => info.title@ == page.title@ && info.page_url@ == page.page_url@
                    && info.download_url@ == u && info.download_date_millis >= 0,
                Err(e) => e == DescribeError::ClockUnreadable,
            },
        },
{
    if let Err(e) = download_url(html) {
        return Err(DescribeError::Link(e));
    }
    match clock_millis_since_epoch() {
        None => Err(DescribeError::ClockUnreadable),
        Some(now) => match describe_download_at(page, html, now) {
            Ok(info) => Ok(info),
            Err(e) => Err(DescribeError::Link(e)),
        },
    }
}

/// Whether the last three bytes of `url`'s UTF-8 encoding are whole
/// characters, so that they can be cut off as the file extension.
pub open spec fn has_extension_spec(url: Seq<char>) -> bool {
    let b = encode_utf8(url);
    b.len() >= 3 && is_char_boundary(b, b.len() - 3)
}

/// The characters of the last three bytes of `url`: the file extension.
pub open spec fn extension_spec(url: Seq<char>) -> Seq<char> {
    let b = encode_utf8(url);
    decode_utf8(b.subrange(b.len() - 3, b.len() as int))
}

/// Whether the file extension of `url` can be cut off.
pub fn has_extension(url: &str) -> (r: bool)
    ensures
        r == has_extension_spec(url@),
{
    let n: usize = url.as_bytes().len();
    n >= 3 && url.is_char_boundary(n - 3)
}

/// The last three bytes of `url`.
fn extension(url: &str) -> (r: &str)
    requires
        has_extension_spec(url@),
    ensures
        r@ == extension_spec(url@),
{
    let n: usize = url.as_bytes().len();
    let (_, ext) = url.split_at(n - 3);
    proof {
        encode_utf8_decode_utf8(ext@);
    }
    ext
}

/// The name of the file that the image at `download_url` is saved to:
/// the title, a dot, and the last three bytes of the address.
pub open spec fn image_file_name_spec(title: Seq<char>, download_url: Seq<char>) -> Seq<char> {
    title.push('.') + extension_spec(download_url)
}

/// The file name for the picture `title` downloaded from `download_url`.
pub fn image_file_name(title: &str, download_url: &str) -> (r: String)
    requires
        has_extension_spec(download_url@),
    ensures
        r@ == image_file_name_spec(title@, download_url@),
{
    let mut s = String::from_str(title);
    push_char(&mut s, '.');
    s.append(extension(download_url));
    s
}

/// The file name for picture number `index` with heading `header`: the
/// heading, an underscore, the number, a dot and the extension.
pub open spec fn indexed_image_file_name_spec(header: Seq<char>, index: nat, download_url: Seq<char>) -> Seq<char> {
    (header.push('_') + decimal(index)).push('.') + extension_spec(download_url)
}

/// The file name for picture number `index` with heading `header`.
pub fn indexed_image_file_name(header: &str, index: usize, download_url: &str) -> (r: String)
    requires
        has_extension_spec(download_url@),
    ensures
        r@ == indexed_image_file_name_spec(header@, index as nat, download_url@),
{
    let mut s = String::from_str(header);
    push_char(&mut s, '_');
    push_decimal(&mut s, index as u64);
    push_char(&mut s, '.');
    s.append(extension(download_url));
    s
}

/// The report of a finished download.
pub fn downloaded_message(title: &str) -> (r: String)
    ensures
        r@ == title@ + " downloaded"@,
{
    let mut s = String::from_str(title);
    s.append(" downloaded");
    s
}

} // verus!
