//! The `cat` command: a random cat picture, uploaded under a fitting name.

use vstd::prelude::*;
use vstd::string::*;
use crate::text::{second_field, second_field_view, opt_str_view};

verus! {

/// Where cat pictures come from.
pub const CAT_URL: &'static str = "https://cataas.com/cat";

/// The extension named by a `Content-Type` header value: the part after the
/// first `/`, up to the next `/` (`None` without a header or without a `/`).
pub open spec fn file_extension_view(content_type: Option<Seq<char>>) -> Option<Seq<char>> {
    match content_type {
        Some(t) => second_field_view(t, '/'),
        None => None,
    }
}

/// Attempt to get the file extension from the `Content-Type` header value of a
/// response (`None` when the header is missing or not visible ASCII). Won't
/// work for every file type: `image/jpeg` gives `jpeg`.
pub fn get_file_extension(content_type: Option<&str>) -> (r: Option<&str>)
    ensures
        opt_str_view(r) == file_extension_view(opt_str_view(content_type)),
{
    match content_type {
        Some(t) => second_field(t, '/'),
        None => None,
    }
}

/// The name of the uploaded picture: `cat.<extension>`, or `cat.jpg` without one.
pub open spec fn cat_filename_view(extension: Option<Seq<char>>) -> Seq<char> {
    match extension {
        Some(e) => "cat."@ + e,
        None => "cat.jpg"@,
    }
}

/// The name under which the picture is uploaded.
pub fn cat_filename(extension: Option<&str>) -> (r: String)
    ensures
        r@ == cat_filename_view(opt_str_view(extension)),
{
    match extension {
        Some(e) => {
            let mut name = String::from_str("cat.");
            name.append(e);
            name
        },
        None => String::from_str("cat.jpg"),
    }
}

} // verus!
