//! The screenshot of the rendered page: what the browser is pointed at.
//! Driving the browser is the caller's part, and a failure there is a
//! warning that leaves the run's outcome as it is.

use vstd::prelude::*;
use vstd::string::*;

verus! {

/// The address under which a browser opens a local file.
pub open spec fn file_url_spec(path: Seq<char>) -> Seq<char> {
    "file://"@ + path
}

/// The address under which a browser opens the file at `path`, which is
/// meant to be absolute.
pub fn file_url(path: &str) -> (url: String)
    ensures
        url@ == file_url_spec(path@),
{
    let mut url = String::from_str("file://");
    url.append(path);
    url
}

} // verus!
