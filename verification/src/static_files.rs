//! Which file of the web directory a request path names.

use vstd::prelude::*;
use vstd::string::StringExecFns;

verus! {

/// The file that a request path names: the index page for the empty path,
/// else the path itself.
pub open spec fn served_file(filename: Seq<char>) -> Seq<char> {
    if filename.len() == 0 {
        "index.html"@
    } else {
        filename
    }
}

/// Where the served file lies, relative to the working directory.
pub open spec fn served_path(filename: Seq<char>) -> Seq<char> {
    "./web/"@ + served_file(filename)
}

/// The media type that `mime_guess` gives the path by its extension.
pub uninterp spec fn guessed_media_type(path: Seq<char>) -> Seq<char>;

/// `mime_guess::from_path` followed by `MimeGuess::first_or_octet_stream`:
/// the first media type that the crate's table lists for the path's
/// extension, or `application/octet-stream` where it lists none, as for
/// every path without a dot. The result depends on the path alone.
#[verifier::external_body]
fn guess_media_type(path: &str) -> (media_type: String)
    ensures
        media_type@ == guessed_media_type(path@),
        !path@.contains('.') ==> media_type@ == "application/octet-stream"@,
{
    mime_guess::from_path(path).first_or_octet_stream().to_string()
}

/// The file that a request path names.
pub fn file_name(filename: &str) -> (file: &str)
    ensures
        file@ == served_file(filename@),
{
    if filename.is_empty() {
        "index.html"
    } else {
        filename
    }
}

/// The path of the file to read for a request path.
pub fn file_path(filename: &str) -> (path: String)
    ensures
        path@ == served_path(filename@),
{
    "./web/".to_owned().concat(file_name(filename))
}

/// The media type to answer a request path with.
pub fn media_type(filename: &str) -> (media_type: String)
    ensures
        media_type@ == guessed_media_type(served_file(filename@)),
        filename@.len() > 0 && !filename@.contains('.') ==> media_type@
            == "application/octet-stream"@,
{
    guess_media_type(file_name(filename))
}

} // verus!
