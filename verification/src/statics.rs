//! Serving the bundled front end: which file answers which path, and with
//! which content type.

use crate::text::{has_prefix, same_text, skip_chars};
use vstd::prelude::*;

verus! {

/// A bundle of files held in the program itself, as the crate `include_dir`
/// has it.
#[verifier::external_type_specification]
#[verifier::external_body]
pub struct ExDir<'a>(include_dir::Dir<'a>);

/// The page that answers the root path.
pub const INDEX_FILE: &'static str = "index.html";

/// The content type of the page that answers the root path.
pub const INDEX_TYPE: &'static str = "text/html";

/// Where a request for an unknown file is sent.
pub const HOME: &'static str = "/";

/// What answers a request for a static file.
#[derive(Debug)]
pub enum StaticReply {
    /// The file, with its content type where one is known.
    Asset { content_type: Option<String>, body: Vec<u8> },
    /// A temporary redirect.
    Redirect { location: String },
    /// Nothing: the bundle has not even a root page.
    Missing,
}

/// The files of a bundle: for each path that a lookup finds a file under, the
/// file's contents.
pub uninterp spec fn bundle_files(bundle: include_dir::Dir) -> Map<Seq<char>, Seq<u8>>;

/// The media type that the extension of `path` stands for, `None` where the
/// path has no extension or none that is known.
pub uninterp spec fn guessed_media_type(path: Seq<char>) -> Option<Seq<char>>;

/// Calls `Dir::get_file` of the crate `include_dir`, which searches the bundle
/// for a file with this path, and takes the contents of the `File` it finds.
#[verifier::external_body]
fn get_file<'a>(bundle: &include_dir::Dir<'a>, path: &str) -> (contents: Option<&'a [u8]>)
    ensures
        contents.is_some() == bundle_files(*bundle).contains_key(path@),
        contents matches Some(bytes) ==> bytes@ == bundle_files(*bundle)[path@],
{
    bundle.get_file(path).map(|file| file.contents())
}

/// Calls `mime_guess::from_path` and takes the `first` media type of the
/// guess, written out as text. The guess goes by the path's extension alone;
/// the contract names it and says nothing of which type belongs to which
/// extension.
#[verifier::external_body]
fn media_type(path: &str) -> (guess: Option<String>)
    ensures
        guess.is_some() == guessed_media_type(path@).is_some(),
        guess matches Some(name) ==> guessed_media_type(path@) == Some(name@),
{
    mime_guess::from_path(path).first().map(|mime| mime.to_string())
}

/// The path under which the bundle holds the file for a request path: the
/// request path without its leading slash.
pub open spec fn asset_key(path: Seq<char>) -> Seq<char> {
    if path.len() > 0 && path[0] == '/' {
        path.skip(1)
    } else {
        path
    }
}

/// Whether `reply` serves `body` with the content type `content_type`.
pub open spec fn serves(reply: StaticReply, content_type: Option<Seq<char>>, body: Seq<u8>) -> bool {
    reply matches StaticReply::Asset { content_type: served_type, body: served } && served@ == body
        && match served_type {
        Some(name) => content_type == Some(name@),
        None => content_type is None,
    }
}

/// Whether `reply` is what a request for `path` gets from a bundle with
/// `files`.
///
/// The root path gets the root page as HTML, or nothing where the bundle has
/// no root page. Any other path gets the file of that name with the media
/// type of its extension, or a redirect to the root where there is no such
/// file.
pub open spec fn answers(reply: StaticReply, path: Seq<char>, files: Map<Seq<char>, Seq<u8>>) -> bool {
    if path == HOME@ {
        if files.contains_key(INDEX_FILE@) {
            serves(reply, Some(INDEX_TYPE@), files[INDEX_FILE@])
        } else {
            reply is Missing
        }
    } else if files.contains_key(asset_key(path)) {
        serves(reply, guessed_media_type(path), files[asset_key(path)])
    } else {
        reply matches StaticReply::Redirect { location } && location@ == HOME@
    }
}

/// Strips the leading slash of a request path.
pub fn strip_slash(path: &str) -> (key: String)
    ensures
        key@ == asset_key(path@),
{
    proof {
        reveal_strlit("/");
        if path@.len() > 0 {
            assert(path@.subrange(0, 1)[0] == path@[0]);
        }
    }
    if has_prefix(path, HOME) {
        skip_chars(path, 1)
    } else {
        path.to_owned()
    }
}

/// Answers a request for the static file at `path` from `bundle`.
pub fn index(path: &str, bundle: &include_dir::Dir) -> (reply: StaticReply)
    ensures
        answers(reply, path@, bundle_files(*bundle)),
{
    if same_text(path, HOME) {
        match get_file(bundle, INDEX_FILE) {
            Some(contents) => StaticReply::Asset {
                content_type: Some(INDEX_TYPE.to_owned()),
                body: vstd::slice::slice_to_vec(contents),
            },
            None => StaticReply::Missing,
        }
    } else {
        let key = strip_slash(path);
        match get_file(bundle, key.as_str()) {
            Some(contents) => StaticReply::Asset {
                content_type: media_type(path),
                body: vstd::slice::slice_to_vec(contents),
            },
            None => StaticReply::Redirect { location: HOME.to_owned() },
        }
    }
}

} // verus!
