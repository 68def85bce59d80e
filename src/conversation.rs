//! A conversation kept as a plain message history, with the helpers used
//! when a local file is attached to it.
use vstd::prelude::*;
use vstd::string::StrSliceExecFns;

use crate::files::GeminiFile;
use crate::text::{find_first, find_last, str_eq};

verus! {

/// One piece of a message: text, or a file uploaded beforehand.
#[derive(Debug, Clone)]
pub enum Part {
    Text(String),
    File(GeminiFile),
}

/// A message of the history, with the role of its author.
#[derive(Debug, Clone)]
pub struct Message {
    pub content: Vec<Part>,
    pub role: String,
}

/// A conversation with one model, under one API key.
#[derive(Debug, Clone)]
pub struct Conversation {
    pub token: String,
    pub model: String,
    pub history: Vec<Message>,
}

/// The image file extensions that map to an `image/...` MIME type.
pub open spec fn is_image_extension(ext: Seq<char>) -> bool {
    ext == "jpeg"@ || ext == "png"@ || ext == "webp"@
}

/// The MIME type given to a file extension: `image/<ext>` for a known image
/// extension, and the placeholder `a` otherwise.
pub open spec fn mime_filetype_of(ext: Seq<char>) -> Seq<char> {
    if is_image_extension(ext) {
        "image/"@ + ext
    } else {
        "a"@
    }
}

/// What follows the last `.` of a path, if it holds one.
pub open spec fn extension_of(path: Seq<char>) -> Option<Seq<char>> {
    if exists|i: int| 0 <= i < path.len() && path[i] == '.' {
        let i = choose|i: int|
            0 <= i < path.len() && path[i] == '.' && forall|j: int|
                i < j < path.len() ==> path[j] != '.';
        Some(path.subrange(i + 1, path.len() as int))
    } else {
        None
    }
}

/// The last `/`-separated segment of a path.
pub open spec fn file_segment_of(path: Seq<char>) -> Seq<char> {
    if exists|i: int| 0 <= i < path.len() && path[i] == '/' {
        let i = choose|i: int|
            0 <= i < path.len() && path[i] == '/' && forall|j: int|
                i < j < path.len() ==> path[j] != '/';
        path.subrange(i + 1, path.len() as int)
    } else {
        path
    }
}

/// The display name of a file: its last path segment up to the first `.`,
/// if that segment holds one.
pub open spec fn display_name_of(path: Seq<char>) -> Option<Seq<char>> {
    let seg = file_segment_of(path);
    if exists|i: int| 0 <= i < seg.len() && seg[i] == '.' {
        let i = choose|i: int|
            0 <= i < seg.len() && seg[i] == '.' && forall|j: int| 0 <= j < i ==> seg[j] != '.';
        Some(seg.subrange(0, i))
    } else {
        None
    }
}

impl Conversation {
    /// A conversation with an empty history.
    pub fn new(token: String, model: String) -> (r: Conversation)
        ensures
            r.token == token,
            r.model == model,
            r.history@.len() == 0,
    {
        Conversation { token, model, history: Vec::new() }
    }

    /// The MIME type to announce for a file with the given extension.
    pub fn get_mime_filetype(input: &str) -> (r: String)
        ensures
            r@ == mime_filetype_of(input@),
    {
        if str_eq(input, "jpeg") || str_eq(input, "png") || str_eq(input, "webp") {
            let mut r = String::from_str("image/");
            r.append(input);
            r
        } else {
            String::from_str("a")
        }
    }

    /// The extension of a file path: what follows its last `.`.
    pub fn file_extension(path: &str) -> (r: Option<String>)
        ensures
            r matches Some(e) ==> extension_of(path@) == Some(e@),
            r is None ==> extension_of(path@) is None,
    {
        match find_last(path, '.') {
            Some(i) => {
                let n = path.unicode_len();
                let e = path.substring_char(i + 1, n);
                proof {
                    let k = choose|k: int|
                        0 <= k < path@.len() && path@[k] == '.' && forall|j: int|
                            k < j < path@.len() ==> path@[j] != '.';
                    assert(k == i as int);
                }
                Some(String::from_str(e))
            },
            None => None,
        }
    }

    /// The display name of a file path: its last `/`-separated segment up to
    /// the first `.`; `None` where that segment holds no `.`.
    pub fn display_name(path: &str) -> (r: Option<String>)
        ensures
            r matches Some(d) ==> display_name_of(path@) == Some(d@),
            r is None ==> display_name_of(path@) is None,
    {
        let n = path.unicode_len();
        let seg = match find_last(path, '/') {
            Some(i) => {
                proof {
                    let k = choose|k: int|
                        0 <= k < path@.len() && path@[k] == '/' && forall|j: int|
                            k < j < path@.len() ==> path@[j] != '/';
                    assert(k == i as int);
                }
                path.substring_char(i + 1, n)
            },
            None => path,
        };
        assert(seg@ == file_segment_of(path@));
        match find_first(seg, '.') {
            Some(i) => {
                proof {
                    let k = choose|k: int|
                        0 <= k < seg@.len() && seg@[k] == '.' && forall|j: int|
                            0 <= j < k ==> seg@[j] != '.';
                    assert(k == i as int);
                }
                Some(String::from_str(seg.substring_char(0, i)))
            },
            None => None,
        }
    }
}

} // verus!
