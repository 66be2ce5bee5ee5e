use crate::error::{Error, ErrorKind};
use vstd::prelude::*;
use vstd::string::StrSliceExecFns;

verus! {

/// The formats an uploaded image may be stored in.
#[derive(Clone, Copy, Debug, PartialEq, Eq, Structural)]
pub enum ImageKind {
    Jpeg,
    Png,
}

/// Message of the error for an image field that carries no filename.
pub const NO_FILENAME_MESSAGE: &'static str = "could not get metadata filename.";

/// Message of the error for a filename that is not a stem, one dot and an
/// extension.
pub const BAD_SPLIT_MESSAGE: &'static str = "error in splitting filename.";

/// Message of the error for an extension that is not accepted.
pub const INVALID_EXT_MESSAGE: &'static str = "INVALID_EXT";

/// The format that an extension stands for: `jpg` and `jpeg` for JPEG, `png`
/// for PNG. Every other extension, in any other spelling, stands for none.
pub open spec fn kind_of_extension(ext: Seq<char>) -> Option<ImageKind> {
    if ext == "jpg"@ || ext == "jpeg"@ {
        Some(ImageKind::Jpeg)
    } else if ext == "png"@ {
        Some(ImageKind::Png)
    } else {
        None
    }
}

/// Whether `name` holds a dot at `at` and nowhere else.
pub open spec fn only_dot_at(name: Seq<char>, at: int) -> bool {
    &&& 0 <= at < name.len()
    &&& name[at] == '.'
    &&& forall|j: int| 0 <= j < name.len() && j != at ==> name[j] != '.'
}

/// Whether `name` holds exactly one dot, so that it splits into a stem and
/// an extension and nothing else.
pub open spec fn has_one_dot(name: Seq<char>) -> bool {
    exists|at: int| only_dot_at(name, at)
}

/// Where the only dot of `name` stands, for a name that has one.
pub open spec fn dot_position(name: Seq<char>) -> int {
    choose|at: int| only_dot_at(name, at)
}

/// What stands before the only dot of `name`.
pub open spec fn stem_of(name: Seq<char>) -> Seq<char> {
    name.subrange(0, dot_position(name))
}

/// What stands after the only dot of `name`.
pub open spec fn extension_of(name: Seq<char>) -> Seq<char> {
    name.subrange(dot_position(name) + 1, name.len() as int)
}

/// What a filename is accepted as, or the message it is rejected with. It
/// is to be there, to split at exactly one dot, and to end in an accepted
/// extension; the checks are made in this order.
pub open spec fn checked_filename(filename: Option<&str>) -> Result<
    (Seq<char>, ImageKind),
    Seq<char>,
> {
    match filename {
        None => Err(NO_FILENAME_MESSAGE@),
        Some(name) => if !has_one_dot(name@) {
            Err(BAD_SPLIT_MESSAGE@)
        } else {
            match kind_of_extension(extension_of(name@)) {
                Some(kind) => Ok((extension_of(name@), kind)),
                None => Err(INVALID_EXT_MESSAGE@),
            }
        },
    }
}

/// Whether two texts hold the same characters.
pub fn same_text(a: &str, b: &str) -> (same: bool)
    ensures
        same == (a@ == b@),
{
    let left: String = a.to_owned();
    let right: String = b.to_owned();
    left == right
}

/// The format that `ext` stands for, if it is an accepted extension.
pub fn extension_kind(ext: &str) -> (kind: Option<ImageKind>)
    ensures
        kind == kind_of_extension(ext@),
{
    if same_text(ext, "jpg") || same_text(ext, "jpeg") {
        Some(ImageKind::Jpeg)
    } else if same_text(ext, "png") {
        Some(ImageKind::Png)
    } else {
        None
    }
}

/// Where the only dot of `name` stands, or `None` if `name` holds no dot or
/// more than one.
pub fn find_only_dot(name: &str) -> (found: Option<usize>)
    ensures
        found matches Some(at) ==> only_dot_at(name@, at as int),
        found is None ==> !has_one_dot(name@),
{
    let n: usize = name.unicode_len();
    let mut found: Option<usize> = None;
    let mut i: usize = 0;
    while i < n
        invariant
            n == name@.len(),
            i <= n,
            found matches Some(at) ==> at < i && name@[at as int] == '.' && forall|j: int|
                0 <= j < i && j != at ==> name@[j] != '.',
            found is None ==> forall|j: int| 0 <= j < i ==> name@[j] != '.',
        decreases n - i,
    {
        let c: char = name.get_char(i);
        if c == '.' {
            match found {
                Some(at) => {
                    assert forall|k: int| !only_dot_at(name@, k) by {
                        if only_dot_at(name@, k) {
                            if k == at as int {
                                assert(name@[i as int] != '.');
                            } else {
                                assert(name@[at as int] != '.');
                            }
                        }
                    }
                    return None;
                },
                None => {
                    found = Some(i);
                },
            }
        }
        i = i + 1;
    }
    proof {
        if found is None {
            assert forall|k: int| !only_dot_at(name@, k) by {
                if only_dot_at(name@, k) {
                    assert(name@[k] != '.');
                }
            }
        }
    }
    found
}

/// Splits a filename at its only dot into stem and extension. A name with
/// no dot, or with more than one, does not split.
pub fn split_filename(name: &str) -> (parts: Option<(String, String)>)
    ensures
        parts is Some <==> has_one_dot(name@),
        parts matches Some((stem, ext)) ==> stem@ == stem_of(name@) && ext@ == extension_of(
            name@,
        ),
{
    match find_only_dot(name) {
        Some(at) => {
            let n: usize = name.unicode_len();
            let stem: String = name.substring_char(0, at).to_owned();
            let ext: String = name.substring_char(at + 1, n).to_owned();
            proof {
                lemma_only_dot_unique(name@);
                assert(only_dot_at(name@, at as int));
            }
            Some((stem, ext))
        },
        None => None,
    }
}

/// The extension of an uploaded file's name, checked: the name must be a
/// stem, one dot and an extension, and the extension an accepted one.
pub fn checked_extension(filename: Option<&str>) -> (checked: Result<(String, ImageKind), Error>)
    ensures
        match checked_filename(filename) {
            Ok((ext, kind)) => checked matches Ok((e, k)) && e@ == ext && k == kind,
            Err(message) => checked matches Err(e) && e.kind == ErrorKind::Validation && e.message@
                == message,
        },
{
    let name: &str = match filename {
        Some(name) => name,
        None => {
            return Err(Error::new(ErrorKind::Validation, NO_FILENAME_MESSAGE));
        },
    };
    let (_stem, ext) = match split_filename(name) {
        Some(parts) => parts,
        None => {
            return Err(Error::new(ErrorKind::Validation, BAD_SPLIT_MESSAGE));
        },
    };
    match extension_kind(ext.as_str()) {
        Some(kind) => Ok((ext, kind)),
        None => Err(Error::new(ErrorKind::Validation, INVALID_EXT_MESSAGE)),
    }
}

/// A name has at most one position that holds its only dot.
pub proof fn lemma_only_dot_unique(name: Seq<char>)
    ensures
        forall|a: int, b: int| only_dot_at(name, a) && only_dot_at(name, b) ==> a == b,
{
}

} // verus!
