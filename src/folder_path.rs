use vstd::prelude::*;
use crate::error::AppError;
use vstd::string::*;
use crate::text::{chars_of, contains_char, contains_pair, has_char, has_pair};

verus! {

/// A path that tries to leave its root: `..`, a leading separator, a doubled
/// separator or a NUL byte.
pub open spec fn escapes_root(p: Seq<char>) -> bool {
    ||| has_pair(p, '.', '.')
    ||| (p.len() > 0 && (p[0] == '/' || p[0] == '\\'))
    ||| has_pair(p, '/', '/')
    ||| has_pair(p, '\\', '\\')
    ||| has_char(p, '\0')
}

/// The characters a folder path may hold: ASCII letters and digits, `_`, `.`, `/`, `-`.
pub open spec fn path_char_ok(c: char) -> bool {
    ('a' <= c && c <= 'z') || ('A' <= c && c <= 'Z') || ('0' <= c && c <= '9') || c == '_'
        || c == '.' || c == '/' || c == '-'
}

pub open spec fn all_path_chars_ok(p: Seq<char>) -> bool {
    forall|i: int| 0 <= i < p.len() ==> path_char_ok(#[trigger] p[i])
}

/// Some segment of the path begins with a dot.
pub open spec fn has_hidden_segment(p: Seq<char>) -> bool {
    (p.len() > 0 && p[0] == '.') || has_pair(p, '/', '.')
}

/// An acceptable folder path.
pub open spec fn valid_folder_path(p: Seq<char>) -> bool {
    !escapes_root(p) && all_path_chars_ok(p) && !has_hidden_segment(p)
}

/// The message that names the first rule an invalid path breaks.
pub open spec fn path_rejection(p: Seq<char>) -> Seq<char> {
    if escapes_root(p) {
        "Invalid folder path: path traversal not allowed"@
    } else if !all_path_chars_ok(p) {
        "Invalid folder path: contains invalid characters"@
    } else {
        "Invalid folder path: hidden folders not allowed"@
    }
}

pub fn is_path_char(c: char) -> (r: bool)
    ensures
        r == path_char_ok(c),
{
    ('a' <= c && c <= 'z') || ('A' <= c && c <= 'Z') || ('0' <= c && c <= '9') || c == '_'
        || c == '.' || c == '/' || c == '-'
}

/// Checks a folder path before any storage or database work. It rejects, and
/// never repairs: a path that escapes its root, then one with a character
/// outside the allowed set, then one with a hidden segment, each with its own
/// `BadRequest` message.
pub fn validate_folder_path(path: &str) -> (r: Result<(), AppError>)
    ensures
        valid_folder_path(path@) ==> r is Ok,
        !valid_folder_path(path@) ==> (r matches Err(AppError::BadRequest(m)) && m@
            == path_rejection(path@)),
{
    let p = chars_of(path);
    if contains_pair(&p, '.', '.') || (p.len() > 0 && (p[0] == '/' || p[0] == '\\'))
        || contains_pair(&p, '/', '/') || contains_pair(&p, '\\', '\\') || contains_char(&p, '\0')
    {
        return Err(AppError::BadRequest(
            String::from_str("Invalid folder path: path traversal not allowed"),
        ));
    }
    let mut i: usize = 0;
    while i < p.len()
        invariant
            p@ == path@,
            !escapes_root(path@),
            i <= p@.len(),
            forall|j: int| 0 <= j < i ==> path_char_ok(#[trigger] p@[j]),
        decreases p@.len() - i,
    {
        if !is_path_char(p[i]) {
            assert(!all_path_chars_ok(path@));
            return Err(AppError::BadRequest(
                String::from_str("Invalid folder path: contains invalid characters"),
            ));
        }
        i = i + 1;
    }
    if (p.len() > 0 && p[0] == '.') || contains_pair(&p, '/', '.') {
        return Err(AppError::BadRequest(
            String::from_str("Invalid folder path: hidden folders not allowed"),
        ));
    }
    Ok(())
}

/// Longest folder path a client may create, in characters.
pub const MAX_FOLDER_PATH_CHARS: usize = 500;

/// Longest project name, in characters.
pub const MAX_PROJECT_NAME_CHARS: usize = 255;

/// Checks the path of a folder to be created: one to five hundred characters
/// (`ValidationError`), then the rules of `validate_folder_path`.
pub fn validate_new_folder_path(path: &str) -> (r: Result<(), AppError>)
    ensures
        (path@.len() == 0 || path@.len() > MAX_FOLDER_PATH_CHARS) ==> (r matches Err(
            AppError::ValidationError(_),
        )),
        1 <= path@.len() <= MAX_FOLDER_PATH_CHARS && valid_folder_path(path@) ==> r is Ok,
        1 <= path@.len() <= MAX_FOLDER_PATH_CHARS && !valid_folder_path(path@) ==> (r matches Err(
            AppError::BadRequest(m),
        ) && m@ == path_rejection(path@)),
{
    let n = path.unicode_len();
    if n == 0 || n > MAX_FOLDER_PATH_CHARS {
        return Err(
            AppError::ValidationError(
                String::from_str("Folder path must be between 1 and 500 characters"),
            ),
        );
    }
    validate_folder_path(path)
}

/// Checks a project name: one to two hundred fifty-five characters.
pub fn validate_project_name(name: &str) -> (r: Result<(), AppError>)
    ensures
        r is Ok <==> 1 <= name@.len() <= MAX_PROJECT_NAME_CHARS,
        r is Err ==> (r matches Err(AppError::ValidationError(_))),
{
    let n = name.unicode_len();
    if n == 0 || n > MAX_PROJECT_NAME_CHARS {
        return Err(
            AppError::ValidationError(
                String::from_str("Project name must be between 1 and 255 characters"),
            ),
        );
    }
    Ok(())
}

} // verus!
