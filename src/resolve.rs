use vstd::prelude::*;

use relative_path::{RelativePath, RelativePathBuf};

verus! {

/// How a shader source's inclusion directive names its target.
#[derive(Clone, Copy, Debug, PartialEq, Eq, Structural)]
pub enum IncludeKind {
    /// The quoted form: resolved against the directory of the requesting file.
    Relative,
    /// The angle-bracket form: taken as a path of its own.
    Standard,
}

/// Why the target of an inclusion could not be named.
#[derive(Clone, Copy, Debug, PartialEq, Eq, Structural)]
pub enum IncludeError {
    /// The requesting file's path has no parent directory.
    NoParent,
    /// A standard inclusion names an absolute path.
    NotRelative,
}

/// The parent directory of a relative path, as relative_path computes it.
pub uninterp spec fn parent_of(path: Seq<char>) -> Seq<char>;

/// `path` joined onto `base` with `.` and `..` resolved, as relative_path computes it.
pub uninterp spec fn joined_normalized(base: Seq<char>, path: Seq<char>) -> Seq<char>;

/// A path converted to a relative path, or `None` when it is not relative.
pub uninterp spec fn relative_from_path(path: Seq<char>) -> Option<Seq<char>>;

/// Relies on relative_path's `RelativePath::parent`: `None` exactly for the empty path, else
/// the path without its final component.
#[verifier::external_body]
fn parent_dir(path: &str) -> (r: Option<String>)
    ensures
        r is None <==> path@.len() == 0,
        r matches Some(p) ==> p@ == parent_of(path@),
{
    RelativePath::new(path).parent().map(|p| p.as_str().to_string())
}

/// Relies on relative_path's `RelativePath::join_normalized`.
#[verifier::external_body]
fn join_normalized(base: &str, path: &str) -> (r: String)
    ensures
        r@ == joined_normalized(base@, path@),
{
    RelativePath::new(base).join_normalized(path).into_string()
}

/// Relies on relative_path's `RelativePathBuf::from_path`, which refuses a path with a root
/// directory, as every path that starts with `/` has.
#[verifier::external_body]
fn relative_path_of(path: &str) -> (r: Option<String>)
    ensures
        r matches Some(p) ==> relative_from_path(path@) == Some(p@),
        r is None ==> relative_from_path(path@) is None,
        path@.len() > 0 && path@[0] == '/' ==> r is None,
{
    RelativePathBuf::from_path(path).ok().map(|p| p.into_string())
}

/// The file that an inclusion directive names, or why it names none.
pub open spec fn include_target(kind: IncludeKind, requested: Seq<char>, requesting: Seq<char>) -> Result<
    Seq<char>,
    IncludeError,
> {
    match kind {
        IncludeKind::Relative => if requesting.len() == 0 {
            Err(IncludeError::NoParent)
        } else {
            Ok(joined_normalized(parent_of(requesting), requested))
        },
        IncludeKind::Standard => match relative_from_path(requested) {
            Some(p) => Ok(p),
            None => Err(IncludeError::NotRelative),
        },
    }
}

/// Names the file read when the source file `requesting` asks for `requested`: a relative
/// request is resolved against the requesting file's directory, a standard one is taken as is.
pub fn resolve_include(kind: IncludeKind, requested: &str, requesting: &str) -> (r: Result<
    String,
    IncludeError,
>)
    ensures
        match include_target(kind, requested@, requesting@) {
            Ok(p) => r matches Ok(s) && s@ == p,
            Err(e) => r == Err::<String, IncludeError>(e),
        },
{
    match kind {
        IncludeKind::Relative => match parent_dir(requesting) {
            Some(parent) => Ok(join_normalized(parent.as_str(), requested)),
            None => Err(IncludeError::NoParent),
        },
        IncludeKind::Standard => match relative_path_of(requested) {
            Some(p) => Ok(p),
            None => Err(IncludeError::NotRelative),
        },
    }
}

} // verus!
