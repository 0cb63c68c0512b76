//! Checks on file paths named by clients.
use vstd::prelude::*;

verus! {

/// The kind of one component of a path.
#[derive(Debug, Clone, Copy, PartialEq, Eq, Structural)]
pub enum PathPart {
    /// A Windows prefix such as `C:`.
    Prefix,
    /// The root directory.
    Root,
    /// `.`
    Current,
    /// `..`
    Parent,
    /// A name.
    Normal,
}

/// The components of a path, as `std::path` splits it.
pub uninterp spec fn path_parts(p: Seq<char>) -> Seq<PathPart>;

/// Relies on `std::path::Path::components`: the components of the path in
/// order, each told apart by its variant.
#[verifier::external_body]
fn components_of(path: &str) -> (r: Vec<PathPart>)
    ensures
        r@ == path_parts(path@),
{
    std::path::Path::new(path).components().map(|c| match c {
        std::path::Component::Prefix(_) => PathPart::Prefix,
        std::path::Component::RootDir => PathPart::Root,
        std::path::Component::CurDir => PathPart::Current,
        std::path::Component::ParentDir => PathPart::Parent,
        std::path::Component::Normal(_) => PathPart::Normal,
    }).collect()
}

/// The extension of the last component of a path, if it has one.
pub uninterp spec fn path_extension(p: Seq<char>) -> Option<Seq<char>>;

/// Relies on `std::path::Path::extension`; a `&str` path is valid UTF-8, so
/// `to_str` keeps every extension.
#[verifier::external_body]
fn extension_of(path: &str) -> (r: Option<String>)
    ensures
        match r {
            Some(e) => path_extension(path@) == Some(e@),
            None => path_extension(path@) is None,
        },
{
    std::path::Path::new(path).extension().and_then(|e| e.to_str()).map(|e| e.to_string())
}

/// The last component of a path without its extension, if it has a name.
pub uninterp spec fn path_stem(p: Seq<char>) -> Option<Seq<char>>;

/// Relies on `std::path::Path::file_stem`.
#[verifier::external_body]
fn stem_of(path: &str) -> (r: Option<String>)
    ensures
        match r {
            Some(e) => path_stem(path@) == Some(e@),
            None => path_stem(path@) is None,
        },
{
    std::path::Path::new(path).file_stem().and_then(|e| e.to_str()).map(|e| e.to_string())
}

/// The last component of a path, if it is a name.
pub uninterp spec fn path_file_name(p: Seq<char>) -> Option<Seq<char>>;

/// Relies on `std::path::Path::file_name`.
#[verifier::external_body]
fn file_name_of(path: &str) -> (r: Option<String>)
    ensures
        match r {
            Some(e) => path_file_name(path@) == Some(e@),
            None => path_file_name(path@) is None,
        },
{
    std::path::Path::new(path).file_name().and_then(|e| e.to_str()).map(|e| e.to_string())
}

/// The lower case form of `s`, by Unicode's mapping.
pub uninterp spec fn lower_of(s: Seq<char>) -> Seq<char>;

/// Relies on `str::to_lowercase`: the result depends on the characters alone.
#[verifier::external_body]
fn to_lower(s: &str) -> (r: String)
    ensures
        r@ == lower_of(s@),
{
    s.to_lowercase()
}

/// Path helpers.
pub struct FileUtils;

impl FileUtils {
    /// The extension of the file, in lower case.
    pub fn get_extension(path: &str) -> (r: Option<String>)
        ensures
            match r {
                Some(e) => path_extension(path@) matches Some(x) && e@ == lower_of(x),
                None => path_extension(path@) is None,
            },
    {
        match extension_of(path) {
            Some(e) => Some(to_lower(e.as_str())),
            None => None,
        }
    }

    /// The file name without its extension.
    pub fn get_filename_without_extension(path: &str) -> (r: Option<String>)
        ensures
            match r {
                Some(e) => path_stem(path@) == Some(e@),
                None => path_stem(path@) is None,
            },
    {
        stem_of(path)
    }

    /// The file name with its extension.
    pub fn get_filename(path: &str) -> (r: Option<String>)
        ensures
            match r {
                Some(e) => path_file_name(path@) == Some(e@),
                None => path_file_name(path@) is None,
            },
    {
        file_name_of(path)
    }

    /// Whether the path has no `.` or `..` component, so that it cannot
    /// climb out of the directory it is joined to.
    pub fn is_safe_path(path: &str) -> (r: bool)
        ensures
            r == (forall|i: int|
                0 <= i < path_parts(path@).len() ==> #[trigger] path_parts(path@)[i] != PathPart::Parent
                    && path_parts(path@)[i] != PathPart::Current),
    {
        let parts = components_of(path);
        let mut i: usize = 0;
        while i < parts.len()
            invariant
                parts@ == path_parts(path@),
                i <= parts@.len(),
                forall|j: int| 0 <= j < i ==> #[trigger] parts@[j] != PathPart::Parent && parts@[j] != PathPart::Current,
            decreases parts.len() - i,
        {
            if parts[i] == PathPart::Parent || parts[i] == PathPart::Current {
                return false;
            }
            i = i + 1;
        }
        true
    }

    /// Whether the file's lower case extension is one of `allowed_extensions`.
    pub fn is_allowed_extension(path: &str, allowed_extensions: &[&str]) -> (r: bool)
        ensures
            r == (path_extension(path@) matches Some(x) && exists|k: int|
                0 <= k < allowed_extensions@.len() && #[trigger] allowed_extensions@[k]@ == lower_of(x)),
    {
        match Self::get_extension(path) {
            None => false,
            Some(ext) => {
                let mut k: usize = 0;
                while k < allowed_extensions.len()
                    invariant
                        k <= allowed_extensions@.len(),
                        path_extension(path@) is Some,
                        ext@ == lower_of(path_extension(path@).unwrap()),
                        forall|j: int| 0 <= j < k ==> #[trigger] allowed_extensions@[j]@ != ext@,
                    decreases allowed_extensions.len() - k,
                {
                    if crate::text::str_eq(allowed_extensions[k], ext.as_str()) {
                        assert(allowed_extensions@[k as int]@ == lower_of(path_extension(path@).unwrap()));
                        return true;
                    }
                    k = k + 1;
                }
                false
            },
        }
    }
}

} // verus!
