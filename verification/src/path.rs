//! Filesystem path queries of the standard library, on paths given as text.
//!
//! Their results follow the platform's path rules (separators, drive prefixes), so they are
//! named rather than spelled out; each name stands for one `std::path` function.
use vstd::prelude::*;

verus! {

/// `Component::Prefix`, a Windows drive or UNC prefix.
pub const COMPONENT_PREFIX: u8 = 0;

/// `Component::RootDir`.
pub const COMPONENT_ROOT_DIR: u8 = 1;

/// `Component::CurDir`, a `.` component.
pub const COMPONENT_CUR_DIR: u8 = 2;

/// `Component::ParentDir`, a `..` component.
pub const COMPONENT_PARENT_DIR: u8 = 3;

/// `Component::Normal`, a plain file or directory name.
pub const COMPONENT_NORMAL: u8 = 4;

/// What `Path::is_absolute` answers for `path`.
pub uninterp spec fn spec_path_is_absolute(path: Seq<char>) -> bool;

/// What `Path::file_name` returns for `path`, as text.
pub uninterp spec fn spec_path_file_name(path: Seq<char>) -> Option<Seq<char>>;

/// What `Path::extension` returns for `path`, as text.
pub uninterp spec fn spec_path_extension(path: Seq<char>) -> Option<Seq<char>>;

/// The kinds of the components `Path::components` yields for `path`, in order.
pub uninterp spec fn spec_path_component_kinds(path: Seq<char>) -> Seq<u8>;

/// What `Path::join` returns for `base` and `name`, as text.
pub uninterp spec fn spec_path_join(base: Seq<char>, name: Seq<char>) -> Seq<char>;

/// Calls `Path::is_absolute` on `path`.
#[verifier::external_body]
pub(crate) fn path_is_absolute(path: &str) -> (r: bool)
    ensures
        r == spec_path_is_absolute(path@),
{
    std::path::Path::new(path).is_absolute()
}

/// Calls `Path::file_name` on `path`; the name of a `str` path is always valid text.
#[verifier::external_body]
pub(crate) fn path_file_name(path: &str) -> (r: Option<String>)
    ensures
        r matches Some(name) ==> spec_path_file_name(path@) == Some(name@),
        r is None ==> spec_path_file_name(path@) is None,
{
    std::path::Path::new(path).file_name().map(|name| name.to_string_lossy().into_owned())
}

/// Calls `Path::extension` on `path`.
#[verifier::external_body]
pub(crate) fn path_extension(path: &str) -> (r: Option<String>)
    ensures
        r matches Some(extension) ==> spec_path_extension(path@) == Some(extension@),
        r is None ==> spec_path_extension(path@) is None,
{
    std::path::Path::new(path).extension().map(|extension| extension.to_string_lossy().into_owned())
}

/// Calls `Path::components` on `path` and records the kind of each component.
#[verifier::external_body]
pub(crate) fn path_component_kinds(path: &str) -> (r: Vec<u8>)
    ensures
        r@ == spec_path_component_kinds(path@),
{
    std::path::Path::new(path).components().map(|component| match component {
        std::path::Component::Prefix(_) => COMPONENT_PREFIX,
        std::path::Component::RootDir => COMPONENT_ROOT_DIR,
        std::path::Component::CurDir => COMPONENT_CUR_DIR,
        std::path::Component::ParentDir => COMPONENT_PARENT_DIR,
        std::path::Component::Normal(_) => COMPONENT_NORMAL,
    }).collect()
}

/// Calls `Path::join` on `base` with `name`.
#[verifier::external_body]
pub(crate) fn path_join(base: &str, name: &str) -> (r: String)
    ensures
        r@ == spec_path_join(base@, name@),
{
    std::path::Path::new(base).join(name).to_string_lossy().into_owned()
}

} // verus!
