//! File paths. A path is a `std::path::PathBuf`; the contracts speak of it
//! through the names below.
use crate::text::same_text;
use vstd::prelude::*;

verus! {

/// Makes `std::path::PathBuf` known as a type whose inside is not looked
/// into.
#[verifier::external_type_specification]
#[verifier::external_body]
pub struct ExPathBuf(std::path::PathBuf);

/// The path that a text names, as `PathBuf::from` makes it.
pub uninterp spec fn path_of(text: Seq<char>) -> std::path::PathBuf;

/// The path without its last component, as `Path::parent` gives it;
/// `None` for a root and for the empty path.
pub uninterp spec fn path_parent(path: std::path::PathBuf) -> Option<std::path::PathBuf>;

/// Whether the last components of `path` are those of the path that
/// `tail` names, as `Path::ends_with` tells it.
pub uninterp spec fn path_ends_with(path: std::path::PathBuf, tail: Seq<char>) -> bool;

/// The path `path` extended by the path that `more` names, as `Path::join`
/// gives it.
pub uninterp spec fn path_join(path: std::path::PathBuf, more: Seq<char>) -> std::path::PathBuf;

/// Calls `PathBuf::from` on a text.
#[verifier::external_body]
pub(crate) fn path_from(text: &str) -> (p: std::path::PathBuf)
    ensures
        p == path_of(text@),
{
    std::path::PathBuf::from(text)
}

/// Calls `Path::parent`, and makes the parent a path of its own.
#[verifier::external_body]
pub(crate) fn parent_of(path: &std::path::PathBuf) -> (r: Option<std::path::PathBuf>)
    ensures
        r == path_parent(*path),
{
    path.parent().map(|p| p.to_path_buf())
}

/// Calls `Path::ends_with`.
#[verifier::external_body]
pub(crate) fn ends_with(path: &std::path::PathBuf, tail: &str) -> (r: bool)
    ensures
        r == path_ends_with(*path, tail@),
{
    path.ends_with(tail)
}

/// Calls `Path::join`.
#[verifier::external_body]
pub(crate) fn join(path: &std::path::PathBuf, more: &str) -> (r: std::path::PathBuf)
    ensures
        r == path_join(*path, more@),
{
    path.join(more)
}

/// The directory that holds what belongs to a collection: the directory
/// of the collection file where that is called `.netbook`, else the
/// directory `.netbook` beside the file.
pub open spec fn netbook_dir(collection_path: std::path::PathBuf) -> std::path::PathBuf {
    match path_parent(collection_path) {
        Some(parent) => if path_ends_with(parent, ".netbook"@) {
            parent
        } else {
            path_join(parent, ".netbook"@)
        },
        None => path_of(".netbook"@),
    }
}

/// The directory that holds what belongs to the collection at
/// `collection_path`.
pub fn get_netbook_dir(collection_path: &std::path::PathBuf) -> (dir: std::path::PathBuf)
    ensures
        dir == netbook_dir(*collection_path),
{
    match parent_of(collection_path) {
        Some(parent) => {
            if ends_with(&parent, ".netbook") {
                parent
            } else {
                join(&parent, ".netbook")
            }
        },
        None => path_from(".netbook"),
    }
}

/// The extension of the file that `path` names, as `Path::extension` gives
/// it and `OsStr::to_str` reads it; `None` where there is none or it is no
/// text.
pub uninterp spec fn path_extension(path: std::path::PathBuf) -> Option<Seq<char>>;

/// Calls `Path::extension` and `OsStr::to_str`.
#[verifier::external_body]
pub(crate) fn extension_of(path: &std::path::PathBuf) -> (r: Option<String>)
    ensures
        match r {
            Some(e) => path_extension(*path) == Some(e@),
            None => path_extension(*path) is None,
        },
{
    path.extension().and_then(|e| e.to_str()).map(|e| e.to_string())
}

/// The format in which a collection file is written.
#[derive(Debug, Clone, Copy, PartialEq, Eq, Structural)]
pub enum CollectionFormat {
    Json,
    Yaml,
}

/// The format of a collection file: YAML where its extension is `yaml` or
/// `yml`, else JSON.
pub open spec fn format_of(path: std::path::PathBuf) -> CollectionFormat {
    if path_extension(path) == Some("yaml"@) || path_extension(path) == Some("yml"@) {
        CollectionFormat::Yaml
    } else {
        CollectionFormat::Json
    }
}

/// The format for an extension.
pub fn format_for_extension(extension: Option<String>) -> (f: CollectionFormat)
    ensures
        f == match extension {
            Some(e) => if e@ == "yaml"@ || e@ == "yml"@ {
                CollectionFormat::Yaml
            } else {
                CollectionFormat::Json
            },
            None => CollectionFormat::Json,
        },
{
    match extension {
        Some(e) => {
            if same_text(e.as_str(), "yaml") || same_text(e.as_str(), "yml") {
                CollectionFormat::Yaml
            } else {
                CollectionFormat::Json
            }
        },
        None => CollectionFormat::Json,
    }
}

/// The format in which the collection file at `path` is written.
pub fn collection_format(path: &std::path::PathBuf) -> (f: CollectionFormat)
    ensures
        f == format_of(*path),
{
    format_for_extension(extension_of(path))
}

/// Where a collection may lie below the directory `dir`: first the file
/// `collection.json` in its directory `.netbook`, then the file
/// `netbook.json`.
pub open spec fn candidates(dir: std::path::PathBuf) -> (std::path::PathBuf, std::path::PathBuf) {
    (path_join(path_join(dir, ".netbook"@), "collection.json"@), path_join(dir, "netbook.json"@))
}

/// The two places where a collection may lie below `dir`.
pub fn collection_candidates(dir: &std::path::PathBuf) -> (c: (std::path::PathBuf, std::path::PathBuf))
    ensures
        c == candidates(*dir),
{
    let netbook = join(dir, ".netbook");
    (join(&netbook, "collection.json"), join(dir, "netbook.json"))
}

/// The collection to use, given which of the two candidates exist: the
/// first where it exists, else the second where that exists, else the
/// first, which is then to be made.
pub fn pick_collection(
    candidates: (std::path::PathBuf, std::path::PathBuf),
    first_exists: bool,
    second_exists: bool,
) -> (p: std::path::PathBuf)
    ensures
        p == if first_exists || !second_exists {
            candidates.0
        } else {
            candidates.1
        },
{
    if first_exists {
        candidates.0
    } else if second_exists {
        candidates.1
    } else {
        candidates.0
    }
}

} // verus!
