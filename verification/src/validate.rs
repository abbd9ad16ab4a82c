//! The checks on the two arguments, made before any work begins.

use crate::backend::has_root;
use crate::backend::is_relative;
use crate::backend::parse_url;
use crate::backend::parsed_url;
use crate::backend::path_has_root;
use crate::backend::path_is_relative;
use crate::error::ValidationError;
use crate::paths::file_ext;
use crate::paths::get_file_ext;
use vstd::prelude::*;

verus! {

/// What the validation reads of a URL that was parsed.
#[derive(Clone, Copy, Debug, PartialEq, Eq, Structural)]
pub struct ParsedUrl {
    /// Whether `://` follows the scheme, that is, whether the URL names an
    /// authority (which may be empty, as in `file:///tmp`).
    pub has_authority: bool,
}

/// Whether the outcome of parsing stands for an absolute URL with a scheme
/// and an authority.
pub open spec fn url_accepted(parsed: Option<ParsedUrl>) -> bool {
    parsed matches Some(url) && url.has_authority
}

/// Whether `text` is an absolute URL with a scheme and an authority.
pub open spec fn is_valid_url(text: Seq<char>) -> bool {
    url_accepted(parsed_url(text))
}

/// Judges the outcome of parsing a URL: accepted where the text parsed and
/// names an authority, `InvalidUrl` otherwise.
pub fn check_url(parsed: Option<ParsedUrl>) -> (verdict: Result<(), ValidationError>)
    ensures
        verdict is Ok <==> url_accepted(parsed),
        verdict matches Err(error) ==> error == ValidationError::InvalidUrl,
{
    match parsed {
        Some(url) => {
            if url.has_authority {
                Ok(())
            } else {
                Err(ValidationError::InvalidUrl)
            }
        },
        None => Err(ValidationError::InvalidUrl),
    }
}

/// Accepts `text` if it is an absolute URL with a scheme and an authority,
/// and fails with `InvalidUrl` otherwise.
pub fn valid_url(text: &str) -> (verdict: Result<(), ValidationError>)
    ensures
        verdict is Ok <==> is_valid_url(text@),
        verdict matches Err(error) ==> error == ValidationError::InvalidUrl,
{
    match parse_url(text) {
        Ok(url) => check_url(Some(url)),
        Err(_) => check_url(None),
    }
}

/// Whether an output path is accepted, given what is known of it: whether
/// its extension is supported, whether it is relative, whether it has a root,
/// and whether its parent is an existing directory.
pub open spec fn output_path_accepted(
    has_extension: bool,
    relative: bool,
    rooted: bool,
    parent_is_dir: bool,
) -> bool {
    has_extension && ((relative && !rooted) || parent_is_dir)
}

/// Whether `path` is accepted as the output path, `parent_is_dir` telling
/// whether it has a parent that is an existing directory.
pub open spec fn is_valid_output_path(path: Seq<char>, parent_is_dir: bool) -> bool {
    output_path_accepted(
        file_ext(path) is Some,
        path_is_relative(path),
        path_has_root(path),
        parent_is_dir,
    )
}

/// Judges an output path by what is known of it: accepted where its
/// extension is supported and either it is relative without a root or its
/// parent is an existing directory; `InvalidOutputPath` otherwise.
pub fn check_output_path(
    has_extension: bool,
    relative: bool,
    rooted: bool,
    parent_is_dir: bool,
) -> (verdict: Result<(), ValidationError>)
    ensures
        verdict is Ok <==> output_path_accepted(has_extension, relative, rooted, parent_is_dir),
        verdict matches Err(error) ==> error == ValidationError::InvalidOutputPath,
{
    if relative && has_extension && !rooted {
        return Ok(());
    }
    if parent_is_dir && has_extension {
        return Ok(());
    }
    Err(ValidationError::InvalidOutputPath)
}

/// Accepts `path` as the output path if its extension is `jpg` or `png` in
/// any mix of capitals and small letters and either it is relative without a
/// root or `parent_is_dir` holds; fails with `InvalidOutputPath` otherwise.
///
/// `parent_is_dir` is for the caller to find out: whether the path has a
/// parent and that parent is a directory that exists.
pub fn valid_output_path(path: &str, parent_is_dir: bool) -> (verdict: Result<
    (),
    ValidationError,
>)
    ensures
        verdict is Ok <==> is_valid_output_path(path@, parent_is_dir),
        verdict matches Err(error) ==> error == ValidationError::InvalidOutputPath,
{
    let ext = get_file_ext(path);
    let rooted = has_root(path);
    let relative = is_relative(path);
    check_output_path(ext.is_some(), relative, rooted, parent_is_dir)
}

/// Text that does not parse as a URL, as when it has no scheme, is turned
/// down.
pub proof fn lemma_unparsed_text_is_invalid(text: Seq<char>)
    requires
        parsed_url(text) is None,
    ensures
        !is_valid_url(text),
{
}

/// A URL that parsed but names no authority is turned down.
pub proof fn lemma_url_without_authority_is_invalid(text: Seq<char>)
    requires
        parsed_url(text) matches Some(url) && !url.has_authority,
    ensures
        !is_valid_url(text),
{
}

/// A path with a supported extension whose parent is an existing directory is
/// accepted, whether it is relative or not.
pub proof fn lemma_supported_extension_in_existing_directory_is_valid(path: Seq<char>)
    requires
        file_ext(path) is Some,
    ensures
        is_valid_output_path(path, true),
{
}

/// A path without a supported extension is turned down wherever it lies.
pub proof fn lemma_unsupported_extension_is_invalid(path: Seq<char>, parent_is_dir: bool)
    requires
        file_ext(path) is None,
    ensures
        !is_valid_output_path(path, parent_is_dir),
{
}

/// For a relative path without a root, the verdict does not depend on what
/// the file system holds.
pub proof fn lemma_relative_path_ignores_the_file_system(path: Seq<char>)
    requires
        path_is_relative(path),
        !path_has_root(path),
    ensures
        is_valid_output_path(path, true) == is_valid_output_path(path, false),
{
}

/// A rooted path whose parent is no existing directory is turned down.
pub proof fn lemma_rooted_path_needs_its_parent(path: Seq<char>)
    requires
        path_has_root(path),
    ensures
        !is_valid_output_path(path, false),
{
}

} // verus!
