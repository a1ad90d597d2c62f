//! Trusted-host file selection and fail-atomic publication: the rules that
//! decide, from what the host observed, whether a host path may be read or a
//! host file replaced. The file-system work itself is the host's.
use vstd::prelude::*;

use crate::studio_adapter::path::{path_absolute, path_is_absolute};
use crate::studio_adapter::protocol::{AdapterRejection, AdapterRejectionView};
use crate::text::{decimal, decimal_text, is_blank, join3, text_is_blank, utf8_len};

verus! {

pub const MAX_HOST_PATH_BYTES: usize = 4096;

pub const MAX_HOST_COMPARISON_BYTES: u64 = 67108864;

pub open spec fn host_rejection(code: Seq<char>, path: Seq<char>, message: Seq<char>) -> AdapterRejectionView {
    AdapterRejectionView { code, path: Some(path), message }
}

/// A rejection located at a host path.
pub fn reject_path(code: &str, path: &str, message: &str) -> (rejection: AdapterRejection)
    ensures
        rejection@ == host_rejection(code@, path@, message@),
{
    AdapterRejection::new(code, message).at_path(path)
}

/// A failed host operation, with the text the system gave for the failure.
pub fn io_rejection(operation: &str, path: &str, error: &str) -> (rejection: AdapterRejection)
    ensures
        rejection@ == host_rejection(
            "hostFile.io"@,
            path@,
            "could not "@ + operation@ + ": "@ + error@,
        ),
{
    let message = join3("could not ", operation, ": ");
    let message = message.concat(error);
    reject_path("hostFile.io", path, message.as_str())
}

/// The kinds of the components of a path, as `std::path::Path` splits it.
#[derive(Debug, Clone, Copy, PartialEq, Eq, Structural)]
pub enum PathComponentKind {
    Prefix,
    RootDir,
    CurDir,
    ParentDir,
    Normal,
}

/// The kinds of the components that `std::path::Path::components` yields
/// for the text `path`: a lexical split that depends on the text alone (and
/// on the platform the crate is built for, which fixes separators and
/// prefixes), never on the file system.
pub uninterp spec fn path_components(path: Seq<char>) -> Seq<PathComponentKind>;

/// `std::path::Path::components`, each component by its kind; the kinds are
/// named `path_components`. How a path is split depends on the platform, so
/// nothing more is stated.
#[verifier::external_body]
fn path_component_kinds(path: &str) -> (kinds: Vec<PathComponentKind>)
    ensures
        kinds@ == path_components(path@),
{
    std::path::Path::new(path).components().map(
        |component| match component {
            std::path::Component::Prefix(_) => PathComponentKind::Prefix,
            std::path::Component::RootDir => PathComponentKind::RootDir,
            std::path::Component::CurDir => PathComponentKind::CurDir,
            std::path::Component::ParentDir => PathComponentKind::ParentDir,
            std::path::Component::Normal(_) => PathComponentKind::Normal,
        },
    ).collect()
}

pub open spec fn is_dot(kind: PathComponentKind) -> bool {
    kind == PathComponentKind::CurDir || kind == PathComponentKind::ParentDir
}

pub open spec fn has_dot(kinds: Seq<PathComponentKind>) -> bool {
    exists|i: int| 0 <= i < kinds.len() && is_dot(#[trigger] kinds[i])
}

/// Whether any of the components is `.` or `..`.
pub fn has_dot_component(kinds: &Vec<PathComponentKind>) -> (dotted: bool)
    ensures
        dotted == has_dot(kinds@),
{
    let mut index: usize = 0;
    while index < kinds.len()
        invariant
            index <= kinds@.len(),
            forall|i: int| 0 <= i < index ==> !is_dot(#[trigger] kinds@[i]),
        decreases kinds@.len() - index,
    {
        let kind = kinds[index];
        if kind == PathComponentKind::CurDir || kind == PathComponentKind::ParentDir {
            return true;
        }
        index = index + 1;
    }
    false
}

pub open spec fn invalid_host_path_length() -> AdapterRejectionView {
    AdapterRejectionView {
        code: "hostFile.invalidPath"@,
        path: None,
        message: "host path must contain 1..="@ + decimal(MAX_HOST_PATH_BYTES as nat)
            + " UTF-8 bytes"@,
    }
}

pub open spec fn unnormalized_host_path(path: Seq<char>) -> AdapterRejectionView {
    host_rejection(
        "hostFile.invalidPath"@,
        path,
        "host path must be absolute and lexically normalized"@,
    )
}

/// The refusal owed to a requested host path, given whether the platform
/// takes it as absolute and whether it has `.` or `..` components.
pub open spec fn host_path_outcome(requested: Seq<char>, absolute: bool, dotted: bool) -> Option<
    AdapterRejectionView,
> {
    if is_blank(requested) || utf8_len(requested) > MAX_HOST_PATH_BYTES {
        Some(invalid_host_path_length())
    } else if !absolute || dotted {
        Some(unnormalized_host_path(requested))
    } else {
        None
    }
}

pub open spec fn path_view(result: Result<String, AdapterRejection>) -> Result<
    Seq<char>,
    AdapterRejectionView,
> {
    match result {
        Ok(path) => Ok(path@),
        Err(error) => Err(error@),
    }
}

/// Checks a requested host path, given what the platform makes of it.
pub fn checked_absolute_path_with(requested: &str, absolute: bool, dotted: bool) -> (result:
    Result<String, AdapterRejection>)
    ensures
        path_view(result) == match host_path_outcome(requested@, absolute, dotted) {
            Some(rejection) => Err(rejection),
            None => Ok(requested@),
        },
{
    if requested.len() > MAX_HOST_PATH_BYTES || text_is_blank(requested) {
        let message = join3(
            "host path must contain 1..=",
            decimal_text(MAX_HOST_PATH_BYTES as u64).as_str(),
            " UTF-8 bytes",
        );
        return Err(AdapterRejection::new("hostFile.invalidPath", message.as_str()));
    }
    if !absolute || dotted {
        return Err(
            reject_path(
                "hostFile.invalidPath",
                requested,
                "host path must be absolute and lexically normalized",
            ),
        );
    }
    Ok(String::from_str(requested))
}

/// A host path is used only when it is nonblank, within the byte bound,
/// absolute, and free of `.` and `..` components.
pub fn checked_absolute_path(requested: &str) -> (result: Result<String, AdapterRejection>)
    ensures
        path_view(result) == match host_path_outcome(
            requested@,
            path_absolute(requested@),
            has_dot(path_components(requested@)),
        ) {
            Some(rejection) => Err(rejection),
            None => Ok(requested@),
        },
{
    let absolute = path_is_absolute(requested);
    let kinds = path_component_kinds(requested);
    let dotted = has_dot_component(&kinds);
    checked_absolute_path_with(requested, absolute, dotted)
}

/// A selected host file is read only when it is a regular file within the
/// caller's byte bound.
pub fn check_host_file(path: &str, is_file: bool, length: u64, max_bytes: usize) -> (result:
    Result<(), AdapterRejection>)
    ensures
        result is Ok <==> is_file && length <= max_bytes,
        result matches Err(error) ==> error@ == if !is_file {
            host_rejection(
                "hostFile.wrongType"@,
                path@,
                "selected host path is not a regular file"@,
            )
        } else {
            host_rejection(
                "hostFile.tooLarge"@,
                path@,
                "selected file has "@ + decimal(length as nat) + " bytes; limit is "@ + decimal(
                    max_bytes as nat,
                ),
            )
        },
{
    if !is_file {
        return Err(reject_path("hostFile.wrongType", path, "selected host path is not a regular file"));
    }
    if length > max_bytes as u64 {
        let mut message = join3("selected file has ", decimal_text(length).as_str(), " bytes; limit is ");
        message.append(decimal_text(max_bytes as u64).as_str());
        return Err(reject_path("hostFile.tooLarge", path, message.as_str()));
    }
    Ok(())
}

/// The bytes actually read must still be within the bound.
pub fn check_read_length(path: &str, read: usize, max_bytes: usize) -> (result: Result<
    (),
    AdapterRejection,
>)
    ensures
        result is Ok <==> read <= max_bytes,
        result matches Err(error) ==> error@ == host_rejection(
            "hostFile.tooLarge"@,
            path@,
            "selected file exceeds the "@ + decimal(max_bytes as nat) + "-byte limit"@,
        ),
{
    if read > max_bytes {
        let message = join3(
            "selected file exceeds the ",
            decimal_text(max_bytes as u64).as_str(),
            "-byte limit",
        );
        return Err(reject_path("hostFile.tooLarge", path, message.as_str()));
    }
    Ok(())
}

/// An existing publication target is compared only when it is a regular,
/// non-symlink file within the comparison bound.
pub fn check_existing_target(path: &str, is_regular: bool, length: u64) -> (result: Result<
    (),
    AdapterRejection,
>)
    ensures
        result is Ok <==> is_regular && length <= MAX_HOST_COMPARISON_BYTES,
        result matches Err(error) ==> error@ == if !is_regular {
            host_rejection(
                "hostFile.wrongType"@,
                path@,
                "existing target must be a regular non-symlink file"@,
            )
        } else {
            host_rejection(
                "hostFile.tooLarge"@,
                path@,
                "existing target has "@ + decimal(length as nat) + " bytes; comparison limit is "@
                    + decimal(MAX_HOST_COMPARISON_BYTES as nat),
            )
        },
{
    if !is_regular {
        return Err(
            reject_path(
                "hostFile.wrongType",
                path,
                "existing target must be a regular non-symlink file",
            ),
        );
    }
    if length > MAX_HOST_COMPARISON_BYTES {
        let mut message = join3(
            "existing target has ",
            decimal_text(length).as_str(),
            " bytes; comparison limit is ",
        );
        message.append(decimal_text(MAX_HOST_COMPARISON_BYTES).as_str());
        return Err(reject_path("hostFile.tooLarge", path, message.as_str()));
    }
    Ok(())
}

/// The refusal owed to publishing over a target, from the hash of the file
/// found there (if any) and the hash the caller expects (if any): an existing
/// file is replaced only when the caller names its current hash, and a hash
/// may be named only for an existing file.
pub open spec fn target_outcome(
    path: Seq<char>,
    actual: Option<Seq<char>>,
    expected: Option<Seq<char>>,
) -> Option<AdapterRejectionView> {
    match (actual, expected) {
        (Some(actual), Some(expected)) => if actual == expected {
            None
        } else {
            Some(
                host_rejection(
                    "hostFile.staleTarget"@,
                    path,
                    "expected target hash "@ + expected + ", found "@ + actual,
                ),
            )
        },
        (Some(_), None) => Some(
            host_rejection(
                "hostFile.expectedHashRequired"@,
                path,
                "replacing an existing file requires expectedTargetSha256"@,
            ),
        ),
        (None, Some(_)) => Some(
            host_rejection(
                "hostFile.targetMissing"@,
                path,
                "an expected target hash was supplied for a missing file"@,
            ),
        ),
        (None, None) => None,
    }
}

pub open spec fn optional_str(text: Option<&str>) -> Option<Seq<char>> {
    match text {
        Some(text) => Some(text@),
        None => None,
    }
}

pub fn check_target(path: &str, actual: Option<&str>, expected: Option<&str>) -> (result: Result<
    (),
    AdapterRejection,
>)
    ensures
        match target_outcome(path@, optional_str(actual), optional_str(expected)) {
            None => result is Ok,
            Some(rejection) => result matches Err(error) && error@ == rejection,
        },
{
    match (actual, expected) {
        (Some(actual), Some(expected)) => {
            if crate::stored_project::text_equal(actual, expected) {
                Ok(())
            } else {
                let mut message = join3("expected target hash ", expected, ", found ");
                message.append(actual);
                Err(reject_path("hostFile.staleTarget", path, message.as_str()))
            }
        },
        (Some(_), None) => Err(
            reject_path(
                "hostFile.expectedHashRequired",
                path,
                "replacing an existing file requires expectedTargetSha256",
            ),
        ),
        (None, Some(_)) => Err(
            reject_path(
                "hostFile.targetMissing",
                path,
                "an expected target hash was supplied for a missing file",
            ),
        ),
        (None, None) => Ok(()),
    }
}

/// The target must not have changed while the replacement was staged: the
/// hash found before staging and the one found after must agree, including
/// on whether there is a file at all.
pub fn check_target_unchanged(path: &str, prior: Option<&str>, current: Option<&str>) -> (result:
    Result<(), AdapterRejection>)
    ensures
        result is Ok <==> optional_str(prior) == optional_str(current),
        result matches Err(error) ==> error@ == host_rejection(
            "hostFile.staleTarget"@,
            path@,
            "target changed while the replacement was being staged"@,
        ),
{
    let same = match (prior, current) {
        (Some(prior), Some(current)) => crate::stored_project::text_equal(prior, current),
        (None, None) => true,
        _ => false,
    };
    if !same {
        return Err(
            reject_path(
                "hostFile.staleTarget",
                path,
                "target changed while the replacement was being staged",
            ),
        );
    }
    Ok(())
}

} // verus!
