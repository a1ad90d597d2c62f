//! The project location the adapter works in, and the rules that keep every
//! project path inside the selected root. The file-system inspection itself
//! (metadata, symbolic links, canonical paths) is done by the host; the
//! decisions taken on what it observed are made here.
use vstd::prelude::*;

use crate::text::{decimal, decimal_text, join2, join3, utf8_len};

verus! {

pub const MAX_ROOT_PATH_BYTES: usize = 4096;

pub const MAX_PROJECT_PATH_BYTES: usize = 1024;

/// Why a project path was refused.
#[derive(Debug, Clone, PartialEq, Eq)]
pub enum PathSafetyError {
    RootTooLong,
    ProjectPathTooLong,
    RootNotAbsolute,
    UnsafeProjectPath,
    ProjectEscapesRoot,
    FileTooLarge { path: String, limit: u64, actual: u64 },
    Symlink { path: String },
    WrongFileType { label: &'static str, path: String },
    TargetExists { path: String },
    /// An operating-system failure, with the text the system gave for it.
    Io { operation: &'static str, path: String, message: String },
}

/// The text of a path refusal, as it is shown to people.
pub open spec fn path_safety_message(error: PathSafetyError) -> Seq<char> {
    match error {
        PathSafetyError::RootTooLong => "project root exceeds the path bound"@,
        PathSafetyError::ProjectPathTooLong => "project file path exceeds the path bound"@,
        PathSafetyError::RootNotAbsolute => "project root must be absolute"@,
        PathSafetyError::UnsafeProjectPath => "project file must be a safe project-relative path"@,
        PathSafetyError::ProjectEscapesRoot => "project file resolves outside the selected root"@,
        PathSafetyError::FileTooLarge { path, limit, actual } => "project-relative file "@ + path@
            + " has "@ + decimal(actual as nat) + " bytes; limit is "@ + decimal(limit as nat),
        PathSafetyError::Symlink { path } =>
            "symbolic links are not accepted in the writable project path: "@ + path@,
        PathSafetyError::WrongFileType { label, path } => label@ + " has the wrong file type: "@
            + path@,
        PathSafetyError::TargetExists { path } => "new project target already exists: "@ + path@,
        PathSafetyError::Io { operation, path, message } => "could not "@ + operation@ + " at "@
            + path@ + ": "@ + message@,
    }
}

impl PathSafetyError {
    /// The text of this refusal.
    pub fn message(&self) -> (text: String)
        ensures
            text@ == path_safety_message(*self),
    {
        match self {
            PathSafetyError::RootTooLong => String::from_str("project root exceeds the path bound"),
            PathSafetyError::ProjectPathTooLong => String::from_str(
                "project file path exceeds the path bound",
            ),
            PathSafetyError::RootNotAbsolute => String::from_str("project root must be absolute"),
            PathSafetyError::UnsafeProjectPath => String::from_str(
                "project file must be a safe project-relative path",
            ),
            PathSafetyError::ProjectEscapesRoot => String::from_str(
                "project file resolves outside the selected root",
            ),
            PathSafetyError::FileTooLarge { path, limit, actual } => {
                let mut text = join3("project-relative file ", path.as_str(), " has ");
                let actual_text = decimal_text(*actual);
                let limit_text = decimal_text(*limit);
                text.append(actual_text.as_str());
                text.append(" bytes; limit is ");
                text.append(limit_text.as_str());
                text
            },
            PathSafetyError::Symlink { path } => join2(
                "symbolic links are not accepted in the writable project path: ",
                path.as_str(),
            ),
            PathSafetyError::WrongFileType { label, path } => join3(
                label,
                " has the wrong file type: ",
                path.as_str(),
            ),
            PathSafetyError::TargetExists { path } => join2(
                "new project target already exists: ",
                path.as_str(),
            ),
            PathSafetyError::Io { operation, path, message } => {
                let mut text = join3("could not ", operation, " at ");
                text.append(path.as_str());
                text.append(": ");
                text.append(message.as_str());
                text
            },
        }
    }
}

/// What `std::path::Path::is_absolute` answers for the text `path`: a
/// lexical test of its leading components that depends on the text alone
/// (and on the platform the crate is built for: a leading `/` on Unix, a
/// drive or share prefix on Windows), never on the file system.
pub uninterp spec fn path_absolute(path: Seq<char>) -> bool;

/// Whether `path` is absolute on this platform, as `std::path::Path::is_absolute`
/// decides it; the answer is named `path_absolute`. What counts as absolute
/// differs between platforms, so nothing more is stated.
#[verifier::external_body]
pub(crate) fn path_is_absolute(path: &str) -> (absolute: bool)
    ensures
        absolute == path_absolute(path@),
{
    std::path::Path::new(path).is_absolute()
}

/// What `std::path::Path::starts_with` answers for the texts `path` and
/// `base`: a lexical comparison of whole components that depends on the two
/// texts alone (and on the platform the crate is built for, which fixes the
/// separators), never on the file system.
pub uninterp spec fn path_has_prefix(path: Seq<char>, base: Seq<char>) -> bool;

/// Whether `base` is a leading run of whole components of `path`, as
/// `std::path::Path::starts_with` decides it. Its answer is named
/// `path_has_prefix`; its documentation shows that a path starts with
/// itself. How components are split depends on the platform, and nothing
/// more is stated.
#[verifier::external_body]
fn path_starts_with(path: &str, base: &str) -> (starts: bool)
    ensures
        starts == path_has_prefix(path@, base@),
        path@ == base@ ==> starts,
{
    std::path::Path::new(path).starts_with(base)
}

/// What `==` on `std::path::Path` answers for the texts `left` and `right`:
/// a component-by-component comparison that depends on the two texts alone
/// (and on the platform the crate is built for), never on the file system.
pub uninterp spec fn path_equal(left: Seq<char>, right: Seq<char>) -> bool;

/// Whether two texts name the same path component by component, as `==` on
/// `std::path::Path` decides it; the answer is named `path_equal`. Equal
/// texts name the same path; texts that differ only in redundant separators
/// may too, depending on the platform.
#[verifier::external_body]
fn same_path(left: &str, right: &str) -> (same: bool)
    ensures
        same == path_equal(left@, right@),
        left@ == right@ ==> same,
{
    std::path::Path::new(left) == std::path::Path::new(right)
}

/// The refusal owed to a project request before anything is looked up on
/// disk, given whether the root is absolute: the root bound, then the
/// project-path bound, then absoluteness.
pub open spec fn request_outcome(
    root: Seq<char>,
    relative_project_file: Seq<char>,
    root_is_absolute: bool,
) -> Result<(), PathSafetyError> {
    if utf8_len(root) > MAX_ROOT_PATH_BYTES {
        Err(PathSafetyError::RootTooLong)
    } else if utf8_len(relative_project_file) > MAX_PROJECT_PATH_BYTES {
        Err(PathSafetyError::ProjectPathTooLong)
    } else if !root_is_absolute {
        Err(PathSafetyError::RootNotAbsolute)
    } else {
        Ok(())
    }
}

/// The request checks, given whether the root is absolute.
pub fn check_request_with(
    root: &str,
    relative_project_file: &str,
    root_is_absolute: bool,
) -> (result: Result<(), PathSafetyError>)
    ensures
        result == request_outcome(root@, relative_project_file@, root_is_absolute),
{
    if root.len() > MAX_ROOT_PATH_BYTES {
        return Err(PathSafetyError::RootTooLong);
    }
    if relative_project_file.len() > MAX_PROJECT_PATH_BYTES {
        return Err(PathSafetyError::ProjectPathTooLong);
    }
    if !root_is_absolute {
        return Err(PathSafetyError::RootNotAbsolute);
    }
    Ok(())
}

/// The request checks that come before any file-system inspection: both
/// byte bounds, then that the root is absolute on this platform.
pub fn check_request(root: &str, relative_project_file: &str) -> (result: Result<
    (),
    PathSafetyError,
>)
    ensures
        result == request_outcome(root@, relative_project_file@, path_absolute(root@)),
{
    let root_is_absolute = path_is_absolute(root);
    check_request_with(root, relative_project_file, root_is_absolute)
}

/// A selected project: the canonical root, the project file's path relative
/// to it as the user gave it, and the project file's full path.
#[derive(Debug, Clone)]
pub struct ProjectLocation {
    root: String,
    relative_project_file: String,
    project_file: String,
}

pub struct ProjectLocationView {
    pub root: Seq<char>,
    pub relative_project_file: Seq<char>,
    pub project_file: Seq<char>,
}

impl View for ProjectLocation {
    type V = ProjectLocationView;

    closed spec fn view(&self) -> ProjectLocationView {
        ProjectLocationView {
            root: self.root@,
            relative_project_file: self.relative_project_file@,
            project_file: self.project_file@,
        }
    }
}

/// The outcome of admitting a resolved existing project, given whether its
/// canonical file lies within the canonical root.
pub open spec fn admission_outcome(
    root: Seq<char>,
    relative_project_file: Seq<char>,
    project_file: Seq<char>,
    within_root: bool,
) -> Result<ProjectLocationView, PathSafetyError> {
    if within_root {
        Ok(ProjectLocationView { root, relative_project_file, project_file })
    } else {
        Err(PathSafetyError::ProjectEscapesRoot)
    }
}

pub open spec fn location_view(result: Result<ProjectLocation, PathSafetyError>) -> Result<
    ProjectLocationView,
    PathSafetyError,
> {
    match result {
        Ok(location) => Ok(location@),
        Err(error) => Err(error),
    }
}

/// The refusal owed when revalidating a project location, given whether the
/// project file still canonicalizes to itself and still lies within the root.
pub open spec fn revalidation_outcome(unchanged: bool, within_root: bool) -> Result<
    (),
    PathSafetyError,
> {
    if !unchanged || !within_root {
        Err(PathSafetyError::ProjectEscapesRoot)
    } else {
        Ok(())
    }
}

impl ProjectLocation {
    /// Admits a resolved existing project, given whether its canonical file
    /// lies within the canonical root.
    pub fn accept_resolved_with(
        root: String,
        relative_project_file: &str,
        project_file: String,
        within_root: bool,
    ) -> (result: Result<Self, PathSafetyError>)
        ensures
            location_view(result) == admission_outcome(
                root@,
                relative_project_file@,
                project_file@,
                within_root,
            ),
    {
        if !within_root {
            return Err(PathSafetyError::ProjectEscapesRoot);
        }
        Ok(
            ProjectLocation {
                root,
                relative_project_file: String::from_str(relative_project_file),
                project_file,
            },
        )
    }

    /// Admits a resolved existing project: its canonical file must lie within
    /// the canonical root, component by component.
    pub fn accept_resolved(root: String, relative_project_file: &str, project_file: String) -> (result:
        Result<Self, PathSafetyError>)
        ensures
            location_view(result) == admission_outcome(
                root@,
                relative_project_file@,
                project_file@,
                path_has_prefix(project_file@, root@),
            ),
            project_file@ == root@ ==> result is Ok,
    {
        let within_root = path_starts_with(project_file.as_str(), root.as_str());
        Self::accept_resolved_with(root, relative_project_file, project_file, within_root)
    }

    /// A location for a project file that does not exist yet; its parent
    /// chain was checked by the host.
    pub fn for_new_project(root: String, relative_project_file: &str, project_file: String) -> (
        location: Self)
        ensures
            location@ == (ProjectLocationView {
                root: root@,
                relative_project_file: relative_project_file@,
                project_file: project_file@,
            }),
    {
        ProjectLocation {
            root,
            relative_project_file: String::from_str(relative_project_file),
            project_file,
        }
    }

    pub fn root(&self) -> (root: &str)
        ensures
            root@ == self@.root,
    {
        self.root.as_str()
    }

    pub fn relative_project_file(&self) -> (relative_project_file: &str)
        ensures
            relative_project_file@ == self@.relative_project_file,
    {
        self.relative_project_file.as_str()
    }

    pub fn project_file(&self) -> (project_file: &str)
        ensures
            project_file@ == self@.project_file,
    {
        self.project_file.as_str()
    }

    /// Revalidates this location against the current canonical path of its
    /// project file, given whether that path is unchanged and within the
    /// root.
    pub fn revalidate_with(&self, unchanged: bool, within_root: bool) -> (result: Result<
        (),
        PathSafetyError,
    >)
        ensures
            result == revalidation_outcome(unchanged, within_root),
    {
        if !unchanged || !within_root {
            return Err(PathSafetyError::ProjectEscapesRoot);
        }
        Ok(())
    }

    /// Revalidates this location: the project file must still canonicalize
    /// to the recorded path, and that path must still lie within the root.
    pub fn revalidate(&self, canonical_project_file: &str) -> (result: Result<
        (),
        PathSafetyError,
    >)
        ensures
            result == revalidation_outcome(
                path_equal(canonical_project_file@, self@.project_file),
                path_has_prefix(canonical_project_file@, self@.root),
            ),
            canonical_project_file@ == self@.project_file && path_has_prefix(
                self@.project_file,
                self@.root,
            ) ==> result is Ok,
    {
        let unchanged = same_path(canonical_project_file, self.project_file.as_str());
        let within_root = path_starts_with(canonical_project_file, self.root.as_str());
        self.revalidate_with(unchanged, within_root)
    }

    /// A project-relative file is read only when its path is within the
    /// project-path bound and is a safe relative path.
    pub fn check_relative_file(relative_file: &str, is_safe_relative: bool) -> (result: Result<
        (),
        PathSafetyError,
    >)
        ensures
            result is Ok <==> (utf8_len(relative_file@) <= MAX_PROJECT_PATH_BYTES
                && is_safe_relative),
            result is Err ==> result == Err::<(), PathSafetyError>(
                PathSafetyError::UnsafeProjectPath,
            ),
    {
        if relative_file.len() > MAX_PROJECT_PATH_BYTES || !is_safe_relative {
            return Err(PathSafetyError::UnsafeProjectPath);
        }
        Ok(())
    }

    /// A project-relative file is read only when its length is within the
    /// caller's bound.
    pub fn check_file_size(path: String, limit: u64, actual: u64) -> (result: Result<
        (),
        PathSafetyError,
    >)
        ensures
            result is Ok <==> actual <= limit,
            result is Err ==> result == Err::<(), PathSafetyError>(
                PathSafetyError::FileTooLarge { path, limit, actual },
            ),
    {
        if actual > limit {
            return Err(PathSafetyError::FileTooLarge { path, limit, actual });
        }
        Ok(())
    }
}


/// What a look at a path without following links found.
#[derive(Debug, Clone, Copy, PartialEq, Eq, Structural)]
pub enum EntryKind {
    Symlink,
    Directory,
    File,
    Other,
}

/// One component of the project file's path below the root, as the host
/// walked it: a component that is not a plain name, or the path reached
/// with what looking at it found (or the system's message).
pub enum ChainStep {
    NotNormal,
    Entry { path: String, kind: Result<EntryKind, String> },
}

/// What the host observed when revalidating a project location: the root,
/// each component of the path below it, the project file, and where the
/// project file canonicalizes to (or the system's messages).
pub struct RevalidationObservations {
    pub root: Result<EntryKind, String>,
    pub chain: Vec<ChainStep>,
    pub project_file: Result<EntryKind, String>,
    pub canonical_project_file: Result<String, String>,
}

/// A revalidation refusal, by its texts.
pub enum RevalidationRefusal {
    Io { operation: Seq<char>, path: Seq<char>, message: Seq<char> },
    Symlink { path: Seq<char> },
    WrongFileType { label: Seq<char>, path: Seq<char> },
    UnsafeProjectPath,
    ProjectEscapesRoot,
}

pub open spec fn refused_as(error: PathSafetyError, refusal: RevalidationRefusal) -> bool {
    match refusal {
        RevalidationRefusal::Io { operation, path, message } => error matches PathSafetyError::Io {
            operation: o,
            path: p,
            message: m,
        } && o@ == operation && p@ == path && m@ == message,
        RevalidationRefusal::Symlink { path } => error matches PathSafetyError::Symlink { path: p } && p@ == path,
        RevalidationRefusal::WrongFileType { label, path } => error matches PathSafetyError::WrongFileType {
            label: l,
            path: p,
        } && l@ == label && p@ == path,
        RevalidationRefusal::UnsafeProjectPath => error == PathSafetyError::UnsafeProjectPath,
        RevalidationRefusal::ProjectEscapesRoot => error == PathSafetyError::ProjectEscapesRoot,
    }
}

/// A component that is a plain name and, looked at, no link.
pub open spec fn plain_step(step: ChainStep) -> bool {
    match step {
        ChainStep::Entry { kind: Ok(kind), .. } => kind != EntryKind::Symlink,
        _ => false,
    }
}

/// The refusal owed to the `k`-th component of the path and those after it.
pub open spec fn chain_refusal(chain: Seq<ChainStep>, k: int) -> Option<RevalidationRefusal>
    decreases chain.len() - k,
{
    if k < 0 || k >= chain.len() {
        None
    } else {
        match chain[k] {
            ChainStep::NotNormal => Some(RevalidationRefusal::UnsafeProjectPath),
            ChainStep::Entry { path, kind } => match kind {
                Err(message) => Some(
                    RevalidationRefusal::Io {
                        operation: "inspect selected project path"@,
                        path: path@,
                        message: message@,
                    },
                ),
                Ok(EntryKind::Symlink) => Some(RevalidationRefusal::Symlink { path: path@ }),
                Ok(_) => chain_refusal(chain, k + 1),
            },
        }
    }
}

/// The refusal owed when revalidating `location` on what the host
/// observed, checks in order: the root is a directory and no link, no
/// component below it is a link, the project file is a regular file and no
/// link, and it still canonicalizes to itself within the root.
pub open spec fn observed_revalidation(
    location: ProjectLocationView,
    observed: RevalidationObservations,
) -> Option<RevalidationRefusal> {
    match observed.root {
        Err(message) => Some(
            RevalidationRefusal::Io {
                operation: "inspect directory"@,
                path: location.root,
                message: message@,
            },
        ),
        Ok(EntryKind::Symlink) => Some(RevalidationRefusal::Symlink { path: location.root }),
        Ok(EntryKind::Directory) => match chain_refusal(observed.chain@, 0) {
            Some(refusal) => Some(refusal),
            None => match observed.project_file {
                Err(message) => Some(
                    RevalidationRefusal::Io {
                        operation: "inspect file"@,
                        path: location.project_file,
                        message: message@,
                    },
                ),
                Ok(EntryKind::Symlink) => Some(RevalidationRefusal::Symlink { path: location.project_file }),
                Ok(EntryKind::File) => match observed.canonical_project_file {
                    Err(message) => Some(
                        RevalidationRefusal::Io {
                            operation: "canonicalize project file"@,
                            path: location.project_file,
                            message: message@,
                        },
                    ),
                    Ok(canonical) => if path_equal(canonical@, location.project_file) && path_has_prefix(
                        canonical@,
                        location.root,
                    ) {
                        None
                    } else {
                        Some(RevalidationRefusal::ProjectEscapesRoot)
                    },
                },
                Ok(_) => Some(
                    RevalidationRefusal::WrongFileType { label: "project file"@, path: location.project_file },
                ),
            },
        },
        Ok(_) => Some(RevalidationRefusal::WrongFileType { label: "project root"@, path: location.root }),
    }
}

/// The refusal owed to an entry that must be an `expected` entry and no
/// link, on what looking at it found: the system's message, a link, or an
/// entry of another kind.
pub open spec fn entry_refusal(
    path: Seq<char>,
    label: Seq<char>,
    operation: Seq<char>,
    observed: Result<EntryKind, String>,
    expected: EntryKind,
) -> Option<RevalidationRefusal> {
    match observed {
        Err(message) => Some(RevalidationRefusal::Io { operation, path, message: message@ }),
        Ok(EntryKind::Symlink) => Some(RevalidationRefusal::Symlink { path }),
        Ok(kind) => if kind == expected {
            None
        } else {
            Some(RevalidationRefusal::WrongFileType { label, path })
        },
    }
}

/// Checks what the host found at `path`, which must be an `expected` entry
/// (a directory or a regular file) and no link; `label` names the entry and
/// `operation` the look that was taken.
pub fn check_observed_entry(
    path: String,
    label: &'static str,
    operation: &'static str,
    observed: Result<EntryKind, String>,
    expected: EntryKind,
) -> (result: Result<(), PathSafetyError>)
    ensures
        match entry_refusal(path@, label@, operation@, observed, expected) {
            None => result is Ok,
            Some(refusal) => result matches Err(error) && refused_as(error, refusal),
        },
{
    match observed {
        Err(message) => Err(PathSafetyError::Io { operation, path, message }),
        Ok(EntryKind::Symlink) => Err(PathSafetyError::Symlink { path }),
        Ok(kind) => if kind == expected {
            Ok(())
        } else {
            Err(PathSafetyError::WrongFileType { label, path })
        },
    }
}

/// Checks the components of a path below a root as the host walked them:
/// each is a plain name, and looked at, no link.
pub fn check_chain(chain: &Vec<ChainStep>) -> (result: Result<(), PathSafetyError>)
    ensures
        match chain_refusal(chain@, 0) {
            None => result is Ok,
            Some(refusal) => result matches Err(error) && refused_as(error, refusal),
        },
{
    let mut k: usize = 0;
    while k < chain.len()
        invariant
            k <= chain@.len(),
            chain_refusal(chain@, 0) == chain_refusal(chain@, k as int),
        decreases chain@.len() - k,
    {
        match &chain[k] {
            ChainStep::NotNormal => {
                return Err(PathSafetyError::UnsafeProjectPath);
            },
            ChainStep::Entry { path, kind } => match kind {
                Err(message) => {
                    return Err(
                        PathSafetyError::Io {
                            operation: "inspect selected project path",
                            path: path.clone(),
                            message: message.clone(),
                        },
                    );
                },
                Ok(EntryKind::Symlink) => {
                    return Err(PathSafetyError::Symlink { path: path.clone() });
                },
                Ok(_) => {},
            },
        }
        k = k + 1;
    }
    Ok(())
}

impl ProjectLocation {
    /// Revalidates this location on what the host observed of the file
    /// system (see `observed_revalidation`); the first refusal is returned.
    pub fn revalidate_observed(&self, observed: &RevalidationObservations) -> (result: Result<
        (),
        PathSafetyError,
    >)
        ensures
            match observed_revalidation(self@, *observed) {
                None => result is Ok,
                Some(refusal) => result matches Err(error) && refused_as(error, refusal),
            },
    {
        match &observed.root {
            Err(message) => {
                return Err(
                    PathSafetyError::Io {
                        operation: "inspect directory",
                        path: self.root.clone(),
                        message: message.clone(),
                    },
                );
            },
            Ok(EntryKind::Symlink) => {
                return Err(PathSafetyError::Symlink { path: self.root.clone() });
            },
            Ok(EntryKind::Directory) => {},
            Ok(_) => {
                return Err(PathSafetyError::WrongFileType { label: "project root", path: self.root.clone() });
            },
        }
        check_chain(&observed.chain)?;
        match &observed.project_file {
            Err(message) => {
                return Err(
                    PathSafetyError::Io {
                        operation: "inspect file",
                        path: self.project_file.clone(),
                        message: message.clone(),
                    },
                );
            },
            Ok(EntryKind::Symlink) => {
                return Err(PathSafetyError::Symlink { path: self.project_file.clone() });
            },
            Ok(EntryKind::File) => {},
            Ok(_) => {
                return Err(
                    PathSafetyError::WrongFileType { label: "project file", path: self.project_file.clone() },
                );
            },
        }
        match &observed.canonical_project_file {
            Err(message) => Err(
                PathSafetyError::Io {
                    operation: "canonicalize project file",
                    path: self.project_file.clone(),
                    message: message.clone(),
                },
            ),
            Ok(canonical) => self.revalidate(canonical.as_str()),
        }
    }
}

/// Revalidating a location whose root, path components and project file
/// are unchanged (a directory, plain components that are no links, a
/// regular file that still canonicalizes to itself within the root)
/// succeeds; if the project file was replaced by a link, the link is
/// refused at the project file; if by a directory, its file type is.
pub proof fn lemma_revalidation_of_unchanged_project(
    location: ProjectLocationView,
    observed: RevalidationObservations,
    canonical: String,
)
    requires
        observed.root == Ok::<EntryKind, String>(EntryKind::Directory),
        forall|k: int|
            0 <= k < observed.chain@.len() ==> plain_step(#[trigger] observed.chain@[k]),
        observed.canonical_project_file == Ok::<String, String>(canonical),
        path_equal(canonical@, location.project_file),
        path_has_prefix(canonical@, location.root),
    ensures
        observed.project_file == Ok::<EntryKind, String>(EntryKind::File) ==> observed_revalidation(
            location,
            observed,
        ) is None,
        observed.project_file == Ok::<EntryKind, String>(EntryKind::Symlink) ==> observed_revalidation(
            location,
            observed,
        ) == Some(RevalidationRefusal::Symlink { path: location.project_file }),
        observed.project_file == Ok::<EntryKind, String>(EntryKind::Directory) ==> observed_revalidation(
            location,
            observed,
        ) == Some(RevalidationRefusal::WrongFileType { label: "project file"@, path: location.project_file }),
{
    lemma_chain_without_links(observed.chain@, 0);
}

proof fn lemma_chain_without_links(chain: Seq<ChainStep>, k: int)
    requires
        0 <= k <= chain.len(),
        forall|j: int|
            0 <= j < chain.len() ==> plain_step(#[trigger] chain[j]),
    ensures
        chain_refusal(chain, k) is None,
    decreases chain.len() - k,
{
    if k < chain.len() {
        assert(plain_step(chain[k]));
        lemma_chain_without_links(chain, k + 1);
    }
}

} // verus!
