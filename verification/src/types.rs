//! Core data types: resolved path selectors, actions, jobs and errors.

use vstd::prelude::*;

verus! {

/// A resolved path-like field: either a filesystem path on the invoking
/// machine or an opaque identifier naming a remote storage target.
#[derive(Debug, PartialEq, Eq)]
pub enum PathType {
    Local(String),
    Remote(String),
}

/// Spec-level mirror of [`PathType`], over character sequences.
#[verifier::ext_equal]
pub enum PathTypeView {
    Local(Seq<char>),
    Remote(Seq<char>),
}

impl View for PathType {
    type V = PathTypeView;

    open spec fn view(&self) -> PathTypeView {
        match self {
            PathType::Local(p) => PathTypeView::Local(p@),
            PathType::Remote(p) => PathTypeView::Remote(p@),
        }
    }
}

impl PathType {
    /// The underlying path-or-identifier string, with the variant tag dropped.
    pub fn into_inner(self) -> (r: String)
        ensures
            r@ == self@.inner(),
    {
        match self {
            PathType::Local(p) => p,
            PathType::Remote(p) => p,
        }
    }
}

impl PathTypeView {
    /// The underlying character sequence of either variant.
    pub open spec fn inner(self) -> Seq<char> {
        match self {
            PathTypeView::Local(p) => p,
            PathTypeView::Remote(p) => p,
        }
    }
}

/// The operating-system family whose key is consulted when a path field
/// carries per-OS variants. Passed in explicitly so that the resolution
/// logic never reads ambient environment state.
#[derive(Clone, Copy, PartialEq, Eq, Structural, Debug)]
pub enum Platform {
    Linux,
    Windows,
}

impl Platform {
    /// The document key that names this platform's path variant.
    pub open spec fn spec_key(self) -> Seq<char> {
        match self {
            Platform::Linux => "linux"@,
            Platform::Windows => "windows"@,
        }
    }

    /// The document key that names this platform's path variant.
    pub fn key(&self) -> (r: &'static str)
        ensures
            r@ == self.spec_key(),
    {
        match self {
            Platform::Linux => "linux",
            Platform::Windows => "windows",
        }
    }
}

/// A failure while resolving one path-like field.
#[derive(Debug, PartialEq, Eq)]
pub enum ResolveError {
    /// `remote` was combined with an OS-specific variant.
    ConflictingPathVariant,
    /// Neither `remote` nor the current platform's key was present.
    MissingOsVariant,
    /// The resolved local path does not exist and creation was not allowed.
    PathNotFound(String),
    /// The node, or a value inside it, does not have the expected shape.
    MalformedValue,
}

/// Spec-level mirror of [`ResolveError`].
#[verifier::ext_equal]
pub enum ResolveErrorView {
    ConflictingPathVariant,
    MissingOsVariant,
    PathNotFound(Seq<char>),
    MalformedValue,
}

impl View for ResolveError {
    type V = ResolveErrorView;

    open spec fn view(&self) -> ResolveErrorView {
        match self {
            ResolveError::ConflictingPathVariant => ResolveErrorView::ConflictingPathVariant,
            ResolveError::MissingOsVariant => ResolveErrorView::MissingOsVariant,
            ResolveError::PathNotFound(p) => ResolveErrorView::PathNotFound(p@),
            ResolveError::MalformedValue => ResolveErrorView::MalformedValue,
        }
    }
}

/// A failure while loading the job list. Every variant is fatal to the
/// whole run; the surrounding program reports it and terminates. The
/// `job` and `field` names locate the failure in the document; both are
/// empty when the document itself is not a mapping of named jobs.
#[derive(Debug, PartialEq, Eq)]
pub enum LoadError {
    /// A required key is absent.
    MissingField { job: String, field: String },
    /// `remote` was combined with an OS-specific variant.
    ConflictingPathVariant { job: String, field: String },
    /// Neither `remote` nor the current platform's key was present.
    MissingOsVariant { job: String, field: String },
    /// A resolved local path does not exist and creation was not allowed.
    PathNotFound { job: String, field: String, path: String },
    /// A value is present but does not have the expected shape.
    MalformedValue { job: String, field: String },
    /// A file could not be created or written.
    IoFailure { path: String },
}

/// Spec-level mirror of [`LoadError`].
#[verifier::ext_equal]
pub enum LoadErrorView {
    MissingField { job: Seq<char>, field: Seq<char> },
    ConflictingPathVariant { job: Seq<char>, field: Seq<char> },
    MissingOsVariant { job: Seq<char>, field: Seq<char> },
    PathNotFound { job: Seq<char>, field: Seq<char>, path: Seq<char> },
    MalformedValue { job: Seq<char>, field: Seq<char> },
    IoFailure { path: Seq<char> },
}

impl View for LoadError {
    type V = LoadErrorView;

    open spec fn view(&self) -> LoadErrorView {
        match self {
            LoadError::MissingField { job, field } => LoadErrorView::MissingField {
                job: job@,
                field: field@,
            },
            LoadError::ConflictingPathVariant { job, field } => LoadErrorView::ConflictingPathVariant {
                job: job@,
                field: field@,
            },
            LoadError::MissingOsVariant { job, field } => LoadErrorView::MissingOsVariant {
                job: job@,
                field: field@,
            },
            LoadError::PathNotFound { job, field, path } => LoadErrorView::PathNotFound {
                job: job@,
                field: field@,
                path: path@,
            },
            LoadError::MalformedValue { job, field } => LoadErrorView::MalformedValue {
                job: job@,
                field: field@,
            },
            LoadError::IoFailure { path } => LoadErrorView::IoFailure { path: path@ },
        }
    }
}

/// One fully resolved synchronization task.
#[derive(Debug, PartialEq, Eq)]
pub struct Job {
    /// Resolved source path or remote identifier.
    pub source: String,
    /// Resolved destination path or remote identifier.
    pub destination: String,
    /// Extra arguments for the external tool; never contains an empty string.
    pub options: Vec<String>,
    /// Local log file, when the document supplied one that resolved locally.
    pub log_path: Option<String>,
    /// The filter patterns, one per line of the filter file.
    pub filters: Vec<String>,
    /// Path of the per-job filter file; the file exists (possibly empty)
    /// by the time the job is handed to the command assembler.
    pub tmp_filter_file: String,
}

/// Spec-level mirror of [`Job`].
#[verifier::ext_equal]
pub struct JobView {
    pub source: Seq<char>,
    pub destination: Seq<char>,
    pub options: Seq<Seq<char>>,
    pub log_path: Option<Seq<char>>,
    pub filters: Seq<Seq<char>>,
    pub tmp_filter_file: Seq<char>,
}

impl View for Job {
    type V = JobView;

    open spec fn view(&self) -> JobView {
        JobView {
            source: self.source@,
            destination: self.destination@,
            options: self.options.deep_view(),
            log_path: match self.log_path {
                Some(p) => Some(p@),
                None => None,
            },
            filters: self.filters.deep_view(),
            tmp_filter_file: self.tmp_filter_file@,
        }
    }
}

impl Job {
    /// The source path-or-identifier as an owned string.
    pub fn source_str(&self) -> (r: String)
        ensures
            r@ == self@.source,
    {
        self.source.clone()
    }

    /// The destination path-or-identifier as an owned string.
    pub fn destination_str(&self) -> (r: String)
        ensures
            r@ == self@.destination,
    {
        self.destination.clone()
    }

    /// The log path as an owned string, when one is set.
    pub fn log_path_str(&self) -> (r: Option<String>)
        ensures
            match r {
                Some(s) => self@.log_path == Some(s@),
                None => self@.log_path is None,
            },
    {
        match &self.log_path {
            Some(p) => Some(p.clone()),
            None => None,
        }
    }
}

/// Unwrapping with a diagnostic message. The carried value comes back as
/// `Ok`; a missing or failed value becomes an error string built from
/// `message`, which the program's entry point reports before exiting.
pub trait Graceful: Sized {
    type V;

    /// Unwraps the carried value, or turns `message` into the error text.
    fn graceful(self, message: &str) -> Result<Self::V, String>;
}

impl<T> Graceful for Option<T> {
    type V = T;

    fn graceful(self, message: &str) -> (r: Result<T, String>)
        ensures
            match self {
                Some(v) => r matches Ok(rv) && rv == v,
                None => r matches Err(e) && e@ == "Error: "@ + message@,
            },
    {
        match self {
            Some(v) => Ok(v),
            None => Err(String::from_str("Error: ").concat(message)),
        }
    }
}

impl<T> Graceful for Result<T, String> {
    type V = T;

    fn graceful(self, message: &str) -> (r: Result<T, String>)
        ensures
            match self {
                Ok(v) => r matches Ok(rv) && rv == v,
                Err(cause) => r matches Err(e) && e@ == "Error: "@ + message@ + "\nReason: "@
                    + cause@,
            },
    {
        match self {
            Ok(v) => Ok(v),
            Err(cause) => Err(
                String::from_str("Error: ").concat(message).concat("\nReason: ").concat(
                    cause.as_str(),
                ),
            ),
        }
    }
}

/// The verb handed to the external synchronization tool.
#[derive(Clone, Copy, PartialEq, Eq, Structural, Debug)]
pub enum RcloneActions {
    Check,
    Copy,
    Sync,
}

impl RcloneActions {
    /// The lower-case serialized form of the action.
    pub open spec fn spec_name(self) -> Seq<char> {
        match self {
            RcloneActions::Check => "check"@,
            RcloneActions::Copy => "copy"@,
            RcloneActions::Sync => "sync"@,
        }
    }

    /// The lower-case name of the action, as passed to the external tool.
    pub fn name(&self) -> (r: &'static str)
        ensures
            r@ == self.spec_name(),
    {
        match self {
            RcloneActions::Check => "check",
            RcloneActions::Copy => "copy",
            RcloneActions::Sync => "sync",
        }
    }

    /// The action named by `s`, compared without regard to ASCII case.
    pub open spec fn spec_of(s: Seq<char>) -> Option<RcloneActions> {
        if eq_ignore_ascii_case(s, "check"@) {
            Some(RcloneActions::Check)
        } else if eq_ignore_ascii_case(s, "copy"@) {
            Some(RcloneActions::Copy)
        } else if eq_ignore_ascii_case(s, "sync"@) {
            Some(RcloneActions::Sync)
        } else {
            None
        }
    }

    /// Parses an action verb, ignoring ASCII case.
    pub fn from_str(s: &str) -> (r: Result<RcloneActions, String>)
        ensures
            match r {
                Ok(a) => RcloneActions::spec_of(s@) == Some(a),
                Err(e) => {
                    &&& RcloneActions::spec_of(s@) is None
                    &&& e@ == "Please provide check or copy or sync."@
                },
            },
    {
        if str_eq_ignore_ascii_case(s, "check") {
            Ok(RcloneActions::Check)
        } else if str_eq_ignore_ascii_case(s, "copy") {
            Ok(RcloneActions::Copy)
        } else if str_eq_ignore_ascii_case(s, "sync") {
            Ok(RcloneActions::Sync)
        } else {
            Err(String::from_str("Please provide check or copy or sync."))
        }
    }
}

/// Whether two characters are equal up to ASCII case.
pub open spec fn chars_eq_ignore_ascii_case(x: char, y: char) -> bool {
    ||| x == y
    ||| (65 <= x as int <= 90 && x as int + 32 == y as int)
    ||| (65 <= y as int <= 90 && y as int + 32 == x as int)
}

/// Whether two strings are equal up to ASCII case.
pub open spec fn eq_ignore_ascii_case(a: Seq<char>, b: Seq<char>) -> bool {
    a.len() == b.len() && forall|i: int|
        0 <= i < a.len() ==> chars_eq_ignore_ascii_case(a[i], b[i])
}

/// Decides [`eq_ignore_ascii_case`] on two string slices.
pub fn str_eq_ignore_ascii_case(a: &str, b: &str) -> (r: bool)
    ensures
        r == eq_ignore_ascii_case(a@, b@),
{
    let a_len = a.unicode_len();
    let b_len = b.unicode_len();
    if a_len != b_len {
        return false;
    }
    for i in 0..a_len
        invariant
            a_len == a@.len(),
            a_len == b@.len(),
            forall|j: int| 0 <= j < i ==> chars_eq_ignore_ascii_case(a@[j], b@[j]),
    {
        let x = a.get_char(i) as u32;
        let y = b.get_char(i) as u32;
        let same = x == y || (65 <= x && x <= 90 && x + 32 == y) || (65 <= y && y <= 90 && y + 32
            == x);
        if !same {
            return false;
        }
    }
    true
}

} // verus!
