//! Errors of password hashing, and how they read.
use vstd::prelude::*;

verus! {

/// The step of password hashing that failed.
#[derive(Debug, Clone, Copy, PartialEq, Eq, Structural)]
pub enum CryptErrorKind {
    PreferredMethodFailed,
    SaltGenFailed,
    HashFailed,
    StringAllocFailed,
    StringConversionError,
}

/// The message that names a failed step.
pub open spec fn kind_message(k: CryptErrorKind) -> Seq<char> {
    match k {
        CryptErrorKind::PreferredMethodFailed => "crypt_preferred_method failed"@,
        CryptErrorKind::SaltGenFailed => "crypt_gensalt_ra failed"@,
        CryptErrorKind::HashFailed => "crypt_ra failed"@,
        CryptErrorKind::StringAllocFailed => "Failed to allocate C string"@,
        CryptErrorKind::StringConversionError => "Failed to convert to String"@,
    }
}

/// A failure to hash a password: the failed step, and optionally a detail.
#[derive(Debug)]
pub struct CryptError {
    kind: CryptErrorKind,
    detail: Option<String>,
}

/// What a `CryptError` holds, as plain values.
pub struct CryptErrorView {
    pub kind: CryptErrorKind,
    pub detail: Option<Seq<char>>,
}

/// The text of an optional detail.
pub open spec fn detail_text(d: Option<String>) -> Option<Seq<char>> {
    match d {
        Some(s) => Some(s@),
        None => None,
    }
}

impl View for CryptError {
    type V = CryptErrorView;

    closed spec fn view(&self) -> CryptErrorView {
        CryptErrorView { kind: self.kind, detail: detail_text(self.detail) }
    }
}

/// The message of an error: the step's message, then `: ` and the detail if
/// there is one.
pub open spec fn error_message(e: CryptErrorView) -> Seq<char> {
    match e.detail {
        Some(d) => kind_message(e.kind) + ": "@ + d,
        None => kind_message(e.kind),
    }
}

impl CryptError {
    /// An error of the given kind and detail.
    pub fn new(kind: CryptErrorKind, detail: Option<String>) -> (r: Self)
        ensures
            r@.kind == kind,
            r@.detail == detail_text(detail),
    {
        CryptError { kind, detail }
    }

    /// The failed step.
    pub fn kind(&self) -> (r: CryptErrorKind)
        ensures
            r == self@.kind,
    {
        self.kind
    }

    /// The error's message, as it is displayed.
    pub fn fmt_error(&self) -> (r: String)
        ensures
            r@ == error_message(self@),
    {
        let mut msg: String = match self.kind {
            CryptErrorKind::PreferredMethodFailed => String::from_str(
                "crypt_preferred_method failed",
            ),
            CryptErrorKind::SaltGenFailed => String::from_str("crypt_gensalt_ra failed"),
            CryptErrorKind::HashFailed => String::from_str("crypt_ra failed"),
            CryptErrorKind::StringAllocFailed => String::from_str("Failed to allocate C string"),
            CryptErrorKind::StringConversionError => String::from_str(
                "Failed to convert to String",
            ),
        };
        if let Some(detail) = &self.detail {
            msg.append(": ");
            msg.append(detail.as_str());
        }
        msg
    }
}

/// The message of an error begins with the message of its kind; with a
/// detail it continues with `: ` and ends with the detail.
pub proof fn lemma_error_message_shape(e: CryptErrorView)
    ensures
        error_message(e).take(kind_message(e.kind).len() as int) == kind_message(e.kind),
        e.detail matches Some(d) ==> error_message(e).skip(
            error_message(e).len() - d.len(),
        ) == d,
        e.detail is None ==> error_message(e) == kind_message(e.kind),
{
    let m = error_message(e);
    let k = kind_message(e.kind);
    match e.detail {
        Some(d) => {
            assert(m.take(k.len() as int) =~= k);
            assert(m.skip(m.len() - d.len()) =~= d);
        },
        None => {
            assert(m.take(k.len() as int) =~= k);
        },
    }
}

/// A step of hashing a password that can fail.
#[derive(Debug, Clone, Copy, PartialEq, Eq, Structural)]
pub enum HashStep {
    /// Asking for the preferred hashing method.
    PreferredMethod,
    /// Generating a salt.
    GenSalt,
    /// Reading the salt as text.
    SaltText,
    /// Handing the password over as a C string.
    PasswordText,
    /// Hashing.
    Hash,
    /// Reading the hash as text.
    HashText,
}

/// The error that reports a failed step; `os_error` describes the system's
/// last error.
pub open spec fn hash_failure_spec(step: HashStep, os_error: Seq<char>) -> CryptErrorView {
    match step {
        HashStep::PreferredMethod => CryptErrorView {
            kind: CryptErrorKind::PreferredMethodFailed,
            detail: Some(os_error),
        },
        HashStep::GenSalt => CryptErrorView {
            kind: CryptErrorKind::SaltGenFailed,
            detail: Some(os_error),
        },
        HashStep::SaltText => CryptErrorView {
            kind: CryptErrorKind::StringConversionError,
            detail: Some("Salt is not valid"@),
        },
        HashStep::PasswordText => CryptErrorView {
            kind: CryptErrorKind::StringAllocFailed,
            detail: None,
        },
        HashStep::Hash => CryptErrorView { kind: CryptErrorKind::HashFailed, detail: Some(os_error) },
        HashStep::HashText => CryptErrorView {
            kind: CryptErrorKind::StringConversionError,
            detail: Some("Password is not valid"@),
        },
    }
}

/// The error that reports a failed step of hashing a password: the steps
/// that call into the system carry the system's last error as detail, the
/// text conversions name what was not valid, and a password that cannot be
/// handed over carries no detail.
pub fn hash_failure(step: HashStep, os_error: String) -> (r: CryptError)
    ensures
        r@ == hash_failure_spec(step, os_error@),
{
    match step {
        HashStep::PreferredMethod => CryptError::new(
            CryptErrorKind::PreferredMethodFailed,
            Some(os_error),
        ),
        HashStep::GenSalt => CryptError::new(CryptErrorKind::SaltGenFailed, Some(os_error)),
        HashStep::SaltText => CryptError::new(
            CryptErrorKind::StringConversionError,
            Some(String::from_str("Salt is not valid")),
        ),
        HashStep::PasswordText => CryptError::new(CryptErrorKind::StringAllocFailed, None),
        HashStep::Hash => CryptError::new(CryptErrorKind::HashFailed, Some(os_error)),
        HashStep::HashText => CryptError::new(
            CryptErrorKind::StringConversionError,
            Some(String::from_str("Password is not valid")),
        ),
    }
}

/// Password hashing with the system's preferred method.
pub struct Crypt;

} // verus!
