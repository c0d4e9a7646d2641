//! Outside types that the library carries through its logic without looking inside,
//! and the one outside constructor it calls.
use vstd::prelude::*;
use crate::text::displays;

verus! {

/// An operating-system I/O failure, handed in by the caller.
#[verifier::external_type_specification]
#[verifier::external_body]
pub struct ExIoError(std::io::Error);

/// A failure reported by libgit2.
#[verifier::external_type_specification]
#[verifier::external_body]
pub struct ExGitError(git2::Error);

/// An open git repository.
#[verifier::external_type_specification]
#[verifier::external_body]
pub struct ExGitRepository(git2::Repository);

/// A JSON (de)serialization failure.
#[verifier::external_type_specification]
#[verifier::external_body]
pub struct ExJsonError(serde_json::Error);

/// A TOML serialization failure.
#[verifier::external_type_specification]
#[verifier::external_body]
pub struct ExTomlSerError(toml::ser::Error);

/// A TOML parse failure.
#[verifier::external_type_specification]
#[verifier::external_body]
pub struct ExTomlDeError(toml::de::Error);

/// The libgit2 error codes that this library raises itself.
#[derive(Clone, Copy, Debug, PartialEq, Eq, Structural)]
pub enum GitCode {
    NotFound,
    NotFastForward,
}

/// The libgit2 error classes that this library raises itself.
#[derive(Clone, Copy, Debug, PartialEq, Eq, Structural)]
pub enum GitClass {
    NoClass,
    Invalid,
}

/// What `Display` writes for a git error with the given code, class and message: the
/// message, then `; class=<Class> (<raw class>)` unless the class is none, then
/// `; code=<Code> (<raw code>)` (the code is never the generic one here).
pub open spec fn git_error_text(code: GitCode, class: GitClass, message: Seq<char>) -> Seq<char> {
    message + match class {
        GitClass::NoClass => Seq::<char>::empty(),
        GitClass::Invalid => "; class=Invalid (3)"@,
    } + match code {
        GitCode::NotFound => "; code=NotFound (-3)"@,
        GitCode::NotFastForward => "; code=NotFastForward (-11)"@,
    }
}

/// Builds a libgit2 error with `git2::Error::new` from a code, a class and a message.
/// The error is opaque here; what is claimed of it is its `Display` text, which git2 writes
/// from the message, the class and the code (`GIT_ERROR_INVALID` is 3, `GIT_ENOTFOUND` -3,
/// `GIT_ENONFASTFORWARD` -11).
#[verifier::external_body]
pub(crate) fn git_error(code: GitCode, class: GitClass, message: &str) -> (e: git2::Error)
    ensures
        displays(&e, git_error_text(code, class, message@)),
{
    let code = match code {
        GitCode::NotFound => git2::ErrorCode::NotFound,
        GitCode::NotFastForward => git2::ErrorCode::NotFastForward,
    };
    let class = match class {
        GitClass::NoClass => git2::ErrorClass::None,
        GitClass::Invalid => git2::ErrorClass::Invalid,
    };
    git2::Error::new(code, class, message)
}

} // verus!
