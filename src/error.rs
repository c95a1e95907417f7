use vstd::prelude::*;

verus! {

/// Why a sign-in attempt (or the construction of a client) failed.
#[derive(Debug, Clone, PartialEq, Eq)]
pub enum AuthError {
    /// The builder was asked to build without a credential source.
    MissingCredentialSource,
    /// The credential source failed; its message is kept.
    CredentialFetchFailed(String),
    /// A required key is absent from the challenge parameters or from the
    /// computed answer to them.
    MissingChallengeField(String),
    /// The server's public value is zero modulo the group's prime.
    InvalidServerValue,
    /// The first call returned no challenge parameters.
    NoChallenge,
    /// The second call returned no authentication result.
    NoAuthResult,
    /// The authentication result lacks one of the three tokens.
    IncompleteTokens,
    /// The identity provider reported an error: its code and message.
    Provider(String, String),
    /// The SRP computation refused its input; its message is kept.
    Srp(String),
}

} // verus!
