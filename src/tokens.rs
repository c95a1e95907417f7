use vstd::prelude::*;

use crate::error::AuthError;
use crate::pairs::lookup;
use crate::srp::{answer_fields, challenge_answer};

verus! {

/// The outcome of the password-verifier step, from the authentication result
/// that the provider returned (if any) and its id, access and refresh tokens:
/// all three tokens or an error, never part of them.
pub open spec fn token_outcome(
    result: Option<(Option<String>, Option<String>, Option<String>)>,
) -> Result<(String, String, String), AuthError> {
    match result {
        None => Err(AuthError::NoAuthResult),
        Some((Some(id), Some(access), Some(refresh))) => Ok((id, access, refresh)),
        Some(_) => Err(AuthError::IncompleteTokens),
    }
}

/// Takes the id, access and refresh tokens out of the authentication result:
/// `NoAuthResult` without one, `IncompleteTokens` when a token is absent.
pub fn tokens_from_result(result: Option<(Option<String>, Option<String>, Option<String>)>) -> (r:
    Result<(String, String, String), AuthError>)
    ensures
        r == token_outcome(result),
{
    match result {
        None => Err(AuthError::NoAuthResult),
        Some((Some(id), Some(access), Some(refresh))) => Ok((id, access, refresh)),
        Some(_) => Err(AuthError::IncompleteTokens),
    }
}

/// Against an honest server the exchange ends in the server's tokens: when the
/// SRP computation answers with a timestamp, the claim's secret block and its
/// signature, the password-verifier responses are built for the user in full,
/// and when the authentication result carries all three tokens, exactly those
/// three are returned.
pub proof fn honest_exchange_yields_tokens(
    username: Seq<char>,
    responses: Seq<(String, String)>,
    id: String,
    access: String,
    refresh: String,
)
    requires
        lookup(responses, "TIMESTAMP"@) is Some,
        lookup(responses, "PASSWORD_CLAIM_SECRET_BLOCK"@) is Some,
        lookup(responses, "PASSWORD_CLAIM_SIGNATURE"@) is Some,
    ensures
        challenge_answer(username, responses) == Ok::<_, Seq<char>>(
            answer_fields(
                username,
                lookup(responses, "TIMESTAMP"@)->Some_0,
                lookup(responses, "PASSWORD_CLAIM_SECRET_BLOCK"@)->Some_0,
                lookup(responses, "PASSWORD_CLAIM_SIGNATURE"@)->Some_0,
                lookup(responses, "SECRET_HASH"@),
            ),
        ),
        token_outcome(Some((Some(id), Some(access), Some(refresh)))) == Ok::<_, AuthError>(
            (id, access, refresh),
        ),
{
}

} // verus!
