use vstd::prelude::*;

use vstd::utf8::encode_utf8;

use crate::error::AuthError;
use crate::group::{degenerate_server_value, is_degenerate_server_value};
use crate::pairs::{find_value, lookup, pairs_view};
use crate::srp_client::{base64_decodes, computable_challenge, secret_hash_of, srp_error_text, SrpHandle};

verus! {

/// What addresses one user pool and app client: the client's shared
/// secret, the client id and the pool id (`<region>_<pool name>`).
pub struct PoolIdentity {
    pub shared_secret: String,
    pub client_id: String,
    pub user_pool_id: String,
}

/// The keys that the challenge must hold, in the order they are checked.
pub open spec fn first_missing_challenge_key(p: Seq<(String, String)>) -> Option<Seq<char>> {
    if lookup(p, "SALT"@) is None {
        Some("SALT"@)
    } else if lookup(p, "SRP_B"@) is None {
        Some("SRP_B"@)
    } else if lookup(p, "SECRET_BLOCK"@) is None {
        Some("SECRET_BLOCK"@)
    } else if lookup(p, "USER_ID_FOR_SRP"@) is None {
        Some("USER_ID_FOR_SRP"@)
    } else {
        None
    }
}

/// The responses of the password-verifier step, in the order they are sent.
pub open spec fn answer_fields(
    username: Seq<char>,
    timestamp: Seq<char>,
    secret_block: Seq<char>,
    signature: Seq<char>,
    secret_hash: Option<Seq<char>>,
) -> Seq<(Seq<char>, Seq<char>)> {
    seq![
        ("TIMESTAMP"@, timestamp),
        ("USERNAME"@, username),
        ("PASSWORD_CLAIM_SECRET_BLOCK"@, secret_block),
        ("PASSWORD_CLAIM_SIGNATURE"@, signature),
    ] + match secret_hash {
        Some(h) => seq![("SECRET_HASH"@, h)],
        None => Seq::empty(),
    }
}

/// The answer built from the computed challenge responses, or the first of
/// TIMESTAMP, PASSWORD_CLAIM_SECRET_BLOCK and PASSWORD_CLAIM_SIGNATURE that
/// they lack.
pub open spec fn challenge_answer(username: Seq<char>, responses: Seq<(String, String)>) -> Result<
    Seq<(Seq<char>, Seq<char>)>,
    Seq<char>,
> {
    if lookup(responses, "TIMESTAMP"@) is None {
        Err("TIMESTAMP"@)
    } else if lookup(responses, "PASSWORD_CLAIM_SECRET_BLOCK"@) is None {
        Err("PASSWORD_CLAIM_SECRET_BLOCK"@)
    } else if lookup(responses, "PASSWORD_CLAIM_SIGNATURE"@) is None {
        Err("PASSWORD_CLAIM_SIGNATURE"@)
    } else {
        Ok(
            answer_fields(
                username,
                lookup(responses, "TIMESTAMP"@)->Some_0,
                lookup(responses, "PASSWORD_CLAIM_SECRET_BLOCK"@)->Some_0,
                lookup(responses, "PASSWORD_CLAIM_SIGNATURE"@)->Some_0,
                lookup(responses, "SECRET_HASH"@),
            ),
        )
    }
}

fn missing(key: &str) -> (r: AuthError)
    ensures
        r matches AuthError::MissingChallengeField(m) && m@ == key@,
{
    AuthError::MissingChallengeField(String::from_str(key))
}

/// Builds the responses of the password-verifier step from what the SRP
/// computation answered: TIMESTAMP, USERNAME (the caller's), the claim's
/// secret block and signature, and SECRET_HASH where one was computed.
pub fn answer_from_responses(username: &str, responses: &Vec<(String, String)>) -> (r: Result<
    Vec<(String, String)>,
    AuthError,
>)
    ensures
        match challenge_answer(username@, responses@) {
            Ok(w) => r matches Ok(v) && pairs_view(v@) == w,
            Err(k) => r matches Err(AuthError::MissingChallengeField(m)) && m@ == k,
        },
{
    let timestamp = match find_value(responses, "TIMESTAMP") {
        Some(v) => v,
        None => return Err(missing("TIMESTAMP")),
    };
    let secret_block = match find_value(responses, "PASSWORD_CLAIM_SECRET_BLOCK") {
        Some(v) => v,
        None => return Err(missing("PASSWORD_CLAIM_SECRET_BLOCK")),
    };
    let signature = match find_value(responses, "PASSWORD_CLAIM_SIGNATURE") {
        Some(v) => v,
        None => return Err(missing("PASSWORD_CLAIM_SIGNATURE")),
    };
    let secret_hash = find_value(responses, "SECRET_HASH");
    let mut out: Vec<(String, String)> = Vec::new();
    out.push((String::from_str("TIMESTAMP"), timestamp));
    out.push((String::from_str("USERNAME"), String::from_str(username)));
    out.push((String::from_str("PASSWORD_CLAIM_SECRET_BLOCK"), secret_block));
    out.push((String::from_str("PASSWORD_CLAIM_SIGNATURE"), signature));
    match secret_hash {
        Some(h) => out.push((String::from_str("SECRET_HASH"), h)),
        None => {},
    }
    proof {
        let w = challenge_answer(username@, responses@)->Ok_0;
        assert(pairs_view(out@) =~= w);
    }
    Ok(out)
}

/// One sign-in attempt's SRP state: the client with its random private
/// exponent, the names it was made for, and the parameters of the first call.
pub struct SrpSession<'a> {
    handle: SrpHandle<'a>,
    auth_params: Vec<(String, String)>,
}

impl<'a> SrpSession<'a> {
    pub closed spec fn spec_username(&self) -> Seq<char> {
        self.handle.spec_username()
    }

    pub closed spec fn spec_client_id(&self) -> Seq<char> {
        self.handle.spec_client_id()
    }

    pub closed spec fn spec_pool_id(&self) -> Seq<char> {
        self.handle.spec_pool_id()
    }

    pub closed spec fn spec_secret(&self) -> Seq<char> {
        self.handle.spec_secret()
    }

    pub closed spec fn spec_auth_params(&self) -> Seq<(String, String)> {
        self.auth_params@
    }

    /// The parameters of the first call hold the user name, a public value
    /// and the SECRET_HASH of the session's names and secret.
    pub open spec fn wf(&self) -> bool {
        &&& lookup(self.spec_auth_params(), "USERNAME"@) == Some(self.spec_username())
        &&& lookup(self.spec_auth_params(), "SRP_A"@) is Some
        &&& lookup(self.spec_auth_params(), "SECRET_HASH"@) == Some(
            secret_hash_of(self.spec_username(), self.spec_client_id(), self.spec_secret()),
        )
    }

    /// Starts an attempt: draws the private exponent and computes the
    /// parameters of the first call: USERNAME, SRP_A and SECRET_HASH.
    pub fn begin(username: &'a str, password: &'a str, identity: &'a PoolIdentity) -> (r:
        SrpSession<'a>)
        ensures
            r.spec_username() == username@,
            r.spec_client_id() == identity.client_id@,
            r.spec_pool_id() == identity.user_pool_id@,
            r.spec_secret() == identity.shared_secret@,
            r.wf(),
            lookup(r.spec_auth_params(), "USERNAME"@) == Some(username@),
            lookup(r.spec_auth_params(), "SRP_A"@) is Some,
            lookup(r.spec_auth_params(), "SECRET_HASH"@) == Some(
                secret_hash_of(username@, identity.client_id@, identity.shared_secret@),
            ),
    {
        let handle = SrpHandle::new(
            username,
            password,
            identity.user_pool_id.as_str(),
            identity.client_id.as_str(),
            identity.shared_secret.as_str(),
        );
        let auth_params = match handle.auth_params() {
            Ok(p) => p,
            Err(_) => {
                proof {
                    assert(false);
                }
                Vec::new()
            },
        };
        SrpSession { handle, auth_params }
    }

    /// The user name that the attempt signs in.
    pub fn username(&self) -> (r: &'a str)
        ensures
            r@ == self.spec_username(),
    {
        self.handle.username()
    }

    /// The app client id that both calls name.
    pub fn client_id(&self) -> (r: &'a str)
        ensures
            r@ == self.spec_client_id(),
    {
        self.handle.client_id()
    }

    /// The parameters of the first call.
    pub fn auth_params(&self) -> (r: &Vec<(String, String)>)
        ensures
            r@ == self.spec_auth_params(),
    {
        &self.auth_params
    }

    /// SECRET_HASH is a function of the user name, the client id and the
    /// shared secret alone: two sessions begun with equal ones send the same
    /// SECRET_HASH, whatever exponents they drew.
    pub proof fn secret_hash_is_deterministic(s1: &SrpSession<'a>, s2: &SrpSession<'a>)
        requires
            s1.wf(),
            s2.wf(),
            s1.spec_username() == s2.spec_username(),
            s1.spec_client_id() == s2.spec_client_id(),
            s1.spec_secret() == s2.spec_secret(),
        ensures
            lookup(s1.spec_auth_params(), "SECRET_HASH"@) == lookup(
                s2.spec_auth_params(),
                "SECRET_HASH"@,
            ),
    {
    }

    /// Answers the server's challenge: fails with `NoChallenge` when there is
    /// none, with `MissingChallengeField` for the first required key that it
    /// lacks, and with `InvalidServerValue` when SRP_B is zero modulo N,
    /// before any SRP computation. Otherwise it returns the five responses of
    /// the password-verifier step where the SRP computation accepts the
    /// challenge, and `Srp` where it does not.
    pub fn answer_challenge(&self, challenge: Option<Vec<(String, String)>>) -> (r: Result<
        Vec<(String, String)>,
        AuthError,
    >)
        ensures
            challenge is None ==> r == Err::<Vec<(String, String)>, AuthError>(
                AuthError::NoChallenge,
            ),
            challenge matches Some(p) ==> match first_missing_challenge_key(p@) {
                Some(k) => r matches Err(AuthError::MissingChallengeField(m)) && m@ == k,
                None => if degenerate_server_value(encode_utf8(lookup(p@, "SRP_B"@)->Some_0)) {
                    r == Err::<Vec<(String, String)>, AuthError>(AuthError::InvalidServerValue)
                } else {
                    &&& r is Ok <==> computable_challenge(self.spec_pool_id(), p@)
                        && base64_decodes(lookup(p@, "SECRET_BLOCK"@)->Some_0)
                    &&& r matches Err(e) ==> e is Srp
                    &&& r matches Ok(v) ==> exists|t: Seq<char>, s: Seq<char>|
                        pairs_view(v@) == #[trigger] answer_fields(
                            self.spec_username(),
                            t,
                            lookup(p@, "SECRET_BLOCK"@)->Some_0,
                            s,
                            Some(
                                secret_hash_of(
                                    self.spec_username(),
                                    self.spec_client_id(),
                                    self.spec_secret(),
                                ),
                            ),
                        )
                },
            },
    {
        let params = match challenge {
            Some(p) => p,
            None => return Err(AuthError::NoChallenge),
        };
        if find_value(&params, "SALT").is_none() {
            return Err(missing("SALT"));
        }
        let srp_b = match find_value(&params, "SRP_B") {
            Some(b) => b,
            None => return Err(missing("SRP_B")),
        };
        if find_value(&params, "SECRET_BLOCK").is_none() {
            return Err(missing("SECRET_BLOCK"));
        }
        if find_value(&params, "USER_ID_FOR_SRP").is_none() {
            return Err(missing("USER_ID_FOR_SRP"));
        }
        if is_degenerate_server_value(srp_b.as_str()) {
            return Err(AuthError::InvalidServerValue);
        }
        let ghost p = params@;
        match self.handle.process_challenge(params) {
            Ok(responses) => {
                let r = answer_from_responses(self.handle.username(), &responses);
                proof {
                    let t = lookup(responses@, "TIMESTAMP"@)->Some_0;
                    let s = lookup(responses@, "PASSWORD_CLAIM_SIGNATURE"@)->Some_0;
                    assert(pairs_view(r->Ok_0@) == answer_fields(
                        self.spec_username(),
                        t,
                        lookup(p, "SECRET_BLOCK"@)->Some_0,
                        s,
                        Some(
                            secret_hash_of(
                                self.spec_username(),
                                self.spec_client_id(),
                                self.spec_secret(),
                            ),
                        ),
                    ));
                }
                r
            },
            Err(e) => Err(AuthError::Srp(srp_error_text(&e))),
        }
    }
}

} // verus!
