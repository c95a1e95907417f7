use vstd::prelude::*;

use cognito_srp::{CognitoSrpError, SrpClient};
use vstd::utf8::encode_utf8;

use crate::group::is_hex;
use crate::pairs::lookup;

verus! {

#[verifier::external_type_specification]
#[verifier::external_body]
pub struct ExSrpClient<'a>(SrpClient<'a>);

#[verifier::external_type_specification]
#[verifier::external_body]
pub struct ExCognitoSrpError(CognitoSrpError);

/// SECRET_HASH: Base64 of HMAC-SHA256 keyed by the client's shared secret
/// over the user name followed by the client id.
pub uninterp spec fn secret_hash_of(username: Seq<char>, client_id: Seq<char>, secret: Seq<char>) -> Seq<char>;

/// Whether the text is Base64 (standard alphabet, padded) that decodes.
pub uninterp spec fn base64_decodes(text: Seq<char>) -> bool;

/// Text with at least one `_`, as a pool id `<region>_<pool name>` has.
pub open spec fn has_underscore(s: Seq<char>) -> bool {
    exists|i: int| 0 <= i < s.len() && s[i] == '_'
}

/// Challenge parameters that the SRP computation accepts for a pool id:
/// the four required keys are there, SALT and SRP_B are hex text, and the
/// pool id names a pool after its `_` (SECRET_BLOCK must also be Base64).
pub open spec fn computable_challenge(pool_id: Seq<char>, p: Seq<(String, String)>) -> bool {
    &&& lookup(p, "SECRET_BLOCK"@) is Some
    &&& lookup(p, "USER_ID_FOR_SRP"@) is Some
    &&& lookup(p, "SALT"@) is Some
    &&& lookup(p, "SRP_B"@) is Some
    &&& has_underscore(pool_id)
    &&& is_hex(encode_utf8(lookup(p, "SALT"@)->Some_0))
    &&& is_hex(encode_utf8(lookup(p, "SRP_B"@)->Some_0))
}

/// An SRP client together with the names and the secret it was made for.
pub(crate) struct SrpHandle<'a> {
    client: SrpClient<'a>,
    username: &'a str,
    pool_id: &'a str,
    client_id: &'a str,
    secret: &'a str,
}

impl<'a> SrpHandle<'a> {
    pub closed spec fn spec_username(&self) -> Seq<char> {
        self.username@
    }

    pub closed spec fn spec_pool_id(&self) -> Seq<char> {
        self.pool_id@
    }

    pub closed spec fn spec_client_id(&self) -> Seq<char> {
        self.client_id@
    }

    pub closed spec fn spec_secret(&self) -> Seq<char> {
        self.secret@
    }

    /// Relies on cognito_srp's `SrpClient::new`: it draws a fresh random
    /// private exponent and keeps the names and the secret it is given.
    #[verifier::external_body]
    pub(crate) fn new(
        username: &'a str,
        password: &'a str,
        pool_id: &'a str,
        client_id: &'a str,
        secret: &'a str,
    ) -> (r: SrpHandle<'a>)
        ensures
            r.spec_username() == username@,
            r.spec_pool_id() == pool_id@,
            r.spec_client_id() == client_id@,
            r.spec_secret() == secret@,
    {
        let client = SrpClient::new(username, password, pool_id, client_id, Some(secret));
        SrpHandle { client, username, pool_id, client_id, secret }
    }

    pub(crate) fn username(&self) -> (r: &'a str)
        ensures
            r@ == self.spec_username(),
    {
        self.username
    }

    pub(crate) fn client_id(&self) -> (r: &'a str)
        ensures
            r@ == self.spec_client_id(),
    {
        self.client_id
    }

    /// Relies on cognito_srp's `SrpClient::get_auth_params`: it succeeds (its
    /// HMAC takes a key of any length) with USERNAME, SRP_A (the public value,
    /// which depends on the random exponent) and SECRET_HASH; the map is
    /// handed back as a list of pairs.
    #[verifier::external_body]
    pub(crate) fn auth_params(&self) -> (r: Result<Vec<(String, String)>, CognitoSrpError>)
        ensures
            r is Ok,
            r matches Ok(v) ==> {
                &&& lookup(v@, "USERNAME"@) == Some(self.spec_username())
                &&& lookup(v@, "SRP_A"@) is Some
                &&& lookup(v@, "SECRET_HASH"@) == Some(
                    secret_hash_of(self.spec_username(), self.spec_client_id(), self.spec_secret()),
                )
            },
    {
        self.client.get_auth_params().map(|m| m.into_iter().collect())
    }

    /// Relies on cognito_srp's `SrpClient::process_challenge`: it succeeds
    /// exactly on a computable challenge whose SECRET_BLOCK is Base64 (its
    /// HMAC takes a key of any length), and then answers with TIMESTAMP,
    /// PASSWORD_CLAIM_SIGNATURE (both depend on the clock and the random
    /// exponent), USERNAME set to USER_ID_FOR_SRP, PASSWORD_CLAIM_SECRET_BLOCK
    /// set to SECRET_BLOCK, and SECRET_HASH. The list is collected into a map,
    /// so the last pair of a repeated key counts.
    #[verifier::external_body]
    pub(crate) fn process_challenge(&self, params: Vec<(String, String)>) -> (r: Result<
        Vec<(String, String)>,
        CognitoSrpError,
    >)
        ensures
            r is Ok <==> (computable_challenge(self.spec_pool_id(), params@)
                && base64_decodes(lookup(params@, "SECRET_BLOCK"@)->Some_0)),
            r matches Ok(v) ==> {
                &&& lookup(v@, "TIMESTAMP"@) is Some
                &&& lookup(v@, "PASSWORD_CLAIM_SIGNATURE"@) is Some
                &&& lookup(v@, "USERNAME"@) == lookup(params@, "USER_ID_FOR_SRP"@)
                &&& lookup(v@, "PASSWORD_CLAIM_SECRET_BLOCK"@) == lookup(params@, "SECRET_BLOCK"@)
                &&& lookup(v@, "SECRET_HASH"@) == Some(
                    secret_hash_of(self.spec_username(), self.spec_client_id(), self.spec_secret()),
                )
            },
    {
        self.client.process_challenge(params.into_iter().collect()).map(|m| m.into_iter().collect())
    }
}

/// Relies on the `Display` text of cognito_srp's `CognitoSrpError`.
#[verifier::external_body]
pub(crate) fn srp_error_text(e: &CognitoSrpError) -> (r: String) {
    e.to_string()
}

} // verus!
