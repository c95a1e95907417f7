use vstd::prelude::*;

use crate::error::AuthError;

verus! {

/// A client that signs users in; `G` is the credential source that supplies
/// the pool identity of each attempt.
pub struct TokenClient<G> {
    getter: G,
}

/// Collects what a [`TokenClient`] needs before it can be built.
pub struct TokenClientBuilder<G> {
    getter: Option<G>,
}

impl<G> TokenClient<G> {
    /// The credential source chosen at construction.
    pub closed spec fn spec_getter(&self) -> G {
        self.getter
    }

    /// Starts a builder with no credential source set.
    pub fn bulider() -> (r: TokenClientBuilder<G>)
        ensures
            r.spec_getter() is None,
    {
        TokenClientBuilder { getter: None }
    }

    /// The credential source that each attempt fetches its identity from.
    pub fn getter(&self) -> (r: &G)
        ensures
            *r == self.spec_getter(),
    {
        &self.getter
    }
}

impl<G> TokenClientBuilder<G> {
    /// The credential source set so far, if any.
    pub closed spec fn spec_getter(&self) -> Option<G> {
        self.getter
    }

    /// Sets (or, with `None`, clears) the credential source.
    pub fn set_getter(self, getter: Option<G>) -> (r: Self)
        ensures
            r.spec_getter() == getter,
    {
        TokenClientBuilder { getter }
    }

    /// Builds the client; fails with `MissingCredentialSource` when no
    /// credential source was set.
    pub fn build(self) -> (r: Result<TokenClient<G>, AuthError>)
        ensures
            self.spec_getter() is None <==> r == Err::<TokenClient<G>, AuthError>(
                AuthError::MissingCredentialSource,
            ),
            self.spec_getter() is Some ==> r is Ok && r->Ok_0.spec_getter()
                == self.spec_getter()->Some_0,
    {
        match self.getter {
            Some(getter) => Ok(TokenClient { getter }),
            None => Err(AuthError::MissingCredentialSource),
        }
    }
}

} // verus!
