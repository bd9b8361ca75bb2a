use vstd::prelude::*;
use crate::outcome::{Outcome, Status, INTERNAL_SERVER_ERROR};

verus! {

/// A proof that a request has passed CSRF checks.
///
/// It carries no token material; holding one is the capability.
#[derive(Debug, PartialEq, Eq, Structural)]
pub enum CsrfCheckProof {
    /// The request has passed CSRF checks.
    PassedCsrfChecks,
}

impl Clone for CsrfCheckProof {
    fn clone(&self) -> (copy: Self)
        ensures
            copy == *self,
    {
        CsrfCheckProof::PassedCsrfChecks
    }
}

impl Default for CsrfCheckProof {
    fn default() -> (granted: Self)
        ensures
            granted == CsrfCheckProof::PassedCsrfChecks,
    {
        CsrfCheckProof::PassedCsrfChecks
    }
}

/// The slot, one per request, that holds the proof of the latest check that
/// passed. It starts empty and lives no longer than its request.
#[derive(Debug)]
pub struct ProofCache<P> {
    slot: Option<P>,
}

impl<P> View for ProofCache<P> {
    type V = Option<P>;

    closed spec fn view(&self) -> Option<P> {
        self.slot
    }
}

impl<P> ProofCache<P> {
    /// The cache of a request on which no check has passed yet.
    pub fn new() -> (cache: Self)
        ensures
            cache@ is None,
    {
        ProofCache { slot: None }
    }

    /// The proof on record, if any check has passed.
    pub fn get(&self) -> (recorded: Option<&P>)
        ensures
            recorded is Some == self@ is Some,
            recorded matches Some(p) ==> self@ == Some(*p),
    {
        self.slot.as_ref()
    }

    /// Hands the recorded proof to the host, ending the cache.
    pub fn into_inner(self) -> (recorded: Option<P>)
        ensures
            recorded == self@,
    {
        self.slot
    }
}

/// Records `granted` as the proof of this request; a proof recorded earlier
/// is replaced.
pub fn set_proof_in_cache<P>(cache: &mut ProofCache<P>, granted: P)
    ensures
        final(cache)@ == Some(granted),
{
    cache.slot = Some(granted);
}

impl CsrfCheckProof {
    /// What a consumer of the proof gets.
    pub open spec fn lookup<E>(recorded: Option<CsrfCheckProof>) -> Outcome<CsrfCheckProof, E, Status> {
        match recorded {
            Some(granted) => Outcome::Success(granted),
            None => Outcome::Forward(Status { code: INTERNAL_SERVER_ERROR }),
        }
    }

    /// Asks whether a CSRF check has passed earlier in this request.
    ///
    /// With nothing on record the request is untrusted: the outcome is a
    /// forward, never a success.
    pub fn from_request<E>(cache: &ProofCache<CsrfCheckProof>) -> (outcome: Outcome<
        CsrfCheckProof,
        E,
        Status,
    >)
        ensures
            outcome == Self::lookup::<E>(cache@),
    {
        match cache.get() {
            Some(granted) => Outcome::Success(granted.clone()),
            None => Outcome::Forward(Status::internal_server_error()),
        }
    }
}

/// A proof on record reaches its consumers, and only a proof on record
/// does: where a check has recorded `granted`, a consumer in the same
/// request gets it; on a cache on which nothing was recorded, the consumer
/// is forwarded with an internal server error and never succeeds.
pub proof fn lemma_proof_propagation<E>(
    cache: ProofCache<CsrfCheckProof>,
    granted: CsrfCheckProof,
)
    ensures
        cache@ == Some(granted) ==> CsrfCheckProof::lookup::<E>(cache@) == Outcome::<
            CsrfCheckProof,
            E,
            Status,
        >::Success(granted),
        cache@ is None ==> CsrfCheckProof::lookup::<E>(cache@) == Outcome::<
            CsrfCheckProof,
            E,
            Status,
        >::Forward(Status { code: INTERNAL_SERVER_ERROR }),
{
}

} // verus!
