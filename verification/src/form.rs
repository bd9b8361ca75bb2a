use vstd::prelude::*;
use std::marker::PhantomData;
use crate::check_proof::{set_proof_in_cache, ProofCache};
use crate::outcome::{Outcome, Status, Step, FORBIDDEN, INTERNAL_SERVER_ERROR};
use crate::token::{tokens_of, Form, WithUserProvidedCsrfToken};
use crate::verification::CsrfTokenVerifier;

verus! {

/// Errors when validating a [`CsrfProtectedForm`].
#[derive(Debug)]
pub enum CsrfProtectedFormError<T> {
    /// There was no verifier to check the provided token against.
    NoVerifierFound,
    /// The token did not pass verification. The error of the verifier is
    /// dropped on purpose, so that no message can hold a token.
    CsrfTokenVerificationError,
    /// The payload could not be parsed.
    FormParsing(T),
}

/// Errors when validating a [`CsrfProtectedFormWithGuard`].
#[derive(Debug)]
pub enum CsrfProtectedFormWithGuardError<T, E> {
    /// The underlying [`CsrfProtectedForm`] was not valid.
    CsrfProtection(CsrfProtectedFormError<T>),
    /// The guard forwarded the request.
    FromRequestForwarded,
    /// The guard failed.
    FromRequestFailed(Status, E),
}

/// A payload together with the proof that its token passed verification.
///
/// There is no way to make one but to pass the check.
pub struct CsrfProtectedForm<V, F> where V: CsrfTokenVerifier {
    form: F,
    granted: V::Proof,
    _marker: PhantomData<V>,
}

/// A payload check whose verifier is at hand and whose payload is still to
/// be parsed.
pub struct AwaitingPayload<V> {
    verifier: V,
}

impl<V> View for AwaitingPayload<V> {
    type V = V;

    closed spec fn view(&self) -> V {
        self.verifier
    }
}

impl<V, F> CsrfProtectedForm<V, F> where V: CsrfTokenVerifier {
    /// The payload that passed.
    pub closed spec fn payload(&self) -> F {
        self.form
    }

    /// The proof that the verifier handed out.
    pub closed spec fn evidence(&self) -> V::Proof {
        self.granted
    }

    /// Extracts the payload, throwing away the proof.
    pub fn into_inner(self) -> (form: F)
        ensures
            form == self.payload(),
    {
        self.form
    }
}

impl<V, F> std::ops::Deref for CsrfProtectedForm<V, F> where V: CsrfTokenVerifier {
    type Target = F;

    fn deref(&self) -> (form: &F)
        ensures
            *form == self.payload(),
    {
        &self.form
    }
}

impl<V, F> std::ops::DerefMut for CsrfProtectedForm<V, F> where V: CsrfTokenVerifier {
    fn deref_mut(&mut self) -> (form: &mut F)
        ensures
            *form == old(self).payload(),
            final(self).payload() == *final(form),
            final(self).evidence() == old(self).evidence(),
    {
        &mut self.form
    }
}

impl<V, F> CsrfProtectedForm<V, Form<F>> where V: CsrfTokenVerifier {
    /// Extracts the parsed payload, throwing away the proof.
    pub fn into_innermost(self) -> (form: F)
        ensures
            form == self.payload()@,
    {
        self.form.into_inner()
    }

    /// Extracts the proof and the parsed payload.
    pub fn into_parts(self) -> (parts: (V::Proof, F))
        ensures
            parts == (self.evidence(), self.payload()@),
    {
        (self.granted, self.form.into_inner())
    }
}

impl<V, F> CsrfProtectedForm<V, F> where
    V: CsrfTokenVerifier,
    V::Proof: Clone,
    F: WithUserProvidedCsrfToken,
 {
    /// The first step of the check: the host has tried to extract the
    /// verifier, and nothing of the payload has been read yet.
    ///
    /// Without a verifier the check ends here. It is never skipped.
    pub fn on_verifier<VE, PE>(verifier: Outcome<V, (Status, VE), Status>) -> (step: Step<
        AwaitingPayload<V>,
        Outcome<Self, (Status, CsrfProtectedFormError<PE>), Status>,
    >)
        ensures
            match verifier {
                Outcome::Success(v) => step matches Step::Continue(next) && next@ == v,
                Outcome::Error((status, _)) => step matches Step::Done(Outcome::Error((s, e)))
                    && s == status && e is NoVerifierFound,
                Outcome::Forward(status) => step matches Step::Done(Outcome::Forward(s)) && s
                    == status,
            },
    {
        match verifier {
            Outcome::Success(verifier) => Step::Continue(AwaitingPayload { verifier }),
            Outcome::Error((status, _)) => Step::Done(
                Outcome::Error((status, CsrfProtectedFormError::NoVerifierFound)),
            ),
            Outcome::Forward(status) => Step::Done(Outcome::Forward(status)),
        }
    }

    /// The end of the check, for a payload that was parsed and a verification
    /// that has been made: only a granted proof lets the payload through,
    /// and that proof is recorded before the payload is handed out.
    fn conclude<PE, D>(
        form: F,
        verification: Result<V::Proof, V::Error>,
        cache: &mut ProofCache<V::Proof>,
    ) -> (outcome: Outcome<Self, (Status, CsrfProtectedFormError<PE>), D>)
        ensures
            match verification {
                Ok(granted) => {
                    &&& outcome matches Outcome::Success(protected)
                    &&& protected.payload() == form
                    &&& protected.evidence() == granted
                    &&& final(cache)@ matches Some(recorded)
                    &&& cloned(granted, recorded)
                },
                Err(_) => {
                    &&& outcome matches Outcome::Error((status, e))
                    &&& status == (Status { code: FORBIDDEN })
                    &&& e is CsrfTokenVerificationError
                    &&& final(cache)@ == old(cache)@
                },
            },
    {
        match verification {
            Ok(granted) => {
                set_proof_in_cache(cache, granted.clone());
                Outcome::Success(CsrfProtectedForm { form, granted, _marker: PhantomData })
            },
            Err(_) => Outcome::Error(
                (Status::forbidden(), CsrfProtectedFormError::CsrfTokenVerificationError),
            ),
        }
    }
}

impl<V> AwaitingPayload<V> where V: CsrfTokenVerifier, V::Proof: Clone {
    /// What holds when the second step of a check has ended in `outcome`,
    /// for a cache that held `before` and now holds `after`.
    pub open spec fn payload_checked<F, PE, D>(
        self,
        payload: Outcome<F, (Status, PE), D>,
        before: Option<V::Proof>,
        after: Option<V::Proof>,
        outcome: Outcome<CsrfProtectedForm<V, F>, (Status, CsrfProtectedFormError<PE>), D>,
    ) -> bool where F: WithUserProvidedCsrfToken {
        match payload {
            Outcome::Success(form) => match outcome {
                Outcome::Success(protected) => {
                    &&& protected.payload() == form
                    &&& self@.verify_ensures(tokens_of(&form), Ok(protected.evidence()))
                    &&& after matches Some(recorded)
                    &&& cloned(protected.evidence(), recorded)
                },
                Outcome::Error((status, e)) => {
                    &&& status == (Status { code: FORBIDDEN })
                    &&& e is CsrfTokenVerificationError
                    &&& exists|refusal: V::Error| #[trigger]
                        self@.verify_ensures(tokens_of(&form), Err(refusal))
                    &&& after == before
                },
                Outcome::Forward(_) => false,
            },
            Outcome::Error((status, failure)) => {
                &&& outcome matches Outcome::Error((s, CsrfProtectedFormError::FormParsing(e)))
                &&& s == status
                &&& e == failure
                &&& after == before
            },
            Outcome::Forward(passed_on) => {
                &&& outcome matches Outcome::Forward(d)
                &&& d == passed_on
                &&& after == before
            },
        }
    }

    /// The second step of the check: the host has tried to parse the payload.
    ///
    /// A payload that did not parse ends the check before any verification.
    /// One that parsed is handed to the verifier, and comes back only with
    /// the proof that the verifier granted, after that proof was recorded.
    pub fn on_payload<F, PE, D>(
        self,
        payload: Outcome<F, (Status, PE), D>,
        cache: &mut ProofCache<V::Proof>,
    ) -> (outcome: Outcome<CsrfProtectedForm<V, F>, (Status, CsrfProtectedFormError<PE>), D>) where
        F: WithUserProvidedCsrfToken,

        ensures
            self.payload_checked(payload, old(cache)@, final(cache)@, outcome),
    {
        match payload {
            Outcome::Success(form) => {
                let verification = self.verifier.verify(&form);
                assert(verification matches Err(refusal) ==> self@.verify_ensures(
                    tokens_of(&form),
                    Err(refusal),
                ));
                CsrfProtectedForm::conclude(form, verification, cache)
            },
            Outcome::Error((status, failure)) => Outcome::Error(
                (status, CsrfProtectedFormError::FormParsing(failure)),
            ),
            Outcome::Forward(passed_on) => Outcome::Forward(passed_on),
        }
    }
}

/// A protected payload together with the result of one more guard, which ran
/// only after the CSRF check had passed.
pub struct CsrfProtectedFormWithGuard<V, F, G> where V: CsrfTokenVerifier {
    form: F,
    granted: V::Proof,
    guard: G,
    _marker: PhantomData<V>,
}

/// A guarded check whose payload has passed and whose guard is still to run.
pub struct AwaitingGuard<V, F> where V: CsrfTokenVerifier {
    protected: CsrfProtectedForm<V, F>,
}

impl<V, F> View for AwaitingGuard<V, F> where V: CsrfTokenVerifier {
    type V = CsrfProtectedForm<V, F>;

    closed spec fn view(&self) -> CsrfProtectedForm<V, F> {
        self.protected
    }
}

impl<V, F, G> CsrfProtectedFormWithGuard<V, F, G> where V: CsrfTokenVerifier {
    /// The payload that passed.
    pub closed spec fn payload(&self) -> F {
        self.form
    }

    /// The proof that the verifier handed out.
    pub closed spec fn evidence(&self) -> V::Proof {
        self.granted
    }

    /// What the guard handed out.
    pub closed spec fn guarded(&self) -> G {
        self.guard
    }
}

impl<V, F, G> CsrfProtectedFormWithGuard<V, Form<F>, G> where V: CsrfTokenVerifier {
    /// Extracts the proof, the guard and the parsed payload.
    pub fn into_parts_with_proof(self) -> (parts: (V::Proof, G, F))
        ensures
            parts == (self.evidence(), self.guarded(), self.payload()@),
    {
        (self.granted, self.guard, self.form.into_inner())
    }

    /// Extracts the guard and the parsed payload, throwing away the proof.
    pub fn into_parts(self) -> (parts: (G, F))
        ensures
            parts == (self.guarded(), self.payload()@),
    {
        (self.guard, self.form.into_inner())
    }
}

impl<V, F, G> CsrfProtectedFormWithGuard<V, F, G> where
    V: CsrfTokenVerifier,
    V::Proof: Clone,
    F: WithUserProvidedCsrfToken,
 {
    /// The first step of the guarded check; see [`CsrfProtectedForm::on_verifier`].
    pub fn on_verifier<VE, PE, GE>(verifier: Outcome<V, (Status, VE), Status>) -> (step: Step<
        AwaitingPayload<V>,
        Outcome<Self, (Status, CsrfProtectedFormWithGuardError<PE, GE>), Status>,
    >)
        ensures
            match verifier {
                Outcome::Success(v) => step matches Step::Continue(next) && next@ == v,
                Outcome::Error((status, _)) => step matches Step::Done(
                    Outcome::Error(
                        (
                            s,
                            CsrfProtectedFormWithGuardError::CsrfProtection(
                                CsrfProtectedFormError::NoVerifierFound,
                            ),
                        ),
                    ),
                ) && s == status,
                Outcome::Forward(status) => step matches Step::Done(Outcome::Forward(s)) && s
                    == status,
            },
    {
        match verifier {
            Outcome::Success(verifier) => Step::Continue(AwaitingPayload { verifier }),
            Outcome::Error((status, _)) => Step::Done(
                Outcome::Error(
                    (
                        status,
                        CsrfProtectedFormWithGuardError::CsrfProtection(
                            CsrfProtectedFormError::NoVerifierFound,
                        ),
                    ),
                ),
            ),
            Outcome::Forward(status) => Step::Done(Outcome::Forward(status)),
        }
    }

    /// The second step of the guarded check: the payload is checked as
    /// [`AwaitingPayload::on_payload`] checks it, and only a payload that
    /// passed lets the guard run.
    pub fn on_payload<PE, GE, D>(
        awaiting: AwaitingPayload<V>,
        payload: Outcome<F, (Status, PE), D>,
        cache: &mut ProofCache<V::Proof>,
    ) -> (step: Step<
        AwaitingGuard<V, F>,
        Outcome<Self, (Status, CsrfProtectedFormWithGuardError<PE, GE>), D>,
    >)
        ensures
            match payload {
                Outcome::Success(form) => match step {
                    Step::Continue(next) => {
                        &&& next@.payload() == form
                        &&& awaiting@.verify_ensures(tokens_of(&form), Ok(next@.evidence()))
                        &&& final(cache)@ matches Some(recorded)
                        &&& cloned(next@.evidence(), recorded)
                    },
                    Step::Done(Outcome::Error((status, e))) => {
                        &&& status == (Status { code: FORBIDDEN })
                        &&& e matches CsrfProtectedFormWithGuardError::CsrfProtection(
                            CsrfProtectedFormError::CsrfTokenVerificationError,
                        )
                        &&& exists|refusal: V::Error| #[trigger]
                            awaiting@.verify_ensures(tokens_of(&form), Err(refusal))
                        &&& final(cache)@ == old(cache)@
                    },
                    Step::Done(_) => false,
                },
                Outcome::Error((status, failure)) => {
                    &&& step matches Step::Done(
                        Outcome::Error(
                            (
                                s,
                                CsrfProtectedFormWithGuardError::CsrfProtection(
                                    CsrfProtectedFormError::FormParsing(e),
                                ),
                            ),
                        ),
                    )
                    &&& s == status
                    &&& e == failure
                    &&& final(cache)@ == old(cache)@
                },
                Outcome::Forward(passed_on) => {
                    &&& step matches Step::Done(Outcome::Forward(d))
                    &&& d == passed_on
                    &&& final(cache)@ == old(cache)@
                },
            },
    {
        match awaiting.on_payload(payload, cache) {
            Outcome::Success(protected) => Step::Continue(AwaitingGuard { protected }),
            Outcome::Error((status, e)) => Step::Done(
                Outcome::Error((status, CsrfProtectedFormWithGuardError::CsrfProtection(e))),
            ),
            Outcome::Forward(passed_on) => Step::Done(Outcome::Forward(passed_on)),
        }
    }

    /// The last step of the guarded check: the guard has run, after the
    /// proof was recorded.
    ///
    /// The payload comes out only if the guard succeeded. A guard that
    /// failed ends the check with its own status and error. One that
    /// forwarded ends it with an internal server error: the CSRF check has
    /// passed by now, so a forward would leave the request half-checked.
    pub fn on_guard<PE, GE, D>(
        awaiting: AwaitingGuard<V, F>,
        guard: Outcome<G, (Status, GE), Status>,
    ) -> (outcome: Outcome<Self, (Status, CsrfProtectedFormWithGuardError<PE, GE>), D>)
        ensures
            match guard {
                Outcome::Success(g) => {
                    &&& outcome matches Outcome::Success(guarded)
                    &&& guarded.payload() == awaiting@.payload()
                    &&& guarded.evidence() == awaiting@.evidence()
                    &&& guarded.guarded() == g
                },
                Outcome::Error((status, failure)) => {
                    &&& outcome matches Outcome::Error(
                        (s, CsrfProtectedFormWithGuardError::FromRequestFailed(inner, e)),
                    )
                    &&& s == status
                    &&& inner == status
                    &&& e == failure
                },
                Outcome::Forward(_) => {
                    &&& outcome matches Outcome::Error(
                        (s, CsrfProtectedFormWithGuardError::FromRequestForwarded),
                    )
                    &&& s == (Status { code: INTERNAL_SERVER_ERROR })
                },
            },
    {
        match guard {
            Outcome::Success(guard) => {
                let CsrfProtectedForm { form, granted, _marker } = awaiting.protected;
                Outcome::Success(
                    CsrfProtectedFormWithGuard { form, granted, guard, _marker: PhantomData },
                )
            },
            Outcome::Error((status, failure)) => Outcome::Error(
                (status, CsrfProtectedFormWithGuardError::FromRequestFailed(status, failure)),
            ),
            Outcome::Forward(_) => Outcome::Error(
                (
                    Status::internal_server_error(),
                    CsrfProtectedFormWithGuardError::FromRequestForwarded,
                ),
            ),
        }
    }
}

} // verus!
