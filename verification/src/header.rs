use vstd::prelude::*;
use std::marker::PhantomData;
use crate::check_proof::{set_proof_in_cache, ProofCache};
use crate::outcome::{Outcome, Status, Step, FORBIDDEN};
use crate::token::{tokens_of, WithUserProvidedCsrfToken};
use crate::verification::{expects, CsrfTokenVerifier, VerifierWithKnownExpectedToken};

verus! {

/// The header that carries the token of a request without a payload.
pub const CSRF_HEADER_NAME: &'static str = "X-CSRF-Token";

/// Errors when validating a [`CheckCsrfProtectionHeader`].
#[derive(Debug, PartialEq, Eq, Structural)]
pub enum CheckCsrfProtectionHeaderError {
    /// There was no verifier to check the provided token against.
    NoVerifierFound,
    /// The request carried no `X-CSRF-Token` header.
    NoHeaderPresent,
    /// The token did not pass verification. The error of the verifier is
    /// dropped on purpose, so that no message can hold a token.
    CsrfTokenVerificationError,
}

/// A token that was read from a header.
pub struct CsrfTokenSourcedFromHeader<'r>(&'r str);

impl<'r> View for CsrfTokenSourcedFromHeader<'r> {
    type V = Seq<char>;

    closed spec fn view(&self) -> Seq<char> {
        self.0@
    }
}

impl<'r> CsrfTokenSourcedFromHeader<'r> {
    /// The source that holds `value`.
    pub closed spec fn holding(value: &'r str) -> Self {
        CsrfTokenSourcedFromHeader(value)
    }

    /// Wraps the value of the header.
    pub fn new(value: &'r str) -> (source: Self)
        ensures
            source == Self::holding(value),
            source@ == value@,
    {
        CsrfTokenSourcedFromHeader(value)
    }

    /// A source holds the text that it was made of, and nothing else.
    pub proof fn lemma_holding(value: &'r str)
        ensures
            Self::holding(value)@ == value@,
    {
    }
}

impl<'r> WithUserProvidedCsrfToken for CsrfTokenSourcedFromHeader<'r> {
    fn csrf_token(&self) -> (token: &str)
        ensures
            token@ == self@,
    {
        self.0
    }
}

/// The mark of a request whose header token passed verification.
#[derive(Debug)]
pub struct CheckCsrfProtectionHeader<V>(PhantomData<V>);

/// A header check whose verifier is at hand and whose header is still to be
/// looked up.
pub struct AwaitingHeader<V> {
    verifier: V,
}

impl<V> View for AwaitingHeader<V> {
    type V = V;

    closed spec fn view(&self) -> V {
        self.verifier
    }
}

impl<V> CheckCsrfProtectionHeader<V> where V: CsrfTokenVerifier {
    /// What holds when the first step of a check has ended in `step`.
    pub open spec fn verifier_checked<VE>(
        verifier: Outcome<V, (Status, VE), Status>,
        step: Step<AwaitingHeader<V>, Outcome<Self, (Status, CheckCsrfProtectionHeaderError), Status>>,
    ) -> bool {
        match verifier {
            Outcome::Success(v) => step matches Step::Continue(next) && next@ == v,
            _ => {
                &&& step matches Step::Done(Outcome::Error(refused))
                &&& refused == (
                    Status { code: FORBIDDEN },
                    CheckCsrfProtectionHeaderError::NoVerifierFound,
                )
            },
        }
    }

    /// The first step of the check: the host has tried to extract the
    /// verifier.
    ///
    /// Without a verifier the check ends here, and the request is
    /// forbidden, whether the extraction failed or did not apply. The
    /// check is never skipped, and the request is never handed on
    /// unchecked.
    pub fn on_verifier<VE>(verifier: Outcome<V, (Status, VE), Status>) -> (step: Step<
        AwaitingHeader<V>,
        Outcome<Self, (Status, CheckCsrfProtectionHeaderError), Status>,
    >)
        ensures
            Self::verifier_checked(verifier, step),
    {
        match verifier {
            Outcome::Success(verifier) => Step::Continue(AwaitingHeader { verifier }),
            _ => Step::Done(
                Outcome::Error(
                    (Status::forbidden(), CheckCsrfProtectionHeaderError::NoVerifierFound),
                ),
            ),
        }
    }

    /// The end of the check, for a verification that has been made: a
    /// granted proof is recorded, and anything else is forbidden.
    fn conclude(
        verification: Result<V::Proof, V::Error>,
        cache: &mut ProofCache<V::Proof>,
    ) -> (outcome: Outcome<Self, (Status, CheckCsrfProtectionHeaderError), Status>)
        ensures
            match verification {
                Ok(granted) => outcome is Success && final(cache)@ == Some(granted),
                Err(_) => {
                    &&& outcome matches Outcome::Error(refused)
                    &&& refused == (
                        Status { code: FORBIDDEN },
                        CheckCsrfProtectionHeaderError::CsrfTokenVerificationError,
                    )
                    &&& final(cache)@ == old(cache)@
                },
            },
    {
        match verification {
            Ok(granted) => {
                set_proof_in_cache(cache, granted);
                Outcome::Success(CheckCsrfProtectionHeader(PhantomData))
            },
            Err(_) => Outcome::Error(
                (Status::forbidden(), CheckCsrfProtectionHeaderError::CsrfTokenVerificationError),
            ),
        }
    }
}

impl<V> AwaitingHeader<V> where V: CsrfTokenVerifier {
    /// What holds when the second step of a check has ended in `outcome`,
    /// for a cache that held `before` and now holds `after`.
    pub open spec fn header_checked(
        self,
        header: Option<&str>,
        before: Option<V::Proof>,
        after: Option<V::Proof>,
        outcome: Outcome<
            CheckCsrfProtectionHeader<V>,
            (Status, CheckCsrfProtectionHeaderError),
            Status,
        >,
    ) -> bool {
        match header {
            Some(value) => match outcome {
                Outcome::Success(_) => {
                    &&& after matches Some(granted)
                    &&& self@.verify_ensures(
                        tokens_of(&CsrfTokenSourcedFromHeader::holding(value)),
                        Ok(granted),
                    )
                },
                Outcome::Error(refused) => {
                    &&& refused == (
                        Status { code: FORBIDDEN },
                        CheckCsrfProtectionHeaderError::CsrfTokenVerificationError,
                    )
                    &&& exists|refusal: V::Error| #[trigger]
                        self@.verify_ensures(
                            tokens_of(&CsrfTokenSourcedFromHeader::holding(value)),
                            Err(refusal),
                        )
                    &&& after == before
                },
                Outcome::Forward(_) => false,
            },
            None => {
                &&& outcome matches Outcome::Error(refused)
                &&& refused == (
                    Status { code: FORBIDDEN },
                    CheckCsrfProtectionHeaderError::NoHeaderPresent,
                )
                &&& after == before
            },
        }
    }

    /// The second step of the check: the host has looked the header up.
    ///
    /// A request without the header is forbidden. The value of the header is
    /// handed to the verifier, and the check passes only with the proof that
    /// the verifier granted, which is then on record.
    pub fn on_header(self, header: Option<&str>, cache: &mut ProofCache<V::Proof>) -> (outcome:
        Outcome<CheckCsrfProtectionHeader<V>, (Status, CheckCsrfProtectionHeaderError), Status>)
        ensures
            self.header_checked(header, old(cache)@, final(cache)@, outcome),
    {
        match header {
            Some(value) => {
                let source = CsrfTokenSourcedFromHeader::new(value);
                let verification = self.verifier.verify(&source);
                assert(verification matches Err(refusal) ==> self@.verify_ensures(
                    tokens_of(&source),
                    Err(refusal),
                ));
                CheckCsrfProtectionHeader::conclude(verification, cache)
            },
            None => Outcome::Error(
                (Status::forbidden(), CheckCsrfProtectionHeaderError::NoHeaderPresent),
            ),
        }
    }
}

/// The header path without a verifier. Where the verifier could not be
/// had, be it that its extraction failed or that it forwarded, the request
/// is forbidden for want of a verifier, which is neither a missing header
/// nor a refused token. The check does not go on, so that it cannot pass
/// and no proof is recorded.
pub proof fn lemma_header_needs_verifier<V, VE>(
    verifier: Outcome<V, (Status, VE), Status>,
    step: Step<
        AwaitingHeader<V>,
        Outcome<CheckCsrfProtectionHeader<V>, (Status, CheckCsrfProtectionHeaderError), Status>,
    >,
) where V: CsrfTokenVerifier
    requires
        verifier !is Success,
        CheckCsrfProtectionHeader::<V>::verifier_checked(verifier, step),
    ensures
        step !is Continue,
        step matches Step::Done(Outcome::Error((status, e))) && {
            &&& status == (Status { code: FORBIDDEN })
            &&& e is NoVerifierFound
            &&& e !is NoHeaderPresent
            &&& e !is CsrfTokenVerificationError
        },
{
}

/// The header path, for a verifier that knows the one token it expects.
/// Once such a verifier is at hand, a header that carries the expected
/// token passes, with the proof on record; a header with any other value,
/// and a request without the header, are forbidden, and the cache stays as
/// it was.
pub proof fn lemma_header_path<T>(
    awaiting: AwaitingHeader<T>,
    expected: Seq<char>,
    header: Option<&str>,
    before: Option<T::Proof>,
    after: Option<T::Proof>,
    outcome: Outcome<CheckCsrfProtectionHeader<T>, (Status, CheckCsrfProtectionHeaderError), Status>,
) where T: VerifierWithKnownExpectedToken + Send + Sync + 'static
    requires
        forall|token: Seq<char>| expects(&awaiting@, token) ==> token == expected,
        awaiting.header_checked(header, before, after, outcome),
    ensures
        match header {
            Some(value) => if value@ == expected {
                outcome is Success && after is Some
            } else {
                &&& outcome matches Outcome::Error(refused)
                &&& refused == (
                    Status { code: FORBIDDEN },
                    CheckCsrfProtectionHeaderError::CsrfTokenVerificationError,
                )
                &&& after == before
            },
            None => {
                &&& outcome matches Outcome::Error(refused)
                &&& refused == (
                    Status { code: FORBIDDEN },
                    CheckCsrfProtectionHeaderError::NoHeaderPresent,
                )
                &&& after == before
            },
        },
{
}

} // verus!
