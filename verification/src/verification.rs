use vstd::prelude::*;
use vstd::utf8::encode_utf8_decode_utf8;
use vstd::string::StringExecFns;
use crate::token::{tokens_of, WithUserProvidedCsrfToken};

verus! {

/// Errors which can happen when verifying a CSRF token.
#[derive(Debug)]
pub enum CsrfTokenVerificationError {
    /// The CSRF token did not match the expected token.
    ///
    /// Neither token is kept here, so that no message can ever show one.
    CsrfTokenMismatch,
    /// For verifiers with failures of their own: a description of the cause.
    Unknown(String),
}

impl CsrfTokenVerificationError {
    /// The message of this error. It never holds a token.
    pub fn message(&self) -> (text: String)
        ensures
            text@ == match *self {
                CsrfTokenVerificationError::CsrfTokenMismatch => "CSRF token did not match!"@,
                CsrfTokenVerificationError::Unknown(cause) => "Unknown error: "@ + cause@,
            },
    {
        match self {
            CsrfTokenVerificationError::CsrfTokenMismatch => String::from_str(
                "CSRF token did not match!",
            ),
            CsrfTokenVerificationError::Unknown(cause) => String::from_str(
                "Unknown error: ",
            ).concat(cause.as_str()),
        }
    }
}

/// A strategy that decides whether a user-provided token is valid, and on
/// success hands out a proof.
pub trait CsrfTokenVerifier {
    type Proof: Send + Sync + 'static;

    type Error: Send + Sync;

    /// What this verifier promises of a `verdict` of `verify`, on a source
    /// that may hand out the tokens in `submitted`. A verifier that says
    /// nothing here promises nothing.
    open spec fn verify_ensures(
        &self,
        submitted: Set<Seq<char>>,
        verdict: Result<Self::Proof, Self::Error>,
    ) -> bool {
        true
    }

    /// Decides whether the token of `token` is valid: a proof if it is, an
    /// error if it is not.
    fn verify<S>(&self, token: &S) -> (verdict: Result<Self::Proof, Self::Error>) where
        S: WithUserProvidedCsrfToken + ?Sized,

        ensures
            self.verify_ensures(tokens_of(token), verdict),
    ;
}

/// A verifier that knows the one token it expects.
pub trait VerifierWithKnownExpectedToken {
    type Proof: Default + Send + Sync + 'static;

    /// The token that a request has to submit.
    fn expected_token(&self) -> &str;
}

/// Whether `token` is what `verifier` hands out as the token it expects.
pub open spec fn expects<T: VerifierWithKnownExpectedToken + ?Sized>(
    verifier: &T,
    token: Seq<char>,
) -> bool {
    exists|text: &str| #[trigger] call_ensures(T::expected_token, (verifier,), text) && text@ == token
}

/// What a verifier that expects `expected` answers to `submitted`: a proof
/// that its `Default` made if the two are the same text, a mismatch if not.
pub open spec fn known_token_verdict<P: Default>(
    submitted: Seq<char>,
    expected: Seq<char>,
    verdict: Result<P, CsrfTokenVerificationError>,
) -> bool {
    if submitted == expected {
        verdict matches Ok(granted) && call_ensures(P::default, (), granted)
    } else {
        verdict == Err::<P, CsrfTokenVerificationError>(CsrfTokenVerificationError::CsrfTokenMismatch)
    }
}

/// Whether two tokens are the same text.
///
/// Every byte of both tokens is read whenever their lengths agree, so the
/// time taken does not tell where they first differ.
pub fn tokens_match(submitted: &str, expected: &str) -> (same: bool)
    ensures
        same == (submitted@ == expected@),
{
    let a = submitted.as_bytes();
    let b = expected.as_bytes();
    proof {
        encode_utf8_decode_utf8(submitted@);
        encode_utf8_decode_utf8(expected@);
    }
    if a.len() != b.len() {
        return false;
    }
    let mut difference: u8 = 0;
    let mut i: usize = 0;
    while i < a.len()
        invariant
            i <= a.len(),
            a.len() == b.len(),
            (difference == 0) == (a@.subrange(0, i as int) =~= b@.subrange(0, i as int)),
        decreases a.len() - i,
    {
        let left: u8 = a[i];
        let right: u8 = b[i];
        let x: u8 = left ^ right;
        assert((x == 0) == (left == right)) by (bit_vector)
            requires
                x == left ^ right,
        ;
        let ghost before = difference;
        difference = difference | x;
        assert((difference == 0) == (before == 0 && x == 0)) by (bit_vector)
            requires
                difference == before | x,
        ;
        proof {
            let next_a = a@.subrange(0, i + 1);
            let next_b = b@.subrange(0, i + 1);
            assert(a@.subrange(0, i as int) == next_a.drop_last());
            assert(b@.subrange(0, i as int) == next_b.drop_last());
            assert(next_a.last() == left && next_b.last() == right);
        }
        i += 1;
    }
    proof {
        assert(a@.subrange(0, i as int) == a@);
        assert(b@.subrange(0, i as int) == b@);
    }
    difference == 0
}

/// Compares a submitted token with the expected one.
pub fn check_known_token<P: Default>(submitted: &str, expected: &str) -> (verdict: Result<
    P,
    CsrfTokenVerificationError,
>)
    ensures
        known_token_verdict(submitted@, expected@, verdict),
{
    if tokens_match(submitted, expected) {
        Ok(P::default())
    } else {
        Err(CsrfTokenVerificationError::CsrfTokenMismatch)
    }
}

/// Every verifier that knows its expected token verifies by comparison.
impl<P, T> CsrfTokenVerifier for T where
    P: Default + Send + Sync + 'static,
    T: VerifierWithKnownExpectedToken<Proof = P> + Send + Sync + 'static,
 {
    type Proof = P;

    type Error = CsrfTokenVerificationError;

    open spec fn verify_ensures(
        &self,
        submitted: Set<Seq<char>>,
        verdict: Result<P, CsrfTokenVerificationError>,
    ) -> bool {
        exists|token: Seq<char>, expected: Seq<char>|
            {
                &&& submitted.contains(token)
                &&& expects(self, expected)
                &&& #[trigger] known_token_verdict(token, expected, verdict)
            }
    }

    fn verify<S>(&self, token: &S) -> (verdict: Result<P, CsrfTokenVerificationError>) where
        S: WithUserProvidedCsrfToken + ?Sized,
     {
        let submitted = token.csrf_token();
        let expected = self.expected_token();
        let verdict = check_known_token(submitted, expected);
        assert(tokens_of(token).contains(submitted@) && expects(self, expected@)
            && known_token_verdict(submitted@, expected@, verdict));
        verdict
    }
}

} // verus!
