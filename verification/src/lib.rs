//! CSRF defence as a verification protocol.
//!
//! A token source hands out what the user submitted, a verifier decides
//! whether that token is valid, and a check that passed leaves a proof in
//! the cache of its request, which later steps of the same request can ask
//! for. The checks run in steps: the host of the library extracts, parses
//! and awaits, and hands each result to the next step, which decides.
//!
//! Two verifiers are built in: the double submit cookie, which compares
//! the token with a cookie that is read once and then gone, and any
//! verifier that knows the token it expects, such as a session.

use vstd::prelude::*;

pub mod check_proof;
pub mod cookie;
pub mod field_injection;
pub mod form;
pub mod header;
pub mod outcome;
pub mod token;
pub mod util;
pub mod verification;

pub use check_proof::{CsrfCheckProof, ProofCache};
pub use cookie::{
    DoubleSubmitCookieCsrfToken, SetDoubleSubmitCookieCsrfToken, SetLaxDoubleSubmitCookieCsrfToken,
    SetNoneDoubleSubmitCookieCsrfToken_DO_NOT_USE_UNLESS_YOU_ARE_SURE,
    DOUBLE_SUBMIT_CSRF_TOKEN_COOKIE_NAME,
};
pub use field_injection::with_csrf_token;
pub use form::{CsrfProtectedForm, CsrfProtectedFormError, CsrfProtectedFormWithGuard};
pub use header::{
    CheckCsrfProtectionHeader, CheckCsrfProtectionHeaderError, CsrfTokenSourcedFromHeader,
};
pub use outcome::{Outcome, Status, Step};
pub use token::{
    Form, ManuallySourcedCsrfToken_DO_NOT_USE_UNLESS_YOU_ARE_SURE, WithUserProvidedCsrfToken,
};
pub use verification::{
    CsrfTokenVerificationError, CsrfTokenVerifier, VerifierWithKnownExpectedToken,
};

verus! {

/// A payload behind the double submit cookie.
pub type DoubleSubmitCookieCsrfProtectedForm<F> = CsrfProtectedForm<DoubleSubmitCookieCsrfToken, F>;

} // verus!
