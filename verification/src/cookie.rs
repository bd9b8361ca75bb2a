use vstd::prelude::*;
use vstd::string::StringExecFns;
use crate::check_proof::CsrfCheckProof;
use crate::form::{AwaitingPayload, CsrfProtectedForm, CsrfProtectedFormError};
use crate::outcome::{Outcome, Status, FORBIDDEN};
use crate::token::{tokens_of, WithUserProvidedCsrfToken};
use crate::util::{encoded_len, is_id_of, is_url_safe, random_id};
use crate::verification::{tokens_match, CsrfTokenVerificationError, CsrfTokenVerifier};

verus! {

/// The name of the double submit cookie.
pub const DOUBLE_SUBMIT_CSRF_TOKEN_COOKIE_NAME: &'static str = "__Host-csrf-token";

/// Default double submit cookie expiry time.
pub const DOUBLE_SUBMIT_CSRF_TOKEN_EXPIRY_SECONDS: u64 = 600;

/// Default expiry time for a double submit cookie that is set with
/// [`SameSite::Unrestricted`].
pub const DOUBLE_SUBMIT_CSRF_TOKEN_NONE_EXPIRY_SECONDS: u64 = 20;

/// How many random bytes make a double submit token.
pub const DOUBLE_SUBMIT_CSRF_TOKEN_BYTES: usize = 16;

/// The parameter of [`SetDoubleSubmitCookieCsrfTokenImpl`] for
/// [`SameSite::Strict`].
pub const SAME_SITE_STRICT: u8 = 0;

/// The parameter of [`SetDoubleSubmitCookieCsrfTokenImpl`] for
/// [`SameSite::Lax`].
pub const SAME_SITE_LAX: u8 = 1;

/// The parameter of [`SetDoubleSubmitCookieCsrfTokenImpl`] for
/// [`SameSite::Unrestricted`]. A cookie without a same-site restriction is
/// sent along with requests from any site.
pub const SAME_SITE_NONE_DO_NOT_USE_UNLESS_YOU_ARE_SURE: u8 = 2;

/// The same-site policy of a cookie.
#[derive(Clone, Copy, Debug, PartialEq, Eq, Structural)]
pub enum SameSite {
    Strict,
    Lax,
    /// `SameSite=None`: the cookie travels with every cross-site request.
    Unrestricted,
}

/// The double submit cookie as the server writes it.
#[derive(Debug, PartialEq, Eq)]
pub struct DoubleSubmitCookie {
    /// The name under which the cookie is written.
    pub name: String,
    /// The token.
    pub value: String,
    pub same_site: SameSite,
    /// `Max-Age`, in seconds.
    pub max_age_seconds: u64,
    pub secure: bool,
}

/// The double submit cookie of one client, as its next request will show it.
#[derive(Debug, PartialEq, Eq)]
pub enum DoubleSubmitCookieState {
    /// No token was handed out.
    Unset,
    /// The cookie is set: this token was handed out and has not been read
    /// since.
    Issued(String),
    /// The token was read for a verification; the cookie is removed.
    Consumed,
}

impl DoubleSubmitCookieState {
    /// The token that a request in this state presents.
    pub open spec fn presented(self) -> Option<Seq<char>> {
        match self {
            DoubleSubmitCookieState::Issued(token) => Some(token@),
            _ => None,
        }
    }

    /// The state after a request has read the cookie to attempt a
    /// verification: a cookie that was there is gone.
    pub open spec fn after_read(self) -> Self {
        match self {
            DoubleSubmitCookieState::Issued(_) => DoubleSubmitCookieState::Consumed,
            other => other,
        }
    }
}

/// The policy that a parameter of [`SetDoubleSubmitCookieCsrfTokenImpl`]
/// stands for; what is neither lax nor none is strict.
pub open spec fn same_site_of(ss: u8) -> SameSite {
    if ss == SAME_SITE_LAX {
        SameSite::Lax
    } else if ss == SAME_SITE_NONE_DO_NOT_USE_UNLESS_YOU_ARE_SURE {
        SameSite::Unrestricted
    } else {
        SameSite::Strict
    }
}

/// What the double submit verifier answers to `submitted` when the cookie
/// held `expected`.
pub open spec fn double_submit_verdict(submitted: Seq<char>, expected: Seq<char>) -> Result<
    CsrfCheckProof,
    CsrfTokenVerificationError,
> {
    if submitted == expected {
        Ok(CsrfCheckProof::PassedCsrfChecks)
    } else {
        Err(CsrfTokenVerificationError::CsrfTokenMismatch)
    }
}

/// CSRF protection using double submit cookies.
///
/// A verifier that checks a provided token against the value that the
/// cookie held when the request came in.
#[derive(Debug)]
pub struct DoubleSubmitCookieCsrfToken(String);

impl View for DoubleSubmitCookieCsrfToken {
    type V = Seq<char>;

    closed spec fn view(&self) -> Seq<char> {
        self.0@
    }
}

/// Verifies that the received token matches the cookie.
impl CsrfTokenVerifier for DoubleSubmitCookieCsrfToken {
    type Proof = CsrfCheckProof;

    type Error = CsrfTokenVerificationError;

    open spec fn verify_ensures(
        &self,
        submitted: Set<Seq<char>>,
        verdict: Result<CsrfCheckProof, CsrfTokenVerificationError>,
    ) -> bool {
        exists|token: Seq<char>|
            submitted.contains(token) && verdict == #[trigger] double_submit_verdict(token, self@)
    }

    fn verify<S>(&self, token: &S) -> (verdict: Result<
        CsrfCheckProof,
        CsrfTokenVerificationError,
    >) where S: WithUserProvidedCsrfToken + ?Sized {
        let submitted = token.csrf_token();
        let verdict = if tokens_match(submitted, self.0.as_str()) {
            Ok(CsrfCheckProof::PassedCsrfChecks)
        } else {
            Err(CsrfTokenVerificationError::CsrfTokenMismatch)
        };
        assert(tokens_of(token).contains(submitted@) && verdict == double_submit_verdict(
            submitted@,
            self@,
        ));
        verdict
    }
}

impl DoubleSubmitCookieCsrfToken {
    /// Takes the token out of the cookie of the request, and marks the
    /// cookie as consumed, before anything is compared: whatever the
    /// verification will say, the same cookie cannot serve again.
    ///
    /// A request without the cookie is forwarded.
    pub fn from_request<E>(cookie: &mut DoubleSubmitCookieState) -> (outcome: Outcome<Self, E, ()>)
        ensures
            *final(cookie) == old(cookie).after_read(),
            match old(cookie).presented() {
                Some(value) => outcome matches Outcome::Success(verifier) && verifier@ == value,
                None => outcome is Forward,
            },
    {
        let mut taken = DoubleSubmitCookieState::Consumed;
        std::mem::swap(cookie, &mut taken);
        match taken {
            DoubleSubmitCookieState::Issued(found) => Outcome::Success(
                DoubleSubmitCookieCsrfToken(found),
            ),
            other => {
                *cookie = other;
                Outcome::Forward(())
            },
        }
    }
}

/// The double submit round trip. Take a cookie that presents the token
/// `issued`, the verifier that a request took out of it, and a source that
/// submits `submitted`. Then every verdict on that source is a pass if
/// `submitted` is the very token that was issued, and a mismatch if the two
/// differ in any way, whichever of them was changed.
pub proof fn lemma_double_submit_round_trip<S: WithUserProvidedCsrfToken>(
    issued: Seq<char>,
    cookie: DoubleSubmitCookieState,
    verifier: DoubleSubmitCookieCsrfToken,
    source: &S,
    submitted: Seq<char>,
    verdict: Result<CsrfCheckProof, CsrfTokenVerificationError>,
)
    requires
        cookie.presented() == Some(issued),
        cookie.presented() == Some(verifier@),
        forall|token: Seq<char>| tokens_of(source).contains(token) ==> token == submitted,
        verifier.verify_ensures(tokens_of(source), verdict),
    ensures
        submitted == issued ==> verdict == Ok::<CsrfCheckProof, CsrfTokenVerificationError>(
            CsrfCheckProof::PassedCsrfChecks,
        ),
        submitted != issued ==> verdict == Err::<
            CsrfCheckProof,
            CsrfTokenVerificationError,
        >(CsrfTokenVerificationError::CsrfTokenMismatch),
{
}

/// The double submit round trip through a protected payload. Take a check
/// whose verifier came out of the cookie, and a payload that parsed and
/// submits `submitted`. If `submitted` is the token that the cookie held,
/// the payload comes out and the proof is on record. If it is not, the
/// request is forbidden and the cache stays as it was.
pub proof fn lemma_double_submit_payload<F, PE, D>(
    awaiting: AwaitingPayload<DoubleSubmitCookieCsrfToken>,
    form: F,
    submitted: Seq<char>,
    before: Option<CsrfCheckProof>,
    after: Option<CsrfCheckProof>,
    outcome: Outcome<
        CsrfProtectedForm<DoubleSubmitCookieCsrfToken, F>,
        (Status, CsrfProtectedFormError<PE>),
        D,
    >,
) where F: WithUserProvidedCsrfToken
    requires
        forall|token: Seq<char>| tokens_of(&form).contains(token) ==> token == submitted,
        awaiting.payload_checked(Outcome::Success(form), before, after, outcome),
    ensures
        if submitted == awaiting@@ {
            &&& outcome matches Outcome::Success(protected)
            &&& protected.payload() == form
            &&& after == Some(CsrfCheckProof::PassedCsrfChecks)
        } else {
            &&& outcome matches Outcome::Error((status, e))
            &&& status == (Status { code: FORBIDDEN })
            &&& e is CsrfTokenVerificationError
            &&& after == before
        },
{
}

/// A double submit cookie serves once. After a request has read it, be it
/// there or not and whatever the verification said, the next request
/// presents no cookie, and reading again changes nothing.
pub proof fn lemma_cookie_is_single_use(cookie: DoubleSubmitCookieState)
    ensures
        cookie.after_read().presented() is None,
        cookie.after_read().after_read() == cookie.after_read(),
{
}

/// Sets a double submit cookie with the given same-site policy and expiry.
///
/// It holds a fresh token, which `set` both writes into the cookie and
/// returns, so that the caller can put it into the form it shows.
#[derive(Debug)]
pub struct SetDoubleSubmitCookieCsrfTokenImpl<const SS: u8, const EXPIRY: u64> {
    csrf_token: String,
}

impl<const SS: u8, const EXPIRY: u64> View for SetDoubleSubmitCookieCsrfTokenImpl<SS, EXPIRY> {
    type V = Seq<char>;

    closed spec fn view(&self) -> Seq<char> {
        self.csrf_token@
    }
}

impl<const SS: u8, const EXPIRY: u64> SetDoubleSubmitCookieCsrfTokenImpl<SS, EXPIRY> {
    /// Creates a random token which can be set as a cookie: the encoding of
    /// sixteen random bytes. This succeeds on every request; it would
    /// forward a request only if the random source reported a failure,
    /// which the source in use never does.
    pub fn from_request<E>() -> (outcome: Outcome<Self, E, ()>)
        ensures
            outcome matches Outcome::Success(setter) && {
                &&& is_id_of(setter@, DOUBLE_SUBMIT_CSRF_TOKEN_BYTES as nat)
                &&& setter@.len() == encoded_len(DOUBLE_SUBMIT_CSRF_TOKEN_BYTES as nat)
                &&& forall|i: int| 0 <= i < setter@.len() ==> is_url_safe(#[trigger] setter@[i])
            },
    {
        match random_id(DOUBLE_SUBMIT_CSRF_TOKEN_BYTES) {
            Ok(csrf_token) => Outcome::Success(SetDoubleSubmitCookieCsrfTokenImpl { csrf_token }),
            Err(_) => Outcome::Forward(()),
        }
    }

    /// The token that this setter hands out.
    pub fn token(&self) -> (token: &str)
        ensures
            token@ == self@,
    {
        self.csrf_token.as_str()
    }

    /// Sets the cookie, and returns it as the host has to write it. Its
    /// value is the token, for the caller to put into the form it shows.
    ///
    /// The cookie is written under the name `__Host-csrf-token` and is
    /// always secure; its same-site policy and its expiry are those of the
    /// type. Whatever the cookie was before, it now holds this token.
    pub fn set(&self, cookie: &mut DoubleSubmitCookieState) -> (written: DoubleSubmitCookie)
        ensures
            written.name@ == DOUBLE_SUBMIT_CSRF_TOKEN_COOKIE_NAME@,
            written.value@ == self@,
            written.same_site == same_site_of(SS),
            written.max_age_seconds == EXPIRY,
            written.secure,
            final(cookie).presented() == Some(self@),
    {
        let same_site = if SS == SAME_SITE_LAX {
            SameSite::Lax
        } else if SS == SAME_SITE_NONE_DO_NOT_USE_UNLESS_YOU_ARE_SURE {
            SameSite::Unrestricted
        } else {
            SameSite::Strict
        };
        *cookie = DoubleSubmitCookieState::Issued(self.csrf_token.clone());
        DoubleSubmitCookie {
            name: String::from_str(DOUBLE_SUBMIT_CSRF_TOKEN_COOKIE_NAME),
            value: self.csrf_token.clone(),
            same_site,
            max_age_seconds: EXPIRY,
            secure: true,
        }
    }
}

/// The default setting: [`SameSite::Strict`] and an expiry of 10 minutes.
pub type SetDoubleSubmitCookieCsrfToken = SetDoubleSubmitCookieCsrfTokenImpl<
    SAME_SITE_STRICT,
    DOUBLE_SUBMIT_CSRF_TOKEN_EXPIRY_SECONDS,
>;

/// The lax setting: [`SameSite::Lax`] and an expiry of 10 minutes.
pub type SetLaxDoubleSubmitCookieCsrfToken = SetDoubleSubmitCookieCsrfTokenImpl<
    SAME_SITE_LAX,
    DOUBLE_SUBMIT_CSRF_TOKEN_EXPIRY_SECONDS,
>;

/// The insecure setting: [`SameSite::Unrestricted`] and an expiry of 20
/// seconds. Avoid this as much as possible.
#[allow(non_camel_case_types)]
pub type SetNoneDoubleSubmitCookieCsrfToken_DO_NOT_USE_UNLESS_YOU_ARE_SURE =
    SetDoubleSubmitCookieCsrfTokenImpl<
    SAME_SITE_NONE_DO_NOT_USE_UNLESS_YOU_ARE_SURE,
    DOUBLE_SUBMIT_CSRF_TOKEN_NONE_EXPIRY_SECONDS,
>;

} // verus!
