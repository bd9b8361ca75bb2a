//! A small application on top of the library, and the requests of a browser
//! against it: a login form behind a double submit cookie, a logout form and
//! a header check behind the token of the session.

use csrf_guard::check_proof::{CsrfCheckProof, ProofCache};
use csrf_guard::cookie::{
    DoubleSubmitCookie, DoubleSubmitCookieCsrfToken, DoubleSubmitCookieState, SameSite,
    SetDoubleSubmitCookieCsrfToken, DOUBLE_SUBMIT_CSRF_TOKEN_COOKIE_NAME,
};
use csrf_guard::form::{CsrfProtectedForm, CsrfProtectedFormError};
use csrf_guard::header::{CheckCsrfProtectionHeader, CSRF_HEADER_NAME};
use csrf_guard::outcome::{Outcome, Status, Step};
use csrf_guard::token::{Form, WithUserProvidedCsrfToken};
use csrf_guard::util::random_id;
use csrf_guard::verification::VerifierWithKnownExpectedToken;

const OK: u16 = 200;
const SEE_OTHER: u16 = 303;
const FORBIDDEN: u16 = 403;
const NOT_FOUND: u16 = 404;
const UNPROCESSABLE_ENTITY: u16 = 422;

#[derive(Clone, Debug)]
struct Session {
    id: String,
    username: String,
    csrf_token: String,
}

impl VerifierWithKnownExpectedToken for Session {
    type Proof = CsrfCheckProof;

    fn expected_token(&self) -> &str {
        &self.csrf_token
    }
}

struct LoginForm {
    name: String,
    csrf_token: String,
}

impl WithUserProvidedCsrfToken for LoginForm {
    fn csrf_token(&self) -> &str {
        &self.csrf_token
    }
}

struct LogoutForm {
    csrf_token: String,
}

impl WithUserProvidedCsrfToken for LogoutForm {
    fn csrf_token(&self) -> &str {
        &self.csrf_token
    }
}

/// The value of `key` in a body of the shape `a=1&b=2`.
fn field(body: &str, key: &str) -> Option<String> {
    body.split('&').find_map(|pair| {
        let (name, value) = pair.split_once('=')?;
        if name == key {
            Some(value.to_string())
        } else {
            None
        }
    })
}

type Parsed<F> = Outcome<Form<F>, (Status, String), Status>;

fn missing(name: &str) -> (Status, String) {
    (Status { code: UNPROCESSABLE_ENTITY }, format!("missing field {name}"))
}

fn parse_login(body: &str) -> Parsed<LoginForm> {
    match (field(body, "name"), field(body, "csrf_token")) {
        (Some(name), Some(csrf_token)) => Outcome::Success(Form::new(LoginForm { name, csrf_token })),
        (None, _) => Outcome::Error(missing("name")),
        (_, None) => Outcome::Error(missing("csrf_token")),
    }
}

fn parse_logout(body: &str) -> Parsed<LogoutForm> {
    match field(body, "csrf_token") {
        Some(csrf_token) => Outcome::Success(Form::new(LogoutForm { csrf_token })),
        None => Outcome::Error(missing("csrf_token")),
    }
}

struct Response {
    status: u16,
    body: Option<String>,
    /// The double submit cookie that the response writes.
    csrf_cookie: Option<DoubleSubmitCookie>,
    /// The session cookie that the response sets.
    session_cookie: Option<String>,
}

impl Response {
    fn status(&self) -> u16 {
        self.status
    }

    fn cookie(&self, name: &str) -> Option<DoubleSubmitCookie> {
        match &self.csrf_cookie {
            Some(cookie) if name == cookie.name => Some(DoubleSubmitCookie {
                name: cookie.name.clone(),
                value: cookie.value.clone(),
                same_site: cookie.same_site,
                max_age_seconds: cookie.max_age_seconds,
                secure: cookie.secure,
            }),
            _ => None,
        }
    }

    fn session(&self, name: &str) -> Option<String> {
        if name == "__Host-session" {
            self.session_cookie.clone()
        } else {
            None
        }
    }

    fn into_string(self) -> Option<String> {
        self.body
    }
}

struct Request<'a> {
    method: &'a str,
    path: &'a str,
    body: String,
    header: Option<String>,
    csrf_cookie: Option<DoubleSubmitCookieState>,
    session_cookie: Option<String>,
}

/// The application and the cookie jar of the one browser that talks to it.
struct Client {
    sessions: Vec<Session>,
    keeps_cookies: bool,
    csrf_cookie: DoubleSubmitCookieState,
    session_cookie: Option<String>,
}

impl Client {
    /// A client that keeps the cookies it is sent.
    fn keeping_cookies() -> Client {
        Client {
            sessions: Vec::new(),
            keeps_cookies: true,
            csrf_cookie: DoubleSubmitCookieState::Unset,
            session_cookie: None,
        }
    }

    /// A client that forgets every cookie it is sent.
    fn forgetting_cookies() -> Client {
        Client { keeps_cookies: false, ..Client::keeping_cookies() }
    }

    fn get<'a>(&self, path: &'a str) -> Request<'a> {
        Request { method: "GET", path, body: String::new(), header: None, csrf_cookie: None, session_cookie: None }
    }

    fn post<'a>(&self, path: &'a str) -> Request<'a> {
        Request { method: "POST", ..self.get(path) }
    }

    fn session_of(&self, id: &Option<String>) -> Outcome<Session, (Status, ()), Status> {
        let found = id.as_ref().and_then(|id| self.sessions.iter().find(|s| &s.id == id));
        match found {
            Some(session) => Outcome::Success(session.clone()),
            None => Outcome::Forward(Status::internal_server_error()),
        }
    }

    fn dispatch(&mut self, request: Request<'_>) -> Response {
        let mut csrf_cookie = match request.csrf_cookie {
            Some(sent) => sent,
            None => std::mem::replace(&mut self.csrf_cookie, DoubleSubmitCookieState::Unset),
        };
        let session_id = request.session_cookie.clone().or(self.session_cookie.clone());
        let mut set_session = None;
        let mut written = None;
        let mut cache: ProofCache<CsrfCheckProof> = ProofCache::new();
        let (status, body) = match (request.method, request.path) {
            ("GET", "/") => match self.session_of(&session_id) {
                Outcome::Success(session) => (OK, Some(loggedin_page(&session))),
                _ => match SetDoubleSubmitCookieCsrfToken::from_request::<()>() {
                    Outcome::Success(setter) => {
                        let cookie = setter.set(&mut csrf_cookie);
                        let page = login_page(&cookie.value);
                        written = Some(cookie);
                        (OK, Some(page))
                    }
                    _ => (NOT_FOUND, None),
                },
            },
            ("POST", "/") => {
                let verifier = DoubleSubmitCookieCsrfToken::from_request::<(Status, ())>(&mut csrf_cookie);
                let verifier = match verifier {
                    Outcome::Success(verifier) => Outcome::Success(verifier),
                    Outcome::Error(e) => Outcome::Error(e),
                    Outcome::Forward(()) => Outcome::Forward(Status { code: NOT_FOUND }),
                };
                match protect(verifier, || parse_login(&request.body), &mut cache) {
                    Outcome::Success(form) => {
                        let login = form.into_innermost();
                        let session = Session {
                            id: random_id(16).unwrap(),
                            username: login.name,
                            csrf_token: random_id(16).unwrap(),
                        };
                        set_session = Some(session.id.clone());
                        self.sessions.push(session);
                        (SEE_OTHER, None)
                    }
                    Outcome::Error((status, _)) => (status.code, None),
                    Outcome::Forward(_) => (NOT_FOUND, None),
                }
            }
            ("POST", "/logout") => {
                let verifier = self.session_of(&session_id);
                match protect(verifier, || parse_logout(&request.body), &mut cache) {
                    Outcome::Success(form) => {
                        let (proof, _) = form.into_parts();
                        self.logout(proof, &session_id);
                        (SEE_OTHER, None)
                    }
                    Outcome::Error((status, _)) => (status.code, None),
                    Outcome::Forward(_) => (NOT_FOUND, None),
                }
            }
            ("GET", "/header") => {
                let checked = match CheckCsrfProtectionHeader::on_verifier(self.session_of(&session_id)) {
                    Step::Continue(awaiting) => awaiting.on_header(request.header.as_deref(), &mut cache),
                    Step::Done(outcome) => outcome,
                };
                match checked {
                    Outcome::Success(_) => (
                        OK,
                        Some("You successfully passed the right CSRF token, congrats!".to_string()),
                    ),
                    Outcome::Error((status, _)) => (status.code, None),
                    Outcome::Forward(_) => (NOT_FOUND, None),
                }
            }
            _ => (NOT_FOUND, None),
        };
        let response =
            Response { status, body, csrf_cookie: written, session_cookie: set_session.clone() };
        if self.keeps_cookies {
            self.csrf_cookie = csrf_cookie;
            if set_session.is_some() {
                self.session_cookie = set_session;
            }
        }
        response
    }

    /// Logging out takes a proof that the request is no forgery.
    fn logout(&mut self, _proof: CsrfCheckProof, id: &Option<String>) {
        self.sessions.retain(|s| Some(&s.id) != id.as_ref());
        self.session_cookie = None;
    }
}

/// The steps of a protected payload, in their order: the payload is parsed
/// only once a verifier is at hand.
fn protect<V, F>(
    verifier: Outcome<V, (Status, ()), Status>,
    parse: impl FnOnce() -> Parsed<F>,
    cache: &mut ProofCache<V::Proof>,
) -> Outcome<CsrfProtectedForm<V, Form<F>>, (Status, CsrfProtectedFormError<String>), Status>
where
    V: csrf_guard::verification::CsrfTokenVerifier,
    V::Proof: Clone,
    F: WithUserProvidedCsrfToken,
{
    match CsrfProtectedForm::<V, Form<F>>::on_verifier(verifier) {
        Step::Continue(awaiting) => awaiting.on_payload(parse(), cache),
        Step::Done(outcome) => outcome,
    }
}

fn login_page(csrf_token: &str) -> String {
    format!("<html>an example login form\n<input name=\"csrf_token\" value=\"{csrf_token}\">\n</html>")
}

fn loggedin_page(session: &Session) -> String {
    format!(
        "<html>Hello {}, you passed the right csrf token\n<!--\n{}\n-->\n</html>",
        session.username, session.csrf_token
    )
}

fn fetch_login_page() -> (Client, DoubleSubmitCookie, String) {
    let mut client = Client::keeping_cookies();
    let request = client.get("/");
    let response = client.dispatch(request);
    assert_eq!(response.status(), OK);
    let cookie = response.cookie("__Host-csrf-token").unwrap();
    let csrf_token = cookie.value.clone();
    (client, cookie, csrf_token)
}

fn session_csrf_token(text: &str) -> String {
    let mut lines = text.lines();
    lines.find(|l| l.contains("<!--"));
    lines.next().unwrap().to_string()
}

#[test]
fn test_fetch_login_sets_double_submit_cookie() {
    let mut client = Client::keeping_cookies();
    let request = client.get("/");
    let response = client.dispatch(request);

    assert_eq!(response.status(), OK);

    let cookie = response.cookie("__Host-csrf-token");
    assert!(cookie.is_some());
    let cookie = cookie.unwrap();
    assert_eq!(cookie.name, DOUBLE_SUBMIT_CSRF_TOKEN_COOKIE_NAME);
    assert!(cookie.secure);
    assert_eq!(cookie.same_site, SameSite::Strict);
    assert_eq!(cookie.max_age_seconds, 600);

    let text = response.into_string();
    assert!(text.is_some());
    assert!(text.unwrap().contains("example"));
}

#[test]
fn test_login_works_with_correct_cookie() {
    let (mut client, _, csrf_token) = fetch_login_page();

    let mut request = client.post("/");
    request.body = format!("name=Hasnain&csrf_token={csrf_token}");
    let response = client.dispatch(request);
    assert_eq!(response.status(), SEE_OTHER);

    let cookie = response.session("__Host-session").unwrap();

    let mut request = client.get("/");
    request.session_cookie = Some(cookie);
    let response = client.dispatch(request);
    assert_eq!(response.status(), OK);

    let text = response.into_string();
    assert!(text.is_some());
    assert!(text.unwrap().contains("passed the right csrf token"));
}

#[test]
fn test_login_fails_with_incorrect_csrf_token() {
    let (mut client, _, _) = fetch_login_page();

    let mut request = client.post("/");
    request.body = "name=Hasnain&csrf_token=i_am_wrong".to_string();
    let response = client.dispatch(request);
    assert_eq!(response.status(), FORBIDDEN);
}

#[test]
fn test_login_fails_with_incorrect_cookie() {
    let (mut client, mut cookie, csrf_token) = fetch_login_page();

    cookie.value = "i_am_wrong".to_string();

    let mut request = client.post("/");
    request.csrf_cookie = Some(DoubleSubmitCookieState::Issued(cookie.value));
    request.body = format!("name=Hasnain&csrf_token={csrf_token}");
    let response = client.dispatch(request);
    assert_eq!(response.status(), FORBIDDEN);
}

#[test]
fn test_login_fails_without_cookie() {
    let (mut client, csrf_token) = {
        let mut client = Client::forgetting_cookies();
        let csrf_token = {
            let request = client.get("/");
            let response = client.dispatch(request);
            assert_eq!(response.status(), OK);
            let cookie = response.cookie("__Host-csrf-token").unwrap();
            cookie.value
        };
        (client, csrf_token)
    };

    let mut request = client.post("/");
    request.body = format!("name=Hasnain&csrf_token={csrf_token}");
    let response = client.dispatch(request);

    assert_eq!(response.status(), NOT_FOUND);
}

#[test]
fn test_login_fails_without_csrf_token_in_form() {
    let (mut client, _, _) = fetch_login_page();

    let mut request = client.post("/");
    request.body = "name=Hasnain".to_string();
    let response = client.dispatch(request);
    assert_eq!(response.status(), UNPROCESSABLE_ENTITY);
}

#[test]
fn test_header_works_for_passing_token() {
    let (mut client, _, csrf_token) = fetch_login_page();

    let mut request = client.post("/");
    request.body = format!("name=Hasnain&csrf_token={csrf_token}");
    let response = client.dispatch(request);
    assert_eq!(response.status(), SEE_OTHER);

    let request = client.get("/");
    let response = client.dispatch(request);
    assert_eq!(response.status(), OK);

    let text = response.into_string().unwrap();
    let session_csrf_token = session_csrf_token(&text);

    assert_eq!(CSRF_HEADER_NAME, "X-CSRF-Token");
    let mut request = client.get("/header");
    request.header = Some(session_csrf_token);
    let response = client.dispatch(request);
    assert_eq!(response.status(), OK);

    let mut request = client.get("/header");
    request.header = Some("wrong_token".to_string());
    let response = client.dispatch(request);
    assert_eq!(response.status(), FORBIDDEN)
}

#[test]
fn test_session_based_tokens_work() {
    let (mut client, _, csrf_token) = fetch_login_page();

    let mut request = client.post("/");
    request.body = format!("name=Hasnain&csrf_token={csrf_token}");
    let response = client.dispatch(request);
    assert_eq!(response.status(), SEE_OTHER);

    let request = client.get("/");
    let response = client.dispatch(request);
    assert_eq!(response.status(), OK);

    let text = response.into_string().unwrap();
    let session_csrf_token = session_csrf_token(&text);

    let mut request = client.post("/logout");
    request.body = format!("name=Hasnain&csrf_token={csrf_token}");
    let response = client.dispatch(request);
    assert_eq!(response.status(), FORBIDDEN);

    let mut request = client.post("/logout");
    request.body = format!("name=Hasnain&csrf_token={session_csrf_token}");
    let response = client.dispatch(request);
    assert_eq!(response.status(), SEE_OTHER);

    let request = client.get("/");
    let response = client.dispatch(request);
    assert_eq!(response.status(), OK);
    let text = response.into_string();
    assert!(text.is_some());
    assert!(!text.unwrap().contains("passed the right csrf token"));
}

#[test]
fn a_header_check_without_the_header_is_forbidden() {
    let (mut client, _, csrf_token) = fetch_login_page();
    let mut request = client.post("/");
    request.body = format!("name=Hasnain&csrf_token={csrf_token}");
    assert_eq!(client.dispatch(request).status(), SEE_OTHER);

    let request = client.get("/header");
    assert_eq!(client.dispatch(request).status(), FORBIDDEN);
}

#[test]
fn a_double_submit_cookie_serves_once() {
    let (mut client, _, csrf_token) = fetch_login_page();

    let mut request = client.post("/");
    request.body = "name=Hasnain&csrf_token=i_am_wrong".to_string();
    assert_eq!(client.dispatch(request).status(), FORBIDDEN);

    let mut request = client.post("/");
    request.body = format!("name=Hasnain&csrf_token={csrf_token}");
    assert_eq!(client.dispatch(request).status(), NOT_FOUND);
}

#[test]
fn an_issued_token_logs_in_once() {
    let mut client = Client::keeping_cookies();
    client.csrf_cookie = DoubleSubmitCookieState::Issued("abc123".to_string());

    let mut request = client.post("/");
    request.body = "name=Alice&csrf_token=abc123".to_string();
    let response = client.dispatch(request);
    assert_eq!(response.status(), SEE_OTHER);
    assert!(response.session("__Host-session").is_some());
    assert!(response.cookie("__Host-csrf-token").is_none());
    assert_eq!(client.sessions.len(), 1);
    assert_eq!(client.sessions[0].username, "Alice");

    let mut request = client.post("/");
    request.body = "name=Alice&csrf_token=abc123".to_string();
    let response = client.dispatch(request);
    assert_eq!(response.status(), NOT_FOUND);
    assert_eq!(client.sessions.len(), 1);
}

#[test]
fn a_header_check_without_a_session_is_forbidden() {
    let mut client = Client::keeping_cookies();

    let mut request = client.get("/header");
    request.header = Some("any_token".to_string());
    assert_eq!(client.dispatch(request).status(), FORBIDDEN);

    let request = client.get("/header");
    assert_eq!(client.dispatch(request).status(), FORBIDDEN);
}
