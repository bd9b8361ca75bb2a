use vstd::prelude::*;

verus! {

/// A thing that carries a CSRF token taken from user input.
///
/// This is extraction only: nothing is validated here, and a verifier never
/// learns where the token came from.
pub trait WithUserProvidedCsrfToken {
    /// The token as the user submitted it.
    fn csrf_token(&self) -> &str;
}

/// Whether `token` is what `source` hands out when asked for its token.
pub open spec fn provides<S: WithUserProvidedCsrfToken + ?Sized>(
    source: &S,
    token: Seq<char>,
) -> bool {
    exists|text: &str| #[trigger] call_ensures(S::csrf_token, (source,), text) && text@ == token
}

/// The tokens that `source` may hand out when asked for its token.
pub open spec fn tokens_of<S: WithUserProvidedCsrfToken + ?Sized>(source: &S) -> Set<Seq<char>> {
    Set::new(|token: Seq<char>| provides(source, token))
}

/// A payload that the host has parsed from a submitted form.
#[derive(Debug)]
pub struct Form<T>(T);

impl<T> View for Form<T> {
    type V = T;

    closed spec fn view(&self) -> T {
        self.0
    }
}

impl<T> Form<T> {
    /// Wraps a parsed payload.
    pub fn new(value: T) -> (form: Self)
        ensures
            form@ == value,
    {
        Form(value)
    }

    /// The parsed payload.
    pub fn get(&self) -> (value: &T)
        ensures
            *value == self@,
    {
        &self.0
    }

    /// The parsed payload, to be changed in place.
    pub fn get_mut(&mut self) -> (value: &mut T)
        ensures
            *value == old(self)@,
            final(self)@ == *final(value),
    {
        &mut self.0
    }

    /// Takes the parsed payload out.
    pub fn into_inner(self) -> (value: T)
        ensures
            value == self@,
    {
        self.0
    }
}

impl<T> WithUserProvidedCsrfToken for Form<T> where T: WithUserProvidedCsrfToken {
    /// The token of a parsed form is the token of its payload.
    fn csrf_token(&self) -> (token: &str)
        ensures
            provides(&self@, token@),
    {
        self.get().csrf_token()
    }
}

/// A token that the caller obtained by some means of its own.
///
/// Use this sparingly: the library cannot tell where such a token came from.
#[allow(non_camel_case_types)]
pub struct ManuallySourcedCsrfToken_DO_NOT_USE_UNLESS_YOU_ARE_SURE(String);

impl View for ManuallySourcedCsrfToken_DO_NOT_USE_UNLESS_YOU_ARE_SURE {
    type V = Seq<char>;

    closed spec fn view(&self) -> Seq<char> {
        self.0@
    }
}

impl ManuallySourcedCsrfToken_DO_NOT_USE_UNLESS_YOU_ARE_SURE {
    /// Wraps a token.
    pub fn new(csrf_token: String) -> (source: Self)
        ensures
            source@ == csrf_token@,
    {
        Self(csrf_token)
    }
}

impl WithUserProvidedCsrfToken for ManuallySourcedCsrfToken_DO_NOT_USE_UNLESS_YOU_ARE_SURE {
    fn csrf_token(&self) -> (token: &str)
        ensures
            token@ == self@,
    {
        self.0.as_str()
    }
}

} // verus!
