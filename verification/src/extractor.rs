//! The guard of the callback route.
//!
//! The identity provider sends the browser back with an authorization code
//! and with the anti-forgery state that the login began with. The guard lets
//! such a request through only if this server began that login, and only
//! once: the state and the nonce that the login left with the client are
//! deleted by the first callback that arrives, whatever comes of it.

use vstd::prelude::*;

use crate::cookies::{value_of, CookieChangeView, CookieJar};
use crate::oidc::{
    lemma_cookie_names_differ, nonce_cookie, nonce_cookie_name, state_cookie, state_cookie_name,
};
use crate::outcome::{Outcome, Status};

verus! {

/// The three query parameters by which a request shows itself to be the
/// identity provider's callback, each as far as the request has it.
#[derive(Debug)]
pub struct CallbackQuery {
    pub code: Option<String>,
    pub state: Option<String>,
    pub session_state: Option<String>,
}

impl CallbackQuery {
    /// Whether the request is a callback: it has all three parameters.
    pub open spec fn is_callback(self) -> bool {
        self.code is Some && self.state is Some && self.session_state is Some
    }
}

/// What a callback that passed the guard carries on to the exchange of its
/// code: the authorization code, the nonce that the login left with the
/// client, and the provider's session state, which is kept for a later use.
#[derive(Debug)]
pub struct AuthenticationResponse {
    pub code: String,
    pub nonce: String,
    pub session_state: String,
}

/// An authentication response, by the text of its three parts.
pub struct AuthenticationResponseView {
    pub code: Seq<char>,
    pub nonce: Seq<char>,
    pub session_state: Seq<char>,
}

impl View for AuthenticationResponse {
    type V = AuthenticationResponseView;

    open spec fn view(&self) -> AuthenticationResponseView {
        AuthenticationResponseView {
            code: self.code@,
            nonce: self.nonce@,
            session_state: self.session_state@,
        }
    }
}

/// The guard's outcome, with the text of the response in place of the
/// response.
pub open spec fn seen(outcome: Outcome<AuthenticationResponse, Status, Status>) -> Outcome<
    AuthenticationResponseView,
    Status,
    Status,
> {
    match outcome {
        Outcome::Success(response) => Outcome::Success(response@),
        Outcome::Error(status) => Outcome::Error(status),
        Outcome::Forward(status) => Outcome::Forward(status),
    }
}

/// What the guard decides on a request, given the cookies that the client
/// holds.
///
/// A request without one of the three parameters is not a callback and is
/// left to the next handler. A callback is refused unless the client holds
/// the very state that the callback names, and also a nonce.
pub open spec fn verdict(query: CallbackQuery, cookies: Map<Seq<char>, Seq<char>>) -> Outcome<
    AuthenticationResponseView,
    Status,
    Status,
> {
    if !query.is_callback() {
        Outcome::Forward(Status { code: 200 })
    } else if value_of(cookies, state_cookie()) != Some(query.state->0@) {
        Outcome::Error(Status { code: 400 })
    } else if !cookies.contains_key(nonce_cookie()) {
        Outcome::Error(Status { code: 400 })
    } else {
        Outcome::Success(
            AuthenticationResponseView {
                code: query.code->0@,
                nonce: cookies[nonce_cookie()],
                session_state: query.session_state->0@,
            },
        )
    }
}

/// The changes that the guard makes to the client's cookies: a callback
/// deletes the state and the nonce, and any other request changes nothing.
pub open spec fn consumption(query: CallbackQuery) -> Seq<CookieChangeView> {
    if query.is_callback() {
        seq![
            CookieChangeView::Remove { name: state_cookie() },
            CookieChangeView::Remove { name: nonce_cookie() },
        ]
    } else {
        Seq::empty()
    }
}

/// The cookies that the guard leaves with the client.
pub open spec fn consumed(query: CallbackQuery, cookies: Map<Seq<char>, Seq<char>>) -> Map<
    Seq<char>,
    Seq<char>,
> {
    if query.is_callback() {
        cookies.remove(state_cookie()).remove(nonce_cookie())
    } else {
        cookies
    }
}

impl AuthenticationResponse {
    /// Guards the callback route.
    ///
    /// A request that lacks one of `code`, `state` and `session_state` is
    /// forwarded, and its cookies are left alone. Of a callback the stored
    /// state and the stored nonce are deleted, whatever the outcome. The
    /// callback passes if the stored state is the state that it names and a
    /// nonce is stored; it then carries the code, that nonce and the session
    /// state. Any other callback is refused as a bad request.
    pub fn from_request(query: CallbackQuery, cookies: &mut CookieJar) -> (outcome: Outcome<
        AuthenticationResponse,
        Status,
        Status,
    >)
        ensures
            seen(outcome) == verdict(query, old(cookies)@),
            final(cookies).incoming == old(cookies).incoming,
            final(cookies).pending() == old(cookies).pending() + consumption(query),
            final(cookies)@ == consumed(query, old(cookies)@),
    {
        match (query.code, query.state, query.session_state) {
            (Some(code), Some(state), Some(session_state)) => {
                proof {
                    lemma_cookie_names_differ();
                }
                let stored_state = cookies.get(state_cookie_name());
                cookies.remove(state_cookie_name());
                let issued_here = match stored_state {
                    Some(stored) => stored == state,
                    None => false,
                };
                if !issued_here {
                    cookies.remove(nonce_cookie_name());
                    return Outcome::Error(Status::bad_request());
                }
                let stored_nonce = cookies.get(nonce_cookie_name());
                cookies.remove(nonce_cookie_name());
                match stored_nonce {
                    Some(nonce) => Outcome::Success(
                        AuthenticationResponse { code, nonce, session_state },
                    ),
                    None => Outcome::Error(Status::bad_request()),
                }
            },
            _ => {
                Outcome::Forward(Status::ok())
            },
        }
    }
}

/// A callback that names another state than the one stored, or that finds
/// no state stored, is refused: it yields no code to exchange.
pub proof fn law_unmatched_state_is_refused(
    query: CallbackQuery,
    cookies: Map<Seq<char>, Seq<char>>,
)
    requires
        query.is_callback(),
        value_of(cookies, state_cookie()) != Some(query.state->0@),
    ensures
        verdict(query, cookies) == Outcome::<AuthenticationResponseView, Status, Status>::Error(
            Status { code: 400 },
        ),
{
}

/// A callback that finds no nonce stored is refused: it yields no code to
/// exchange.
pub proof fn law_missing_nonce_is_refused(query: CallbackQuery, cookies: Map<Seq<char>, Seq<char>>)
    requires
        query.is_callback(),
        !cookies.contains_key(nonce_cookie()),
    ensures
        verdict(query, cookies) == Outcome::<AuthenticationResponseView, Status, Status>::Error(
            Status { code: 400 },
        ),
{
}

/// A callback passes only with the state that is stored, and carries on the
/// nonce that is stored and no other.
pub proof fn law_success_is_issued_here(query: CallbackQuery, cookies: Map<Seq<char>, Seq<char>>)
    requires
        verdict(query, cookies) is Success,
    ensures
        query.is_callback(),
        value_of(cookies, state_cookie()) == Some(query.state->0@),
        value_of(cookies, nonce_cookie()) == Some(verdict(query, cookies)->Success_0.nonce),
        verdict(query, cookies)->Success_0.code == query.code->0@,
        verdict(query, cookies)->Success_0.session_state == query.session_state->0@,
{
}

/// Whatever comes of a callback, neither the state nor the nonce is left
/// with the client.
pub proof fn law_callback_consumes(query: CallbackQuery, cookies: Map<Seq<char>, Seq<char>>)
    requires
        query.is_callback(),
    ensures
        !consumed(query, cookies).contains_key(state_cookie()),
        !consumed(query, cookies).contains_key(nonce_cookie()),
        forall|name: Seq<char>|
            name != state_cookie() && name != nonce_cookie() ==> value_of(
                consumed(query, cookies),
                name,
            ) == value_of(cookies, name),
{
}

/// After a callback, whatever came of it, no callback passes: the same
/// callback sent a second time is refused, and so is any other.
pub proof fn law_replay_is_refused(
    first: CallbackQuery,
    second: CallbackQuery,
    cookies: Map<Seq<char>, Seq<char>>,
)
    requires
        first.is_callback(),
        second.is_callback(),
    ensures
        verdict(second, consumed(first, cookies)) == Outcome::<
            AuthenticationResponseView,
            Status,
            Status,
        >::Error(Status { code: 400 }),
{
}

} // verus!
