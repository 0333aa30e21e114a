//! A login by the authorization code flow, from the redirect that sends the
//! browser to the identity provider to the session that its return opens.
//!
//! A login takes two requests. The first is answered by a redirect to the
//! provider, and leaves an anti-forgery state and a nonce with the client.
//! The second is the provider's callback. Once the guard of the callback
//! route has let it through, its code is exchanged for tokens, and the user
//! of the ID token is logged in. The exchange and the checking of the ID
//! token's signature and claims are the caller's part: what is decided here
//! is what follows from their results.

use vstd::prelude::*;

use crate::cookies::{Cookie, CookieChangeView, CookieJar, SameSite};
use crate::oidc::{
    access_token_cookie, access_token_cookie_name, lemma_cookie_names_differ, nonce_cookie,
    nonce_cookie_name, session_user, state_cookie, state_cookie_name, username_cookie,
    username_cookie_name,
};
use crate::extractor::{consumed, verdict, CallbackQuery};
use crate::outcome::{Outcome, Status};
use crate::query::{query_param, query_value};
use crate::uri::{parse_absolute, parsed_absolute};

verus! {

/// The least number of characters of an anti-forgery state and of a nonce.
pub const MIN_TOKEN_LENGTH: usize = 32;

/// Where a response sends the browser.
#[derive(Debug)]
pub struct Redirect {
    pub location: String,
}

/// Whether a URL carries a login: its query names the state and the nonce,
/// and neither is shorter than it must be.
pub open spec fn carries_login(url: Seq<char>, state: Seq<char>, nonce: Seq<char>) -> bool {
    &&& state.len() >= MIN_TOKEN_LENGTH
    &&& nonce.len() >= MIN_TOKEN_LENGTH
    &&& query_param(url, "state"@) == Some(state)
    &&& query_param(url, "nonce"@) == Some(nonce)
}

/// The request that begins a login: the URL of the provider's authorization
/// endpoint, together with the state and the nonce that the URL carries.
#[derive(Debug)]
pub struct AuthorizationRequest {
    url: String,
    state: String,
    nonce: String,
}

/// An authorization request, by the text of its parts.
pub struct AuthorizationRequestView {
    pub url: Seq<char>,
    pub state: Seq<char>,
    pub nonce: Seq<char>,
}

impl View for AuthorizationRequest {
    type V = AuthorizationRequestView;

    closed spec fn view(&self) -> AuthorizationRequestView {
        AuthorizationRequestView { url: self.url@, state: self.state@, nonce: self.nonce@ }
    }
}

impl AuthorizationRequest {
    #[verifier::type_invariant]
    spec fn sound(&self) -> bool {
        carries_login(self.url@, self.state@, self.nonce@)
    }

    /// An authorization request of these parts, if the URL carries the state
    /// and the nonce and both are long enough.
    pub fn new(url: String, state: String, nonce: String) -> (request: Option<
        AuthorizationRequest,
    >)
        ensures
            request is Some <==> carries_login(url@, state@, nonce@),
            request matches Some(r) ==> r@ == (AuthorizationRequestView {
                url: url@,
                state: state@,
                nonce: nonce@,
            }),
    {
        if state.as_str().unicode_len() < MIN_TOKEN_LENGTH || nonce.as_str().unicode_len()
            < MIN_TOKEN_LENGTH {
            return None;
        }
        let carried_state = match query_value(url.as_str(), "state") {
            Some(carried) => carried == state,
            None => false,
        };
        let carried_nonce = match query_value(url.as_str(), "nonce") {
            Some(carried) => carried == nonce,
            None => false,
        };
        if carried_state && carried_nonce {
            Some(AuthorizationRequest { url, state, nonce })
        } else {
            None
        }
    }

    /// The URL of the provider's authorization endpoint.
    pub fn url(&self) -> (url: &String)
        ensures
            url@ == self@.url,
    {
        &self.url
    }

    /// The anti-forgery state of the login.
    pub fn state(&self) -> (state: &String)
        ensures
            state@ == self@.state,
    {
        &self.state
    }

    /// The nonce of the login.
    pub fn nonce(&self) -> (nonce: &String)
        ensures
            nonce@ == self@.nonce,
    {
        &self.nonce
    }
}

/// The scope that a login asks the provider for.
pub fn scope() -> (scope: &'static str)
    ensures
        scope@ == "profile"@,
{
    "profile"
}

/// Takes up the authorization URL that the communicator made, with the
/// state and the nonce that it drew for it.
///
/// The URL is read as an absolute URI, and is kept as Rocket writes it. The
/// request comes about if and only if the URL is one and carries the state
/// and the nonce, both long enough.
pub fn authorize_url(url: &str, state: String, nonce: String) -> (request: Option<
    AuthorizationRequest,
>)
    ensures
        request is Some <==> (parsed_absolute(url@) matches Ok(uri) && carries_login(
            uri,
            state@,
            nonce@,
        )),
        request matches Some(r) ==> parsed_absolute(url@) == Ok::<Seq<char>, Seq<char>>(r@.url)
            && r@.state == state@ && r@.nonce == nonce@,
{
    match parse_absolute(url) {
        Ok(uri) => AuthorizationRequest::new(uri, state, nonce),
        Err(_) => None,
    }
}

/// The changes by which a login is begun: the state and the nonce are left
/// with the client, each in a cookie that a redirect back to this site
/// brings along.
pub open spec fn begun(request: AuthorizationRequestView) -> Seq<CookieChangeView> {
    seq![
        CookieChangeView::Add {
            name: state_cookie(),
            value: request.state,
            same_site: SameSite::Lax,
        },
        CookieChangeView::Add {
            name: nonce_cookie(),
            value: request.nonce,
            same_site: SameSite::Lax,
        },
    ]
}

/// Begins a login: the state and the nonce of the request are stored with
/// the client, and the browser is sent to the provider.
///
/// The URL to which the browser is sent names, as `state` and as `nonce`,
/// the very values that the cookies hold at that moment.
pub fn login(request: AuthorizationRequest, cookies: &mut CookieJar) -> (redirect: Redirect)
    ensures
        redirect.location@ == request@.url,
        final(cookies).incoming == old(cookies).incoming,
        final(cookies).pending() == old(cookies).pending() + begun(request@),
        final(cookies)@ == old(cookies)@.insert(state_cookie(), request@.state).insert(
            nonce_cookie(),
            request@.nonce,
        ),
        query_param(redirect.location@, "state"@) == Some(final(cookies)@[state_cookie()]),
        query_param(redirect.location@, "nonce"@) == Some(final(cookies)@[nonce_cookie()]),
        final(cookies)@[state_cookie()].len() >= MIN_TOKEN_LENGTH,
        final(cookies)@[nonce_cookie()].len() >= MIN_TOKEN_LENGTH,
{
    proof {
        use_type_invariant(&request);
        lemma_cookie_names_differ();
    }
    let AuthorizationRequest { url, state, nonce } = request;
    cookies.add(
        Cookie {
            name: String::from_str(state_cookie_name()),
            value: state,
            same_site: SameSite::Lax,
        },
    );
    cookies.add(
        Cookie {
            name: String::from_str(nonce_cookie_name()),
            value: nonce,
            same_site: SameSite::Lax,
        },
    );
    Redirect { location: url }
}

/// The claims of a verified ID token, as far as a login reads them.
#[derive(Debug)]
pub struct Claims {
    pub preferred_username: Option<String>,
}

/// What the checking of an ID token came to. The token's signature and its
/// claims are checked by the caller, who expects the nonce that the guard of
/// the callback route carried on.
#[derive(Debug)]
pub enum IdTokenCheck {
    /// The token is genuine and names the expected nonce.
    Verified(Claims),
    /// The token was refused, for this reason.
    Rejected(String),
}

/// What the provider's token endpoint answered to an authorization code.
#[derive(Debug)]
pub enum TokenReply {
    /// The exchange failed, for this reason.
    Failed(String),
    /// The provider issued an access token and, if it speaks OpenID Connect,
    /// an ID token.
    Tokens { access_token: String, id_token: Option<IdTokenCheck> },
}

/// The access token of a session with the verified claims of its user.
#[derive(Debug)]
pub struct ClaimResponse {
    pub access_token: String,
    pub claims: Claims,
}

/// Why a callback that passed the guard opened no session.
#[derive(Debug)]
pub enum LoginError {
    /// The provider could not be reached or refused the exchange.
    Provider(String),
    /// The provider issued no ID token: it speaks OAuth2 only, which is no
    /// proof of who the user is.
    NoIdToken,
    /// The ID token was refused.
    IdToken(String),
    /// The ID token does not name the user.
    NoUsername,
}

impl LoginError {
    /// Whether the provider broke the protocol, as opposed to a failure of
    /// the exchange itself.
    pub open spec fn is_violation(self) -> bool {
        self is NoIdToken || self is NoUsername
    }

    /// The status with which the request is answered: a server error,
    /// whatever went wrong, so that nothing of the provider shows.
    pub fn status(&self) -> (status: Status)
        ensures
            status.code == 500,
    {
        Status::internal_server_error()
    }
}

/// What an exchange of tokens comes to: the access token and the claims
/// where the provider issued an ID token and the token was verified, and
/// else the reason why not.
pub open spec fn exchanged(reply: TokenReply) -> Result<ClaimResponse, LoginError> {
    match reply {
        TokenReply::Failed(reason) => Err(LoginError::Provider(reason)),
        TokenReply::Tokens { access_token, id_token } => match id_token {
            None => Err(LoginError::NoIdToken),
            Some(IdTokenCheck::Rejected(reason)) => Err(LoginError::IdToken(reason)),
            Some(IdTokenCheck::Verified(claims)) => Ok(ClaimResponse { access_token, claims }),
        },
    }
}

/// What an exchange of tokens came to.
///
/// The exchange yields the access token and the claims if and only if the
/// provider issued an ID token and the token was verified. A reply without
/// an ID token is an error of its own.
pub fn exchange_token(reply: TokenReply) -> (claims: Result<ClaimResponse, LoginError>)
    ensures
        claims == exchanged(reply),
{
    match reply {
        TokenReply::Failed(reason) => Err(LoginError::Provider(reason)),
        TokenReply::Tokens { access_token, id_token } => match id_token {
            None => Err(LoginError::NoIdToken),
            Some(IdTokenCheck::Rejected(reason)) => Err(LoginError::IdToken(reason)),
            Some(IdTokenCheck::Verified(claims)) => Ok(ClaimResponse { access_token, claims }),
        },
    }
}

/// The user and the access token of the session that a reply opens, if it
/// opens one: the ID token must be verified and must name the user.
pub open spec fn session_of(reply: TokenReply) -> Option<(Seq<char>, Seq<char>)> {
    match exchanged(reply) {
        Ok(ClaimResponse { access_token, claims: Claims { preferred_username: Some(name) } }) => {
            Some((name@, access_token@))
        },
        _ => None,
    }
}

/// The changes by which a session is opened: the user's name and the access
/// token are left with the client.
pub open spec fn opened(username: Seq<char>, access_token: Seq<char>) -> Seq<CookieChangeView> {
    seq![
        CookieChangeView::Add {
            name: username_cookie(),
            value: username,
            same_site: SameSite::Lax,
        },
        CookieChangeView::Add {
            name: access_token_cookie(),
            value: access_token,
            same_site: SameSite::Lax,
        },
    ]
}

/// The error with which a reply that opens no session is answered.
pub open spec fn refusal_of(reply: TokenReply) -> LoginError {
    match exchanged(reply) {
        Err(error) => error,
        Ok(_) => LoginError::NoUsername,
    }
}

/// Ends a login, given what the exchange of the callback's code came to.
///
/// A session is opened if and only if the reply brings a verified ID token
/// that names the user: the user's name and the access token are stored
/// with the client, and the browser is sent to the home route. In every
/// other case the request fails and no cookie is touched.
pub fn login_callback(reply: TokenReply, cookies: &mut CookieJar) -> (redirect: Result<
    Redirect,
    LoginError,
>)
    ensures
        final(cookies).incoming == old(cookies).incoming,
        match session_of(reply) {
            Some((username, access_token)) => {
                &&& redirect matches Ok(to)
                &&& to.location@ == "/"@
                &&& final(cookies).pending() == old(cookies).pending() + opened(
                    username,
                    access_token,
                )
                &&& final(cookies)@ == old(cookies)@.insert(username_cookie(), username).insert(
                    access_token_cookie(),
                    access_token,
                )
            },
            None => {
                &&& redirect == Err::<Redirect, LoginError>(refusal_of(reply))
                &&& final(cookies).pending() == old(cookies).pending()
                &&& final(cookies)@ == old(cookies)@
            },
        },
{
    let claimed = exchange_token(reply)?;
    let username = match claimed.claims.preferred_username {
        Some(username) => username,
        None => {
            return Err(LoginError::NoUsername);
        },
    };
    cookies.add(
        Cookie {
            name: String::from_str(username_cookie_name()),
            value: username,
            same_site: SameSite::Lax,
        },
    );
    cookies.add(
        Cookie {
            name: String::from_str(access_token_cookie_name()),
            value: claimed.access_token,
            same_site: SameSite::Lax,
        },
    );
    Ok(Redirect { location: String::from_str("/") })
}

/// The state and the nonce that a login leaves with the client are gone
/// after the first callback, whatever state the callback names and whatever
/// comes of it; and no callback after the first passes.
pub proof fn law_login_is_consumed_once(
    request: AuthorizationRequestView,
    cookies: Map<Seq<char>, Seq<char>>,
    first: CallbackQuery,
    second: CallbackQuery,
)
    requires
        first.is_callback(),
        second.is_callback(),
    ensures
        ({
            let begun = cookies.insert(state_cookie(), request.state).insert(
                nonce_cookie(),
                request.nonce,
            );
            let after = consumed(first, begun);
            &&& begun.contains_key(state_cookie())
            &&& begun.contains_key(nonce_cookie())
            &&& !after.contains_key(state_cookie())
            &&& !after.contains_key(nonce_cookie())
            &&& verdict(first, begun) is Success <==> first.state->0@ == request.state
            &&& verdict(first, begun) matches Outcome::Success(response) ==> response.nonce
                == request.nonce
            &&& verdict(second, after) is Error
        }),
{
    lemma_cookie_names_differ();
}

/// The session that a login opens is the session that later requests show:
/// the cookies that `login_callback` leaves name the user of the ID token.
pub proof fn law_session_is_shown(
    cookies: Map<Seq<char>, Seq<char>>,
    username: Seq<char>,
    access_token: Seq<char>,
)
    ensures
        session_user(
            cookies.insert(username_cookie(), username).insert(access_token_cookie(), access_token),
        ) == Some(username),
{
    lemma_cookie_names_differ();
}

} // verus!
