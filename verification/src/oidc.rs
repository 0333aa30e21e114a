//! The OpenID Connect hatch: a login by the authorization code flow.

use rocket::figment::Figment;
use vstd::prelude::*;

use crate::assembly::{AssemblyError, HatchBuilder, Stage};
use crate::config::{fault, ConfigError, HatchConfig};
use crate::cookies::{value_of, CookieJar};
use crate::hatch::{Communicator, Hatch};

verus! {

/// The hatch that lets users in by an OpenID Connect login.
///
/// It holds what it was configured with and, once it is assembled, the
/// communicator that speaks to the identity provider: the client that knows
/// the provider's endpoints and keys.
pub struct OidcHatch<C: Communicator> {
    pub config: HatchConfig,
    pub client: Option<C>,
}

impl<C: Communicator> Hatch for OidcHatch<C> {
    type Comm = C;

    type Error = ConfigError;

    open spec fn attached(&self) -> Option<C> {
        self.client
    }

    open spec fn connected_to(self, comm: C) -> Self {
        OidcHatch { config: self.config, client: Some(comm) }
    }

    open spec fn identifier() -> Seq<char> {
        "OpenID Connect"@
    }

    fn is_connected(&self) -> (connected: bool) {
        self.client.is_some()
    }

    fn comm(&self) -> (comm: &C) {
        self.client.as_ref().unwrap()
    }

    fn connect_comm(&mut self, comm: C) {
        self.client = Some(comm);
    }

    fn name() -> (name: &'static str) {
        "OpenID Connect"
    }
}

impl<C: Communicator> OidcHatch<C> {
    /// Whether `hatch` is what comes of building the hatch from a
    /// configuration: the hatch without a communicator where the
    /// configuration has no fault, and else the first fault.
    pub open spec fn built_from(figment: Figment, hatch: Result<Self, ConfigError>) -> bool {
        match hatch {
            Ok(h) => {
                &&& fault(figment, Self::identifier()) is None
                &&& h.client is None
                &&& HatchConfig::read_from(figment, Self::identifier(), h.config)
            },
            Err(e) => fault(figment, Self::identifier()) == Some((e.key@, e.expected))
                && e.explains(figment),
        }
    }

    /// Builds the hatch from the server's configuration, without a
    /// communicator.
    ///
    /// The hatch comes about if and only if the configuration has no fault;
    /// otherwise the result is the first fault.
    pub fn from(figment: &Figment) -> (hatch: Result<OidcHatch<C>, ConfigError>)
        ensures
            hatch is Ok <==> fault(*figment, Self::identifier()) is None,
            Self::built_from(*figment, hatch),
    {
        match HatchConfig::from(figment, Self::name()) {
            Ok(config) => Ok(OidcHatch { config, client: None }),
            Err(error) => Err(error),
        }
    }

    /// Whether an access token still stands for a session.
    ///
    /// Every token is taken to be valid. To know better the hatch would have
    /// to ask the provider, by the session management of OpenID Connect,
    /// which the communicator cannot do: a session that the provider has
    /// ended is not noticed here.
    pub fn validate_access_token(&self, access_token: &str) -> (valid: bool)
        ensures
            valid,
    {
        true
    }

    /// The user whose session the cookies of a request show, if they show
    /// one: the cookies mark a session by its access token and name its
    /// user.
    pub fn user(&self, cookies: &CookieJar) -> (user: Option<String>)
        ensures
            match user {
                Some(name) => session_user(cookies@) == Some(name@),
                None => session_user(cookies@) is None,
            },
    {
        match cookies.get(access_token_cookie_name()) {
            Some(access_token) => {
                if self.validate_access_token(access_token.as_str()) {
                    cookies.get(username_cookie_name())
                } else {
                    None
                }
            },
            None => None,
        }
    }
}

/// The user of the session that cookies show: the user that they name, where
/// they also hold an access token.
pub open spec fn session_user(cookies: Map<Seq<char>, Seq<char>>) -> Option<Seq<char>> {
    if cookies.contains_key(access_token_cookie()) {
        value_of(cookies, username_cookie())
    } else {
        None
    }
}

/// The hatch is assembled from the configuration alone if and only if the
/// configuration has no fault and the provider's discovery succeeds. A fault
/// of the configuration ends the assembly as such, and a failed discovery as
/// a failure of the communicator; in either case no hatch is ready for an
/// airlock.
///
/// `hatch` is what came of building the hatch from `figment`, and
/// `discovery` is what came of building the client.
pub proof fn law_assembly_follows_configuration<C: Communicator>(
    figment: Figment,
    hatch: Result<OidcHatch<C>, ConfigError>,
    discovery: Result<C, C::Error>,
)
    requires
        OidcHatch::<C>::built_from(figment, hatch),
    ensures
        ({
            let nothing = HatchBuilder::<OidcHatch<C>> { comm: None, hatch: None };
            let end = nothing.first_stage().hatch_built(hatch).comm_built(discovery);
            &&& end is Ready <==> fault(figment, OidcHatch::<C>::identifier()) is None
                && discovery is Ok
            &&& end matches Stage::Ready { hatch: ready } ==> ready.client == Some(discovery->Ok_0)
                && ready.config == hatch->Ok_0.config
            &&& !(end is Ready) ==> end is Failed
            &&& end matches Stage::Failed { error: AssemblyError::Config(e) } ==> fault(
                figment,
                OidcHatch::<C>::identifier(),
            ) == Some((e.key@, e.expected))
            &&& end matches Stage::Failed { error: AssemblyError::Communicator(e) }
                ==> discovery == Err::<C, C::Error>(e)
        }),
{
}

/// The name of the cookie that holds the anti-forgery state of a login that
/// is under way.
pub open spec fn state_cookie() -> Seq<char> {
    "oidc_state"@
}

/// The name of the cookie that holds the nonce of a login that is under way.
pub open spec fn nonce_cookie() -> Seq<char> {
    "oidc_nonce"@
}

/// The name of the cookie that holds the name of the user who is logged in.
pub open spec fn username_cookie() -> Seq<char> {
    "username"@
}

/// The name of the cookie that marks a session by its access token.
pub open spec fn access_token_cookie() -> Seq<char> {
    "oidc_access_token"@
}

/// The four cookies of the flow have four names.
pub proof fn lemma_cookie_names_differ()
    ensures
        state_cookie() != nonce_cookie(),
        state_cookie() != username_cookie(),
        state_cookie() != access_token_cookie(),
        nonce_cookie() != username_cookie(),
        nonce_cookie() != access_token_cookie(),
        username_cookie() != access_token_cookie(),
{
    reveal_strlit("oidc_state");
    reveal_strlit("oidc_nonce");
    reveal_strlit("username");
    reveal_strlit("oidc_access_token");
    assert(state_cookie()[5] != nonce_cookie()[5]);
    assert(username_cookie().len() != access_token_cookie().len());
}

/// The name of the cookie that holds the anti-forgery state.
pub fn state_cookie_name() -> (name: &'static str)
    ensures
        name@ == state_cookie(),
{
    "oidc_state"
}

/// The name of the cookie that holds the nonce.
pub fn nonce_cookie_name() -> (name: &'static str)
    ensures
        name@ == nonce_cookie(),
{
    "oidc_nonce"
}

/// The name of the cookie that holds the user's name.
pub fn username_cookie_name() -> (name: &'static str)
    ensures
        name@ == username_cookie(),
{
    "username"
}

/// The name of the cookie that marks the session.
pub fn access_token_cookie_name() -> (name: &'static str)
    ensures
        name@ == access_token_cookie(),
{
    "oidc_access_token"
}

} // verus!
