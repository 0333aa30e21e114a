use rocket::figment::providers::Serialized;
use rocket::figment::Figment;
use rocket_airlock::config::{config_key, ConfigError, Expected, HatchConfig};
use rocket_airlock::cookies::{Cookie, CookieJar, SameSite};
use rocket_airlock::login::{login_callback, Claims, IdTokenCheck, TokenReply};
use rocket_airlock::oidc::OidcHatch;
use rocket_airlock::uri::UrlError;
use rocket_airlock::assembly::{AssemblyError, Pending};
use rocket_airlock::{Airlock, Hatch};

struct Client;

impl rocket_airlock::Communicator for Client {
    type Error = String;
}

fn server() -> Figment {
    Figment::new().merge(("address", "0.0.0.0")).merge(("port", 8000))
}

fn whole() -> Figment {
    server()
        .merge(("airlock.openidconnect.discover_url", "https://idp.example/.well-known"))
        .merge(("airlock.openidconnect.redirect_url", "/login"))
        .merge(("airlock.openidconnect.client_id", "abc"))
        .merge(("airlock.openidconnect.client_secret", "s3cr3t"))
}

fn fault(figment: &Figment) -> ConfigError {
    match HatchConfig::from(figment, "OpenID Connect") {
        Err(error) => error,
        Ok(config) => panic!("expected a fault, got {:?}", config),
    }
}

#[test]
fn redirect_url_is_completed_with_the_listener() {
    let config = HatchConfig::from(&whole(), "OpenID Connect").expect("the configuration is whole");
    assert_eq!(config.redirect_url, "http://0.0.0.0:8000/login");
    assert_eq!(config.discover_url, "https://idp.example/.well-known");
    assert_eq!(config.client_id, "abc");
    assert_eq!(config.client_secret, "s3cr3t");
}

#[test]
fn hatch_is_built_from_its_own_section() {
    let hatch = OidcHatch::<Client>::from(&whole()).ok().expect("the configuration is whole");
    assert!(hatch.client.is_none());
    assert_eq!(hatch.config.redirect_url, "http://0.0.0.0:8000/login");
    assert_eq!(OidcHatch::<Client>::name(), "OpenID Connect");
    assert!(hatch.validate_access_token("anything"));
}

#[test]
fn hatch_keeps_the_communicator_that_is_attached() {
    let mut hatch = OidcHatch::<Client>::from(&whole()).ok().expect("the configuration is whole");
    assert!(!hatch.is_connected());
    hatch.connect_comm(Client);
    assert!(hatch.is_connected());
    assert!(hatch.client.is_some());
    let _client: &Client = hatch.comm();
}

#[test]
fn section_is_named_after_the_hatch() {
    let other = server()
        .merge(("airlock.myhatch.discover_url", "https://idp.example/"))
        .merge(("airlock.myhatch.redirect_url", "/back"))
        .merge(("airlock.myhatch.client_id", "id"))
        .merge(("airlock.myhatch.client_secret", "secret"));
    let config = HatchConfig::from(&other, "My Hatch").expect("the configuration is whole");
    assert_eq!(config.redirect_url, "http://0.0.0.0:8000/back");
    let error = fault(&other);
    assert_eq!(error.key, "airlock.openidconnect.discover_url");
}

#[test]
fn key_of_a_field() {
    assert_eq!(config_key("openidconnect", "client_id"), "airlock.openidconnect.client_id");
    assert_eq!(config_key("", ""), "airlock..");
}

#[test]
fn each_missing_key_is_named() {
    let keys = [
        "airlock.openidconnect.discover_url",
        "airlock.openidconnect.redirect_url",
        "airlock.openidconnect.client_id",
        "airlock.openidconnect.client_secret",
    ];
    for missing in keys {
        let mut figment = server();
        for key in keys {
            if key != missing {
                figment = figment.merge((key, "https://idp.example/x"));
            }
        }
        let error = fault(&figment);
        assert_eq!(error.key, missing);
        assert_eq!(error.expected, Expected::Text);
        assert!(error.url.is_none());
    }
}

#[test]
fn missing_address_and_port_are_named() {
    let no_address = Figment::new().merge(("port", 8000));
    let error = fault(&no_address);
    assert_eq!(error.key, "address");
    assert_eq!(error.expected, Expected::Text);
    let no_port = Figment::new().merge(("address", "0.0.0.0"));
    let error = fault(&no_port);
    assert_eq!(error.key, "port");
    assert_eq!(error.expected, Expected::Port);
    assert_eq!(error.describe(), "configuration key `port` is missing or does not hold a port number");
}

#[test]
fn key_of_the_wrong_type_is_named() {
    let number = whole().merge(("airlock.openidconnect.client_id", 5));
    let error = fault(&number);
    assert_eq!(error.key, "airlock.openidconnect.client_id");
    assert_eq!(error.expected, Expected::Text);
    assert_eq!(
        error.describe(),
        "configuration key `airlock.openidconnect.client_id` is missing or does not hold a text"
    );
    let large = whole().merge(("port", 70000));
    let error = fault(&large);
    assert_eq!(error.key, "port");
    assert_eq!(error.expected, Expected::Port);
    let text = whole().merge(("port", "eighty"));
    assert_eq!(fault(&text).key, "port");
}

#[test]
fn url_that_cannot_be_made_absolute_is_named() {
    let asterisk = whole().merge(("airlock.openidconnect.redirect_url", "*"));
    let error = fault(&asterisk);
    assert_eq!(error.key, "airlock.openidconnect.redirect_url");
    assert_eq!(error.expected, Expected::Url);
    assert!(matches!(error.url, Some(UrlError::Asterisk)));
    assert_eq!(
        error.describe(),
        "configuration key `airlock.openidconnect.redirect_url` is missing or does not hold a URL"
    );
    let invalid = whole().merge(("airlock.openidconnect.discover_url", "not a url"));
    let error = fault(&invalid);
    assert_eq!(error.key, "airlock.openidconnect.discover_url");
    assert_eq!(error.expected, Expected::Url);
    assert!(matches!(error.url, Some(UrlError::NotAUri { .. })));
}

#[test]
fn first_fault_is_the_one_named() {
    let both = server()
        .merge(("airlock.openidconnect.discover_url", "*"))
        .merge(("airlock.openidconnect.client_id", "abc"));
    let error = fault(&both);
    assert_eq!(error.key, "airlock.openidconnect.redirect_url");
    assert_eq!(error.expected, Expected::Text);
    let hatch = OidcHatch::<Client>::from(&both);
    assert!(hatch.is_err());
}

fn stored(name: &str, value: &str) -> Cookie {
    Cookie { name: name.to_string(), value: value.to_string(), same_site: SameSite::Lax }
}

#[test]
fn session_is_shown_by_its_two_cookies() {
    let hatch = OidcHatch::<Client>::from(&whole()).ok().expect("the configuration is whole");
    let both = CookieJar::from_cookies(vec![stored("username", "alice"), stored("oidc_access_token", "t")]);
    assert_eq!(hatch.user(&both), Some("alice".to_string()));
    let no_token = CookieJar::from_cookies(vec![stored("username", "alice")]);
    assert_eq!(hatch.user(&no_token), None);
    let no_name = CookieJar::from_cookies(vec![stored("oidc_access_token", "t")]);
    assert_eq!(hatch.user(&no_name), None);
    assert_eq!(hatch.user(&CookieJar::new()), None);
}

#[test]
fn login_opens_the_session_that_is_shown() {
    let hatch = OidcHatch::<Client>::from(&whole()).ok().expect("the configuration is whole");
    let mut jar = CookieJar::new();
    let reply = TokenReply::Tokens {
        access_token: "token-1".to_string(),
        id_token: Some(IdTokenCheck::Verified(Claims {
            preferred_username: Some("alice".to_string()),
        })),
    };
    assert!(login_callback(reply, &mut jar).is_ok());
    assert_eq!(hatch.user(&jar), Some("alice".to_string()));
}

#[test]
fn fault_of_the_configuration_ends_the_assembly_with_its_key() {
    let no_secret = server()
        .merge(("airlock.openidconnect.discover_url", "https://idp.example/.well-known"))
        .merge(("airlock.openidconnect.redirect_url", "/login"))
        .merge(("airlock.openidconnect.client_id", "abc"));
    let assembly = Airlock::<OidcHatch<Client>>::fairing();
    assert_eq!(assembly.pending(), Pending::Hatch);
    let assembly = assembly.hatch_built(OidcHatch::from(&no_secret));
    assert_eq!(assembly.pending(), Pending::Nothing);
    match assembly.finish() {
        Err(AssemblyError::Config(error)) => {
            assert_eq!(error.key, "airlock.openidconnect.client_secret");
            assert_eq!(error.expected, Expected::Text);
        },
        _ => panic!("expected a fault of the configuration"),
    }
}

#[test]
fn whole_configuration_and_discovery_install_the_hatch() {
    let assembly = Airlock::<OidcHatch<Client>>::fairing().hatch_built(OidcHatch::from(&whole()));
    assert_eq!(assembly.pending(), Pending::Comm);
    let airlock = match assembly.comm_built(Ok(Client)).finish() {
        Ok(airlock) => airlock,
        Err(_) => panic!("expected an airlock"),
    };
    assert!(airlock.hatch().client.is_some());
    assert_eq!(airlock.hatch().config.redirect_url, "http://0.0.0.0:8000/login");
}

#[test]
fn failed_discovery_installs_no_hatch() {
    let assembly = Airlock::<OidcHatch<Client>>::fairing()
        .hatch_built(OidcHatch::from(&whole()))
        .comm_built(Err("no route to host".to_string()));
    match assembly.finish() {
        Err(AssemblyError::Communicator(reason)) => assert_eq!(reason, "no route to host"),
        _ => panic!("expected a failure of the communicator"),
    }
}

#[test]
fn whole_oidc_hatch_is_installed_without_discovery() {
    let mut hatch = OidcHatch::<Client>::from(&whole()).ok().expect("the configuration is whole");
    hatch.connect_comm(Client);
    let assembly = Airlock::fairing_custom(hatch);
    assert_eq!(assembly.pending(), Pending::Nothing);
    let airlock = match assembly.finish() {
        Ok(airlock) => airlock,
        Err(_) => panic!("expected an airlock"),
    };
    assert!(airlock.hatch().is_connected());
    assert_eq!(airlock.hatch().config.client_id, "abc");
}

#[test]
fn resolved_urls_are_written_under_their_keys() {
    let config = HatchConfig::from(&whole(), "OpenID Connect").expect("the configuration is whole");
    let entries = config.resolved_urls("OpenID Connect");
    assert_eq!(entries.len(), 2);
    assert_eq!(entries[0].key, "airlock.openidconnect.discover_url");
    assert_eq!(entries[0].value, "https://idp.example/.well-known");
    assert_eq!(entries[1].key, "airlock.openidconnect.redirect_url");
    assert_eq!(entries[1].value, "http://0.0.0.0:8000/login");
}

#[test]
fn configuration_with_its_urls_written_back_reads_the_same() {
    let config = HatchConfig::from(&whole(), "OpenID Connect").expect("the configuration is whole");
    let mut figment = whole();
    for entry in config.resolved_urls("OpenID Connect") {
        figment = figment.merge(Serialized::global(&entry.key, entry.value));
    }
    let written: String = figment
        .extract_inner("airlock.openidconnect.redirect_url")
        .expect("the redirect URL is there");
    assert_eq!(written, "http://0.0.0.0:8000/login");
    let again = HatchConfig::from(&figment, "OpenID Connect").expect("the configuration is whole");
    assert_eq!(again.redirect_url, config.redirect_url);
    assert_eq!(again.discover_url, config.discover_url);
    assert_eq!(again.client_id, config.client_id);
    assert_eq!(again.client_secret, config.client_secret);
}

#[test]
fn reason_is_given_for_a_url_and_for_nothing_else() {
    let reference = whole().merge(("airlock.openidconnect.redirect_url", "/login#top"));
    match fault(&reference).url {
        Some(UrlError::NotAbsolute { completed, complaint }) => {
            assert_eq!(completed, "http://0.0.0.0:8000/login#top");
            assert!(!complaint.is_empty());
        },
        other => panic!("expected a reason, got {:?}", other),
    }
    let missing = server();
    assert!(fault(&missing).url.is_none());
    let no_port = Figment::new().merge(("address", "0.0.0.0"));
    assert!(fault(&no_port).url.is_none());
}
