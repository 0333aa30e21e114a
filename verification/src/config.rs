//! What the OpenID Connect hatch reads from the server's configuration.
//!
//! The hatch has a section of its own, named after it, with four texts:
//! `discover_url`, `redirect_url`, `client_id` and `client_secret`. The two
//! URLs may be written in part and are completed with the server's own
//! `address` and `port`.

use rocket::figment::Figment;
use vstd::prelude::*;

use crate::text::{section_name, section_of};
use crate::uri::{parsed, resolved, to_absolute_url, UrlError};

verus! {

/// Figment's `Figment`: the configuration of the server, as it was collected
/// from its sources. Nothing is seen of it here but what `texts` and `ports`
/// name.
#[verifier::external_type_specification]
#[verifier::external_body]
pub struct ExFigment(Figment);

/// The texts of a configuration: each key under which the configuration
/// yields a text, with that text.
pub uninterp spec fn texts(figment: Figment) -> Map<Seq<char>, Seq<char>>;

/// The port numbers of a configuration: each key under which the
/// configuration yields a number from 0 to 65535, with that number.
pub uninterp spec fn ports(figment: Figment) -> Map<Seq<char>, u16>;

/// `Figment::extract_inner::<String>`: the text under a key.
///
/// `texts` names the keys on which this succeeds and what it then yields.
/// Where the key is missing or holds something else than a text there is no
/// result: Figment's error is dropped.
#[verifier::external_body]
fn extract_text(figment: &Figment, key: &str) -> (text: Option<String>)
    ensures
        text is Some <==> texts(*figment).contains_key(key@),
        text matches Some(t) ==> texts(*figment)[key@] == t@,
{
    figment.extract_inner::<String>(key).ok()
}

/// `Figment::extract_inner::<u16>`: the port number under a key.
///
/// `ports` names the keys on which this succeeds and what it then yields.
/// Where the key is missing or holds something else than such a number there
/// is no result: Figment's error is dropped.
#[verifier::external_body]
fn extract_port(figment: &Figment, key: &str) -> (port: Option<u16>)
    ensures
        port is Some <==> ports(*figment).contains_key(key@),
        port matches Some(p) ==> ports(*figment)[key@] == p,
{
    figment.extract_inner::<u16>(key).ok()
}

/// What a key of the configuration is to hold.
#[derive(Clone, Copy, Debug, PartialEq, Eq, Structural)]
pub enum Expected {
    /// A text.
    Text,
    /// A port number.
    Port,
    /// A text that is a URL, or can be completed to one.
    Url,
}

/// A fault of the configuration: the key at fault, and what it was to hold.
/// Where the key holds a text that is no URL, `url` says why.
#[derive(Debug)]
pub struct ConfigError {
    pub key: String,
    pub expected: Expected,
    pub url: Option<UrlError>,
}

impl Expected {
    /// What is expected, in words.
    pub open spec fn words(self) -> Seq<char> {
        match self {
            Expected::Text => "a text"@,
            Expected::Port => "a port number"@,
            Expected::Url => "a URL"@,
        }
    }
}

impl ConfigError {
    /// Whether `url` says all there is to say of the fault: for a text that
    /// is no URL, the reason for which that text is refused; for a key that
    /// is missing or holds no text or port, nothing.
    pub open spec fn explains(self, figment: Figment) -> bool {
        match self.url {
            Some(reason) => self.expected == Expected::Url && reason.refuses(
                texts(figment)[self.key@],
                texts(figment)["address"@],
                ports(figment)["port"@],
            ),
            None => self.expected != Expected::Url,
        }
    }

    /// The fault in words: the key, and what it was to hold.
    pub open spec fn described(self) -> Seq<char> {
        "configuration key `"@ + self.key@ + "` is missing or does not hold "@
            + self.expected.words()
    }

    /// The fault in words: the key, and what it was to hold.
    pub fn describe(&self) -> (message: String)
        ensures
            message@ == self.described(),
    {
        let mut message = String::from_str("configuration key `");
        message.append(self.key.as_str());
        message.append("` is missing or does not hold ");
        match self.expected {
            Expected::Text => message.append("a text"),
            Expected::Port => message.append("a port number"),
            Expected::Url => message.append("a URL"),
        }
        message
    }
}

/// The key of a field in the section of a hatch.
pub open spec fn key_of(section: Seq<char>, field: Seq<char>) -> Seq<char> {
    "airlock."@ + section + "."@ + field
}

/// The key of a field in the section of a hatch.
pub fn config_key(section: &str, field: &str) -> (key: String)
    ensures
        key@ == key_of(section@, field@),
{
    let mut key = String::from_str("airlock.");
    key.append(section);
    key.append(".");
    key.append(field);
    key
}

/// What the OpenID Connect hatch is configured with. Both URLs are absolute.
#[derive(Debug)]
pub struct HatchConfig {
    pub discover_url: String,
    pub redirect_url: String,
    pub client_id: String,
    pub client_secret: String,
}

/// A text as it is written into the configuration: the key, and the text
/// that is to stand under it.
#[derive(Debug)]
pub struct Entry {
    pub key: String,
    pub value: String,
}

/// The first fault of a configuration for the hatch of this name, if it has
/// one: the key at fault and what it was to hold. The keys are taken in the
/// order `address`, `port`, `discover_url`, `redirect_url`, `client_id`,
/// `client_secret`; a URL is at fault where it is missing and where it
/// cannot be made absolute.
pub open spec fn fault(figment: Figment, name: Seq<char>) -> Option<(Seq<char>, Expected)> {
    let section = section_of(name);
    let discover = key_of(section, "discover_url"@);
    let redirect = key_of(section, "redirect_url"@);
    let id = key_of(section, "client_id"@);
    let secret = key_of(section, "client_secret"@);
    let texts = texts(figment);
    if !texts.contains_key("address"@) {
        Some(("address"@, Expected::Text))
    } else if !ports(figment).contains_key("port"@) {
        Some(("port"@, Expected::Port))
    } else if !texts.contains_key(discover) {
        Some((discover, Expected::Text))
    } else if !texts.contains_key(redirect) {
        Some((redirect, Expected::Text))
    } else if absolute_at(figment, discover) is None {
        Some((discover, Expected::Url))
    } else if absolute_at(figment, redirect) is None {
        Some((redirect, Expected::Url))
    } else if !texts.contains_key(id) {
        Some((id, Expected::Text))
    } else if !texts.contains_key(secret) {
        Some((secret, Expected::Text))
    } else {
        None
    }
}

/// The absolute URL that the text under a key stands for, completed with
/// the address and the port of the configuration.
pub open spec fn absolute_at(figment: Figment, key: Seq<char>) -> Option<Seq<char>> {
    resolved(
        parsed(texts(figment)[key]),
        texts(figment)["address"@],
        ports(figment)["port"@],
    )
}

/// The text under a key, or the fault that there is none.
fn text_at(figment: &Figment, key: String) -> (text: Result<String, ConfigError>)
    ensures
        match text {
            Ok(t) => texts(*figment).contains_key(key@) && texts(*figment)[key@] == t@,
            Err(e) => !texts(*figment).contains_key(key@) && e.key == key && e.expected
                == Expected::Text && e.url is None,
        },
{
    match extract_text(figment, key.as_str()) {
        Some(text) => Ok(text),
        None => Err(ConfigError { key, expected: Expected::Text, url: None }),
    }
}

/// The URL under a key made absolute, or the fault that it cannot be.
fn url_at(url: &str, address: &str, port: u16, key: String) -> (absolute: Result<
    String,
    ConfigError,
>)
    ensures
        match absolute {
            Ok(uri) => resolved(parsed(url@), address@, port) == Some(uri@),
            Err(e) => {
                &&& resolved(parsed(url@), address@, port) is None
                &&& e.key == key
                &&& e.expected == Expected::Url
                &&& e.url matches Some(reason)
                &&& reason.refuses(url@, address@, port)
            },
        },
{
    match to_absolute_url(url, address, port) {
        Ok(uri) => Ok(uri),
        Err(error) => Err(ConfigError { key, expected: Expected::Url, url: Some(error) }),
    }
}

impl HatchConfig {
    /// Whether `config` is what a configuration without fault holds for the
    /// hatch of this name: its two URLs made absolute, and the client's
    /// identifier and secret.
    pub open spec fn read_from(figment: Figment, name: Seq<char>, config: HatchConfig) -> bool {
        let section = section_of(name);
        &&& absolute_at(figment, key_of(section, "discover_url"@)) == Some(config.discover_url@)
        &&& absolute_at(figment, key_of(section, "redirect_url"@)) == Some(config.redirect_url@)
        &&& texts(figment)[key_of(section, "client_id"@)] == config.client_id@
        &&& texts(figment)[key_of(section, "client_secret"@)] == config.client_secret@
    }

    /// Reads the configuration of the hatch of this name.
    ///
    /// The result is a configuration if and only if the server's address and
    /// port and the four texts of the hatch's section are there and both
    /// URLs can be made absolute. Otherwise it is the first fault.
    pub fn from(figment: &Figment, name: &str) -> (config: Result<HatchConfig, ConfigError>)
        ensures
            config is Ok <==> fault(*figment, name@) is None,
            config matches Err(e) ==> fault(*figment, name@) == Some((e.key@, e.expected)),
            config matches Err(e) ==> e.explains(*figment),
            config matches Ok(c) ==> Self::read_from(*figment, name@, c),
    {
        let section = section_name(name);
        let address = text_at(figment, String::from_str("address"))?;
        let port = match extract_port(figment, "port") {
            Some(port) => port,
            None => {
                return Err(
                    ConfigError {
                        key: String::from_str("port"),
                        expected: Expected::Port,
                        url: None,
                    },
                );
            },
        };
        let discover_key = config_key(section.as_str(), "discover_url");
        let redirect_key = config_key(section.as_str(), "redirect_url");
        let discover_url = text_at(figment, discover_key.clone())?;
        let redirect_url = text_at(figment, redirect_key.clone())?;
        let discover_url = url_at(discover_url.as_str(), address.as_str(), port, discover_key)?;
        let redirect_url = url_at(redirect_url.as_str(), address.as_str(), port, redirect_key)?;
        let client_id = text_at(figment, config_key(section.as_str(), "client_id"))?;
        let client_secret = text_at(figment, config_key(section.as_str(), "client_secret"))?;
        Ok(HatchConfig { discover_url, redirect_url, client_id, client_secret })
    }

    /// The two URLs as they are written back into the configuration of the
    /// hatch of this name, so that whoever reads it afterwards finds them
    /// absolute: first the discovery URL, then the redirect URL, each under
    /// its key.
    pub fn resolved_urls(&self, name: &str) -> (entries: Vec<Entry>)
        ensures
            entries@.len() == 2,
            entries@[0].key@ == key_of(section_of(name@), "discover_url"@),
            entries@[0].value@ == self.discover_url@,
            entries@[1].key@ == key_of(section_of(name@), "redirect_url"@),
            entries@[1].value@ == self.redirect_url@,
    {
        let section = section_name(name);
        let mut entries = Vec::new();
        entries.push(
            Entry {
                key: config_key(section.as_str(), "discover_url"),
                value: self.discover_url.clone(),
            },
        );
        entries.push(
            Entry {
                key: config_key(section.as_str(), "redirect_url"),
                value: self.redirect_url.clone(),
            },
        );
        entries
    }
}

/// Whoever reads a configuration reads the same: the hatch and its
/// communicator, each reading for itself, find the same absolute URLs and
/// the same client.
pub proof fn law_configuration_is_read_alike(
    figment: Figment,
    name: Seq<char>,
    first: HatchConfig,
    second: HatchConfig,
)
    requires
        HatchConfig::read_from(figment, name, first),
        HatchConfig::read_from(figment, name, second),
    ensures
        first.discover_url@ == second.discover_url@,
        first.redirect_url@ == second.redirect_url@,
        first.client_id@ == second.client_id@,
        first.client_secret@ == second.client_secret@,
{
}

} // verus!
