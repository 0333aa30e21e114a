//! URLs of the configuration, made whole.
//!
//! A URL of the configuration may be written in part only: as a path on this
//! server, or without its scheme. Such a URL is completed with the address
//! and the port at which the server listens. What a text is as a URI is for
//! Rocket's parser to say; what is put before it is decided here.

use rocket::http::uri::{Absolute, Authority, Uri};
use vstd::prelude::*;

use crate::text::{decimal, push_decimal};

verus! {

/// What a text is when it is read as a URI, with the text as the URI writes
/// it.
#[derive(Debug)]
pub enum UriForm {
    /// `*` and nothing else.
    Asterisk,
    /// A path on a server that is not named, with its query.
    Origin { text: String },
    /// A host, with the user and the port if they are given.
    Authority { text: String },
    /// A URI with its scheme, and without a fragment.
    Absolute { text: String },
    /// Any other reference, with its scheme and its authority as far as it
    /// has them.
    Reference { scheme: Option<String>, authority: Option<String>, text: String },
}

/// The form of a URI, by the text of its parts.
pub enum UriFormView {
    Asterisk,
    Origin { text: Seq<char> },
    Authority { text: Seq<char> },
    Absolute { text: Seq<char> },
    Reference { scheme: Option<Seq<char>>, authority: Option<Seq<char>>, text: Seq<char> },
}

/// A text that may be missing, by its characters.
pub open spec fn text_view(text: Option<String>) -> Option<Seq<char>> {
    match text {
        Some(text) => Some(text@),
        None => None,
    }
}

impl View for UriForm {
    type V = UriFormView;

    open spec fn view(&self) -> UriFormView {
        match *self {
            UriForm::Asterisk => UriFormView::Asterisk,
            UriForm::Origin { text } => UriFormView::Origin { text: text@ },
            UriForm::Authority { text } => UriFormView::Authority { text: text@ },
            UriForm::Absolute { text } => UriFormView::Absolute { text: text@ },
            UriForm::Reference { scheme, authority, text } => UriFormView::Reference {
                scheme: text_view(scheme),
                authority: text_view(authority),
                text: text@,
            },
        }
    }
}

/// What Rocket's parser makes of a text that may be a URI of any form: the
/// form that fits best, or the parser's complaint.
pub uninterp spec fn parsed(text: Seq<char>) -> Result<UriFormView, Seq<char>>;

/// What Rocket's parser makes of a text that is to be an absolute URI: the
/// URI as Rocket writes it, or the parser's complaint.
pub uninterp spec fn parsed_absolute(text: Seq<char>) -> Result<Seq<char>, Seq<char>>;

/// `Uri::parse_any`: the text read as a URI of the form that fits best.
///
/// The result is what `parsed` names: nothing is claimed of the parser but
/// that it decides by the text alone. Each form comes with the URI as its
/// `Display` writes it, a reference also with its scheme and with its
/// authority as `Display` writes it, and a failure with the error as its
/// `Display` writes it.
#[verifier::external_body]
fn parse_any(text: &str) -> (form: Result<UriForm, String>)
    ensures
        match form {
            Ok(form) => parsed(text@) == Ok::<UriFormView, Seq<char>>(form@),
            Err(complaint) => parsed(text@) == Err::<UriFormView, Seq<char>>(complaint@),
        },
{
    match Uri::parse_any(text) {
        Ok(Uri::Asterisk(_)) => Ok(UriForm::Asterisk),
        Ok(Uri::Origin(origin)) => Ok(UriForm::Origin { text: origin.to_string() }),
        Ok(Uri::Authority(authority)) => Ok(UriForm::Authority { text: authority.to_string() }),
        Ok(Uri::Absolute(absolute)) => Ok(UriForm::Absolute { text: absolute.to_string() }),
        Ok(Uri::Reference(reference)) => Ok(UriForm::Reference {
            scheme: reference.scheme().map(str::to_string),
            authority: reference.authority().map(Authority::to_string),
            text: reference.to_string(),
        }),
        Err(error) => Err(error.to_string()),
    }
}

/// `Absolute::parse`: the text read as an absolute URI.
///
/// The result is what `parsed_absolute` names: the URI as its `Display`
/// writes it, or the error as its `Display` writes it.
#[verifier::external_body]
pub(crate) fn parse_absolute(text: &str) -> (absolute: Result<String, String>)
    ensures
        match absolute {
            Ok(uri) => parsed_absolute(text@) == Ok::<Seq<char>, Seq<char>>(uri@),
            Err(complaint) => parsed_absolute(text@) == Err::<Seq<char>, Seq<char>>(complaint@),
        },
{
    match Absolute::parse(text) {
        Ok(absolute) => Ok(absolute.to_string()),
        Err(error) => Err(error.to_string()),
    }
}

/// Why a URL of the configuration cannot be used.
#[derive(Debug)]
pub enum UrlError {
    /// The text is no URI of any form. `complaint` is the parser's.
    NotAUri { complaint: String },
    /// The text is `*`, which names no place.
    Asterisk,
    /// The text is a URI in part, and what it was completed to is not an
    /// absolute URI. `complaint` is the parser's.
    NotAbsolute { completed: String, complaint: String },
}

/// The place at which the server listens, as it stands in a URL.
pub open spec fn listener(address: Seq<char>, port: u16) -> Seq<char> {
    address + seq![':'] + decimal(port as nat)
}

/// The text that a URI is completed to before it is read as an absolute URI.
///
/// A path gets the scheme `http` and the server's own address and port put
/// before it. A reference gets the scheme `http` if it has none, and the
/// server's address and port if it has no authority. An authority names its
/// host itself and an absolute URI is complete: both stay as they are. An
/// asterisk is completed to nothing.
pub open spec fn completed(form: UriFormView, address: Seq<char>, port: u16) -> Option<Seq<char>> {
    match form {
        UriFormView::Asterisk => None,
        UriFormView::Origin { text } => Some("http://"@ + listener(address, port) + text),
        UriFormView::Authority { text } => Some(text),
        UriFormView::Absolute { text } => Some(text),
        UriFormView::Reference { scheme, authority, text } => Some(
            (if scheme is Some {
                Seq::<char>::empty()
            } else {
                "http://"@
            }) + (if authority is Some {
                Seq::<char>::empty()
            } else {
                listener(address, port)
            }) + text,
        ),
    }
}

/// The absolute URL that a URL of the configuration stands for, given what
/// the parser makes of the URL and of what the URL is completed to.
pub open spec fn resolved(
    form: Result<UriFormView, Seq<char>>,
    address: Seq<char>,
    port: u16,
) -> Option<Seq<char>> {
    match form {
        Ok(UriFormView::Absolute { text }) => Some(text),
        Ok(UriFormView::Asterisk) => None,
        Ok(form) => match parsed_absolute(completed(form, address, port)->0) {
            Ok(uri) => Some(uri),
            Err(_) => None,
        },
        Err(_) => None,
    }
}

/// Puts the server's address and port at the end of a text.
fn push_listener(text: &mut String, address: &str, port: u16)
    ensures
        final(text)@ == old(text)@ + listener(address@, port),
{
    text.append(address);
    text.append(":");
    proof {
        reveal_strlit(":");
    }
    push_decimal(text, port);
}

/// Completes a URI with the address and the port at which the server
/// listens.
pub fn complete(form: &UriForm, address: &str, port: u16) -> (text: Option<String>)
    ensures
        match text {
            Some(text) => completed(form@, address@, port) == Some(text@),
            None => completed(form@, address@, port) is None,
        },
{
    match form {
        UriForm::Asterisk => None,
        UriForm::Origin { text } => {
            let mut whole = String::from_str("http://");
            push_listener(&mut whole, address, port);
            whole.append(text.as_str());
            Some(whole)
        },
        UriForm::Authority { text } => Some(text.clone()),
        UriForm::Absolute { text } => Some(text.clone()),
        UriForm::Reference { scheme, authority, text } => {
            let mut whole = String::new();
            if scheme.is_none() {
                whole.append("http://");
            }
            if authority.is_none() {
                push_listener(&mut whole, address, port);
            }
            whole.append(text.as_str());
            Some(whole)
        },
    }
}

impl UrlError {
    /// Whether this is the reason for which a URL of the configuration is
    /// refused: what the parser made of the URL, or of what the URL was
    /// completed to.
    pub open spec fn refuses(self, url: Seq<char>, address: Seq<char>, port: u16) -> bool {
        match self {
            UrlError::NotAUri { complaint } => parsed(url) == Err::<UriFormView, Seq<char>>(
                complaint@,
            ),
            UrlError::Asterisk => parsed(url) == Ok::<UriFormView, Seq<char>>(
                UriFormView::Asterisk,
            ),
            UrlError::NotAbsolute { completed: text, complaint } => {
                &&& parsed(url) matches Ok(form)
                &&& !(form is Absolute)
                &&& completed(form, address, port) == Some(text@)
                &&& parsed_absolute(text@) == Err::<Seq<char>, Seq<char>>(complaint@)
            },
        }
    }
}

/// Makes an absolute URL of a URL of the configuration.
///
/// An absolute URI is taken as Rocket writes it. A URI in part is completed
/// with `address` and `port` and must then be an absolute URI. `*` and a
/// text that is no URI are refused.
pub fn to_absolute_url(url: &str, address: &str, port: u16) -> (absolute: Result<String, UrlError>)
    ensures
        absolute is Ok <==> resolved(parsed(url@), address@, port) is Some,
        match absolute {
            Ok(uri) => resolved(parsed(url@), address@, port) == Some(uri@),
            Err(error) => error.refuses(url@, address@, port),
        },
{
    match parse_any(url) {
        Err(complaint) => Err(UrlError::NotAUri { complaint }),
        Ok(UriForm::Absolute { text }) => Ok(text),
        Ok(form) => match complete(&form, address, port) {
            None => Err(UrlError::Asterisk),
            Some(completed) => match parse_absolute(completed.as_str()) {
                Ok(uri) => Ok(uri),
                Err(complaint) => Err(UrlError::NotAbsolute { completed, complaint }),
            },
        },
    }
}

/// A path on this server is made absolute by the scheme `http` and the
/// place at which the server listens: the URL that it stands for is what
/// the parser makes of the three, one after the other.
pub proof fn law_path_is_completed_with_listener(
    url: Seq<char>,
    path: Seq<char>,
    address: Seq<char>,
    port: u16,
)
    requires
        parsed(url) == Ok::<UriFormView, Seq<char>>(UriFormView::Origin { text: path }),
    ensures
        completed(UriFormView::Origin { text: path }, address, port) == Some(
            "http://"@ + address + seq![':'] + decimal(port as nat) + path,
        ),
        resolved(parsed(url), address, port) == match parsed_absolute(
            "http://"@ + address + seq![':'] + decimal(port as nat) + path,
        ) {
            Ok(uri) => Some(uri),
            Err(_) => None,
        },
{
    assert("http://"@ + listener(address, port) + path == "http://"@ + address + seq![':']
        + decimal(port as nat) + path);
}

/// A URL that is absolute already stands for itself, as the parser writes
/// it, whatever the server's address and port are.
pub proof fn law_absolute_stands_for_itself(
    url: Seq<char>,
    text: Seq<char>,
    address: Seq<char>,
    port: u16,
)
    requires
        parsed(url) == Ok::<UriFormView, Seq<char>>(UriFormView::Absolute { text }),
    ensures
        resolved(parsed(url), address, port) == Some(text),
{
}

} // verus!
