//! Addresses.
use crate::error;
use crate::error::{message, Error, ErrorView};
use crate::text;
use crate::text::{joined3, same};
use std::str::FromStr;
use vstd::prelude::*;

verus! {

/// The parts of a URI that matter here.
#[derive(Debug, PartialEq)]
pub struct Uri {
    /// The URI as a text.
    pub text: String,
    pub scheme: Option<String>,
    pub has_authority: bool,
    pub path: String,
}

/// What a URI says.
pub struct UriView {
    pub text: Seq<char>,
    pub scheme: Option<Seq<char>>,
    pub has_authority: bool,
    pub path: Seq<char>,
}

impl View for Uri {
    type V = UriView;

    open spec fn view(&self) -> UriView {
        UriView {
            text: self.text@,
            scheme: match self.scheme {
                Some(scheme) => Some(scheme@),
                None => None,
            },
            has_authority: self.has_authority,
            path: self.path@,
        }
    }
}

/// What a parsed URI says, if there is one.
pub open spec fn uri_view(uri: Option<Uri>) -> Option<UriView> {
    match uri {
        Some(uri) => Some(uri@),
        None => None,
    }
}

/// What `hyper::Uri::from_str` makes of a text: the URI written back as a
/// text, its scheme, whether it has an authority, and its path; nothing where
/// it refuses the text.
pub uninterp spec fn parsed(text: Seq<char>) -> Option<UriView>;

/// `hyper::Uri::from_str`, read by `to_string`, `scheme_str`, `authority` and
/// `path`. The result is a function of the text alone, `parsed`.
#[verifier::external_body]
pub(crate) fn parse(text: &str) -> (uri: Option<Uri>)
    ensures
        uri_view(uri) == parsed(text@),
{
    match hyper::Uri::from_str(text) {
        Ok(uri) => Some(Uri {
            text: uri.to_string(),
            scheme: uri.scheme_str().map(str::to_owned),
            has_authority: uri.authority().is_some(),
            path: uri.path().to_owned(),
        }),
        Err(_) => None,
    }
}

/// What a button address must be: http, https or tg, with an authority.
pub open spec fn button_url_outcome(uri: Option<UriView>) -> Result<(), ErrorView> {
    match uri {
        None => error::refused("invalid Telegram button URL"@),
        Some(uri) => if uri.has_authority && (uri.scheme == Some("http"@) || uri.scheme == Some(
            "https"@,
        ) || uri.scheme == Some("tg"@)) {
            Ok(())
        } else {
            error::refused("Telegram button URL must use http, https, or tg"@)
        },
    }
}

/// What an https address must be, for the place named by `context`.
pub open spec fn https_url_outcome(uri: Option<UriView>, context: Seq<char>) -> Result<
    (),
    ErrorView,
> {
    match uri {
        None => error::refused("invalid Telegram "@ + context),
        Some(uri) => if uri.has_authority && uri.scheme == Some("https"@) {
            Ok(())
        } else {
            error::refused("Telegram "@ + context + " must be an HTTPS URL"@)
        },
    }
}

impl Uri {
    /// Whether the scheme is the given one.
    pub fn has_scheme(&self, scheme: &str) -> (result: bool)
        ensures
            result == (self@.scheme == Some(scheme@)),
    {
        match &self.scheme {
            Some(own) => same(own.as_str(), scheme),
            None => false,
        }
    }
}

/// Accepts a parsed button address.
pub fn check_button_url(uri: &Option<Uri>) -> (result: Result<(), Error>)
    ensures
        error::shown(result) == button_url_outcome(uri_view(*uri)),
{
    match uri {
        None => Err(message("invalid Telegram button URL")),
        Some(uri) => {
            if uri.has_authority && (uri.has_scheme("http") || uri.has_scheme("https")
                || uri.has_scheme("tg")) {
                Ok(())
            } else {
                Err(message("Telegram button URL must use http, https, or tg"))
            }
        },
    }
}

/// Accepts a parsed https address.
pub fn check_https_url(uri: &Option<Uri>, context: &str) -> (result: Result<(), Error>)
    ensures
        error::shown(result) == https_url_outcome(uri_view(*uri), context@),
{
    match uri {
        None => Err(Error::Message(text::joined("invalid Telegram ", context))),
        Some(uri) => {
            if uri.has_authority && uri.has_scheme("https") {
                Ok(())
            } else {
                Err(Error::Message(joined3("Telegram ", context, " must be an HTTPS URL")))
            }
        },
    }
}

/// Accepts a button address.
pub fn validate_button_url(url: &str) -> (result: Result<(), Error>)
    ensures
        error::shown(result) == button_url_outcome(parsed(url@)),
{
    check_button_url(&parse(url))
}

/// Accepts an https address for the place named by `context`.
pub fn validate_https_url(url: &str, context: &str) -> (result: Result<(), Error>)
    ensures
        error::shown(result) == https_url_outcome(parsed(url@), context@),
{
    check_https_url(&parse(url), context)
}

/// A button may open an address on the web or in Telegram, and an application
/// only one that is secured; each has to name a host.
pub proof fn law_addresses_are_refused_only_for_cause(uri: UriView, context: Seq<char>)
    ensures
        button_url_outcome(Some(uri)) is Ok <==> uri.has_authority && (uri.scheme == Some("http"@)
            || uri.scheme == Some("https"@) || uri.scheme == Some("tg"@)),
        https_url_outcome(Some(uri), context) is Ok <==> uri.has_authority && uri.scheme == Some(
            "https"@,
        ),
        button_url_outcome(None) is Err,
        https_url_outcome(None, context) is Err,
{
}

} // verus!
