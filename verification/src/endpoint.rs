//! Where to connect: the controller's address, with its scheme brought to
//! one of the two WebSocket schemes.

use crate::command::same_text;
use vstd::prelude::*;
use vstd::string::*;

verus! {

/// The address used when none is configured, or the configured one is of
/// no use.
pub const DEFAULT_URL: &'static str = "wss://gateway.cloudcontrol.littlebitsman.dev/";

/// The user agent named in the handshake.
pub const USER_AGENT: &'static str = "littleARCH cloudBit";

/// The handshake header that carries the device's hardware address.
pub const MAC_HEADER: &'static str = "MAC-Address";

/// The handshake header that carries the device's identifier.
pub const ID_HEADER: &'static str = "CB-Id";

/// The scheme of a text read as a URL by the `url` crate; `None` where the
/// text is no URL.
pub uninterp spec fn url_scheme(text: Seq<char>) -> Option<Seq<char>>;

/// A text read as a URL by the `url` crate, with its scheme replaced, written
/// out again; `None` where the text is no URL or the URL cannot take the
/// scheme.
pub uninterp spec fn url_with_scheme(text: Seq<char>, scheme: Seq<char>) -> Option<Seq<char>>;

/// Parses the text with `url::Url::parse` and returns what `Url::scheme`
/// gives for it. The result depends on the text alone.
#[verifier::external_body]
fn scheme_of(text: &str) -> (r: Option<String>)
    ensures
        match r {
            Some(scheme) => url_scheme(text@) == Some(scheme@),
            None => url_scheme(text@) is None,
        },
{
    url::Url::parse(text).ok().map(|parsed| parsed.scheme().to_string())
}

/// Parses the text with `url::Url::parse`, replaces the scheme with
/// `Url::set_scheme` and returns the URL as a string. The result depends on
/// the two texts alone; it is `None` where either call fails.
#[verifier::external_body]
fn with_scheme(text: &str, scheme: &str) -> (r: Option<String>)
    ensures
        match r {
            Some(address) => url_with_scheme(text@, scheme@) == Some(address@),
            None => url_with_scheme(text@, scheme@) is None,
        },
{
    let mut parsed = url::Url::parse(text).ok()?;
    parsed.set_scheme(scheme).ok()?;
    Some(parsed.into())
}

/// The WebSocket scheme that stands for a scheme: `ws` for `http`, `wss`
/// for `https`, the two WebSocket schemes for themselves, none for any other.
pub open spec fn socket_scheme(scheme: Seq<char>) -> Option<Seq<char>> {
    if scheme == "http"@ || scheme == "ws"@ {
        Some("ws"@)
    } else if scheme == "https"@ || scheme == "wss"@ {
        Some("wss"@)
    } else {
        None
    }
}

/// The address to connect to, given what the `url` crate makes of the
/// configured text: the configured address under its WebSocket scheme, or the
/// default address where the text is no URL or its scheme has no WebSocket
/// counterpart.
pub open spec fn chosen(
    scheme: Option<Seq<char>>,
    ws: Option<Seq<char>>,
    wss: Option<Seq<char>>,
) -> Seq<char> {
    match scheme {
        None => DEFAULT_URL@,
        Some(found) => match socket_scheme(found) {
            None => DEFAULT_URL@,
            Some(target) => {
                let replaced = if target == "ws"@ {
                    ws
                } else {
                    wss
                };
                match replaced {
                    Some(address) => address,
                    None => DEFAULT_URL@,
                }
            },
        },
    }
}

/// The address to connect to for a configured text.
pub open spec fn resolved(configured: Seq<char>) -> Seq<char> {
    chosen(
        url_scheme(configured),
        url_with_scheme(configured, "ws"@),
        url_with_scheme(configured, "wss"@),
    )
}

/// The WebSocket scheme that stands for a scheme, if there is one.
pub fn websocket_scheme(scheme: &str) -> (r: Option<&'static str>)
    ensures
        match r {
            Some(target) => socket_scheme(scheme@) == Some(target@),
            None => socket_scheme(scheme@) is None,
        },
{
    if same_text(scheme, "http") || same_text(scheme, "ws") {
        Some("ws")
    } else if same_text(scheme, "https") || same_text(scheme, "wss") {
        Some("wss")
    } else {
        None
    }
}

/// The address to connect to for a configured text: the text as a URL with
/// `http` turned into `ws` and `https` into `wss`; the default address where
/// the text is no URL or has any other scheme.
pub fn resolve(configured: &str) -> (address: String)
    ensures
        address@ == resolved(configured@),
{
    proof {
        reveal_strlit("ws");
        reveal_strlit("wss");
    }
    let target = match scheme_of(configured) {
        Some(scheme) => websocket_scheme(scheme.as_str()),
        None => None,
    };
    let replaced = match target {
        Some(scheme) => with_scheme(configured, scheme),
        None => None,
    };
    match replaced {
        Some(address) => address,
        None => DEFAULT_URL.to_owned(),
    }
}

/// The address to connect to: that of the configured text if there is one,
/// the default address if there is none.
pub fn resolve_or_default(configured: Option<&str>) -> (address: String)
    ensures
        address@ == match configured {
            Some(text) => resolved(text@),
            None => DEFAULT_URL@,
        },
{
    match configured {
        Some(text) => resolve(text),
        None => DEFAULT_URL.to_owned(),
    }
}

} // verus!
