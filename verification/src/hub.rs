//! Addresses of the Atuin Hub endpoints.

use vstd::prelude::*;
use vstd::string::*;

use crate::stream::opt_str;
use crate::text::{opt_view, text_eq};

verus! {

/// What `url::Url::parse` makes of `s`: the serialization of the URL, or,
/// where it refuses `s`, the message of its parse error.
pub uninterp spec fn parsed_url(s: Seq<char>) -> Result<Seq<char>, Seq<char>>;

/// The serialization of the URL that `url::Url::join` makes of the URL `base`
/// and the reference `reference`, or `None` where it fails.
pub uninterp spec fn joined_url(base: Seq<char>, reference: Seq<char>) -> Option<Seq<char>>;

/// Parses `s` with `url::Url::parse` and serializes the result with
/// `Url::as_str`; on failure, hands back the parse error's message (its
/// `Display` text). The contract claims that the outcome, URL text or error
/// message, is the named [`parsed_url`].
#[verifier::external_body]
fn parse_url(s: &str) -> (r: Result<String, String>)
    ensures
        match r {
            Ok(t) => parsed_url(s@) == Ok::<Seq<char>, Seq<char>>(t@),
            Err(m) => parsed_url(s@) == Err::<Seq<char>, Seq<char>>(m@),
        },
{
    match url::Url::parse(s) {
        Ok(u) => Ok(u.as_str().to_owned()),
        Err(e) => Err(e.to_string()),
    }
}

/// Resolves `reference` against the URL text `base` with `url::Url::join` and
/// serializes the result with `Url::as_str`. Two outside calls stand here: the
/// base text is read back into a `url::Url` with `url::Url::parse` first. The
/// library only ever hands this function a base that `parse_url` produced, the
/// serialization of a parsed URL, which parses again. The contract claims only
/// that the answer is the named [`joined_url`] of the two texts.
#[verifier::external_body]
fn join_url(base: &str, reference: &str) -> (r: Option<String>)
    ensures
        match r {
            Some(t) => joined_url(base@, reference@) == Some(t@),
            None => joined_url(base@, reference@) is None,
        },
{
    let base = url::Url::parse(base).ok()?;
    base.join(reference).ok().map(|u| u.as_str().to_owned())
}

/// Why a hub address could not be built.
#[derive(Debug, Clone, PartialEq, Eq)]
pub enum HubUrlError {
    /// The hub address is not a URL; the parser's message
    InvalidBase(String),
    /// The endpoint path could not be resolved against the hub address
    BuildFailed,
}

/// The hub address with exactly one trailing slash added where it has none.
pub open spec fn with_trailing_slash(base: Seq<char>) -> Seq<char> {
    if base.len() > 0 && base.last() == '/' {
        base
    } else {
        base + seq!['/']
    }
}

/// The path without one leading slash.
pub open spec fn without_leading_slash(path: Seq<char>) -> Seq<char> {
    if path.len() > 0 && path[0] == '/' {
        path.drop_first()
    } else {
        path
    }
}

/// The address of `path` on the hub at `base`: `path` resolved relative to the
/// hub address taken as a directory.
pub open spec fn hub_address(base: Seq<char>, path: Seq<char>) -> Result<Seq<char>, ()> {
    match parsed_url(with_trailing_slash(base)) {
        Ok(b) => match joined_url(b, without_leading_slash(path)) {
            Some(u) => Ok(u),
            None => Err(()),
        },
        Err(_) => Err(()),
    }
}

/// The endpoint address does not depend on how the hub address and the path
/// are written at their seam: a trailing slash on the hub address and a
/// leading slash on the path are both optional.
pub proof fn law_hub_address_slash_insensitive(base: Seq<char>, path: Seq<char>)
    requires
        !(base.len() > 0 && base.last() == '/'),
        !(path.len() > 0 && path[0] == '/'),
    ensures
        hub_address(base + seq!['/'], path) == hub_address(base, path),
        hub_address(base, seq!['/'] + path) == hub_address(base, path),
{
    let b = base + seq!['/'];
    assert(b.last() == '/');
    let p = seq!['/'] + path;
    assert(p[0] == '/');
    assert(p.drop_first() =~= path);
}

/// Builds the URL of an endpoint of the hub.
pub fn hub_url(base: &str, path: &str) -> (r: Result<String, HubUrlError>)
    ensures
        match r {
            Ok(u) => hub_address(base@, path@) == Ok::<Seq<char>, ()>(u@),
            Err(HubUrlError::InvalidBase(m)) => parsed_url(with_trailing_slash(base@)) == Err::<
                Seq<char>,
                Seq<char>,
            >(m@),
            Err(HubUrlError::BuildFailed) => parsed_url(with_trailing_slash(base@)) is Ok
                && hub_address(base@, path@) is Err,
        },
{
    let blen = base.unicode_len();
    let mut base_with_slash = base.to_owned();
    if !(blen > 0 && base.get_char(blen - 1) == '/') {
        base_with_slash.append("/");
        proof {
            reveal_strlit("/");
            assert("/"@ =~= seq!['/']);
        }
    }
    let plen = path.unicode_len();
    let stripped = if plen > 0 && path.get_char(0) == '/' {
        let s = path.substring_char(1, plen);
        assert(path@.subrange(1, plen as int) =~= path@.drop_first());
        s
    } else {
        path
    };
    match parse_url(base_with_slash.as_str()) {
        Ok(b) => match join_url(b.as_str(), stripped) {
            Some(u) => Ok(u),
            None => Err(HubUrlError::BuildFailed),
        },
        Err(e) => Err(HubUrlError::InvalidBase(e)),
    }
}

/// The operating system label sent to the hub.
pub open spec fn os_label_of(os: Seq<char>) -> Seq<char> {
    if os == "macos"@ || os == "linux"@ || os == "windows"@ {
        os
    } else {
        "Other: "@ + os
    }
}

/// The operating system label sent to the hub for the platform name `os`
/// (as `std::env::consts::OS` gives it).
pub fn os_label(os: &str) -> (r: String)
    ensures
        r@ == os_label_of(os@),
{
    if text_eq(os, "macos") || text_eq(os, "linux") || text_eq(os, "windows") {
        os.to_owned()
    } else {
        let mut r = "Other: ".to_owned();
        r.append(os);
        r
    }
}

/// The hub endpoint used when neither the command line nor the settings give
/// one.
pub open spec fn default_endpoint() -> Seq<char> {
    "https://hub.atuin.sh"@
}

/// The endpoint to talk to: the one given on the command line, else the one
/// in the settings, else the default hub.
pub fn resolve_endpoint(cli: Option<&str>, configured: Option<&str>) -> (r: String)
    ensures
        r@ == (match cli {
            Some(c) => c@,
            None => match configured {
                Some(s) => s@,
                None => default_endpoint(),
            },
        }),
{
    match cli {
        Some(c) => c.to_owned(),
        None => match configured {
            Some(s) => s.to_owned(),
            None => "https://hub.atuin.sh".to_owned(),
        },
    }
}

/// The API token to use: the one given on the command line, else the one in
/// the settings; `None` means a hub session is needed.
pub fn resolve_token(cli: Option<&str>, configured: Option<&str>) -> (r: Option<String>)
    ensures
        opt_view(r) == (match cli {
            Some(c) => Some(c@),
            None => opt_str(configured),
        }),
{
    match cli {
        Some(c) => Some(c.to_owned()),
        None => match configured {
            Some(s) => Some(s.to_owned()),
            None => None,
        },
    }
}

} // verus!
