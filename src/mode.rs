//! Mode and domain resolution from the parts of a request URL.
use vstd::prelude::*;

verus! {

/// Whether a connection is carried in the clear or inside TLS.
#[derive(Clone, Copy, Debug, PartialEq, Eq, Structural)]
pub enum Mode {
    Plain,
    Tls,
}

/// Why a URL cannot be connected to.
#[derive(Clone, Copy, Debug, PartialEq, Eq, Structural)]
pub enum UrlError {
    /// The URL has no host component.
    NoHostName,
    /// The scheme is neither `ws` nor `wss`.
    UnsupportedUrlScheme,
}

/// The parts of a request URL that a connection attempt reads: its scheme
/// and its host, if it has one.
pub struct Target {
    pub scheme: String,
    pub host: Option<String>,
}

/// The mode a URL scheme calls for: `ws` is plain, `wss` is encrypted, and
/// any other scheme has no mode.
pub open spec fn scheme_mode(scheme: Seq<char>) -> Option<Mode> {
    if scheme == "ws"@ {
        Some(Mode::Plain)
    } else if scheme == "wss"@ {
        Some(Mode::Tls)
    } else {
        None
    }
}

/// The host of a target as characters, or the error for a missing host.
pub open spec fn target_domain(target: Target) -> Result<Seq<char>, UrlError> {
    match target.host {
        Some(h) => Ok(h@),
        None => Err(UrlError::NoHostName),
    }
}

/// What resolving a target yields: the domain is looked at first, so a
/// target without a host fails on that whatever its scheme.
pub open spec fn resolution(target: Target) -> Result<(Seq<char>, Mode), UrlError> {
    match target_domain(target) {
        Err(e) => Err(e),
        Ok(d) => match scheme_mode(target.scheme@) {
            Some(m) => Ok((d, m)),
            None => Err(UrlError::UnsupportedUrlScheme),
        },
    }
}

impl Mode {
    pub fn is_tls(&self) -> (r: bool)
        ensures
            r == (*self == Mode::Tls),
    {
        match self {
            Mode::Plain => false,
            Mode::Tls => true,
        }
    }
}

/// The mode for a URL scheme.
pub fn url_mode(scheme: &str) -> (r: Result<Mode, UrlError>)
    ensures
        r == (match scheme_mode(scheme@) {
            Some(m) => Ok(m),
            None => Err(UrlError::UnsupportedUrlScheme),
        }),
{
    let plain = "ws".to_owned();
    let tls = "wss".to_owned();
    let s = scheme.to_owned();
    if s == plain {
        Ok(Mode::Plain)
    } else if s == tls {
        Ok(Mode::Tls)
    } else {
        Err(UrlError::UnsupportedUrlScheme)
    }
}

/// The domain to connect to: the target's host.
pub fn domain(target: &Target) -> (r: Result<String, UrlError>)
    ensures
        match target_domain(*target) {
            Ok(d) => r is Ok && r->Ok_0@ == d,
            Err(e) => r == Err::<String, UrlError>(e),
        },
{
    match &target.host {
        Some(h) => Ok(h.clone()),
        None => Err(UrlError::NoHostName),
    }
}

/// Resolves the domain and then the mode of a target, before any I/O.
pub fn resolve(target: &Target) -> (r: Result<(String, Mode), UrlError>)
    ensures
        match resolution(*target) {
            Ok((d, m)) => r is Ok && r->Ok_0.0@ == d && r->Ok_0.1 == m,
            Err(e) => r == Err::<(String, Mode), UrlError>(e),
        },
{
    let d = match domain(target) {
        Ok(d) => d,
        Err(e) => return Err(e),
    };
    let m = match url_mode(target.scheme.as_str()) {
        Ok(m) => m,
        Err(e) => return Err(e),
    };
    Ok((d, m))
}

/// A target with a recognised scheme and a host is encrypted exactly when its
/// scheme is `wss`, and plain for every other scheme.
pub proof fn lemma_mode_follows_scheme(target: Target)
    requires
        target.host is Some,
        scheme_mode(target.scheme@) is Some,
    ensures
        resolution(target) is Ok,
        target.scheme@ == "wss"@ ==> resolution(target)->Ok_0.1 == Mode::Tls,
        target.scheme@ != "wss"@ ==> resolution(target)->Ok_0.1 == Mode::Plain,
{
    reveal_strlit("ws");
    reveal_strlit("wss");
    assert("ws"@.len() != "wss"@.len());
}

/// A target without a host fails with `NoHostName`, whatever its scheme.
pub proof fn lemma_missing_host_fails(target: Target)
    requires
        target.host is None,
    ensures
        resolution(target) == Err::<(Seq<char>, Mode), UrlError>(UrlError::NoHostName),
{
}

} // verus!
