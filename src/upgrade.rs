//! The upgrade orchestrator and the handshake driver's outcome.
use vstd::prelude::*;
use crate::mode::{Mode, Target, UrlError, resolution, resolve, scheme_mode};
use crate::transport::Transport;

verus! {

/// Why a connection attempt failed. `U` is the TLS library's error and `P`
/// the WebSocket handshake library's error, each carried unchanged.
#[derive(Debug)]
pub enum ConnectError<U, P> {
    /// The URL is malformed: no host, or not a WebSocket scheme.
    Url(UrlError),
    /// TLS was asked for, but this build has no TLS backend.
    EncryptionUnavailable,
    /// The TLS handshake failed.
    Upgrade(U),
    /// The WebSocket opening handshake failed.
    Protocol(P),
}

/// The transport backends that this build links.
#[derive(Clone, Copy, Debug, PartialEq, Eq, Structural)]
pub struct Backends {
    pub tls: bool,
}

/// What the orchestrator hands back before any I/O: either a finished
/// transport, or a stream on which a TLS client handshake must be run for a
/// domain.
pub enum Upgrade<S, T> {
    Ready(Transport<S, T>),
    Handshake { socket: S, domain: String },
}

/// `r` is the plan for a resolved stream: a plain stream is ready as it is,
/// a TLS stream is handed back for a handshake bound to `domain`, and a TLS
/// stream in a build without TLS fails.
pub open spec fn follows_plan<S, T, U, P>(
    r: Result<Upgrade<S, T>, ConnectError<U, P>>,
    socket: S,
    domain: Seq<char>,
    mode: Mode,
    backends: Backends,
) -> bool {
    match mode {
        Mode::Plain => r == Ok::<Upgrade<S, T>, ConnectError<U, P>>(
            Upgrade::Ready(Transport::Plain(socket)),
        ),
        Mode::Tls => if backends.tls {
            r matches Ok(Upgrade::Handshake { socket: s, domain: d }) && s == socket && d@ == domain
        } else {
            r == Err::<Upgrade<S, T>, ConnectError<U, P>>(ConnectError::EncryptionUnavailable)
        },
    }
}

/// `r` is what preparing `socket` for `target` yields: the URL's error, or
/// the plan for the resolved domain and mode.
pub open spec fn prepared<S, T, U, P>(
    r: Result<Upgrade<S, T>, ConnectError<U, P>>,
    target: Target,
    socket: S,
    backends: Backends,
) -> bool {
    match resolution(target) {
        Err(e) => r == Err::<Upgrade<S, T>, ConnectError<U, P>>(ConnectError::Url(e)),
        Ok((d, m)) => follows_plan(r, socket, d, m, backends),
    }
}

/// Turns a resolved stream into a transport, or says that a TLS handshake
/// on it is needed. A plain stream is wrapped as it is; no I/O is done here.
pub fn wrap_stream<S, T, U, P>(
    socket: S,
    domain: String,
    mode: Mode,
    backends: Backends,
) -> (r: Result<Upgrade<S, T>, ConnectError<U, P>>)
    ensures
        follows_plan(r, socket, domain@, mode, backends),
{
    match mode {
        Mode::Plain => Ok(Upgrade::Ready(Transport::Plain(socket))),
        Mode::Tls => {
            if backends.tls {
                Ok(Upgrade::Handshake { socket, domain })
            } else {
                Err(ConnectError::EncryptionUnavailable)
            }
        },
    }
}

/// Resolves a target and plans its stream: the domain is checked, then the
/// mode, and only then is the stream looked at.
pub fn prepare<S, T, U, P>(
    target: &Target,
    socket: S,
    backends: Backends,
) -> (r: Result<Upgrade<S, T>, ConnectError<U, P>>)
    ensures
        prepared(r, *target, socket, backends),
{
    match resolve(target) {
        Err(e) => Err(ConnectError::Url(e)),
        Ok((d, m)) => wrap_stream(socket, d, m, backends),
    }
}

/// Takes the outcome of the TLS handshake: a TLS stream becomes a `Tls`
/// transport, and a failure is reported as it came, never as a plain stream.
pub fn finish_upgrade<S, T, U, P>(outcome: Result<T, U>) -> (r: Result<Transport<S, T>, ConnectError<U, P>>)
    ensures
        match outcome {
            Ok(t) => r == Ok::<Transport<S, T>, ConnectError<U, P>>(Transport::Tls(t)),
            Err(e) => r == Err::<Transport<S, T>, ConnectError<U, P>>(ConnectError::Upgrade(e)),
        },
        r is Ok ==> r->Ok_0.spec_mode() == Mode::Tls,
{
    match outcome {
        Ok(t) => Ok(Transport::Tls(t)),
        Err(e) => Err(ConnectError::Upgrade(e)),
    }
}

/// Takes the outcome of the WebSocket opening handshake, passing the
/// connection through and reporting the library's error unchanged.
pub fn finish_handshake<W, U, P>(outcome: Result<W, P>) -> (r: Result<W, ConnectError<U, P>>)
    ensures
        match outcome {
            Ok(w) => r == Ok::<W, ConnectError<U, P>>(w),
            Err(e) => r == Err::<W, ConnectError<U, P>>(ConnectError::Protocol(e)),
        },
{
    match outcome {
        Ok(w) => Ok(w),
        Err(e) => Err(ConnectError::Protocol(e)),
    }
}

/// A target without a host fails with the URL error, whatever its scheme
/// and whatever backends are linked; the stream is not looked at.
pub proof fn lemma_missing_host_fails_before_io<S, T, U, P>(
    r: Result<Upgrade<S, T>, ConnectError<U, P>>,
    target: Target,
    socket: S,
    backends: Backends,
)
    requires
        target.host is None,
        prepared(r, target, socket, backends),
    ensures
        r == Err::<Upgrade<S, T>, ConnectError<U, P>>(ConnectError::Url(UrlError::NoHostName)),
{
}

/// A `ws` target with a host is planned as the very stream it was given,
/// wrapped as a plain transport.
pub proof fn lemma_plain_passes_stream_through<S, T, U, P>(
    r: Result<Upgrade<S, T>, ConnectError<U, P>>,
    target: Target,
    socket: S,
    backends: Backends,
)
    requires
        target.host is Some,
        target.scheme@ == "ws"@,
        prepared(r, target, socket, backends),
    ensures
        r == Ok::<Upgrade<S, T>, ConnectError<U, P>>(Upgrade::Ready(Transport::Plain(socket))),
{
}

/// A `wss` target with a host, in a build with TLS, is handed back for a TLS
/// handshake on the same stream, bound to the target's host.
pub proof fn lemma_tls_handshake_on_host<S, T, U, P>(
    r: Result<Upgrade<S, T>, ConnectError<U, P>>,
    target: Target,
    socket: S,
    backends: Backends,
)
    requires
        target.host is Some,
        target.scheme@ == "wss"@,
        backends.tls,
        prepared(r, target, socket, backends),
    ensures
        r matches Ok(Upgrade::Handshake { socket: s, domain: d }) && s == socket
            && d@ == target.host->Some_0@,
{
    reveal_strlit("ws");
    reveal_strlit("wss");
    assert("ws"@.len() != "wss"@.len());
    assert(scheme_mode(target.scheme@) == Some(Mode::Tls));
}

/// In a build without TLS, a `wss` target with a host fails with
/// `EncryptionUnavailable`, and no stream is handed on for any I/O.
pub proof fn lemma_no_tls_backend_fails_before_io<S, T, U, P>(
    r: Result<Upgrade<S, T>, ConnectError<U, P>>,
    target: Target,
    socket: S,
    backends: Backends,
)
    requires
        target.host is Some,
        target.scheme@ == "wss"@,
        !backends.tls,
        prepared(r, target, socket, backends),
    ensures
        r == Err::<Upgrade<S, T>, ConnectError<U, P>>(ConnectError::EncryptionUnavailable),
{
    reveal_strlit("ws");
    reveal_strlit("wss");
    assert("ws"@.len() != "wss"@.len());
    assert(scheme_mode(target.scheme@) == Some(Mode::Tls));
}

} // verus!
