use ws_tls_connect::mode::{domain, resolve, url_mode, Mode, Target, UrlError};
use ws_tls_connect::transport::Transport;
use ws_tls_connect::upgrade::{
    finish_handshake, finish_upgrade, prepare, wrap_stream, Backends, ConnectError, Upgrade,
};

type Failure = ConnectError<String, String>;

fn target(scheme: &str, host: Option<&str>) -> Target {
    Target { scheme: scheme.to_string(), host: host.map(|h| h.to_string()) }
}

const WITH_TLS: Backends = Backends { tls: true };
const WITHOUT_TLS: Backends = Backends { tls: false };

#[test]
fn encrypted_scheme_resolves_to_tls() {
    assert_eq!(url_mode("wss"), Ok(Mode::Tls));
    assert_eq!(resolve(&target("wss", Some("example.com"))), Ok(("example.com".to_string(), Mode::Tls)));
}

#[test]
fn plaintext_scheme_resolves_to_plain() {
    assert_eq!(url_mode("ws"), Ok(Mode::Plain));
    assert_eq!(resolve(&target("ws", Some("example.com"))), Ok(("example.com".to_string(), Mode::Plain)));
}

#[test]
fn unknown_scheme_is_url_error() {
    assert_eq!(url_mode("http"), Err(UrlError::UnsupportedUrlScheme));
    assert_eq!(url_mode("WSS"), Err(UrlError::UnsupportedUrlScheme));
    assert_eq!(url_mode(""), Err(UrlError::UnsupportedUrlScheme));
    assert_eq!(resolve(&target("https", Some("example.com"))), Err(UrlError::UnsupportedUrlScheme));
}

#[test]
fn missing_host_is_url_error_for_every_scheme() {
    for scheme in ["ws", "wss", "http", ""] {
        assert_eq!(resolve(&target(scheme, None)), Err(UrlError::NoHostName));
        let r: Result<Upgrade<u8, u16>, Failure> = prepare(&target(scheme, None), 7u8, WITH_TLS);
        assert!(matches!(r, Err(ConnectError::Url(UrlError::NoHostName))));
    }
}

#[test]
fn domain_is_the_host() {
    assert_eq!(domain(&target("wss", Some("example.com"))), Ok("example.com".to_string()));
    assert_eq!(domain(&target("wss", None)), Err(UrlError::NoHostName));
}

#[test]
fn plain_stream_is_passed_through_unchanged() {
    let bytes = vec![1u8, 2, 3, 255];
    let r: Result<Upgrade<Vec<u8>, u16>, Failure> = wrap_stream(bytes.clone(), "example.com".to_string(), Mode::Plain, WITHOUT_TLS);
    match r {
        Ok(Upgrade::Ready(Transport::Plain(s))) => assert_eq!(s, bytes),
        _ => panic!("plain mode must hand the stream back as it is"),
    }
}

#[test]
fn tls_without_backend_is_unavailable() {
    let r: Result<Upgrade<u8, u16>, Failure> = wrap_stream(7u8, "example.com".to_string(), Mode::Tls, WITHOUT_TLS);
    assert!(matches!(r, Err(ConnectError::EncryptionUnavailable)));
    let r: Result<Upgrade<u8, u16>, Failure> = prepare(&target("wss", Some("example.com")), 7u8, WITHOUT_TLS);
    assert!(matches!(r, Err(ConnectError::EncryptionUnavailable)));
}

#[test]
fn encrypted_connection_succeeds() {
    let r: Result<Upgrade<u8, u16>, Failure> = prepare(&target("wss", Some("example.com")), 7u8, WITH_TLS);
    let (socket, host) = match r {
        Ok(Upgrade::Handshake { socket, domain }) => (socket, domain),
        _ => panic!("a wss target must ask for a TLS handshake"),
    };
    assert_eq!(socket, 7u8);
    assert_eq!(host, "example.com");
    let t: Result<Transport<u8, u16>, Failure> = finish_upgrade(Ok(700u16));
    let t = t.unwrap();
    assert_eq!(t.mode(), Mode::Tls);
    assert_eq!(t.get_tls(), Some(&700u16));
    assert_eq!(t.get_plain(), None);
    let done: Result<(&str, u16), Failure> = finish_handshake(Ok(("connection", 101u16)));
    assert!(matches!(done, Ok(("connection", 101))));
}

#[test]
fn plaintext_connection_skips_tls() {
    let r: Result<Upgrade<u8, u16>, Failure> = prepare(&target("ws", Some("example.com")), 7u8, WITH_TLS);
    match r {
        Ok(Upgrade::Ready(t)) => {
            assert_eq!(t.mode(), Mode::Plain);
            assert_eq!(t.get_plain(), Some(&7u8));
            assert_eq!(t.get_tls(), None);
        }
        _ => panic!("a ws target must be ready without TLS"),
    }
}

#[test]
fn rejected_certificate_is_upgrade_error() {
    let t: Result<Transport<u8, u16>, Failure> = finish_upgrade(Err("invalid certificate".to_string()));
    match t {
        Err(ConnectError::Upgrade(cause)) => assert_eq!(cause, "invalid certificate"),
        _ => panic!("a failed TLS handshake must be an upgrade error"),
    }
}

#[test]
fn handshake_error_is_passed_through() {
    let r: Result<u8, Failure> = finish_handshake(Err("bad status".to_string()));
    match r {
        Err(ConnectError::Protocol(cause)) => assert_eq!(cause, "bad status"),
        _ => panic!("a handshake error must be passed through"),
    }
}

#[test]
fn mode_is_tls() {
    assert!(Mode::Tls.is_tls());
    assert!(!Mode::Plain.is_tls());
}
