use vstd::prelude::*;
use crate::server_addr::{extract_domain_or_ip, spec_domain_or_ip};
use crate::text::{chars_of, same_text};

verus! {

/// A TLS 1.3 cipher suite that the client can be configured with.
#[derive(Clone, Copy, Debug, PartialEq, Eq, Structural)]
pub enum CipherId {
    Chacha20Poly1305Sha256,
    Aes256GcmSha384,
    Aes128GcmSha256,
}

/// The configuration names of the cipher suites.
pub open spec fn spec_cipher_named(name: Seq<char>) -> Option<CipherId> {
    if name == "chacha20-poly1305"@ {
        Some(CipherId::Chacha20Poly1305Sha256)
    } else if name == "aes-256-gcm"@ {
        Some(CipherId::Aes256GcmSha384)
    } else if name == "aes-128-gcm"@ {
        Some(CipherId::Aes128GcmSha256)
    } else {
        None
    }
}

pub fn parse_cipher(name: &str) -> (r: Option<CipherId>)
    ensures
        r == spec_cipher_named(name@),
{
    let cs = chars_of(name);
    if same_text(&cs, "chacha20-poly1305") {
        Some(CipherId::Chacha20Poly1305Sha256)
    } else if same_text(&cs, "aes-256-gcm") {
        Some(CipherId::Aes256GcmSha384)
    } else if same_text(&cs, "aes-128-gcm") {
        Some(CipherId::Aes128GcmSha256)
    } else {
        None
    }
}

/// The suites offered for a selected cipher: the selection, then
/// AES-128-GCM-SHA256, which the QUIC layer requires to be present.
pub fn offered_suites(selected: CipherId) -> (r: Vec<CipherId>)
    ensures
        r@ == seq![selected, CipherId::Aes128GcmSha256],
{
    let mut v = Vec::new();
    v.push(selected);
    v.push(CipherId::Aes128GcmSha256);
    v
}

/// How the server's certificate is checked.
#[derive(Clone, Copy, Debug, PartialEq, Eq, Structural)]
pub enum CertVerifier {
    /// The platform's trust store (no certificate configured, host name).
    PlatformTrust,
    /// Any certificate is accepted (no certificate configured, literal address).
    AcceptAny,
    /// Only the certificates read from the configured file are trusted.
    PinnedRoots,
}

/// Fatal configuration errors for a tunnel.
#[derive(Clone, Copy, Debug, PartialEq, Eq, Structural)]
pub enum ConfigError {
    InvalidCipher,
    CertUnreadable,
    NoCertificates,
}

/// The TLS side of a login configuration.
#[derive(Debug)]
pub struct TlsPlan {
    pub verifier: CertVerifier,
    /// The name presented to the server.
    pub server_name: String,
    pub suites: Vec<CipherId>,
}

pub open spec fn spec_verifier(cert_path_empty: bool, server_is_literal: bool) -> CertVerifier {
    if !cert_path_empty {
        CertVerifier::PinnedRoots
    } else if server_is_literal {
        CertVerifier::AcceptAny
    } else {
        CertVerifier::PlatformTrust
    }
}

pub open spec fn spec_server_name(server_addr: Seq<char>, verifier: CertVerifier) -> Seq<char> {
    if verifier == CertVerifier::AcceptAny {
        "localhost"@
    } else {
        spec_domain_or_ip(server_addr)
    }
}

/// Chooses cipher suites, certificate check and server name. `server_is_literal`
/// tells whether `server_addr` parses as a socket address.
pub fn tls_plan(cipher: &str, cert_path: &str, server_addr: &str, server_is_literal: bool) -> (r:
    Result<TlsPlan, ConfigError>)
    ensures
        spec_cipher_named(cipher@) is None <==> r == Err::<TlsPlan, ConfigError>(
            ConfigError::InvalidCipher,
        ),
        spec_cipher_named(cipher@) matches Some(c) ==> r matches Ok(p) && p.suites@ == seq![
            c,
            CipherId::Aes128GcmSha256,
        ] && p.verifier == spec_verifier(cert_path@.len() == 0, server_is_literal)
            && p.server_name@ == spec_server_name(server_addr@, p.verifier),
{
    let selected = match parse_cipher(cipher) {
        Some(c) => c,
        None => return Err(ConfigError::InvalidCipher),
    };
    let suites = offered_suites(selected);
    let empty = cert_path.is_empty();
    if empty && server_is_literal {
        let name = "localhost".to_owned();
        Ok(TlsPlan { verifier: CertVerifier::AcceptAny, server_name: name, suites })
    } else {
        let verifier = if empty {
            CertVerifier::PlatformTrust
        } else {
            CertVerifier::PinnedRoots
        };
        Ok(TlsPlan { verifier, server_name: extract_domain_or_ip(server_addr), suites })
    }
}

/// Without a configured certificate, a literal server address is never
/// verified and the name presented is `localhost`, whatever the address.
pub proof fn literal_without_cert_is_localhost(server_addr: Seq<char>)
    ensures
        spec_verifier(true, true) == CertVerifier::AcceptAny,
        spec_server_name(server_addr, spec_verifier(true, true)) == "localhost"@,
{
}

/// What reading the configured certificate file gave.
#[derive(Clone, Copy, Debug, PartialEq, Eq, Structural)]
pub enum CertLoad {
    /// The file could not be read or parsed as PEM.
    Unreadable,
    /// The file was read and held this many certificates.
    Parsed(usize),
}

/// Accepts a certificate file only when it was read and holds at least one
/// certificate; an unreadable file and an empty one fail with distinct errors.
pub fn accept_cert_load(load: CertLoad) -> (r: Result<usize, ConfigError>)
    ensures
        load == CertLoad::Unreadable ==> r == Err::<usize, ConfigError>(ConfigError::CertUnreadable),
        load == CertLoad::Parsed(0) ==> r == Err::<usize, ConfigError>(ConfigError::NoCertificates),
        forall|n: usize| n > 0 && load == CertLoad::Parsed(n) ==> r == Ok::<usize, ConfigError>(n),
{
    match load {
        CertLoad::Unreadable => Err(ConfigError::CertUnreadable),
        CertLoad::Parsed(n) => {
            if n == 0 {
                Err(ConfigError::NoCertificates)
            } else {
                Ok(n)
            }
        },
    }
}

/// Per-stream receive window: 1 MiB.
pub const STREAM_RECEIVE_WINDOW: u32 = 1048576;
/// Connection receive window: 2 MiB.
pub const RECEIVE_WINDOW: u32 = 2097152;
/// Send window: 2 MiB.
pub const SEND_WINDOW: u64 = 2097152;
/// Most bidirectional streams open at once.
pub const MAX_CONCURRENT_BIDI_STREAMS: u32 = 1024;

/// QUIC transport parameters of a connection. Congestion control is BBR.
#[derive(Clone, Copy, Debug, PartialEq, Eq, Structural)]
pub struct TransportParams {
    pub stream_receive_window: u32,
    pub receive_window: u32,
    pub send_window: u64,
    pub max_concurrent_bidi_streams: u32,
    /// Maximum idle time in milliseconds; `None` keeps the transport's default.
    pub idle_timeout_ms: Option<u64>,
    /// Keep-alive interval in milliseconds.
    pub keep_alive_ms: Option<u64>,
}

/// The transport parameters for a configured idle timeout (0 disables it):
/// fixed windows and stream limit; with a timeout, keep-alive at two thirds of it.
pub open spec fn spec_transport_params(quic_timeout_ms: u64) -> TransportParams {
    TransportParams {
        stream_receive_window: STREAM_RECEIVE_WINDOW,
        receive_window: RECEIVE_WINDOW,
        send_window: SEND_WINDOW,
        max_concurrent_bidi_streams: MAX_CONCURRENT_BIDI_STREAMS,
        idle_timeout_ms: if quic_timeout_ms > 0 {
            Some(quic_timeout_ms)
        } else {
            None
        },
        keep_alive_ms: if quic_timeout_ms > 0 {
            Some(((2 * quic_timeout_ms as int) / 3) as u64)
        } else {
            None
        },
    }
}

pub fn transport_params(quic_timeout_ms: u64) -> (r: TransportParams)
    ensures
        r == spec_transport_params(quic_timeout_ms),
{
    let (idle, keep) = if quic_timeout_ms > 0 {
        let q = quic_timeout_ms / 3;
        let m = quic_timeout_ms % 3;
        let k = q * 2 + m * 2 / 3;
        assert(quic_timeout_ms == 3 * q + m);
        assert(k == (2 * quic_timeout_ms as int) / 3);
        (Some(quic_timeout_ms), Some(k))
    } else {
        (None, None)
    };
    TransportParams {
        stream_receive_window: STREAM_RECEIVE_WINDOW,
        receive_window: RECEIVE_WINDOW,
        send_window: SEND_WINDOW,
        max_concurrent_bidi_streams: MAX_CONCURRENT_BIDI_STREAMS,
        idle_timeout_ms: idle,
        keep_alive_ms: keep,
    }
}

} // verus!
