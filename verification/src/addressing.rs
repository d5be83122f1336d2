use vstd::prelude::*;
use rvoip_sip_core::Uri;
use crate::request_builders::text;
use crate::method::str_eq;
use crate::text_scan::{spec_find, spec_parse_u16, find_text, parse_u16_text};

verus! {

/// The port SIP uses when none is given.
pub const DEFAULT_SIP_PORT: u16 = 5060;

/// The secure and WebSocket transports that the transport layer offers.
#[derive(Debug, Clone, Copy, PartialEq, Eq, Structural)]
pub struct TransportSupport {
    pub supports_tls: bool,
    pub supports_ws: bool,
    pub supports_wss: bool,
}

/// The transport chosen for a URI; `Default` is the transport layer's default.
#[derive(Debug, Clone, Copy, PartialEq, Eq, Structural)]
pub enum TransportChoice {
    Tls,
    Wss,
    Ws,
    Default,
}

/// The best transport for a URI scheme: `sips` prefers TLS then WSS, `ws`
/// wants WS, `wss` prefers WSS then TLS; anything else, or a scheme whose
/// transports are missing, gets the default.
pub open spec fn spec_best_transport(scheme: Seq<char>, s: TransportSupport) -> TransportChoice {
    if scheme == "sips"@ {
        if s.supports_tls {
            TransportChoice::Tls
        } else if s.supports_wss {
            TransportChoice::Wss
        } else {
            TransportChoice::Default
        }
    } else if scheme == "ws"@ {
        if s.supports_ws {
            TransportChoice::Ws
        } else {
            TransportChoice::Default
        }
    } else if scheme == "wss"@ {
        if s.supports_wss {
            TransportChoice::Wss
        } else if s.supports_tls {
            TransportChoice::Tls
        } else {
            TransportChoice::Default
        }
    } else {
        TransportChoice::Default
    }
}

/// The best transport for a URI scheme, given what the transport offers.
pub fn best_transport_for_scheme(scheme: &str, support: &TransportSupport) -> (r: TransportChoice)
    ensures
        r == spec_best_transport(scheme@, *support),
{
    if str_eq(scheme, "sips") {
        if support.supports_tls {
            TransportChoice::Tls
        } else if support.supports_wss {
            TransportChoice::Wss
        } else {
            TransportChoice::Default
        }
    } else if str_eq(scheme, "ws") {
        if support.supports_ws {
            TransportChoice::Ws
        } else {
            TransportChoice::Default
        }
    } else if str_eq(scheme, "wss") {
        if support.supports_wss {
            TransportChoice::Wss
        } else if support.supports_tls {
            TransportChoice::Tls
        } else {
            TransportChoice::Default
        }
    } else {
        TransportChoice::Default
    }
}

/// The text of a URI's scheme, as `rvoip_sip_core` renders it (`sip`,
/// `sips`, `tel`, ...). It depends on the URI alone.
pub uninterp spec fn uri_scheme(uri: Uri) -> Seq<char>;

/// Calls `rvoip_sip_core::Uri::scheme` and renders the scheme with
/// `to_string`: the text is the URI's [`uri_scheme`].
#[verifier::external_body]
fn uri_scheme_text(uri: &Uri) -> (s: String)
    ensures
        s@ == uri_scheme(*uri),
{
    uri.scheme().to_string()
}

/// The best transport for a URI, by its scheme.
pub fn get_best_transport_for_uri(uri: &Uri, support: &TransportSupport) -> (r: TransportChoice)
    ensures
        r == spec_best_transport(uri_scheme(*uri), *support),
{
    let scheme = uri_scheme_text(uri);
    best_transport_for_scheme(scheme.as_str(), support)
}

/// The WebSocket connections of the transport layer.
#[derive(Debug, Clone, Copy, PartialEq, Eq, Structural)]
pub struct WebSocketStatus {
    pub ws_connections: usize,
    pub wss_connections: usize,
    pub has_active_connection: bool,
}

/// The WebSocket status, when the transport offers WS or WSS.
pub fn websocket_status(
    supports_ws: bool,
    supports_wss: bool,
    ws_connections: usize,
    wss_connections: usize,
    ws_connected: bool,
    wss_connected: bool,
) -> (r: Option<WebSocketStatus>)
    ensures
        !supports_ws && !supports_wss ==> r is None,
        supports_ws || supports_wss ==> r == Some(
            WebSocketStatus { ws_connections, wss_connections, has_active_connection: ws_connected || wss_connected },
        ),
{
    if !supports_ws && !supports_wss {
        return None;
    }
    Some(WebSocketStatus { ws_connections, wss_connections, has_active_connection: ws_connected || wss_connected })
}

/// One way to get a destination address, tried in order until one works.
#[derive(Debug)]
pub enum AddrCandidate {
    /// Read `host` as an IP address and use `port`.
    Ip { host: String, port: u16 },
    /// Read the text as a socket address (`ip:port`).
    SocketAddr(String),
    /// Resolve `host` (an IP address, or a name looked up in DNS) with `port`.
    Resolve { host: String, port: u16 },
}

/// The plain value of an [`AddrCandidate`].
pub enum CandidateView {
    Ip { host: Seq<char>, port: u16 },
    SocketAddr(Seq<char>),
    Resolve { host: Seq<char>, port: u16 },
}

impl View for AddrCandidate {
    type V = CandidateView;

    open spec fn view(&self) -> CandidateView {
        match self {
            AddrCandidate::Ip { host, port } => CandidateView::Ip { host: host@, port: *port },
            AddrCandidate::SocketAddr(s) => CandidateView::SocketAddr(s@),
            AddrCandidate::Resolve { host, port } => CandidateView::Resolve { host: host@, port: *port },
        }
    }
}

/// The views of a list of candidates.
pub open spec fn candidates_view(v: Seq<AddrCandidate>) -> Seq<CandidateView> {
    v.map_values(|c: AddrCandidate| c@)
}

/// A port, or the SIP default.
pub open spec fn port_or_default(p: Option<u16>) -> u16 {
    match p {
        Some(x) => x,
        None => 5060,
    }
}

fn push_candidate(v: &mut Vec<AddrCandidate>, c: AddrCandidate)
    ensures
        candidates_view(final(v)@) == candidates_view(old(v)@).push(c@),
{
    let ghost before = v@;
    let ghost cv = c@;
    v.push(c);
    assert(candidates_view(v@) =~= candidates_view(before).push(cv));
}

/// Where an ACK for a 2xx goes, as resolution steps in order: the first
/// Contact address of the response (its port or 5060); the `received`
/// address of the top Via with its `rport`, when both are there; the
/// sent-by host of the top Via (its port or 5060).
pub fn ack_destination_candidates(
    contact: Option<(String, Option<u16>)>,
    received: Option<String>,
    rport: Option<u16>,
    sent_by: Option<(String, Option<u16>)>,
) -> (r: Vec<AddrCandidate>)
    ensures
        candidates_view(r@) == (match contact {
            Some((h, p)) => seq![CandidateView::Resolve { host: h@, port: port_or_default(p) }],
            None => Seq::empty(),
        }) + (match (received, rport) {
            (Some(ip), Some(port)) => seq![CandidateView::Ip { host: ip@, port }],
            _ => Seq::empty(),
        }) + (match sent_by {
            Some((h, p)) => seq![CandidateView::Resolve { host: h@, port: port_or_default(p) }],
            None => Seq::empty(),
        }),
{
    let mut r: Vec<AddrCandidate> = Vec::new();
    let ghost c0 = candidates_view(r@);
    match contact {
        Some((h, p)) => {
            let port = match p {
                Some(x) => x,
                None => DEFAULT_SIP_PORT,
            };
            push_candidate(&mut r, AddrCandidate::Resolve { host: h, port });
        },
        None => {},
    }
    let ghost c1 = candidates_view(r@);
    match (received, rport) {
        (Some(ip), Some(port)) => push_candidate(&mut r, AddrCandidate::Ip { host: ip, port }),
        _ => {},
    }
    let ghost c2 = candidates_view(r@);
    match sent_by {
        Some((h, p)) => {
            let port = match p {
                Some(x) => x,
                None => DEFAULT_SIP_PORT,
            };
            push_candidate(&mut r, AddrCandidate::Resolve { host: h, port });
        },
        None => {},
    }
    proof {
        assert(c0 =~= Seq::<CandidateView>::empty());
    }
    r
}

/// A parsed port, or the SIP default.
pub open spec fn parsed_port_or_default(t: Seq<char>) -> u16 {
    match spec_parse_u16(t) {
        Some(p) => p,
        None => 5060,
    }
}

/// The `rport` of a Via text: the digits after `rport=`, up to the next `;`
/// or the end; 5060 when absent or unreadable.
pub open spec fn spec_rport(v: Seq<char>) -> u16 {
    match spec_find(v, "rport="@, 0) {
        Some(ps) => match spec_find(v, ";"@, ps + 6) {
            Some(e) => parsed_port_or_default(v.subrange(ps + 6, e)),
            None => parsed_port_or_default(v.subrange(ps + 6, v.len() as int)),
        },
        None => 5060,
    }
}

/// The sent-by part of a Via text: from after the first space (or the start)
/// to the next `;` (or the end).
pub open spec fn spec_sent_by(v: Seq<char>) -> Seq<char> {
    let host_start = match spec_find(v, " "@, 0) {
        Some(p) => p + 1,
        None => 0,
    };
    let host_end = match spec_find(v, ";"@, host_start) {
        Some(p) => p,
        None => v.len() as int,
    };
    v.subrange(host_start, host_end)
}

/// The candidates read from the text of a top Via: the `received` address
/// (up to the next `;`) with the `rport`; the sent-by part as a socket
/// address; the sent-by host with its port (or 5060).
pub open spec fn spec_via_candidates(v: Seq<char>) -> Seq<CandidateView> {
    let received = match spec_find(v, "received="@, 0) {
        Some(rs) => match spec_find(v, ";"@, rs + 9) {
            Some(e) => seq![CandidateView::Ip { host: v.subrange(rs + 9, e), port: spec_rport(v) }],
            None => Seq::empty(),
        },
        None => Seq::empty(),
    };
    let hp = spec_sent_by(v);
    received + seq![CandidateView::SocketAddr(hp)] + match spec_find(hp, ":"@, 0) {
        Some(c) => seq![
            CandidateView::Ip {
                host: hp.subrange(0, c),
                port: parsed_port_or_default(hp.subrange(c + 1, hp.len() as int)),
            },
        ],
        None => seq![CandidateView::Ip { host: hp, port: 5060 }],
    }
}

fn port_from_text(t: &str) -> (p: u16)
    ensures
        p == parsed_port_or_default(t@),
{
    match parse_u16_text(t) {
        Some(x) => x,
        None => DEFAULT_SIP_PORT,
    }
}

fn rport_of(v: &str) -> (p: u16)
    ensures
        p == spec_rport(v@),
{
    proof {
        reveal_strlit("rport=");
        reveal_strlit(";");
    }
    match find_text(v, "rport=", 0) {
        Some(ps) => {
            let n = v.unicode_len();
            match find_text(v, ";", ps + 6) {
                Some(e) => port_from_text(v.substring_char(ps + 6, e)),
                None => port_from_text(v.substring_char(ps + 6, n)),
            }
        },
        None => DEFAULT_SIP_PORT,
    }
}

/// Where an ACK for a 2xx goes, read from text: the Contact address (an IP
/// with its port or 5060), then the candidates of the top Via's text.
pub fn via_ack_candidates(contact: Option<(String, Option<u16>)>, via_text: Option<&str>) -> (r: Vec<AddrCandidate>)
    ensures
        candidates_view(r@) == (match contact {
            Some((h, p)) => seq![CandidateView::Ip { host: h@, port: port_or_default(p) }],
            None => Seq::empty(),
        }) + (match via_text {
            Some(v) => spec_via_candidates(v@),
            None => Seq::empty(),
        }),
{
    let mut r: Vec<AddrCandidate> = Vec::new();
    let ghost c0 = candidates_view(r@);
    match contact {
        Some((h, p)) => {
            let port = match p {
                Some(x) => x,
                None => DEFAULT_SIP_PORT,
            };
            push_candidate(&mut r, AddrCandidate::Ip { host: h, port });
        },
        None => {},
    }
    let ghost c1 = candidates_view(r@);
    assert(c0 =~= Seq::<CandidateView>::empty());
    match via_text {
        Some(v) => {
            proof {
                reveal_strlit("received=");
                reveal_strlit(";");
                reveal_strlit(" ");
                reveal_strlit(":");
            }
            let n = v.unicode_len();
            match find_text(v, "received=", 0) {
                Some(rs) => match find_text(v, ";", rs + 9) {
                    Some(e) => {
                        let port = rport_of(v);
                        push_candidate(&mut r, AddrCandidate::Ip { host: text(v.substring_char(rs + 9, e)), port });
                    },
                    None => {},
                },
                None => {},
            }
            let ghost c2 = candidates_view(r@);
            let host_start: usize = match find_text(v, " ", 0) {
                Some(p) => p + 1,
                None => 0,
            };
            let host_end: usize = match find_text(v, ";", host_start) {
                Some(p) => p,
                None => n,
            };
            let hp = v.substring_char(host_start, host_end);
            assert(hp@ == spec_sent_by(v@));
            push_candidate(&mut r, AddrCandidate::SocketAddr(text(hp)));
            let m = hp.unicode_len();
            match find_text(hp, ":", 0) {
                Some(c) => {
                    let port = port_from_text(hp.substring_char(c + 1, m));
                    push_candidate(&mut r, AddrCandidate::Ip { host: text(hp.substring_char(0, c)), port });
                },
                None => push_candidate(&mut r, AddrCandidate::Ip { host: text(hp), port: DEFAULT_SIP_PORT }),
            }
            proof {
                assert(candidates_view(r@) =~= c1 + spec_via_candidates(v@));
            }
        },
        None => {},
    }
    r
}

/// The transport for a URI scheme: `sips` needs a secure transport (TLS, or
/// else secure WebSocket), `wss` prefers secure WebSocket then TLS, `ws`
/// needs plain WebSocket, and any other scheme, or a scheme whose transports
/// are all missing, uses the default transport; a chosen transport is one
/// the transport layer offers.
pub proof fn lemma_best_transport_follows_scheme(scheme: Seq<char>, s: TransportSupport)
    ensures
        spec_best_transport(scheme, s) == TransportChoice::Tls ==> s.supports_tls && (scheme == "sips"@
            || scheme == "wss"@),
        spec_best_transport(scheme, s) == TransportChoice::Wss ==> s.supports_wss && (scheme == "sips"@
            || scheme == "wss"@),
        spec_best_transport(scheme, s) == TransportChoice::Ws ==> s.supports_ws && scheme == "ws"@,
        scheme == "sips"@ && s.supports_tls ==> spec_best_transport(scheme, s) == TransportChoice::Tls,
        scheme == "sips"@ && !s.supports_tls && s.supports_wss ==> spec_best_transport(scheme, s)
            == TransportChoice::Wss,
        scheme == "wss"@ && s.supports_wss ==> spec_best_transport(scheme, s) == TransportChoice::Wss,
        scheme == "wss"@ && !s.supports_wss && s.supports_tls ==> spec_best_transport(scheme, s)
            == TransportChoice::Tls,
        scheme == "ws"@ && s.supports_ws ==> spec_best_transport(scheme, s) == TransportChoice::Ws,
        scheme != "sips"@ && scheme != "ws"@ && scheme != "wss"@ ==> spec_best_transport(scheme, s)
            == TransportChoice::Default,
{
    reveal_strlit("sips");
    reveal_strlit("ws");
    reveal_strlit("wss");
    assert("wss"@ != "sips"@ && "ws"@ != "sips"@ && "ws"@ != "wss"@) by {
        assert("wss"@[0] != "sips"@[0]);
        assert("ws"@.len() != "sips"@.len());
        assert("ws"@.len() != "wss"@.len());
    }
}

} // verus!
