//! What a session computes besides the handshake: the endpoint id a
//! ticket names, and what the known paths to a peer say about the
//! connection.
use vstd::prelude::*;

verus! {

// ── Tickets ─────────────────────────────────────────────────────────────────

/// The 32 endpoint-id bytes that `iroh_base` parses out of a ticket string,
/// or `None` where it refuses the string.
pub uninterp spec fn endpoint_id_of_ticket(ticket: Seq<char>) -> Option<Seq<u8>>;

/// The bytes of a parsed endpoint id, if any.
pub open spec fn endpoint_id_view(id: Option<[u8; 32]>) -> Option<Seq<u8>> {
    match id {
        Some(b) => Some(b@),
        None => None,
    }
}

/// Parses a ticket with `<iroh_base::EndpointId as FromStr>::from_str` and
/// returns the key's 32 bytes. The contract names the result. It is called
/// only on the two lengths that the parser can accept, 64 (hex) or 52
/// (base32) characters: on much longer input the parser's base32 length
/// check asserts, and no other length can decode to a key. Which strings of
/// those lengths are valid keys (the ed25519 point check) is left unsaid.
#[verifier::external_body]
pub(crate) fn parse_endpoint_id(ticket: &str) -> (r: Option<[u8; 32]>)
    requires
        ticket@.len() == 64 || ticket@.len() == 52,
    ensures
        endpoint_id_view(r) == endpoint_id_of_ticket(ticket@),
{
    match <iroh_base::EndpointId as core::str::FromStr>::from_str(ticket) {
        Ok(id) => Some(*id.as_bytes()),
        Err(_) => None,
    }
}

// ── Paths to a peer ─────────────────────────────────────────────────────────

/// Whether the active path to a peer is direct or relay-assisted.
#[derive(Debug, Clone, Copy, PartialEq, Eq, Structural)]
pub enum ConnectionType {
    /// Traffic flows directly between peers over UDP.
    Direct,
    /// Traffic is relayed through a relay server.
    Relay,
}

/// The address of one known path to a peer, as text.
#[derive(Debug, Clone)]
pub enum PathAddr {
    /// A direct IP:port address.
    Ip(String),
    /// A relay server's URL.
    Relay(String),
    /// A transport of another kind.
    Other,
}

/// One known path to a peer.
#[derive(Debug, Clone)]
pub struct PathInfo {
    /// Whether the path currently carries traffic.
    pub active: bool,
    pub addr: PathAddr,
}

/// Diagnostic information about the paths to a peer.
#[derive(Debug)]
pub struct ConnectionDebugInfo {
    /// "direct" or "relay".
    pub conn_type: String,
    /// Relay URLs currently carrying traffic.
    pub relay_active: Vec<String>,
    /// Relay URLs known but not currently used.
    pub relay_idle: Vec<String>,
    /// Direct IP:port addresses currently carrying traffic.
    pub direct_active: Vec<String>,
    /// Direct IP:port addresses known but not (yet) established.
    pub direct_idle: Vec<String>,
}

/// The addresses, in order, of the paths that are direct (or relays) and
/// active (or idle).
pub open spec fn addrs_of(paths: Seq<PathInfo>, direct: bool, active: bool) -> Seq<Seq<char>>
    decreases paths.len(),
{
    if paths.len() == 0 {
        Seq::empty()
    } else {
        let rest = addrs_of(paths.drop_last(), direct, active);
        let p = paths.last();
        if p.active == active {
            match p.addr {
                PathAddr::Ip(a) => if direct {
                    rest.push(a@)
                } else {
                    rest
                },
                PathAddr::Relay(u) => if !direct {
                    rest.push(u@)
                } else {
                    rest
                },
                PathAddr::Other => rest,
            }
        } else {
            rest
        }
    }
}

/// The texts of a list of strings.
pub open spec fn texts(v: Seq<String>) -> Seq<Seq<char>> {
    v.map_values(|s: String| s@)
}

/// Whether some path is active.
pub open spec fn has_active(paths: Seq<PathInfo>) -> bool {
    exists|i: int| 0 <= i < paths.len() && (#[trigger] paths[i]).active
}

/// Whether some active path is a direct one.
pub open spec fn has_active_direct(paths: Seq<PathInfo>) -> bool {
    exists|i: int| 0 <= i < paths.len() && paths[i].active && (#[trigger] paths[i]).addr is Ip
}

/// Collects the addresses of the paths that are direct (or relays) and
/// active (or idle), in order.
fn collect_addrs(paths: &[PathInfo], direct: bool, active: bool) -> (v: Vec<String>)
    ensures
        texts(v@) == addrs_of(paths@, direct, active),
{
    let mut out: Vec<String> = Vec::new();
    let mut i: usize = 0;
    while i < paths.len()
        invariant
            i <= paths@.len(),
            texts(out@) == addrs_of(paths@.take(i as int), direct, active),
        decreases paths@.len() - i,
    {
        let p = &paths[i];
        assert(paths@.take(i + 1).drop_last() == paths@.take(i as int));
        assert(paths@.take(i + 1).last() == paths@[i as int]);
        if p.active == active {
            match &p.addr {
                PathAddr::Ip(a) => {
                    if direct {
                        out.push(a.clone());
                    }
                },
                PathAddr::Relay(u) => {
                    if !direct {
                        out.push(u.clone());
                    }
                },
                PathAddr::Other => {},
            }
        }
        assert(texts(out@) == addrs_of(paths@.take(i + 1), direct, active));
        i = i + 1;
    }
    assert(paths@.take(paths@.len() as int) == paths@);
    out
}

/// Sorts the known paths to a peer into active and idle, direct and relay
/// addresses; the connection is "direct" when some direct path is active,
/// else "relay". `None` (nothing known of the peer yet) gives `None`.
pub fn connection_debug_info(paths: Option<&[PathInfo]>) -> (r: Option<ConnectionDebugInfo>)
    ensures
        match paths {
            None => r is None,
            Some(ps) => r matches Some(info) && {
                &&& texts(info.direct_active@) == addrs_of(ps@, true, true)
                &&& texts(info.direct_idle@) == addrs_of(ps@, true, false)
                &&& texts(info.relay_active@) == addrs_of(ps@, false, true)
                &&& texts(info.relay_idle@) == addrs_of(ps@, false, false)
                &&& info.conn_type@ == (if addrs_of(ps@, true, true).len() > 0 {
                    "direct"@
                } else {
                    "relay"@
                })
            },
        },
{
    match paths {
        None => None,
        Some(ps) => {
            let direct_active = collect_addrs(ps, true, true);
            let direct_idle = collect_addrs(ps, true, false);
            let relay_active = collect_addrs(ps, false, true);
            let relay_idle = collect_addrs(ps, false, false);
            let conn_type = if direct_active.len() > 0 {
                "direct".to_owned()
            } else {
                "relay".to_owned()
            };
            Some(ConnectionDebugInfo { conn_type, relay_active, relay_idle, direct_active, direct_idle })
        },
    }
}

/// Whether the active path to a peer is direct or relay-assisted: direct
/// when some direct path is active. `None` when nothing is known of the
/// peer yet, or when no path is active.
pub fn connection_type(paths: Option<&[PathInfo]>) -> (r: Option<ConnectionType>)
    ensures
        match paths {
            None => r is None,
            Some(ps) => r == if !has_active(ps@) {
                None
            } else if has_active_direct(ps@) {
                Some(ConnectionType::Direct)
            } else {
                Some(ConnectionType::Relay)
            },
        },
{
    match paths {
        None => None,
        Some(ps) => if !any_active(ps) {
            None
        } else if any_active_direct(ps) {
            Some(ConnectionType::Direct)
        } else {
            Some(ConnectionType::Relay)
        },
    }
}

/// Whether some path in `ps` is active.
fn any_active(ps: &[PathInfo]) -> (b: bool)
    ensures
        b == has_active(ps@),
{
    let mut i: usize = 0;
    while i < ps.len()
        invariant
            i <= ps@.len(),
            forall|j: int| 0 <= j < i ==> !(#[trigger] ps@[j]).active,
        decreases ps@.len() - i,
    {
        if ps[i].active {
            return true;
        }
        i = i + 1;
    }
    false
}

/// Whether some path in `ps` is direct and active.
fn any_active_direct(ps: &[PathInfo]) -> (b: bool)
    ensures
        b == has_active_direct(ps@),
{
    let mut i: usize = 0;
    while i < ps.len()
        invariant
            i <= ps@.len(),
            forall|j: int| 0 <= j < i ==> !(ps@[j].active && (#[trigger] ps@[j]).addr is Ip),
        decreases ps@.len() - i,
    {
        let p = &ps[i];
        if p.active {
            if let PathAddr::Ip(_) = &p.addr {
                return true;
            }
        }
        i = i + 1;
    }
    false
}

/// The number of paths with an IP or relay address.
pub open spec fn addressed_paths(paths: Seq<PathInfo>) -> nat
    decreases paths.len(),
{
    if paths.len() == 0 {
        0
    } else {
        addressed_paths(paths.drop_last()) + if paths.last().addr is Other {
            0nat
        } else {
            1nat
        }
    }
}

/// The four address lists of `connection_debug_info` sort every path with
/// an address into exactly one of them.
pub proof fn lemma_debug_lists_partition(ps: Seq<PathInfo>)
    ensures
        addrs_of(ps, true, true).len() + addrs_of(ps, true, false).len() + addrs_of(
            ps,
            false,
            true,
        ).len() + addrs_of(ps, false, false).len() == addressed_paths(ps),
    decreases ps.len(),
{
    if ps.len() > 0 {
        lemma_debug_lists_partition(ps.drop_last());
    }
}

/// Some active direct path exists exactly when the active direct list is non-empty.
proof fn lemma_active_direct_listed(ps: Seq<PathInfo>)
    ensures
        (addrs_of(ps, true, true).len() > 0) == has_active_direct(ps),
    decreases ps.len(),
{
    if ps.len() > 0 {
        let init = ps.drop_last();
        lemma_active_direct_listed(init);
        if has_active_direct(init) {
            let i = choose|i: int| 0 <= i < init.len() && init[i].active && (#[trigger] init[i]).addr is Ip;
            assert(ps[i] == init[i]);
        }
        if has_active_direct(ps) {
            let i = choose|i: int| 0 <= i < ps.len() && ps[i].active && (#[trigger] ps[i]).addr is Ip;
            if i < ps.len() - 1 {
                assert(init[i] == ps[i]);
            }
        }
        if ps.last().active && ps.last().addr is Ip {
            assert(ps[ps.len() - 1] == ps.last());
        }
    }
}

/// `connection_debug_info` calls the connection "direct" exactly when
/// `connection_type` says it is direct (an active direct path is an active path).
pub proof fn lemma_debug_info_agrees_with_type(ps: Seq<PathInfo>)
    ensures
        (addrs_of(ps, true, true).len() > 0) == has_active_direct(ps),
        has_active_direct(ps) ==> has_active(ps),
        "direct"@ != "relay"@,
{
    lemma_active_direct_listed(ps);
    if has_active_direct(ps) {
        let i = choose|i: int| 0 <= i < ps.len() && ps[i].active && (#[trigger] ps[i]).addr is Ip;
        assert(ps[i].active);
    }
    reveal_strlit("direct");
    reveal_strlit("relay");
    assert("direct"@[0] != "relay"@[0]);
}

/// The text of a path's address (empty for a transport of another kind).
pub open spec fn addr_text(p: PathInfo) -> Seq<char> {
    match p.addr {
        PathAddr::Ip(a) => a@,
        PathAddr::Relay(u) => u@,
        PathAddr::Other => Seq::empty(),
    }
}

/// Each address list holds exactly the addresses of the paths of its kind
/// (direct or relay) and state (active or idle), each once, in the order
/// the paths are known: the paths filtered by kind and state, mapped to
/// their address text.
pub proof fn lemma_addrs_are_filtered_paths(ps: Seq<PathInfo>, direct: bool, active: bool)
    ensures
        addrs_of(ps, direct, active) == ps.filter(
            |p: PathInfo|
                p.active == active && (if direct {
                    p.addr is Ip
                } else {
                    p.addr is Relay
                }),
        ).map_values(|p: PathInfo| addr_text(p)),
        addrs_of(ps, direct, active).len() <= ps.len(),
    decreases ps.len(),
{
    let pred = |p: PathInfo|
        p.active == active && (if direct {
            p.addr is Ip
        } else {
            p.addr is Relay
        });
    let text = |p: PathInfo| addr_text(p);
    lemma_filtered_paths(ps, direct, active, pred, text);
    ps.lemma_filter_len(pred);
}

proof fn lemma_filtered_paths(
    ps: Seq<PathInfo>,
    direct: bool,
    active: bool,
    pred: spec_fn(PathInfo) -> bool,
    text: spec_fn(PathInfo) -> Seq<char>,
)
    requires
        forall|p: PathInfo|
            #[trigger] pred(p) == (p.active == active && (if direct {
                p.addr is Ip
            } else {
                p.addr is Relay
            })),
        forall|p: PathInfo| #[trigger] text(p) == addr_text(p),
    ensures
        addrs_of(ps, direct, active) == ps.filter(pred).map_values(text),
    decreases ps.len(),
{
    if ps.len() > 0 {
        lemma_filtered_paths(ps.drop_last(), direct, active, pred, text);
        let sub = ps.drop_last().filter(pred);
        reveal(Seq::filter);
        assert(ps.filter(pred) == (if pred(ps.last()) { sub.push(ps.last()) } else { sub }));
        if pred(ps.last()) {
            assert(sub.push(ps.last()).map_values(text) =~= sub.map_values(text).push(
                text(ps.last()),
            ));
        }
    } else {
        reveal(Seq::filter);
        assert(ps.filter(pred) =~= Seq::<PathInfo>::empty());
        assert(ps.filter(pred).map_values(text) =~= Seq::<Seq<char>>::empty());
    }
}

/// A path that is active and of the kind a list collects puts its address
/// in that list; a connection with an address in an active list has an
/// active path, so `connection_type` then answers.
pub proof fn lemma_active_lists_mean_active(ps: Seq<PathInfo>, i: int)
    requires
        0 <= i < ps.len(),
    ensures
        ps[i].active && ps[i].addr is Ip ==> addrs_of(ps, true, true).len() > 0,
        addrs_of(ps, true, true).len() > 0 || addrs_of(ps, false, true).len() > 0 ==> has_active(
            ps,
        ),
    decreases ps.len(),
{
    lemma_active_direct_listed(ps);
    lemma_active_relay_listed(ps);
    if ps[i].active && ps[i].addr is Ip {
        assert(has_active_direct(ps));
    }
    if has_active_direct(ps) {
        let j = choose|j: int| 0 <= j < ps.len() && ps[j].active && (#[trigger] ps[j]).addr is Ip;
        assert(ps[j].active);
    }
}

proof fn lemma_active_relay_listed(ps: Seq<PathInfo>)
    ensures
        addrs_of(ps, false, true).len() > 0 ==> has_active(ps),
    decreases ps.len(),
{
    if ps.len() > 0 {
        let init = ps.drop_last();
        lemma_active_relay_listed(init);
        if has_active(init) {
            let i = choose|i: int| 0 <= i < init.len() && (#[trigger] init[i]).active;
            assert(ps[i] == init[i]);
        }
        if ps.last().active {
            assert(ps[ps.len() - 1] == ps.last());
        }
    }
}

/// What `connection_type` answers for known paths: nothing when every path
/// is idle; `Direct` exactly when some active path is a direct IP path;
/// `Relay` when some path is active but none of the active ones is direct.
pub proof fn lemma_connection_type_cases(ps: Seq<PathInfo>)
    ensures
        !has_active(ps) <==> (forall|i: int| 0 <= i < ps.len() ==> !(#[trigger] ps[i]).active),
        has_active_direct(ps) <==> (exists|i: int|
            0 <= i < ps.len() && (#[trigger] ps[i]).active && (ps[i].addr matches PathAddr::Ip(_))),
        has_active_direct(ps) ==> has_active(ps),
{
    if has_active_direct(ps) {
        let j = choose|j: int| 0 <= j < ps.len() && ps[j].active && (#[trigger] ps[j]).addr is Ip;
        assert(ps[j].active);
    }
}

} // verus!
