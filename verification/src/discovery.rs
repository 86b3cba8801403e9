//! Peer discovery model: the advertised names, the decoding of a peer's
//! advertisement into a `DeviceInfo`, the pairing filter that decides which
//! peers are surfaced, and the parsing of a withdrawal message back into a
//! peer id.

use vstd::prelude::*;

verus! {

use vstd::string::{StrSliceExecFns, StringExecFns};

/// The fixed service type under which every instance advertises itself.
pub open spec fn spec_service_type() -> Seq<char> {
    "_pastly._udp.local."@
}

/// The fixed service type, as text.
pub fn service_type() -> (r: &'static str)
    ensures
        r@ == spec_service_type(),
{
    "_pastly._udp.local."
}

/// The hostname an instance advertises: its id followed by `.local.`.
pub fn host_name_of(id: &str) -> (r: String)
    ensures
        r@ == id@ + ".local."@,
{
    let mut s = id.to_owned();
    s.append(".local.");
    s
}

/// The full service name of an instance: its id, a dot, the service type.
pub fn service_full_name(id: &str) -> (r: String)
    ensures
        r@ == id@ + "."@ + spec_service_type(),
{
    let mut s = id.to_owned();
    s.append(".");
    s.append(service_type());
    s
}

/// The properties an instance advertises: its `id`, its display `name`,
/// and, exactly when a session PIN is active, the pairing hash under the
/// key `pin_hash`.
pub fn advert_properties(id: &String, name: &String, pin_hash: &Option<String>) -> (r: Vec<
    (String, String),
>)
    ensures
        r@.len() == (if pin_hash is Some {
            3int
        } else {
            2int
        }),
        r@[0].0@ == "id"@ && r@[0].1@ == id@,
        r@[1].0@ == "name"@ && r@[1].1@ == name@,
        pin_hash matches Some(h) ==> r@[2].0@ == "pin_hash"@ && r@[2].1@ == h@,
{
    let mut v: Vec<(String, String)> = Vec::new();
    v.push(("id".to_owned(), id.clone()));
    v.push(("name".to_owned(), name.clone()));
    match pin_hash {
        Option::Some(h) => v.push(("pin_hash".to_owned(), h.clone())),
        Option::None => {},
    }
    v
}

/// A peer as discovery reports it. Identity is `id`; two values with the
/// same `id` refer to the same peer even if other fields change.
pub struct DeviceInfo {
    pub id: String,
    pub name: String,
    pub ip: String,
    pub port: u16,
    pub pin_hash: Option<String>,
}

impl DeviceInfo {
    /// Decode an advertisement's fields into a `DeviceInfo`: `id`, `name`
    /// and address must all be present, the pairing hash may be absent.
    pub fn from_parts(
        id: Option<String>,
        name: Option<String>,
        ip: Option<String>,
        port: u16,
        pin_hash: Option<String>,
    ) -> (r: Option<DeviceInfo>)
        ensures
            match r {
                Option::Some(d) => {
                    &&& id matches Some(i) && d.id == i
                    &&& name matches Some(n) && d.name == n
                    &&& ip matches Some(a) && d.ip == a
                    &&& d.port == port
                    &&& d.pin_hash == pin_hash
                },
                Option::None => id is None || name is None || ip is None,
            },
    {
        match (id, name, ip) {
            (Option::Some(id), Option::Some(name), Option::Some(ip)) => Some(
                DeviceInfo { id, name, ip, port, pin_hash },
            ),
            _ => None,
        }
    }
}

/// The pairing filter: a discovered peer is surfaced exactly when it is not
/// this instance itself and its advertised pairing hash equals the local
/// session's hash — both absent is a match, any other inequality is not.
pub open spec fn surfaced_spec(
    peer_id: Seq<char>,
    peer_hash: Option<Seq<char>>,
    local_id: Seq<char>,
    local_hash: Option<Seq<char>>,
) -> bool {
    peer_id != local_id && peer_hash == local_hash
}

/// Law: a peer is surfaced only when its advertised pairing hash equals the
/// local session's hash (or both are absent); on differing hashes it never
/// is, however well-formed.
pub proof fn lemma_discovery_filter(
    peer_id: Seq<char>,
    peer_hash: Option<Seq<char>>,
    local_id: Seq<char>,
    local_hash: Option<Seq<char>>,
)
    ensures
        surfaced_spec(peer_id, peer_hash, local_id, local_hash) ==> peer_hash == local_hash,
        peer_hash != local_hash ==> !surfaced_spec(peer_id, peer_hash, local_id, local_hash),
{
}

/// Decide whether a discovered peer is reported: suppress self-discovery
/// and peers whose pairing hash does not equal the local session's hash.
pub fn should_surface_device(device: &DeviceInfo, local_id: &String, local_hash: &Option<String>) -> (r:
    bool)
    ensures
        r == surfaced_spec(
            device.id@,
            device.pin_hash.deep_view(),
            local_id@,
            local_hash.deep_view(),
        ),
{
    let id_matches_self = device.id == *local_id;
    let hash_matches = match (&device.pin_hash, local_hash) {
        (Option::Some(ph), Option::Some(lh)) => *ph == *lh,
        (Option::None, Option::None) => true,
        _ => false,
    };
    !id_matches_self && hash_matches
}

/// Stripping a suffix from a character sequence: the prefix when the suffix
/// is there, nothing otherwise.
pub open spec fn strip_suffix_spec(s: Seq<char>, suffix: Seq<char>) -> Option<Seq<char>> {
    if s.len() >= suffix.len() && s.subrange(s.len() - suffix.len(), s.len() as int) == suffix {
        Option::Some(s.subrange(0, s.len() - suffix.len()))
    } else {
        Option::None
    }
}

/// The peer id carried by a withdrawal message: the full service name with
/// the dot and the service type stripped from its end.
pub open spec fn peer_id_spec(full_name: Seq<char>) -> Option<Seq<char>> {
    strip_suffix_spec(full_name, "."@ + spec_service_type())
}

/// Parse a withdrawal message's full service name back into the peer's id.
pub fn peer_id_from_full_name(full_name: &str) -> (r: Option<String>)
    ensures
        r.deep_view() == peer_id_spec(full_name@),
{
    proof {
        reveal_strlit("._pastly._udp.local.");
        reveal_strlit(".");
        reveal_strlit("_pastly._udp.local.");
    }
    let suffix = "._pastly._udp.local.";
    assert(suffix@ =~= "."@ + spec_service_type());
    let n = full_name.unicode_len();
    let m = suffix.unicode_len();
    if n < m {
        return None;
    }
    let mut i: usize = 0;
    while i < m
        invariant
            i <= m,
            m <= n,
            n == full_name@.len(),
            m == suffix@.len(),
            suffix@ == "."@ + spec_service_type(),
            forall|j: int| 0 <= j < i ==> full_name@[n - m + j] == suffix@[j],
        decreases m - i,
    {
        if full_name.get_char(n - m + i) != suffix.get_char(i) {
            proof {
                let sfx = "."@ + spec_service_type();
                let tail = full_name@.subrange(n - m, n as int);
                assert(tail[i as int] == full_name@[n - m + i]);
                assert(tail != sfx);
                assert(full_name@.subrange(
                    full_name@.len() - sfx.len(),
                    full_name@.len() as int,
                ) == tail);
            }
            return None;
        }
        i += 1;
    }
    proof {
        let tail = full_name@.subrange(n - m, n as int);
        assert forall|j: int| 0 <= j < m implies tail[j] == suffix@[j] by {
            assert(tail[j] == full_name@[n - m + j]);
        }
        assert(tail =~= suffix@);
    }
    let prefix = full_name.substring_char(0, n - m);
    Some(prefix.to_owned())
}

/// Law: the full service name built from an id strips back to exactly that
/// id, so a withdrawal of a name this instance built is attributed to the
/// right peer.
pub proof fn lemma_full_name_round_trip(id: Seq<char>)
    ensures
        peer_id_spec(id + "."@ + spec_service_type()) == Some(id),
{
    let suffix = "."@ + spec_service_type();
    let s = id + "."@ + spec_service_type();
    assert(s =~= id + suffix);
    assert(s.subrange(s.len() - suffix.len(), s.len() as int) =~= suffix);
    assert(s.subrange(0, s.len() - suffix.len()) =~= id);
}

} // verus!
