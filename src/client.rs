//! The table of devices that replies from the network fill in, and what is
//! done with each received datagram.
use crate::bulb::{utc_from_nanos, utc_of_nanos, Bulb, Color, IpAddress, Location, SocketAddress};
use crate::codec::{
    decode_reply, decoded_reply, encode_request, frame_ok, frame_size, frame_target, frame_type,
    lookup_multizone, product_multizone, request_packet, unpack_frame, Reply, Request,
    HEADER_SIZE,
};
use crate::refreshable_data::RefreshableData;
use lifx_core::BuildOptions;
use std::collections::HashMap;
use vstd::prelude::*;

verus! {

broadcast use vstd::std_specs::hash::group_hash_axioms;

/// The device after `msg` has been folded into it at `now`.
pub open spec fn reply_applied(old_bulb: Bulb, new_bulb: Bulb, msg: Reply, now: u64) -> bool {
    match msg {
        Reply::StateLabel { label } => new_bulb == (Bulb {
            name: old_bulb.name.updated(label, now),
            ..old_bulb
        }),
        Reply::StateLocation { location, label, updated_at } => new_bulb == (Bulb {
            location: old_bulb.location.updated(
                Location { id: location, name: label, updated_at: utc_of_nanos(updated_at) },
                now,
            ),
            ..old_bulb
        }),
        Reply::StatePower { level } => new_bulb == (Bulb {
            power: old_bulb.power.updated(level, now),
            ..old_bulb
        }),
        Reply::StateVersion { vendor, product } => old_bulb.version_applied(
            new_bulb,
            vendor,
            product,
            product_multizone(vendor, product),
            now,
        ),
        Reply::LightState { color, power, label } => match old_bulb.color.data {
            Some(Color::Single(_)) => new_bulb == (Bulb {
                name: old_bulb.name.updated(label, now),
                color: RefreshableData { data: Some(Color::Single(Some(color))), ..old_bulb.color },
                power: old_bulb.power.updated(power, now),
                ..old_bulb
            }),
            _ => new_bulb == (Bulb { name: old_bulb.name.updated(label, now), ..old_bulb }),
        },
        Reply::Other => new_bulb == old_bulb,
    }
}

/// Folds a reply into the device it came from. A light-state reply carries
/// the label, and the colour and power of a single-zone device.
pub fn handle_message(bulb: &mut Bulb, msg: Reply, now: u64)
    ensures
        reply_applied(*old(bulb), *final(bulb), msg, now),
        old(bulb).wf() ==> final(bulb).wf(),
{
    match msg {
        Reply::StateLabel { label } => bulb.name.update(label, now),
        Reply::StateLocation { location, label, updated_at } => {
            let at = utc_from_nanos(updated_at);
            bulb.location.update(Location::new(location, label, at), now);
        },
        Reply::StatePower { level } => bulb.power.update(level, now),
        Reply::StateVersion { vendor, product } => {
            let multizone = lookup_multizone(vendor, product);
            bulb.apply_version(vendor, product, multizone, now);
        },
        Reply::LightState { color, power, label } => {
            bulb.name.update(label, now);
            let single = match &bulb.color.data {
                Some(Color::Single(_)) => true,
                _ => false,
            };
            if single {
                bulb.color.data = Some(Color::Single(Some(color)));
                bulb.power.update(power, now);
            }
        },
        Reply::Other => {},
    }
}

/// What became of a received datagram.
#[derive(Debug)]
pub enum PacketOutcome {
    /// Not a frame that this library accepts; dropped.
    Malformed,
    /// Addressed to no device; dropped.
    Unaddressed,
    /// The sender was recorded, but the payload could not be decoded.
    Undecodable(lifx_core::Error),
    /// The sender was recorded and the reply folded into its model.
    Handled,
}

/// `m` with the device `target` recorded at `addr` at time `now`: a new device
/// where there was none, else the known one with its address replaced.
pub open spec fn upsert_map(m: Map<u64, Bulb>, target: u64, addr: SocketAddress, now: u64) -> Map<
    u64,
    Bulb,
> {
    m.insert(target, upserted_bulb(m, target, addr, now))
}

/// The device `target` of `m`, recorded at `addr` at time `now`.
pub open spec fn upserted_bulb(m: Map<u64, Bulb>, target: u64, addr: SocketAddress, now: u64) -> Bulb {
    if m.contains_key(target) {
        Bulb { addr, ..m[target] }
    } else {
        Bulb::fresh(addr, target, now)
    }
}

/// Every device is stored under its own identity.
pub open spec fn keyed_by_target(m: Map<u64, Bulb>) -> bool {
    forall|k: u64| #[trigger] m.contains_key(k) ==> m[k].target == k
}

/// Every device has the field ages and policies that `Bulb::new` gives.
pub open spec fn all_wf(m: Map<u64, Bulb>) -> bool {
    forall|k: u64| #[trigger] m.contains_key(k) ==> m[k].wf()
}

/// `new_m` is `old_m` with device `target` recorded at `addr`: the identities
/// of before plus `target`, every other device as it was, and under `target`
/// a device of that identity at that address.
pub open spec fn recorded(
    old_m: Map<u64, Bulb>,
    new_m: Map<u64, Bulb>,
    target: u64,
    addr: SocketAddress,
) -> bool {
    &&& new_m.dom() == old_m.dom().insert(target)
    &&& new_m.remove(target) == old_m.remove(target)
    &&& new_m[target].addr == addr
    &&& new_m[target].target == target
}

/// Folding a reply into a device keeps its address and identity.
pub proof fn lemma_reply_keeps_identity(old_bulb: Bulb, new_bulb: Bulb, msg: Reply, now: u64)
    requires
        reply_applied(old_bulb, new_bulb, msg, now),
    ensures
        new_bulb.addr == old_bulb.addr,
        new_bulb.target == old_bulb.target,
{
}

/// The devices known to this client, by identity.
#[derive(Debug)]
pub struct Registry {
    pub bulbs: HashMap<u64, Bulb>,
}

impl Registry {
    pub open spec fn wf(&self) -> bool {
        &&& keyed_by_target(self.bulbs@)
        &&& all_wf(self.bulbs@)
    }

    pub fn new() -> (r: Self)
        ensures
            r.bulbs@ == Map::<u64, Bulb>::empty(),
            r.wf(),
    {
        Registry { bulbs: HashMap::new() }
    }

    /// Takes the device `target` out of the table, recorded at `addr`.
    fn take_upserted(&mut self, target: u64, addr: SocketAddress, now: u64) -> (r: Bulb)
        ensures
            r == upserted_bulb(old(self).bulbs@, target, addr, now),
            old(self).wf() ==> r.wf(),
            final(self).bulbs@ == old(self).bulbs@.remove(target),
    {
        match self.bulbs.remove(&target) {
            Some(b) => {
                let mut b = b;
                b.addr = addr;
                b
            },
            None => Bulb::new(addr, target, now),
        }
    }

    /// Records that device `target` sent from `addr` at `now`.
    pub fn upsert(&mut self, target: u64, addr: SocketAddress, now: u64)
        requires
            old(self).wf(),
        ensures
            final(self).bulbs@ == upsert_map(old(self).bulbs@, target, addr, now),
            final(self).wf(),
    {
        let b = self.take_upserted(target, addr, now);
        self.bulbs.insert(target, b);
    }

    /// Handles one datagram received from `addr` at `now`: a frame addressed
    /// to a device records the device at `addr` and folds the decoded reply
    /// into it. Anything else leaves the table as it was.
    pub fn handle_datagram(&mut self, addr: SocketAddress, bytes: &[u8], now: u64) -> (r:
        PacketOutcome)
        requires
            old(self).wf(),
        ensures
            final(self).wf(),
            !frame_ok(bytes@) ==> r is Malformed && final(self).bulbs@ == old(self).bulbs@,
            frame_ok(bytes@) && frame_target(bytes@) == 0 ==> r is Unaddressed
                && final(self).bulbs@ == old(self).bulbs@,
            frame_ok(bytes@) && frame_target(bytes@) != 0 ==> {
                let t = frame_target(bytes@) as u64;
                let up = upserted_bulb(old(self).bulbs@, t, addr, now);
                let reply = decoded_reply(
                    frame_type(bytes@) as u16,
                    bytes@.subrange(HEADER_SIZE as int, frame_size(bytes@) as int),
                );
                &&& recorded(old(self).bulbs@, final(self).bulbs@, t, addr)
                &&& match reply {
                    None => r is Undecodable && final(self).bulbs@[t] == up,
                    Some(msg) => r is Handled && reply_applied(up, final(self).bulbs@[t], msg, now),
                }
            },
    {
        let raw = match unpack_frame(bytes) {
            Some(m) => m,
            None => return PacketOutcome::Malformed,
        };
        let target = raw.frame_addr.target;
        if target == 0 {
            return PacketOutcome::Unaddressed;
        }
        let mut bulb = self.take_upserted(target, addr, now);
        let outcome = match decode_reply(&raw) {
            Ok(msg) => {
                let ghost before = bulb;
                handle_message(&mut bulb, msg, now);
                proof {
                    lemma_reply_keeps_identity(before, bulb, msg, now);
                }
                PacketOutcome::Handled
            },
            Err(e) => PacketOutcome::Undecodable(e),
        };
        self.bulbs.insert(target, bulb);
        proof {
            assert(self.bulbs@.dom() =~= old(self).bulbs@.dom().insert(target));
            assert(self.bulbs@.remove(target) =~= old(self).bulbs@.remove(target));
        }
        outcome
    }
}

/// `upsert_map` applied `n` times with the same device, address and time.
pub open spec fn upsert_repeated(
    m: Map<u64, Bulb>,
    target: u64,
    addr: SocketAddress,
    now: u64,
    n: nat,
) -> Map<u64, Bulb>
    decreases n,
{
    if n == 0 {
        m
    } else {
        upsert_map(upsert_repeated(m, target, addr, now, (n - 1) as nat), target, addr, now)
    }
}

/// Recording device `target` at `addr` any number of times, at least once,
/// leaves the same table as recording it once: exactly one device under that
/// identity, at that address, and the other devices as they were.
pub proof fn lemma_repeated_upsert(
    m: Map<u64, Bulb>,
    target: u64,
    addr: SocketAddress,
    now: u64,
    n: nat,
)
    requires
        keyed_by_target(m),
        n >= 1,
    ensures
        upsert_repeated(m, target, addr, now, n) == upsert_map(m, target, addr, now),
        upsert_repeated(m, target, addr, now, n).dom() == m.dom().insert(target),
        upsert_repeated(m, target, addr, now, n)[target].addr == addr,
        upsert_repeated(m, target, addr, now, n)[target].target == target,
        upsert_repeated(m, target, addr, now, n).remove(target) == m.remove(target),
    decreases n,
{
    let once = upsert_map(m, target, addr, now);
    assert(upsert_repeated(m, target, addr, now, n) == upsert_map(
        upsert_repeated(m, target, addr, now, (n - 1) as nat),
        target,
        addr,
        now,
    ));
    if n > 1 {
        lemma_repeated_upsert(m, target, addr, now, (n - 1) as nat);
        assert(once[target].addr == addr);
        assert(upserted_bulb(once, target, addr, now) == once[target]);
        assert(upsert_map(once, target, addr, now) =~= once);
    } else {
        assert(upsert_repeated(m, target, addr, now, 0) == m);
    }
    assert(once.dom() =~= m.dom().insert(target));
    assert(once.remove(target) =~= m.remove(target));
}

/// A device seen for the first time knows no colour, and a tick does not
/// change what colour a device knows.
pub proof fn lemma_no_color_before_version(addr: SocketAddress, target: u64, b: Bulb, now: u64)
    ensures
        Bulb::fresh(addr, target, now).color.data is None,
        b.ticked(now).color.data == b.color.data,
{
}

/// How replies move the colour between its shapes: only a version reply gives
/// an unknown colour a shape; a version reply for a known single-zone product
/// leaves a single colour that is not yet known; a single-zone colour stays
/// single-zone under every reply but a version reply for a multizone product;
/// and only a light-state reply makes a single colour known, together with the
/// power.
pub proof fn lemma_color_shape(old_bulb: Bulb, new_bulb: Bulb, msg: Reply, now: u64)
    requires
        reply_applied(old_bulb, new_bulb, msg, now),
    ensures
        old_bulb.color.data is None && !(msg is StateVersion) ==> new_bulb.color.data is None,
        msg matches Reply::StateVersion { vendor, product } && product_multizone(vendor, product)
            == Some(false) ==> new_bulb.color.data == Some(Color::Single(None))
            && new_bulb.color_single_spec() is None,
        old_bulb.color.data matches Some(Color::Single(_)) && !(msg matches Reply::StateVersion {
            vendor,
            product,
        } && product_multizone(vendor, product) == Some(true))
            ==> new_bulb.color.data matches Some(Color::Single(_)),
        old_bulb.color_single_spec() is None && !(msg is LightState)
            ==> new_bulb.color_single_spec() is None,
        msg matches Reply::LightState { color, power, .. } ==> (old_bulb.color.data is Some
            && old_bulb.color.data->0 is Single ==> new_bulb.color_single_spec() == Some(color)
            && new_bulb.power.data == Some(power)),
{
}

/// Handling one datagram after another, each from `addr` and naming device
/// `target`, leaves the table of before with exactly one device under
/// `target`, at `addr`, and every other device as it was. `ms` are the tables
/// before the first datagram and after each one.
pub proof fn lemma_datagrams_from_one_device(ms: Seq<Map<u64, Bulb>>, target: u64, addr: SocketAddress)
    requires
        ms.len() >= 2,
        forall|i: int| 0 <= i < ms.len() - 1 ==> recorded(#[trigger] ms[i], ms[i + 1], target, addr),
    ensures
        recorded(ms[0], ms.last(), target, addr),
    decreases ms.len(),
{
    if ms.len() > 2 {
        let prefix = ms.drop_last();
        assert forall|i: int| 0 <= i < prefix.len() - 1 implies recorded(
            #[trigger] prefix[i],
            prefix[i + 1],
            target,
            addr,
        ) by {
            assert(recorded(ms[i], ms[i + 1], target, addr));
        }
        lemma_datagrams_from_one_device(prefix, target, addr);
        let m0 = ms[0];
        let m1 = ms[ms.len() - 2];
        let m2 = ms.last();
        assert(recorded(m1, m2, target, addr));
        assert(m2.dom() =~= m0.dom().insert(target));
    }
}

/// Replies folded in turn: `bs[i + 1]` is `bs[i]` after `msgs[i]` at `times[i]`.
pub open spec fn replies_in_turn(bs: Seq<Bulb>, msgs: Seq<Reply>, times: Seq<u64>) -> bool {
    &&& bs.len() == msgs.len() + 1
    &&& times.len() == msgs.len()
    &&& forall|i: int|
        0 <= i < msgs.len() ==> reply_applied(#[trigger] bs[i], bs[i + 1], msgs[i], times[i])
}

/// Whether `msg` is a version reply for a known multizone product.
pub open spec fn is_multizone_version(msg: Reply) -> bool {
    msg matches Reply::StateVersion { vendor, product } && product_multizone(vendor, product)
        == Some(true)
}

proof fn lemma_no_version_prefix(bs: Seq<Bulb>, msgs: Seq<Reply>, times: Seq<u64>, k: int)
    requires
        replies_in_turn(bs, msgs, times),
        bs[0].color.data is None,
        forall|i: int| 0 <= i < msgs.len() ==> !(#[trigger] msgs[i] is StateVersion),
        0 <= k < bs.len(),
    ensures
        bs[k].color.data is None,
    decreases k,
{
    if k > 0 {
        lemma_no_version_prefix(bs, msgs, times, k - 1);
        assert(!(msgs[k - 1] is StateVersion));
        lemma_color_shape(bs[k - 1], bs[k], msgs[k - 1], times[k - 1]);
    }
}

/// A device whose colour is unknown, as every new device's is, keeps it
/// unknown under any replies that hold no version reply: neither a single
/// colour nor zone colours.
pub proof fn lemma_no_color_without_version(bs: Seq<Bulb>, msgs: Seq<Reply>, times: Seq<u64>)
    requires
        replies_in_turn(bs, msgs, times),
        bs[0].color.data is None,
        forall|i: int| 0 <= i < msgs.len() ==> !(#[trigger] msgs[i] is StateVersion),
    ensures
        bs.last().color.data is None,
        bs.last().color_single_spec() is None,
{
    lemma_no_version_prefix(bs, msgs, times, bs.len() - 1);
}

proof fn lemma_no_light_state_prefix(bs: Seq<Bulb>, msgs: Seq<Reply>, times: Seq<u64>, k: int)
    requires
        replies_in_turn(bs, msgs, times),
        bs[0].color_single_spec() is None,
        forall|i: int| 0 <= i < msgs.len() ==> !(#[trigger] msgs[i] is LightState),
        0 <= k < bs.len(),
    ensures
        bs[k].color_single_spec() is None,
    decreases k,
{
    if k > 0 {
        lemma_no_light_state_prefix(bs, msgs, times, k - 1);
        assert(!(msgs[k - 1] is LightState));
        lemma_color_shape(bs[k - 1], bs[k], msgs[k - 1], times[k - 1]);
    }
}

/// A single colour that is not known, as after a version reply for a known
/// single-zone product, stays unknown under any replies that hold no
/// light-state reply.
pub proof fn lemma_single_color_waits_for_light_state(
    bs: Seq<Bulb>,
    msgs: Seq<Reply>,
    times: Seq<u64>,
)
    requires
        replies_in_turn(bs, msgs, times),
        bs[0].color_single_spec() is None,
        forall|i: int| 0 <= i < msgs.len() ==> !(#[trigger] msgs[i] is LightState),
    ensures
        bs.last().color_single_spec() is None,
{
    lemma_no_light_state_prefix(bs, msgs, times, bs.len() - 1);
}

proof fn lemma_single_zone_prefix(bs: Seq<Bulb>, msgs: Seq<Reply>, times: Seq<u64>, k: int)
    requires
        replies_in_turn(bs, msgs, times),
        bs[0].color.data matches Some(Color::Single(_)),
        forall|i: int| 0 <= i < msgs.len() ==> !is_multizone_version(#[trigger] msgs[i]),
        0 <= k < bs.len(),
    ensures
        bs[k].color.data matches Some(Color::Single(_)),
    decreases k,
{
    if k > 0 {
        lemma_single_zone_prefix(bs, msgs, times, k - 1);
        assert(!is_multizone_version(msgs[k - 1]));
        lemma_color_shape(bs[k - 1], bs[k], msgs[k - 1], times[k - 1]);
    }
}

/// A single-zone colour, as after a version reply for a known single-zone
/// product, stays single-zone under any replies that hold no version reply
/// for a multizone product: there are never zone colours.
pub proof fn lemma_single_zone_stays(bs: Seq<Bulb>, msgs: Seq<Reply>, times: Seq<u64>)
    requires
        replies_in_turn(bs, msgs, times),
        bs[0].color.data matches Some(Color::Single(_)),
        forall|i: int| 0 <= i < msgs.len() ==> !is_multizone_version(#[trigger] msgs[i]),
    ensures
        bs.last().color.data matches Some(Color::Single(_)),
        !(bs.last().color.data matches Some(Color::Multi(_))),
{
    lemma_single_zone_prefix(bs, msgs, times, bs.len() - 1);
}

/// The options of the discovery request: addressed to all devices, with no
/// reply or acknowledgement asked for and no source identifier.
pub open spec fn discovery_options() -> BuildOptions {
    BuildOptions { target: None, ack_required: false, res_required: false, sequence: 0, source: 0 }
}

/// The datagram that asks every device on the network to announce itself.
pub fn discovery_packet() -> (r: Result<Vec<u8>, lifx_core::Error>)
    ensures
        r is Ok,
        r matches Ok(b) ==> b@ == request_packet(discovery_options(), Request::GetService),
{
    let opts = BuildOptions {
        target: None,
        ack_required: false,
        res_required: false,
        sequence: 0,
        source: 0,
    };
    encode_request(&opts, Request::GetService)
}

/// A network interface: its address and, for IPv4, its broadcast address.
#[derive(Clone, Copy, Debug, PartialEq, Eq, Structural)]
pub struct Interface {
    pub ip: IpAddress,
    pub broadcast: Option<u32>,
}

/// Whether an IPv4 address is in the loopback range 127.0.0.0/8.
pub open spec fn is_loopback_v4(ip: u32) -> bool {
    ip / 16_777_216 == 127
}

/// The broadcast addresses of the IPv4 interfaces that are not loopback, in
/// the order of the interfaces.
pub open spec fn broadcast_targets(ifaces: Seq<Interface>) -> Seq<u32>
    decreases ifaces.len(),
{
    if ifaces.len() == 0 {
        Seq::empty()
    } else {
        let rest = broadcast_targets(ifaces.drop_last());
        let last = ifaces.last();
        match (last.ip, last.broadcast) {
            (IpAddress::V4(ip), Some(b)) => if is_loopback_v4(ip) {
                rest
            } else {
                rest.push(b)
            },
            _ => rest,
        }
    }
}

/// Where the discovery request goes: the broadcast address of every IPv4
/// interface that is not loopback.
pub fn broadcast_addresses(ifaces: &Vec<Interface>) -> (r: Vec<u32>)
    ensures
        r@ == broadcast_targets(ifaces@),
{
    let mut r: Vec<u32> = Vec::new();
    let mut i: usize = 0;
    while i < ifaces.len()
        invariant
            i <= ifaces.len(),
            r@ == broadcast_targets(ifaces@.subrange(0, i as int)),
        decreases ifaces.len() - i,
    {
        let iface = ifaces[i];
        proof {
            assert(ifaces@.subrange(0, i + 1).drop_last() =~= ifaces@.subrange(0, i as int));
        }
        match (iface.ip, iface.broadcast) {
            (IpAddress::V4(ip), Some(b)) => {
                if ip / 16_777_216 != 127 {
                    r.push(b);
                }
            },
            _ => {},
        }
        i += 1;
    }
    assert(ifaces@.subrange(0, ifaces@.len() as int) =~= ifaces@);
    r
}

} // verus!
