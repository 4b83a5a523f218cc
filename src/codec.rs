//! The LIFX LAN wire format as this library uses it: the requests it sends,
//! the replies it understands, and the calls into `lifx_core` that turn one
//! into bytes and bytes into the other.
use lifx_core::{
    get_product_info, BuildOptions, Frame, FrameAddress, LifxIdent, Message, ProtocolHeader,
    RawMessage, HSBK,
};
use vstd::prelude::*;

verus! {

#[verifier::external_type_specification]
pub struct ExFrame(Frame);

#[verifier::external_type_specification]
pub struct ExFrameAddress(FrameAddress);

#[verifier::external_type_specification]
pub struct ExProtocolHeader(ProtocolHeader);

#[verifier::external_type_specification]
pub struct ExRawMessage(RawMessage);

#[verifier::external_type_specification]
pub struct ExBuildOptions(BuildOptions);

#[verifier::external_type_specification]
pub struct ExHsbk(HSBK);

/// Relies on lifx_core's derived `Clone` for `HSBK`: a copy of the four fields.
pub assume_specification[ <HSBK as Clone>::clone ](c: &HSBK) -> (r: HSBK)
    ensures
        r == *c,
;

/// Size in bytes of the frame, frame-address and protocol headers together.
pub const HEADER_SIZE: usize = 36;

/// The messages this client sends to devices.
#[derive(Clone, Copy, Debug, PartialEq, Eq, Structural)]
pub enum Request {
    GetService,
    GetHostFirmware,
    GetWifiFirmware,
    GetPower,
    GetLabel,
    GetVersion,
    GetLocation,
    LightGet,
    GetColorZones { start_index: u8, end_index: u8 },
}

impl Request {
    /// The protocol's message type number.
    pub open spec fn type_number(self) -> u16 {
        match self {
            Request::GetService => 2,
            Request::GetHostFirmware => 14,
            Request::GetWifiFirmware => 18,
            Request::GetPower => 20,
            Request::GetLabel => 23,
            Request::GetVersion => 32,
            Request::GetLocation => 48,
            Request::LightGet => 101,
            Request::GetColorZones { .. } => 502,
        }
    }

    /// The payload that follows the headers.
    pub open spec fn payload(self) -> Seq<u8> {
        match self {
            Request::GetColorZones { start_index, end_index } => seq![start_index, end_index],
            _ => Seq::empty(),
        }
    }
}


/// A reply from a device, with the fields this library folds into its model.
#[derive(Clone, Debug)]
pub enum Reply {
    StateLabel { label: String },
    StateLocation { location: [u8; 16], label: String, updated_at: u64 },
    StatePower { level: u16 },
    StateVersion { vendor: u32, product: u32 },
    LightState { color: HSBK, power: u16, label: String },
    /// Any message that this library does not fold into its model.
    Other,
}

#[verifier::external_type_specification]
#[verifier::external_body]
pub struct ExLifxError(lifx_core::Error);

/// Little-endian encoding of `x` in `n` bytes.
pub open spec fn le_bytes(x: nat, n: nat) -> Seq<u8>
    decreases n,
{
    if n == 0 {
        Seq::empty()
    } else {
        seq![(x % 256) as u8] + le_bytes(x / 256, (n - 1) as nat)
    }
}

/// The number that little-endian bytes stand for.
pub open spec fn le_value(s: Seq<u8>) -> nat
    decreases s.len(),
{
    if s.len() == 0 {
        0
    } else {
        s[0] as nat + 256 * le_value(s.drop_first())
    }
}

/// The 16-bit word after the size: origin, tagged, addressable and protocol.
pub open spec fn frame_word(f: Frame) -> nat {
    (f.origin as nat % 4) * 16384 + (if f.tagged { 8192nat } else { 0 }) + (if f.addressable {
        4096nat
    } else {
        0
    }) + f.protocol as nat % 4096
}

/// The byte after the reserved bytes of the frame address: flags for
/// acknowledgement and response.
pub open spec fn frame_address_flags(a: FrameAddress) -> nat {
    (a.reserved2 as nat * 4) % 256 + (if a.ack_required { 2nat } else { 0 }) + (if a.res_required {
        1nat
    } else {
        0
    })
}

/// The bytes of a packed message: the three headers, then the payload.
pub open spec fn wire_bytes(m: RawMessage) -> Seq<u8> {
    le_bytes(m.frame.size as nat, 2) + le_bytes(frame_word(m.frame), 2) + le_bytes(
        m.frame.source as nat,
        4,
    ) + le_bytes(m.frame_addr.target as nat, 8) + m.frame_addr.reserved@ + seq![
        frame_address_flags(m.frame_addr) as u8,
        m.frame_addr.sequence,
    ] + le_bytes(m.protocol_header.reserved as nat, 8) + le_bytes(
        m.protocol_header.typ as nat,
        2,
    ) + le_bytes(m.protocol_header.reserved2 as nat, 2) + m.payload@
}

/// The device a request built with `opts` is addressed to; zero for all devices.
pub open spec fn target_of(opts: BuildOptions) -> u64 {
    match opts.target {
        Some(t) => t,
        None => 0,
    }
}

/// What `RawMessage::build` makes of `opts` and `req`.
pub open spec fn built_from(m: RawMessage, opts: BuildOptions, req: Request) -> bool {
    &&& m.frame.size as nat == HEADER_SIZE + req.payload().len()
    &&& m.frame.origin == 0
    &&& m.frame.tagged == (opts.target is None)
    &&& m.frame.addressable
    &&& m.frame.protocol == 1024
    &&& m.frame.source == opts.source
    &&& m.frame_addr.target == target_of(opts)
    &&& m.frame_addr.reserved@ == Seq::new(6, |i: int| 0u8)
    &&& m.frame_addr.reserved2 == 0
    &&& m.frame_addr.ack_required == opts.ack_required
    &&& m.frame_addr.res_required == opts.res_required
    &&& m.frame_addr.sequence == opts.sequence
    &&& m.protocol_header.reserved == 0
    &&& m.protocol_header.typ == req.type_number()
    &&& m.protocol_header.reserved2 == 0
    &&& m.payload@ == req.payload()
}

/// The datagram that carries `req`, built with `opts`.
pub open spec fn request_packet(opts: BuildOptions, req: Request) -> Seq<u8> {
    let flags: nat = (if opts.ack_required { 2nat } else { 0 }) + (if opts.res_required {
        1nat
    } else {
        0
    });
    let word: nat = (if opts.target is None { 8192nat } else { 0 }) + 4096 + 1024;
    le_bytes((HEADER_SIZE + req.payload().len()) as nat, 2) + le_bytes(word, 2) + le_bytes(
        opts.source as nat,
        4,
    ) + le_bytes(target_of(opts) as nat, 8) + Seq::new(6, |i: int| 0u8) + seq![
        flags as u8,
        opts.sequence,
    ] + le_bytes(0, 8) + le_bytes(req.type_number() as nat, 2) + le_bytes(0, 2) + req.payload()
}

/// Relies on lifx_core::RawMessage::build: the headers it fills in from the
/// options and the message, and the payload of the `Get` messages. For these
/// messages it only writes into a `Vec`, so it does not fail.
#[verifier::external_body]
fn build_raw(opts: &BuildOptions, req: Request) -> (r: Result<RawMessage, lifx_core::Error>)
    ensures
        r is Ok,
        r matches Ok(m) ==> built_from(m, *opts, req),
{
    let msg = match req {
        Request::GetService => Message::GetService,
        Request::GetHostFirmware => Message::GetHostFirmware,
        Request::GetWifiFirmware => Message::GetWifiFirmware,
        Request::GetPower => Message::GetPower,
        Request::GetLabel => Message::GetLabel,
        Request::GetVersion => Message::GetVersion,
        Request::GetLocation => Message::GetLocation,
        Request::LightGet => Message::LightGet,
        Request::GetColorZones { start_index, end_index } => {
            Message::GetColorZones { start_index, end_index }
        },
    };
    RawMessage::build(opts, msg)
}

/// Relies on lifx_core::RawMessage::pack: the headers in little-endian order,
/// then the payload. It only writes into a `Vec`, so it does not fail.
#[verifier::external_body]
fn pack_raw(m: &RawMessage) -> (r: Result<Vec<u8>, lifx_core::Error>)
    ensures
        r is Ok,
        r matches Ok(b) ==> b@ == wire_bytes(*m),
{
    m.pack()
}

/// A message built from `opts` and `req` packs into `request_packet(opts, req)`.
proof fn lemma_built_packs(m: RawMessage, opts: BuildOptions, req: Request)
    requires
        built_from(m, opts, req),
    ensures
        wire_bytes(m) == request_packet(opts, req),
{
    assert(frame_word(m.frame) == (if opts.target is None { 8192nat } else { 0 }) + 4096 + 1024);
    assert(frame_address_flags(m.frame_addr) == (if opts.ack_required { 2nat } else { 0 }) + (
    if opts.res_required {
        1nat
    } else {
        0
    }));
}

/// Encodes `req` with `opts` into the datagram that carries it.
pub fn encode_request(opts: &BuildOptions, req: Request) -> (r: Result<Vec<u8>, lifx_core::Error>)
    ensures
        r is Ok,
        r matches Ok(b) ==> b@ == request_packet(*opts, req),
{
    let raw = build_raw(opts, req)?;
    proof {
        lemma_built_packs(raw, *opts, req);
    }
    pack_raw(&raw)
}

/// Size field of a received datagram.
pub open spec fn frame_size(b: Seq<u8>) -> nat {
    le_value(b.subrange(0, 2))
}

/// Protocol number of a received datagram.
pub open spec fn frame_protocol(b: Seq<u8>) -> nat {
    le_value(b.subrange(2, 4)) % 4096
}

/// Whether a received datagram has its addressable bit set.
pub open spec fn frame_addressable(b: Seq<u8>) -> bool {
    (le_value(b.subrange(2, 4)) / 4096) % 2 == 1
}

/// The device a received datagram names as its target; zero for none.
pub open spec fn frame_target(b: Seq<u8>) -> nat {
    le_value(b.subrange(8, 16))
}

/// The message type of a received datagram.
pub open spec fn frame_type(b: Seq<u8>) -> nat {
    le_value(b.subrange(32, 34))
}

/// Inputs on which `RawMessage::unpack` returns rather than panics, among
/// those that hold the three headers.
pub open spec fn unpack_returns(b: Seq<u8>) -> bool {
    &&& b.len() >= HEADER_SIZE
    &&& frame_protocol(b) == 1024 ==> frame_addressable(b) && HEADER_SIZE <= frame_size(b)
        <= b.len()
}

/// The datagrams this library accepts as frames: the headers are all there,
/// the protocol is 1024, the frame is addressable and its size is within the
/// datagram.
pub open spec fn frame_ok(b: Seq<u8>) -> bool {
    &&& b.len() >= HEADER_SIZE
    &&& frame_protocol(b) == 1024
    &&& frame_addressable(b)
    &&& HEADER_SIZE <= frame_size(b) <= b.len()
}

/// Relies on lifx_core::RawMessage::unpack: it fails only on a protocol other
/// than 1024 once the headers are there, reads the target and message type in
/// little-endian order, and takes the payload up to the frame's size.
#[verifier::external_body]
fn unpack_raw(b: &[u8]) -> (r: Result<RawMessage, lifx_core::Error>)
    requires
        unpack_returns(b@),
    ensures
        r is Ok <==> frame_protocol(b@) == 1024,
        r matches Ok(m) ==> {
            &&& m.frame_addr.target as nat == frame_target(b@)
            &&& m.protocol_header.typ as nat == frame_type(b@)
            &&& m.payload@ == b@.subrange(HEADER_SIZE as int, frame_size(b@) as int)
        },
{
    RawMessage::unpack(b)
}

/// The reply that `Message::from_raw` decodes from a message type and payload,
/// or none where it fails.
pub uninterp spec fn decoded_reply(typ: u16, payload: Seq<u8>) -> Option<Reply>;

/// Relies on lifx_core::Message::from_raw: the decoded message depends on the
/// message type and payload alone.
#[verifier::external_body]
pub(crate) fn decode_reply(m: &RawMessage) -> (r: Result<Reply, lifx_core::Error>)
    ensures
        r matches Ok(rep) ==> decoded_reply(m.protocol_header.typ, m.payload@) == Some(rep),
        r is Err ==> decoded_reply(m.protocol_header.typ, m.payload@) is None,
{
    Ok(match Message::from_raw(m)? {
        Message::StateLabel { label } => Reply::StateLabel { label: label.to_string() },
        Message::StateLocation { location: LifxIdent(location), label, updated_at } => {
            Reply::StateLocation { location, label: label.to_string(), updated_at }
        },
        Message::StatePower { level } => Reply::StatePower { level },
        Message::StateVersion { vendor, product, .. } => Reply::StateVersion { vendor, product },
        Message::LightState { color, power, label, .. } => {
            Reply::LightState { color, power, label: label.to_string() }
        },
        _ => Reply::Other,
    })
}

/// Whether a product is multizone, by vendor and product number; none for an
/// unknown product.
pub uninterp spec fn product_multizone(vendor: u32, product: u32) -> Option<bool>;

/// Relies on lifx_core::get_product_info: its table of known products, of
/// which only the multizone flag is read.
#[verifier::external_body]
pub(crate) fn lookup_multizone(vendor: u32, product: u32) -> (r: Option<bool>)
    ensures
        r == product_multizone(vendor, product),
{
    get_product_info(vendor, product).map(|info| info.multizone)
}

proof fn lemma_le_value_pair(s: Seq<u8>)
    requires
        s.len() == 2,
    ensures
        le_value(s) == s[0] as nat + 256 * s[1] as nat,
{
    let t = s.drop_first();
    assert(t.drop_first().len() == 0);
    assert(le_value(t.drop_first()) == 0);
    assert(le_value(t) == t[0] as nat);
}

/// Whether `b` holds a frame that this library accepts.
pub fn check_frame(b: &[u8]) -> (r: bool)
    ensures
        r == frame_ok(b@),
{
    if b.len() < HEADER_SIZE {
        return false;
    }
    let size: usize = b[0] as usize + (b[1] as usize) * 256;
    let word: usize = b[2] as usize + (b[3] as usize) * 256;
    proof {
        lemma_le_value_pair(b@.subrange(0, 2));
        lemma_le_value_pair(b@.subrange(2, 4));
    }
    word % 4096 == 1024 && (word / 4096) % 2 == 1 && HEADER_SIZE <= size && size <= b.len()
}

/// Unpacks the headers of a received datagram; none where `b` is no frame
/// that this library accepts.
pub fn unpack_frame(b: &[u8]) -> (r: Option<RawMessage>)
    ensures
        r is Some <==> frame_ok(b@),
        r matches Some(m) ==> {
            &&& m.frame_addr.target as nat == frame_target(b@)
            &&& m.protocol_header.typ as nat == frame_type(b@)
            &&& m.payload@ == b@.subrange(HEADER_SIZE as int, frame_size(b@) as int)
        },
{
    if !check_frame(b) {
        return None;
    }
    match unpack_raw(b) {
        Ok(m) => Some(m),
        Err(_) => None,
    }
}

} // verus!
