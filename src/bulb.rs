//! The model of one device: its address, its identity and one refreshable
//! field per attribute.
use crate::codec::{encode_request, request_packet, Request};
use crate::refreshable_data::{Refresh, RefreshableData, Shape, Shaped};
use lifx_core::{BuildOptions, HSBK};
use vstd::prelude::*;

verus! {

/// Source identifier that this client puts in every request.
pub const CLIENT_IDENTIFIER: u32 = 0x6c69_6678;

/// Maximum age of power and colour, in milliseconds.
pub const SHORT_MAX_AGE: u64 = 5_000;

/// Maximum age of the slowly changing attributes, in milliseconds.
pub const LONG_MAX_AGE: u64 = 300_000;

/// Highest zone index asked for in a zone colour request.
pub const LAST_ZONE: u8 = 255;

/// The colour of a device: one colour for a single-zone device, one per zone
/// for a multizone device.
#[derive(Clone, Debug)]
pub enum Color {
    Single(Option<HSBK>),
    Multi(Vec<Option<HSBK>>),
}

/// An IP address: IPv4 as a 32-bit number, IPv6 as a 128-bit number.
#[derive(Clone, Copy, Debug, PartialEq, Eq, Structural)]
pub enum IpAddress {
    V4(u32),
    V6(u128),
}

/// The network address that a device sends from.
#[derive(Clone, Copy, Debug, PartialEq, Eq, Structural)]
pub struct SocketAddress {
    pub ip: IpAddress,
    pub port: u16,
}

/// A UTC time: seconds since 1970 and the nanoseconds within the second.
#[derive(Clone, Copy, Debug, PartialEq, Eq, Structural)]
pub struct UtcTime {
    pub secs: i64,
    pub nanos: u32,
}

/// Where a device has been placed: the location's identity and name, and when
/// the device last had its location set.
#[derive(Clone, Debug)]
pub struct Location {
    pub id: [u8; 16],
    pub name: String,
    pub updated_at: UtcTime,
}

impl Location {
    pub fn new(id: [u8; 16], name: String, updated_at: UtcTime) -> (r: Self)
        ensures
            r == (Location { id, name, updated_at }),
    {
        Location { id, name, updated_at }
    }
}

impl Shaped for Color {
    open spec fn shape_spec(&self) -> Shape {
        match self {
            Color::Single(_) => Shape::SingleZone,
            Color::Multi(_) => Shape::MultiZone,
        }
    }

    fn shape(&self) -> (s: Shape) {
        match self {
            Color::Single(_) => Shape::SingleZone,
            Color::Multi(_) => Shape::MultiZone,
        }
    }
}

impl Shaped for String {
    open spec fn shape_spec(&self) -> Shape {
        Shape::Plain
    }

    fn shape(&self) -> (s: Shape) {
        Shape::Plain
    }
}

impl Shaped for u16 {
    open spec fn shape_spec(&self) -> Shape {
        Shape::Plain
    }

    fn shape(&self) -> (s: Shape) {
        Shape::Plain
    }
}

impl Shaped for u32 {
    open spec fn shape_spec(&self) -> Shape {
        Shape::Plain
    }

    fn shape(&self) -> (s: Shape) {
        Shape::Plain
    }
}

impl Shaped for (u32, u32) {
    open spec fn shape_spec(&self) -> Shape {
        Shape::Plain
    }

    fn shape(&self) -> (s: Shape) {
        Shape::Plain
    }
}

impl Shaped for Location {
    open spec fn shape_spec(&self) -> Shape {
        Shape::Plain
    }

    fn shape(&self) -> (s: Shape) {
        Shape::Plain
    }
}

/// The colour policy: until the device's model is known its colour shape is
/// not, so the version is asked for; then the single colour or the zones.
pub open spec fn color_refresh() -> Refresh {
    Refresh::ByShape {
        absent: Some(Request::GetVersion),
        plain: None,
        single_zone: Some(Request::LightGet),
        multi_zone: Some(Request::GetColorZones { start_index: 0, end_index: LAST_ZONE }),
    }
}

/// An empty field with the given maximum age and policy, made at `now`.
pub open spec fn empty_field<T>(max_age: u64, refresh: Refresh, now: u64) -> RefreshableData<T> {
    RefreshableData { data: None, max_age: Some(max_age), last_updated: now, refresh }
}

/// The time a device reports in nanoseconds since 1970, as seconds and
/// nanoseconds.
pub open spec fn utc_of_nanos(n: u64) -> UtcTime {
    UtcTime { secs: (n / 1_000_000_000) as i64, nanos: (n % 1_000_000_000) as u32 }
}

pub fn utc_from_nanos(n: u64) -> (r: UtcTime)
    ensures
        r == utc_of_nanos(n),
{
    UtcTime { secs: (n / 1_000_000_000) as i64, nanos: (n % 1_000_000_000) as u32 }
}

/// Appends the request that a check gave, if any.
pub open spec fn push_some(s: Seq<Request>, r: Option<Request>) -> Seq<Request> {
    match r {
        Some(req) => s.push(req),
        None => s,
    }
}

#[derive(Debug)]
pub struct Bulb {
    pub addr: SocketAddress,
    pub target: u64,
    pub name: RefreshableData<String>,
    pub power: RefreshableData<u16>,
    pub color: RefreshableData<Color>,
    pub model: RefreshableData<(u32, u32)>,
    pub location: RefreshableData<Location>,
    pub host_firmware: RefreshableData<u32>,
    pub wifi_firmware: RefreshableData<u32>,
}

impl Bulb {
    /// A device seen for the first time, at `now`: every field empty.
    pub open spec fn fresh(addr: SocketAddress, target: u64, now: u64) -> Bulb {
        Bulb {
            addr,
            target,
            name: empty_field(LONG_MAX_AGE, Refresh::Fixed(Request::GetLabel), now),
            power: empty_field(SHORT_MAX_AGE, Refresh::Fixed(Request::GetPower), now),
            color: empty_field(SHORT_MAX_AGE, color_refresh(), now),
            model: empty_field(LONG_MAX_AGE, Refresh::Fixed(Request::GetVersion), now),
            location: empty_field(LONG_MAX_AGE, Refresh::Fixed(Request::GetLocation), now),
            host_firmware: empty_field(LONG_MAX_AGE, Refresh::Fixed(Request::GetHostFirmware), now),
            wifi_firmware: empty_field(LONG_MAX_AGE, Refresh::Fixed(Request::GetWifiFirmware), now),
        }
    }

    /// The maximum ages and refresh policies that `new` gives each field.
    pub open spec fn wf(self) -> bool {
        &&& self.name.max_age == Some(LONG_MAX_AGE)
        &&& self.name.refresh == Refresh::Fixed(Request::GetLabel)
        &&& self.power.max_age == Some(SHORT_MAX_AGE)
        &&& self.power.refresh == Refresh::Fixed(Request::GetPower)
        &&& self.color.max_age == Some(SHORT_MAX_AGE)
        &&& self.color.refresh == color_refresh()
        &&& self.model.max_age == Some(LONG_MAX_AGE)
        &&& self.model.refresh == Refresh::Fixed(Request::GetVersion)
        &&& self.location.max_age == Some(LONG_MAX_AGE)
        &&& self.location.refresh == Refresh::Fixed(Request::GetLocation)
        &&& self.host_firmware.max_age == Some(LONG_MAX_AGE)
        &&& self.host_firmware.refresh == Refresh::Fixed(Request::GetHostFirmware)
        &&& self.wifi_firmware.max_age == Some(LONG_MAX_AGE)
        &&& self.wifi_firmware.refresh == Refresh::Fixed(Request::GetWifiFirmware)
    }

    /// Whether the fields have the ages and policies that `new` gives them.
    pub fn is_wf(&self) -> (r: bool)
        ensures
            r == self.wf(),
    {
        self.name.max_age == Some(LONG_MAX_AGE) && self.name.refresh == Refresh::Fixed(
            Request::GetLabel,
        ) && self.power.max_age == Some(SHORT_MAX_AGE) && self.power.refresh == Refresh::Fixed(
            Request::GetPower,
        ) && self.color.max_age == Some(SHORT_MAX_AGE) && self.color.refresh == Refresh::ByShape {
            absent: Some(Request::GetVersion),
            plain: None,
            single_zone: Some(Request::LightGet),
            multi_zone: Some(Request::GetColorZones { start_index: 0, end_index: LAST_ZONE }),
        } && self.model.max_age == Some(LONG_MAX_AGE) && self.model.refresh == Refresh::Fixed(
            Request::GetVersion,
        ) && self.location.max_age == Some(LONG_MAX_AGE) && self.location.refresh
            == Refresh::Fixed(Request::GetLocation) && self.host_firmware.max_age == Some(
            LONG_MAX_AGE,
        ) && self.host_firmware.refresh == Refresh::Fixed(Request::GetHostFirmware)
            && self.wifi_firmware.max_age == Some(LONG_MAX_AGE) && self.wifi_firmware.refresh
            == Refresh::Fixed(Request::GetWifiFirmware)
    }

    /// The requests of one tick at `now`, in the order name, power, colour,
    /// model, location, host firmware, wifi firmware.
    pub open spec fn tick_requests(self, now: u64) -> Seq<Request> {
        push_some(
            push_some(
                push_some(
                    push_some(
                        push_some(
                            push_some(
                                push_some(Seq::empty(), self.name.check_result(now)),
                                self.power.check_result(now),
                            ),
                            self.color.check_result(now),
                        ),
                        self.model.check_result(now),
                    ),
                    self.location.check_result(now),
                ),
                self.host_firmware.check_result(now),
            ),
            self.wifi_firmware.check_result(now),
        )
    }

    /// The device after one tick at `now`.
    pub open spec fn ticked(self, now: u64) -> Bulb {
        Bulb {
            name: self.name.checked(now),
            power: self.power.checked(now),
            color: self.color.checked(now),
            model: self.model.checked(now),
            location: self.location.checked(now),
            host_firmware: self.host_firmware.checked(now),
            wifi_firmware: self.wifi_firmware.checked(now),
            ..self
        }
    }

    /// The options that requests to this device are built with.
    pub open spec fn build_options_spec(self) -> BuildOptions {
        BuildOptions {
            target: Some(self.target),
            ack_required: false,
            res_required: true,
            sequence: 0,
            source: CLIENT_IDENTIFIER,
        }
    }

    pub fn new(addr: SocketAddress, target: u64, now: u64) -> (r: Self)
        ensures
            r == Bulb::fresh(addr, target, now),
            r.wf(),
    {
        Bulb {
            addr,
            target,
            name: RefreshableData::with_config(LONG_MAX_AGE, Request::GetLabel, now),
            power: RefreshableData::with_config(SHORT_MAX_AGE, Request::GetPower, now),
            color: RefreshableData::with_dyn_config(
                SHORT_MAX_AGE,
                Refresh::ByShape {
                    absent: Some(Request::GetVersion),
                    plain: None,
                    single_zone: Some(Request::LightGet),
                    multi_zone: Some(Request::GetColorZones { start_index: 0, end_index: LAST_ZONE }),
                },
                now,
            ),
            model: RefreshableData::with_config(LONG_MAX_AGE, Request::GetVersion, now),
            location: RefreshableData::with_config(LONG_MAX_AGE, Request::GetLocation, now),
            host_firmware: RefreshableData::with_config(LONG_MAX_AGE, Request::GetHostFirmware, now),
            wifi_firmware: RefreshableData::with_config(LONG_MAX_AGE, Request::GetWifiFirmware, now),
        }
    }

    /// The single-zone colour, where the colour is known to be one.
    pub open spec fn color_single_spec(self) -> Option<HSBK> {
        match self.color.data {
            Some(Color::Single(c)) => c,
            _ => None,
        }
    }

    /// The device after the version reply `(vendor, product)` at `now`, where
    /// `multizone` says whether that product is multizone (none: an unknown
    /// product). A known product seeds the colour with its shape.
    pub open spec fn version_applied(
        self,
        new: Bulb,
        vendor: u32,
        product: u32,
        multizone: Option<bool>,
        now: u64,
    ) -> bool {
        &&& new.model == self.model.updated((vendor, product), now)
        &&& match multizone {
            Some(true) => {
                &&& new.color.data matches Some(Color::Multi(zones))
                &&& zones@.len() == 0
                &&& new.color.last_updated == now
                &&& new.color.max_age == self.color.max_age
                &&& new.color.refresh == self.color.refresh
            },
            Some(false) => new.color == self.color.updated(Color::Single(None), now),
            None => new.color == self.color,
        }
        &&& new.addr == self.addr
        &&& new.target == self.target
        &&& new.name == self.name
        &&& new.power == self.power
        &&& new.location == self.location
        &&& new.host_firmware == self.host_firmware
        &&& new.wifi_firmware == self.wifi_firmware
    }

    /// Folds a version reply into the model; `multizone` is what is known of
    /// the product's zones.
    pub fn apply_version(&mut self, vendor: u32, product: u32, multizone: Option<bool>, now: u64)
        ensures
            old(self).version_applied(*final(self), vendor, product, multizone, now),
            old(self).wf() ==> final(self).wf(),
    {
        self.model.update((vendor, product), now);
        match multizone {
            Some(true) => self.color.update(Color::Multi(Vec::new()), now),
            Some(false) => self.color.update(Color::Single(None), now),
            None => {},
        }
    }

    pub fn build_options(&self) -> (r: BuildOptions)
        ensures
            r == self.build_options_spec(),
    {
        BuildOptions {
            target: Some(self.target),
            ack_required: false,
            res_required: true,
            sequence: 0,
            source: CLIENT_IDENTIFIER,
        }
    }

    /// Checks every field at `now` and encodes a request for each stale one,
    /// addressed to this device and asking for a reply: one datagram per
    /// request, in the order of the requests.
    pub fn check(&mut self, now: u64) -> (r: Vec<Result<Vec<u8>, lifx_core::Error>>)
        ensures
            *final(self) == old(self).ticked(now),
            old(self).wf() ==> final(self).wf(),
            r.len() == old(self).tick_requests(now).len(),
            forall|i: int|
                0 <= i < r.len() ==> (#[trigger] r[i] matches Ok(b) && b@ == request_packet(
                    old(self).build_options_spec(),
                    old(self).tick_requests(now)[i],
                )),
    {
        let reqs = self.evaluate(now);
        let opts = self.build_options();
        let mut out: Vec<Result<Vec<u8>, lifx_core::Error>> = Vec::new();
        let mut i: usize = 0;
        while i < reqs.len()
            invariant
                i <= reqs.len(),
                out.len() == i,
                forall|j: int|
                    0 <= j < i ==> (#[trigger] out[j] matches Ok(b) && b@ == request_packet(
                        opts,
                        reqs[j],
                    )),
            decreases reqs.len() - i,
        {
            out.push(encode_request(&opts, reqs[i]));
            i += 1;
        }
        out
    }

    pub fn name(&self) -> (r: Option<&String>)
        ensures
            r is Some <==> self.name.data is Some,
            r matches Some(v) ==> *v == self.name.data->0,
    {
        self.name.as_ref()
    }

    /// Renaming a device is not supported: this does nothing.
    pub fn set_name(&self) {
    }

    pub fn power(&self) -> (r: Option<&u16>)
        ensures
            r is Some <==> self.power.data is Some,
            r matches Some(v) ==> *v == self.power.data->0,
    {
        self.power.as_ref()
    }

    pub fn color(&self) -> (r: Option<&Color>)
        ensures
            r is Some <==> self.color.data is Some,
            r matches Some(v) ==> *v == self.color.data->0,
    {
        self.color.as_ref()
    }

    /// The colour of a single-zone device; none while unknown or where the
    /// device is multizone.
    pub fn color_single(&self) -> (r: Option<&HSBK>)
        ensures
            r is Some <==> self.color_single_spec() is Some,
            r matches Some(c) ==> *c == self.color_single_spec()->0,
    {
        match &self.color.data {
            Some(Color::Single(Some(c))) => Some(c),
            _ => None,
        }
    }

    /// The zone colours of a multizone device; none while unknown or where the
    /// device has a single zone.
    pub fn color_multi(&self) -> (r: Option<&Vec<Option<HSBK>>>)
        ensures
            r is Some <==> self.color.data matches Some(Color::Multi(_)),
            r matches Some(v) ==> self.color.data == Some(Color::Multi(*v)),
    {
        match &self.color.data {
            Some(Color::Multi(zones)) => Some(zones),
            _ => None,
        }
    }

    /// Checks every field at `now` and gives the requests of the stale ones.
    pub fn evaluate(&mut self, now: u64) -> (r: Vec<Request>)
        ensures
            r@ == old(self).tick_requests(now),
            *final(self) == old(self).ticked(now),
            old(self).wf() ==> final(self).wf(),
    {
        let mut r: Vec<Request> = Vec::new();
        if let Some(req) = self.name.check(now) {
            r.push(req);
        }
        if let Some(req) = self.power.check(now) {
            r.push(req);
        }
        if let Some(req) = self.color.check(now) {
            r.push(req);
        }
        if let Some(req) = self.model.check(now) {
            r.push(req);
        }
        if let Some(req) = self.location.check(now) {
            r.push(req);
        }
        if let Some(req) = self.host_firmware.check(now) {
            r.push(req);
        }
        if let Some(req) = self.wifi_firmware.check(now) {
            r.push(req);
        }
        r
    }
}

/// On a device whose fields are as `new` makes them, a stale colour asks for
/// the version while its shape is unknown, for the light state of a
/// single-zone device, and for zones 0 to 255 of a multizone device.
pub proof fn lemma_color_request(b: Bulb, now: u64)
    requires
        b.wf(),
        b.color.is_stale(now),
    ensures
        b.color.data is None ==> b.color.check_result(now) == Some(Request::GetVersion),
        b.color.data matches Some(Color::Single(_)) ==> b.color.check_result(now) == Some(
            Request::LightGet,
        ),
        b.color.data matches Some(Color::Multi(_)) ==> b.color.check_result(now) == Some(
            Request::GetColorZones { start_index: 0, end_index: LAST_ZONE },
        ),
{
}

} // verus!
