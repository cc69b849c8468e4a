//! The contract between the dispatch engine and a feature module.

use vstd::prelude::*;

use crate::commands::CommandId;
use crate::packet::HuaweiSppPacket;

verus! {

/// The 16-bit key of a command id, service byte first.
pub open spec fn key_of(c: CommandId) -> u16 {
    (c[0] as int * 256 + c[1] as int) as u16
}

/// The 16-bit key of a command id.
pub fn command_key(c: CommandId) -> (r: u16)
    ensures
        r == key_of(c),
{
    (c[0] as u16) * 256 + c[1] as u16
}

/// The keys of a list of command ids.
pub open spec fn keys_of(s: Seq<CommandId>) -> Seq<u16> {
    s.map_values(|c: CommandId| key_of(c))
}

/// Why a feature module refused a request.
#[derive(Debug, Clone, Copy, PartialEq, Eq, Structural)]
pub enum HandlerError {
    /// The value is not one that the property takes.
    InvalidValue,
}

/// A property update of the module's group: a name and its new value.
pub type PropertyUpdate = (String, String);

/// What a packet carries: its command id and its parameters.
pub type PacketView = (Seq<u8>, Map<u8, Seq<u8>>);

pub open spec fn packet_view(p: HuaweiSppPacket) -> PacketView {
    (p.command_id@, p.params())
}

pub open spec fn packets_view(s: Seq<HuaweiSppPacket>) -> Seq<PacketView> {
    s.map_values(|p: HuaweiSppPacket| packet_view(p))
}

/// The value of a packet's parameter, or no bytes when it is absent.
pub open spec fn packet_param(p: &HuaweiSppPacket, t: u8) -> Seq<u8> {
    if p.params().contains_key(t) {
        p.params()[t]
    } else {
        Seq::empty()
    }
}

/// The views of property updates.
pub open spec fn updates_view(v: Seq<PropertyUpdate>) -> Seq<(Seq<char>, Seq<char>)> {
    v.map_values(|p: PropertyUpdate| (p.0@, p.1@))
}

/// What a module made of a packet.
pub open spec fn report_view(r: Result<Vec<PropertyUpdate>, HandlerError>) -> Result<
    Seq<(Seq<char>, Seq<char>)>,
    HandlerError,
> {
    match r {
        Ok(u) => Ok(updates_view(u@)),
        Err(e) => Err(e),
    }
}

/// What a module made of a property request.
pub open spec fn request_view(r: Result<(Vec<HuaweiSppPacket>, Vec<PropertyUpdate>), HandlerError>) -> Result<
    (Seq<PacketView>, Seq<(Seq<char>, Seq<char>)>),
    HandlerError,
> {
    match r {
        Ok((p, u)) => Ok((packets_view(p@), updates_view(u@))),
        Err(e) => Err(e),
    }
}

/// The views of a few packets, element by element.
pub(crate) proof fn lemma_packets_view(p: Seq<HuaweiSppPacket>)
    ensures
        p.len() == 0 ==> packets_view(p) == Seq::<PacketView>::empty(),
        p.len() == 1 ==> packets_view(p) == seq![packet_view(p[0])],
        p.len() == 2 ==> packets_view(p) == seq![packet_view(p[0]), packet_view(p[1])],
{
    if p.len() == 0 {
        assert(packets_view(p) =~= Seq::<PacketView>::empty());
    }
    if p.len() == 1 {
        assert(packets_view(p) =~= seq![packet_view(p[0])]);
    }
    if p.len() == 2 {
        assert(packets_view(p) =~= seq![packet_view(p[0]), packet_view(p[1])]);
    }
}

/// A feature module: a unit of device capability that consumes some command
/// ids, asks for the device's state when the link comes up, turns incoming
/// packets into property updates of its group, and turns property requests
/// into outgoing packets. Its identity never changes.
pub trait DeviceHandler {
    /// The name of the module; property requests for the group of this name
    /// go to it.
    spec fn name(&self) -> Seq<char>;

    /// The property group that the module's reports update.
    spec fn group(&self) -> Seq<char>;

    /// The keys of the command ids the module consumes.
    spec fn command_keys(&self) -> Seq<u16>;

    /// The keys of the command ids that are dropped silently.
    spec fn ignored_keys(&self) -> Seq<u16>;

    /// The packets that ask the device for the module's initial state.
    spec fn init_requests(&self) -> Seq<PacketView>;

    /// The property updates of the module's group that a packet brings, or
    /// why the module could not read it.
    spec fn packet_result(&self, packet: HuaweiSppPacket) -> Result<
        Seq<(Seq<char>, Seq<char>)>,
        HandlerError,
    >;

    /// The packets that carry out a property request of a group and the
    /// updates of that group to make at once, or why the request is refused.
    spec fn set_result(&self, group: &str, prop: &str, value: &str) -> Result<
        (Seq<PacketView>, Seq<(Seq<char>, Seq<char>)>),
        HandlerError,
    >;

    fn handler_id(&self) -> (r: &'static str)
        ensures
            r@ == self.name(),
    ;

    fn property_group(&self) -> (r: &'static str)
        ensures
            r@ == self.group(),
    ;

    fn commands(&self) -> (r: Vec<CommandId>)
        ensures
            keys_of(r@) == self.command_keys(),
    ;

    fn ignore_commands(&self) -> (r: Vec<CommandId>)
        ensures
            keys_of(r@) == self.ignored_keys(),
    ;

    /// The packets that ask the device for the module's initial state.
    fn on_init(&mut self) -> (r: Vec<HuaweiSppPacket>)
        ensures
            packets_view(r@) == old(self).init_requests(),
            final(self).name() == old(self).name(),
            final(self).group() == old(self).group(),
            final(self).command_keys() == old(self).command_keys(),
            final(self).ignored_keys() == old(self).ignored_keys(),
    ;

    /// The property updates that an incoming packet brings.
    fn on_packet(&mut self, packet: &HuaweiSppPacket) -> (r: Result<Vec<PropertyUpdate>, HandlerError>)
        ensures
            report_view(r) == old(self).packet_result(*packet),
            final(self).name() == old(self).name(),
            final(self).group() == old(self).group(),
            final(self).command_keys() == old(self).command_keys(),
            final(self).ignored_keys() == old(self).ignored_keys(),
    ;

    /// The packets that carry out a property request of a group, and the
    /// updates of that group to make at once.
    fn set_property(&mut self, group: &str, prop: &str, value: &str) -> (r: Result<
        (Vec<HuaweiSppPacket>, Vec<PropertyUpdate>),
        HandlerError,
    >)
        ensures
            request_view(r) == old(self).set_result(group, prop, value),
            final(self).name() == old(self).name(),
            final(self).group() == old(self).group(),
            final(self).command_keys() == old(self).command_keys(),
            final(self).ignored_keys() == old(self).ignored_keys(),
    ;
}

/// Whether two strings hold the same characters.
pub fn str_eq(a: &str, b: &str) -> (r: bool)
    ensures
        r == (a@ == b@),
{
    let x: String = a.to_owned();
    let y: String = b.to_owned();
    x == y
}

} // verus!
