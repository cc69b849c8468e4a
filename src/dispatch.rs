//! The dispatch engine: it owns the feature modules of one connection, builds
//! the table from command id to module once, routes incoming packets, forwards
//! property requests to the module of the group, and sequences the modules'
//! initialization.

use std::collections::{BTreeMap, BTreeSet};
use vstd::prelude::*;

use crate::handler::{
    command_key, key_of, keys_of, packets_view, report_view, str_eq, updates_view, DeviceHandler,
    HandlerError, PropertyUpdate,
};
use crate::packet::HuaweiSppPacket;

verus! {

broadcast use vstd::std_specs::btree::group_btree_axioms;

/// The state of the connection, as observers see it.
#[derive(Debug, Clone, Copy, PartialEq, Eq, Structural)]
pub enum ConnectionState {
    Disconnected,
    Connecting,
    Connected,
    Failed,
}

/// A notification to observers of the dispatch engine.
#[derive(Debug, Clone)]
pub enum DeviceEvent {
    /// The connection state changed.
    StateChanged(ConnectionState),
    /// The properties of a group were updated.
    PropertyChanged { group: String },
}

/// Why a property request was not carried out.
#[derive(Debug, Clone, Copy, PartialEq, Eq, Structural)]
pub enum DispatchError {
    /// No module has the requested group's name.
    NoHandler,
    /// The module of the group refused the request.
    Handler(HandlerError),
}

/// A packet delivered to a module.
pub struct Delivery {
    /// The position of the module, in registration order.
    pub index: usize,
    /// What the module made of the packet: updates of `group`; an error is
    /// to be logged, not propagated.
    pub outcome: Result<Vec<PropertyUpdate>, HandlerError>,
    /// The property group that the updates are for.
    pub group: String,
    /// The change notification of the module's group.
    pub event: DeviceEvent,
}

/// What became of an incoming packet.
pub enum Routed {
    /// Its command id is one that a module ignores: dropped silently.
    Ignored,
    /// No module consumes its command id.
    Unhandled,
    /// Delivered to the module that owns its command id.
    Delivered(Delivery),
}

/// The module that owns a command key among the first `n`: the last one
/// registered whose commands hold it.
pub open spec fn owner_upto(cmds: Seq<Seq<u16>>, n: int, k: u16) -> Option<int>
    decreases n,
{
    if n <= 0 {
        None
    } else if cmds[n - 1].contains(k) {
        Some(n - 1)
    } else {
        owner_upto(cmds, n - 1, k)
    }
}

/// The module that owns a command key: the last one registered whose
/// commands hold it.
pub open spec fn owner(cmds: Seq<Seq<u16>>, k: u16) -> Option<int> {
    owner_upto(cmds, cmds.len() as int, k)
}

/// Whether a command key is ignored by one of the first `n` modules.
pub open spec fn ignored_upto(igs: Seq<Seq<u16>>, n: int, k: u16) -> bool {
    exists|i: int| 0 <= i < n && #[trigger] igs[i].contains(k)
}

/// The first module, in registration order, that has a name.
pub open spec fn first_named(names: Seq<Seq<char>>, g: Seq<char>) -> Option<int> {
    if exists|i: int| 0 <= i < names.len() && names[i] == g {
        Some(choose|i: int| 0 <= i < names.len() && names[i] == g && forall|j: int| 0 <= j < i ==> names[j] != g)
    } else {
        None
    }
}

/// Owns the feature modules of one connection.
pub struct DeviceManager<H> {
    handlers: Vec<H>,
    command_map: BTreeMap<u16, usize>,
    ignore_set: BTreeSet<u16>,
    state: ConnectionState,
}

impl<H: DeviceHandler> DeviceManager<H> {
    /// The modules, in registration order.
    pub closed spec fn modules(&self) -> Seq<H> {
        self.handlers@
    }

    /// The command keys of each module.
    pub open spec fn command_table(&self) -> Seq<Seq<u16>> {
        self.modules().map_values(|h: H| h.command_keys())
    }

    /// The ignored keys of each module.
    pub open spec fn ignore_table(&self) -> Seq<Seq<u16>> {
        self.modules().map_values(|h: H| h.ignored_keys())
    }

    /// The names of the modules.
    pub open spec fn names(&self) -> Seq<Seq<char>> {
        self.modules().map_values(|h: H| h.name())
    }

    /// The current connection state.
    pub closed spec fn state_spec(&self) -> ConnectionState {
        self.state
    }

    /// The lookup tables agree with the modules' declarations.
    pub closed spec fn wf(&self) -> bool {
        &&& forall|k: u16| #[trigger]
            self.command_map@.contains_key(k) == (owner(self.command_table(), k) is Some)
        &&& forall|k: u16| #[trigger]
            self.command_map@.contains_key(k) ==> self.command_map@[k] as int == owner(
                self.command_table(),
                k,
            ).unwrap()
        &&& forall|k: u16| #[trigger]
            self.ignore_set@.contains(k) == ignored_upto(
                self.ignore_table(),
                self.ignore_table().len() as int,
                k,
            )
    }

    /// A dispatch engine over the given modules, disconnected.
    pub fn new(handlers: Vec<H>) -> (r: Self)
        ensures
            r.wf(),
            r.modules() == handlers@,
            r.state_spec() == ConnectionState::Disconnected,
    {
        let ghost cmds = handlers@.map_values(|h: H| h.command_keys());
        let ghost igs = handlers@.map_values(|h: H| h.ignored_keys());
        let mut command_map: BTreeMap<u16, usize> = BTreeMap::new();
        let mut ignore_set: BTreeSet<u16> = BTreeSet::new();
        let mut i: usize = 0;
        while i < handlers.len()
            invariant
                i <= handlers@.len(),
                cmds == handlers@.map_values(|h: H| h.command_keys()),
                igs == handlers@.map_values(|h: H| h.ignored_keys()),
                forall|k: u16| #[trigger]
                    command_map@.contains_key(k) == (owner_upto(cmds, i as int, k) is Some),
                forall|k: u16| #[trigger]
                    command_map@.contains_key(k) ==> command_map@[k] as int == owner_upto(
                        cmds,
                        i as int,
                        k,
                    ).unwrap(),
                forall|k: u16| #[trigger] ignore_set@.contains(k) == ignored_upto(igs, i as int, k),
            decreases handlers@.len() - i,
        {
            let cs = handlers[i].commands();
            let mut j: usize = 0;
            while j < cs.len()
                invariant
                    i < handlers@.len(),
                    j <= cs@.len(),
                    keys_of(cs@) == cmds[i as int],
                    forall|k: u16| #[trigger]
                        command_map@.contains_key(k) == (owner_upto(cmds, i as int, k) is Some
                            || keys_of(cs@).subrange(0, j as int).contains(k)),
                    forall|k: u16| #[trigger]
                        command_map@.contains_key(k) ==> command_map@[k] as int == (if keys_of(
                            cs@,
                        ).subrange(0, j as int).contains(k) {
                            i as int
                        } else {
                            owner_upto(cmds, i as int, k).unwrap()
                        }),
                decreases cs@.len() - j,
            {
                let key = command_key(cs[j]);
                command_map.insert(key, i);
                j += 1;
                proof {
                    let pre = keys_of(cs@).subrange(0, j - 1);
                    let cur = keys_of(cs@).subrange(0, j as int);
                    assert(cur == pre.push(key));
                    assert forall|k: u16| cur.contains(k) == (pre.contains(k) || k == key) by {
                        if cur.contains(k) && k != key {
                            let x = choose|x: int| 0 <= x < cur.len() && cur[x] == k;
                            assert(pre[x] == k);
                        }
                        if pre.contains(k) {
                            let x = choose|x: int| 0 <= x < pre.len() && pre[x] == k;
                            assert(cur[x] == k);
                        }
                        if k == key {
                            assert(cur[j - 1] == k);
                        }
                    }
                }
            }
            assert(keys_of(cs@).subrange(0, j as int) =~= cmds[i as int]);
            let ig = handlers[i].ignore_commands();
            let mut j: usize = 0;
            while j < ig.len()
                invariant
                    i < handlers@.len(),
                    j <= ig@.len(),
                    keys_of(ig@) == igs[i as int],
                    forall|k: u16| #[trigger]
                        ignore_set@.contains(k) == (ignored_upto(igs, i as int, k) || keys_of(
                            ig@,
                        ).subrange(0, j as int).contains(k)),
                decreases ig@.len() - j,
            {
                let key = command_key(ig[j]);
                ignore_set.insert(key);
                j += 1;
                proof {
                    let pre = keys_of(ig@).subrange(0, j - 1);
                    let cur = keys_of(ig@).subrange(0, j as int);
                    assert forall|k: u16| cur.contains(k) == (pre.contains(k) || k == key) by {
                        if cur.contains(k) && k != key {
                            let x = choose|x: int| 0 <= x < cur.len() && cur[x] == k;
                            assert(pre[x] == k);
                        }
                        if pre.contains(k) {
                            let x = choose|x: int| 0 <= x < pre.len() && pre[x] == k;
                            assert(cur[x] == k);
                        }
                        if k == key {
                            assert(cur[j - 1] == k);
                        }
                    }
                }
            }
            assert(keys_of(ig@).subrange(0, j as int) =~= igs[i as int]);
            assert forall|k: u16| ignore_set@.contains(k) == ignored_upto(igs, i + 1, k) by {
                if ignored_upto(igs, i + 1, k) && !ignored_upto(igs, i as int, k) {
                    assert(igs[i as int].contains(k));
                }
            }
            i += 1;
        }
        DeviceManager {
            handlers,
            command_map,
            ignore_set,
            state: ConnectionState::Disconnected,
        }
    }

    /// The number of modules.
    pub fn len(&self) -> (r: usize)
        ensures
            r == self.modules().len(),
    {
        self.handlers.len()
    }

    /// The current connection state.
    pub fn state(&self) -> (r: ConnectionState)
        ensures
            r == self.state_spec(),
    {
        self.state
    }

    /// Records a new connection state and gives the notification of it.
    pub fn set_state(&mut self, state: ConnectionState) -> (r: DeviceEvent)
        requires
            old(self).wf(),
        ensures
            final(self).wf(),
            final(self).modules() == old(self).modules(),
            final(self).state_spec() == state,
            r == DeviceEvent::StateChanged(state),
    {
        self.state = state;
        DeviceEvent::StateChanged(state)
    }

    /// Runs the initialize hook of module `index`: the packets it gives are
    /// to be sent in order.
    pub fn init_module(&mut self, index: usize) -> (r: Vec<HuaweiSppPacket>)
        requires
            old(self).wf(),
            index < old(self).modules().len(),
        ensures
            packets_view(r@) == old(self).modules()[index as int].init_requests(),
            final(self).wf(),
            final(self).state_spec() == old(self).state_spec(),
            final(self).names() == old(self).names(),
            final(self).modules().len() == old(self).modules().len(),
            forall|j: int|
                0 <= j < old(self).modules().len() && j != index ==> final(self).modules()[j]
                    == old(self).modules()[j],
    {
        let mut h = self.handlers.remove(index);
        let r = h.on_init();
        self.handlers.insert(index, h);
        proof { self.lemma_replaced(*old(self), index as int); }
        r
    }

    /// After one module was replaced by one of the same identity, the tables
    /// still agree.
    proof fn lemma_replaced(&self, prev: Self, index: int)
        requires
            prev.wf(),
            0 <= index < prev.modules().len(),
            self.command_map == prev.command_map,
            self.ignore_set == prev.ignore_set,
            self.modules().len() == prev.modules().len(),
            self.modules()[index].name() == prev.modules()[index].name(),
            self.modules()[index].command_keys() == prev.modules()[index].command_keys(),
            self.modules()[index].ignored_keys() == prev.modules()[index].ignored_keys(),
            forall|j: int|
                0 <= j < prev.modules().len() && j != index ==> self.modules()[j]
                    == prev.modules()[j],
        ensures
            self.wf(),
            self.command_table() == prev.command_table(),
            self.ignore_table() == prev.ignore_table(),
            self.names() == prev.names(),
    {
        assert(self.command_table() =~= prev.command_table());
        assert(self.ignore_table() =~= prev.ignore_table());
        assert(self.names() =~= prev.names());
    }

    /// Routes an incoming packet: an ignored command id is dropped with no
    /// notification; an owned one is delivered to its owner alone, with the
    /// change notification of the owner's group; any other is unhandled.
    pub fn handle_packet(&mut self, packet: &HuaweiSppPacket) -> (r: Routed)
        requires
            old(self).wf(),
        ensures
            final(self).wf(),
            final(self).state_spec() == old(self).state_spec(),
            final(self).command_table() == old(self).command_table(),
            final(self).ignore_table() == old(self).ignore_table(),
            final(self).names() == old(self).names(),
            ({
                let k = key_of(packet.command_id);
                let ignored = ignored_upto(
                    old(self).ignore_table(),
                    old(self).ignore_table().len() as int,
                    k,
                );
                match r {
                    Routed::Ignored => ignored && final(self).modules() == old(self).modules(),
                    Routed::Unhandled => !ignored && owner(old(self).command_table(), k) is None
                        && final(self).modules() == old(self).modules(),
                    Routed::Delivered(d) => {
                        &&& !ignored
                        &&& owner(old(self).command_table(), k) == Some(d.index as int)
                        &&& d.event matches DeviceEvent::PropertyChanged { group }
                        &&& group@ == old(self).names()[d.index as int]
                        &&& d.group@ == old(self).modules()[d.index as int].group()
                        &&& report_view(d.outcome) == old(self).modules()[d.index as int].packet_result(
                            *packet,
                        )
                        &&& forall|j: int|
                            0 <= j < old(self).modules().len() && j != d.index
                                ==> final(self).modules()[j] == old(self).modules()[j]
                    },
                }
            }),
    {
        let k = command_key(packet.command_id);
        if self.ignore_set.contains(&k) {
            return Routed::Ignored;
        }
        match self.command_map.get(&k) {
            Some(idx) => {
                let idx = *idx;
                proof {
                    let o = owner(self.command_table(), k).unwrap();
                    lemma_owner_in_range(self.command_table(), self.command_table().len() as int, k);
                }
                let mut h = self.handlers.remove(idx);
                let outcome = h.on_packet(packet);
                let name = h.handler_id();
                let props_group = h.property_group();
                self.handlers.insert(idx, h);
                proof { self.lemma_replaced(*old(self), idx as int); }
                let group: String = name.to_owned();
                Routed::Delivered(
                    Delivery {
                        index: idx,
                        outcome,
                        group: props_group.to_owned(),
                        event: DeviceEvent::PropertyChanged { group },
                    },
                )
            },
            None => Routed::Unhandled,
        }
    }

    /// Forwards a property request to the first module named after the
    /// group; on success gives the packets to send, the updates of the group
    /// to make at once, and the change notification of the group.
    pub fn set_property(&mut self, group: &str, prop: &str, value: &str) -> (r: Result<
        (Vec<HuaweiSppPacket>, Vec<PropertyUpdate>, DeviceEvent),
        DispatchError,
    >)
        requires
            old(self).wf(),
        ensures
            final(self).wf(),
            final(self).state_spec() == old(self).state_spec(),
            final(self).names() == old(self).names(),
            final(self).modules().len() == old(self).modules().len(),
            (r == Err::<(Vec<HuaweiSppPacket>, Vec<PropertyUpdate>, DeviceEvent), _>(
                DispatchError::NoHandler,
            )) <==> (
            first_named(old(self).names(), group@) is None),
            first_named(old(self).names(), group@) is None ==> final(self).modules() == old(
                self,
            ).modules(),
            forall|i: int|
                first_named(old(self).names(), group@) == Some(i) ==> {
                    &&& forall|j: int|
                        0 <= j < old(self).modules().len() && j != i ==> final(self).modules()[j]
                            == old(self).modules()[j]
                    &&& match old(self).modules()[i].set_result(group, prop, value) {
                        Ok((p, u)) => r matches Ok((pk, up, ev)) && packets_view(pk@) == p
                            && updates_view(up@) == u && (ev matches DeviceEvent::PropertyChanged {
                            group: g,
                        } && g@ == group@),
                        Err(e) => r == Err::<
                            (Vec<HuaweiSppPacket>, Vec<PropertyUpdate>, DeviceEvent),
                            _,
                        >(DispatchError::Handler(e)),
                    }
                },
    {
        let mut i: usize = 0;
        while i < self.handlers.len()
            invariant
                self == old(self),
                self.wf(),
                i <= self.modules().len(),
                forall|j: int| 0 <= j < i ==> self.names()[j] != group@,
            decreases self.modules().len() - i,
        {
            let id = self.handlers[i].handler_id();
            if str_eq(id, group) {
                proof {
                    let names = self.names();
                    assert(names[i as int] == group@);
                    let f = first_named(names, group@).unwrap();
                    assert(f == i) by {
                        if f < i {
                            assert(names[f] != group@);
                        } else if f > i {
                            assert(names[i as int] != group@);
                        }
                    }
                }
                let mut h = self.handlers.remove(i);
                let res = h.set_property(group, prop, value);
                self.handlers.insert(i, h);
                proof { self.lemma_replaced(*old(self), i as int); }
                return match res {
                    Ok((pkts, updates)) => {
                        let g: String = group.to_owned();
                        Ok((pkts, updates, DeviceEvent::PropertyChanged { group: g }))
                    },
                    Err(e) => Err(DispatchError::Handler(e)),
                };
            }
            i += 1;
        }
        Err(DispatchError::NoHandler)
    }
}

proof fn lemma_owner_in_range(cmds: Seq<Seq<u16>>, n: int, k: u16)
    requires
        0 <= n <= cmds.len(),
    ensures
        owner_upto(cmds, n, k) matches Some(i) ==> 0 <= i < n && cmds[i].contains(k),
        owner_upto(cmds, n, k) is None ==> forall|i: int| 0 <= i < n ==> !cmds[i].contains(k),
    decreases n,
{
    if n > 0 {
        lemma_owner_in_range(cmds, n - 1, k);
    }
}

/// A command key declared by exactly one module is owned by that module, so
/// a packet that carries it (and that no module ignores) is delivered to
/// that module and to no other.
pub proof fn lemma_single_owner(cmds: Seq<Seq<u16>>, k: u16, i: int)
    requires
        0 <= i < cmds.len(),
        cmds[i].contains(k),
        forall|j: int| 0 <= j < cmds.len() && j != i ==> !(#[trigger] cmds[j].contains(k)),
    ensures
        owner(cmds, k) == Some(i),
{
    lemma_owner_in_range(cmds, cmds.len() as int, k);
    assert(owner(cmds, k) is Some) by {
        if owner(cmds, k) is None {
            assert(!cmds[i].contains(k));
        }
    }
}

} // verus!
