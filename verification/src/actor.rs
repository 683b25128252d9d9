//! Robot actor.
//!
//! The top-level per-robot task owns the static descriptor, up to two link
//! states (one per hardware link kind), and the update broadcaster. It
//! routes external requests to the matching link supervisor and turns
//! supervisor terminations into connectivity-down updates. The actor runs
//! until its mailbox closes; none of its decisions can fail it.
//!
//! Supervisor tasks are identified here by a channel generation: every
//! spawned supervisor receives a fresh one, so that replacing an
//! association names exactly which old task must be dropped and which new
//! one runs.

use vstd::prelude::*;

use crate::types::{Descriptor, Error, FernbedienungAction, LinkKind, Update, XbeeAction};

verus! {

/// The association state of one hardware link.
#[derive(Clone, Copy, Debug, PartialEq, Eq, Structural)]
pub enum LinkState {
    /// No supervisor runs for this link kind.
    Unassociated,
    /// One supervisor runs: the address of the associated device and the
    /// channel generation of the supervisor's command channel.
    Associated { addr: u32, channel: u64 },
}

/// What an association request obliges the caller to do.
#[derive(Debug, PartialEq)]
pub struct AssociateOutcome {
    /// The channel generation of the supervisor that lost its slot and
    /// must be dropped, if one was running.
    pub cancelled: Option<u64>,
    /// The channel generation under which the new supervisor must be
    /// spawned.
    pub spawned: u64,
    /// The connectivity-up update to push to the broadcaster.
    pub announce: Update,
}

/// Where a command for a link goes.
#[derive(Clone, Copy, Debug, PartialEq, Eq, Structural)]
pub enum Routing {
    /// Forward the command, with its reply slot, to the supervisor behind
    /// this channel generation.
    Forward { channel: u64 },
    /// Answer the reply slot immediately with this error; nothing is
    /// forwarded and no network operation is attempted.
    Refuse(Error),
}

/// The state of one robot actor.
#[derive(Clone, Debug, PartialEq)]
pub struct RobotActor {
    /// Immutable per-robot metadata.
    pub descriptor: Descriptor,
    /// Association state of the radio link.
    pub radio: LinkState,
    /// Association state of the companion link.
    pub companion: LinkState,
    /// Channel generation for the next spawned supervisor; never reused.
    pub next_channel: u64,
}

/// The link state the actor holds for a kind.
pub open spec fn spec_link(a: RobotActor, kind: LinkKind) -> LinkState {
    match kind {
        LinkKind::Radio => a.radio,
        LinkKind::Companion => a.companion,
    }
}

/// The channel generations of the supervisors that are live for a kind.
/// The actor keeps at most one slot per kind, so this set never holds more
/// than one element.
pub open spec fn spec_live_channels(a: RobotActor, kind: LinkKind) -> Set<u64> {
    match spec_link(a, kind) {
        LinkState::Unassociated => Set::empty(),
        LinkState::Associated { channel, .. } => Set::empty().insert(channel),
    }
}

/// The connectivity-up update announcing an association for a kind.
pub open spec fn spec_connected_update(kind: LinkKind, addr: u32) -> Update {
    match kind {
        LinkKind::Radio => Update::XbeeConnected(addr),
        LinkKind::Companion => Update::FernbedienungConnected(addr),
    }
}

/// The connectivity state a new subscriber must be brought up to: one
/// connectivity-up update per associated link kind, radio first.
pub open spec fn spec_connectivity_replay(a: RobotActor) -> Seq<Update> {
    let radio_part = match a.radio {
        LinkState::Associated { addr, .. } => seq![Update::XbeeConnected(addr)],
        LinkState::Unassociated => Seq::empty(),
    };
    let companion_part = match a.companion {
        LinkState::Associated { addr, .. } => seq![Update::FernbedienungConnected(addr)],
        LinkState::Unassociated => Seq::empty(),
    };
    radio_part + companion_part
}

impl RobotActor {
    /// A fresh actor: both links unassociated.
    pub fn new(descriptor: Descriptor) -> (a: RobotActor)
        ensures
            a.descriptor == descriptor,
            a.radio == LinkState::Unassociated,
            a.companion == LinkState::Unassociated,
            a.next_channel == 1,
    {
        RobotActor {
            descriptor,
            radio: LinkState::Unassociated,
            companion: LinkState::Unassociated,
            next_channel: 1,
        }
    }

    /// Associates a device with a link kind. Any supervisor already running
    /// for that kind loses its slot and must be dropped by the caller, so
    /// that exactly one supervisor is live for the kind afterwards; the
    /// new supervisor's channel generation is recorded together with the
    /// device's address, and a connectivity-up update announces the
    /// association. The other link kind is untouched.
    pub fn associate(&mut self, kind: LinkKind, addr: u32) -> (out: AssociateOutcome)
        requires
            old(self).next_channel < u64::MAX,
        ensures
            spec_link(*final(self), kind) == (LinkState::Associated {
                addr,
                channel: old(self).next_channel,
            }),
            spec_link(*final(self), spec_other_kind(kind)) == spec_link(
                *old(self),
                spec_other_kind(kind),
            ),
            out.spawned == old(self).next_channel,
            out.cancelled == (match spec_link(*old(self), kind) {
                LinkState::Associated { channel, .. } => Some(channel),
                LinkState::Unassociated => None::<u64>,
            }),
            out.announce == spec_connected_update(kind, addr),
            final(self).next_channel == old(self).next_channel + 1,
            final(self).descriptor == old(self).descriptor,
            spec_live_channels(*final(self), kind) == Set::empty().insert(out.spawned),
    {
        let channel = self.next_channel;
        self.next_channel = self.next_channel + 1;
        let cancelled = match kind {
            LinkKind::Radio => {
                let prev = match self.radio {
                    LinkState::Associated { channel: c, .. } => Some(c),
                    LinkState::Unassociated => None,
                };
                self.radio = LinkState::Associated { addr, channel };
                prev
            },
            LinkKind::Companion => {
                let prev = match self.companion {
                    LinkState::Associated { channel: c, .. } => Some(c),
                    LinkState::Unassociated => None,
                };
                self.companion = LinkState::Associated { addr, channel };
                prev
            },
        };
        let announce = match kind {
            LinkKind::Radio => Update::XbeeConnected(addr),
            LinkKind::Companion => Update::FernbedienungConnected(addr),
        };
        AssociateOutcome { cancelled, spawned: channel, announce }
    }

    /// Routes a command for the radio link: forwarded to the radio
    /// supervisor when one is associated, else refused at once with a
    /// routing error, without any network operation.
    pub fn execute_xbee(&self, action: &XbeeAction) -> (r: Routing)
        ensures
            r == spec_route(self.radio),
    {
        match self.radio {
            LinkState::Associated { channel, .. } => Routing::Forward { channel },
            LinkState::Unassociated => Routing::Refuse(Error::NotAssociated),
        }
    }

    /// Routes a command for the companion link: forwarded to the companion
    /// supervisor when one is associated, else refused at once with a
    /// routing error, without any network operation.
    pub fn execute_fernbedienung(&self, action: &FernbedienungAction) -> (r: Routing)
        ensures
            r == spec_route(self.companion),
    {
        match self.companion {
            LinkState::Associated { channel, .. } => Routing::Forward { channel },
            LinkState::Unassociated => Routing::Refuse(Error::NotAssociated),
        }
    }

    /// Routes an experiment-software upload: a specialized execute against
    /// the companion link, refused with a routing error when that link is
    /// unassociated.
    pub fn upload_experiment(&self) -> (r: Routing)
        ensures
            r == spec_route(self.companion),
    {
        match self.companion {
            LinkState::Associated { channel, .. } => Routing::Forward { channel },
            LinkState::Unassociated => Routing::Refuse(Error::NotAssociated),
        }
    }

    /// Answers a request to start the staged experiment. Running an
    /// experiment is an extension point this actor does not offer yet; the
    /// request is answered with an explicit error rather than left
    /// unanswered, so the caller is never stuck waiting.
    pub fn start_experiment(&self) -> (r: Result<(), Error>)
        ensures
            r == Err::<(), Error>(Error::NotSupported),
    {
        Err(Error::NotSupported)
    }

    /// Answers a request to stop the running experiment; the same
    /// extension point as starting one.
    pub fn stop_experiment(&self) -> (r: Result<(), Error>)
        ensures
            r == Err::<(), Error>(Error::NotSupported),
    {
        Err(Error::NotSupported)
    }

    /// The updates to push after a subscription request. Only when handing
    /// the broadcaster handle to the subscriber succeeded is the current
    /// connectivity state re-emitted, one update per associated link kind,
    /// so the new subscriber's view converges with existing subscribers.
    pub fn subscribe_replay(&self, delivered: bool) -> (replay: Vec<Update>)
        ensures
            delivered ==> replay@ == spec_connectivity_replay(*self),
            !delivered ==> replay@ == Seq::<Update>::empty(),
    {
        let mut replay: Vec<Update> = Vec::new();
        if !delivered {
            assert(replay@ =~= Seq::<Update>::empty());
            return replay;
        }
        match self.radio {
            LinkState::Associated { addr, .. } => replay.push(Update::XbeeConnected(addr)),
            LinkState::Unassociated => (),
        }
        match self.companion {
            LinkState::Associated { addr, .. } => replay.push(
                Update::FernbedienungConnected(addr),
            ),
            LinkState::Unassociated => (),
        }
        assert(replay@ =~= spec_connectivity_replay(*self));
        replay
    }

    /// Answers a descriptor query with a copy of the immutable descriptor.
    pub fn get_descriptor(&self) -> (d: Descriptor)
        ensures
            d.id@ == self.descriptor.id@,
            d.radio_macaddr == self.descriptor.radio_macaddr,
            d.companion_macaddr == self.descriptor.companion_macaddr,
            d.tracking_id == self.descriptor.tracking_id,
    {
        self.descriptor.duplicate()
    }

    /// Records that the supervisor of a link kind terminated: the link
    /// returns to unassociated — whatever the termination's cause, the
    /// actor itself keeps running — and a connectivity-down update
    /// announces it. The other link kind is untouched.
    pub fn supervisor_exited(&mut self, kind: LinkKind) -> (down: Update)
        ensures
            spec_link(*final(self), kind) == LinkState::Unassociated,
            spec_link(*final(self), spec_other_kind(kind)) == spec_link(
                *old(self),
                spec_other_kind(kind),
            ),
            final(self).descriptor == old(self).descriptor,
            final(self).next_channel == old(self).next_channel,
            down == (match kind {
                LinkKind::Radio => Update::XbeeDisconnected,
                LinkKind::Companion => Update::FernbedienungDisconnected,
            }),
    {
        match kind {
            LinkKind::Radio => {
                self.radio = LinkState::Unassociated;
                Update::XbeeDisconnected
            },
            LinkKind::Companion => {
                self.companion = LinkState::Unassociated;
                Update::FernbedienungDisconnected
            },
        }
    }
}

/// The link kind that is not `kind`.
pub open spec fn spec_other_kind(kind: LinkKind) -> LinkKind {
    match kind {
        LinkKind::Radio => LinkKind::Companion,
        LinkKind::Companion => LinkKind::Radio,
    }
}

/// How a command routes against a link state: forwarded to the associated
/// supervisor's channel, or refused with a routing error.
pub open spec fn spec_route(link: LinkState) -> Routing {
    match link {
        LinkState::Associated { channel, .. } => Routing::Forward { channel },
        LinkState::Unassociated => Routing::Refuse(Error::NotAssociated),
    }
}

/// After associating a device for a link kind, exactly one supervisor is
/// live for that kind — the freshly spawned one — and any supervisor that
/// was live for the kind before is the one the outcome orders dropped, so
/// no association ever leaves two live supervisors for one kind.
pub proof fn lemma_single_supervisor_after_associate(
    pre: RobotActor,
    post: RobotActor,
    kind: LinkKind,
    addr: u32,
    out: AssociateOutcome,
)
    requires
        spec_link(post, kind) == (LinkState::Associated { addr, channel: out.spawned }),
        out.cancelled == (match spec_link(pre, kind) {
            LinkState::Associated { channel, .. } => Some(channel),
            LinkState::Unassociated => None::<u64>,
        }),
    ensures
        spec_live_channels(post, kind) =~= Set::empty().insert(out.spawned),
        forall|c: u64|
            spec_live_channels(pre, kind).contains(c) ==> out.cancelled == Some(c),
{
}

/// Every associated link kind appears in the subscription replay with its
/// current address: a new subscriber always receives the current
/// connectivity state, even if no probe has fired yet.
pub proof fn lemma_replay_covers_associated_links(a: RobotActor, kind: LinkKind, addr: u32)
    requires
        spec_link(a, kind) matches LinkState::Associated { addr: la, .. } && la == addr,
    ensures
        spec_connectivity_replay(a).contains(spec_connected_update(kind, addr)),
{
    let replay = spec_connectivity_replay(a);
    match kind {
        LinkKind::Radio => {
            assert(replay[0] == Update::XbeeConnected(addr));
        },
        LinkKind::Companion => {
            match a.radio {
                LinkState::Associated { .. } => {
                    assert(replay[1] == Update::FernbedienungConnected(addr));
                },
                LinkState::Unassociated => {
                    assert(replay[0] == Update::FernbedienungConnected(addr));
                },
            }
        },
    }
}

} // verus!
