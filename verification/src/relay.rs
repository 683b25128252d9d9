//! Message routing of the inter-robot relay.
//!
//! Each connected robot sends framed broadcast messages whose decoded
//! table names a sender (under the key "fromS") and a receiver (under the
//! key "toS"). The relay learns sender names as they first appear, and
//! delivers each message either to the one peer a known receiver name
//! maps to, or to every peer but the sender. A message addressed to the
//! log sink name is delivered to nobody when its receiver cannot be
//! reached directly. This module takes those decisions; the sockets and
//! channels that carry them stay outside.

use vstd::prelude::*;

verus! {

/// Key under which a message names its sender.
pub const RELAY_FROM_KEY: &'static str = "fromS";

/// Key under which a message names its receiver.
pub const RELAY_TO_KEY: &'static str = "toS";

/// How one message must be delivered.
#[derive(Clone, Copy, Debug, PartialEq, Eq, Structural)]
pub enum Delivery {
    /// Send the message to this one peer only.
    Unicast(u32),
    /// Send the message to every peer but the sender.
    Broadcast,
    /// Send the message to nobody.
    Nothing,
}

/// The address the first entry under `name` maps to, if any.
pub open spec fn spec_name_lookup(index: Seq<(String, u32)>, name: Seq<char>) -> Option<u32>
    decreases index.len(),
{
    if index.len() == 0 {
        None
    } else if index[0].0@ == name {
        Some(index[0].1)
    } else {
        spec_name_lookup(index.drop_first(), name)
    }
}

/// Whether an address has a live peer channel.
pub open spec fn spec_is_peer(peers: Seq<u32>, addr: u32) -> bool {
    peers.contains(addr)
}

/// How a message from `sender` to the name `to` is delivered, given the
/// name table and the live peers: to the one peer a known receiver name
/// maps to, unless that is the sender itself or its channel is gone;
/// otherwise to every peer but the sender, except that a message for the
/// log sink is then delivered to nobody.
pub open spec fn spec_delivery(
    index: Seq<(String, u32)>,
    peers: Seq<u32>,
    sender: u32,
    to: Seq<char>,
) -> Delivery {
    match spec_name_lookup(index, to) {
        Some(target) => if target != sender && spec_is_peer(peers, target) {
            Delivery::Unicast(target)
        } else if to == "LOGINFO"@ {
            Delivery::Nothing
        } else {
            Delivery::Broadcast
        },
        None => if to == "LOGINFO"@ {
            Delivery::Nothing
        } else {
            Delivery::Broadcast
        },
    }
}

/// Registers the sender's name and decides the delivery of one message.
/// A sender name other than "nil" that the table does not know yet is
/// recorded with the sender's address — the first appearance of a name
/// wins, later senders never overwrite it. The receiver name is then
/// looked up in the table as the registration left it, so a robot can
/// address itself by name and the message still falls back to a
/// broadcast.
pub fn route_message(
    index: &mut Vec<(String, u32)>,
    peers: &Vec<u32>,
    sender: u32,
    from_name: &String,
    to_name: &String,
) -> (d: Delivery)
    ensures
        ({
            let registered = !(from_name@ == "nil"@) && spec_name_lookup(old(index)@, from_name@)
                is None;
            &&& !registered ==> final(index)@ == old(index)@
            &&& registered ==> final(index)@.len() == old(index)@.len() + 1
                && final(index)@.subrange(0, old(index)@.len() as int) == old(index)@
                && final(index)@.last().0@ == from_name@
                && final(index)@.last().1 == sender
        }),
        d == spec_delivery(final(index)@, peers@, sender, to_name@),
{
    let nil: String = "nil".to_owned();
    let log_sink: String = "LOGINFO".to_owned();
    if !(*from_name == nil) {
        if name_lookup(index, from_name).is_none() {
            let ghost before = index@;
            index.push((from_name.clone(), sender));
            proof {
                assert(index@.subrange(0, before.len() as int) =~= before);
            }
        }
    }
    match name_lookup(index, to_name) {
        Some(target) => {
            if target != sender && is_peer(peers, target) {
                Delivery::Unicast(target)
            } else if *to_name == log_sink {
                Delivery::Nothing
            } else {
                Delivery::Broadcast
            }
        },
        None => {
            if *to_name == log_sink {
                Delivery::Nothing
            } else {
                Delivery::Broadcast
            }
        },
    }
}

/// Finds the address the first entry under `name` maps to.
fn name_lookup(index: &Vec<(String, u32)>, name: &String) -> (r: Option<u32>)
    ensures
        r == spec_name_lookup(index@, name@),
{
    let mut i: usize = 0;
    proof {
        assert(index@.skip(0) =~= index@);
    }
    while i < index.len()
        invariant
            i <= index@.len(),
            spec_name_lookup(index@, name@) == spec_name_lookup(index@.skip(i as int), name@),
        decreases index@.len() - i,
    {
        proof {
            assert(index@.skip(i as int).drop_first() =~= index@.skip(i as int + 1));
        }
        if index[i].0 == *name {
            return Some(index[i].1);
        }
        i = i + 1;
    }
    None
}

/// Whether an address has a live peer channel.
fn is_peer(peers: &Vec<u32>, addr: u32) -> (r: bool)
    ensures
        r == spec_is_peer(peers@, addr),
{
    let mut i: usize = 0;
    while i < peers.len()
        invariant
            i <= peers@.len(),
            forall|j: int| 0 <= j < i ==> peers@[j] != addr,
        decreases peers@.len() - i,
    {
        if peers[i] == addr {
            return true;
        }
        i = i + 1;
    }
    false
}

} // verus!
