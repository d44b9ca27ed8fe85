use vstd::prelude::*;
use crate::messages::{PROBE_CHANNEL, RELIABLE_CHANNEL, SNAPSHOT_CHANNEL};

verus! {

/// Depth of the snapshot channel's queues, each way.
pub const SNAPSHOT_QUEUE_SIZE: usize = 2048;

/// Delivery guarantee of one logical channel.
#[derive(Debug, Clone, Copy, PartialEq, Eq, Structural)]
pub enum Delivery {
    ReliableOrdered,
    /// Unreliable and sequenced, with bounded send and receive queues.
    UnreliableSequenced { send_queue: usize, receive_queue: usize },
}

/// One logical channel of the transport.
#[derive(Debug, Clone, Copy, PartialEq, Eq, Structural)]
pub struct ChannelSpec {
    pub id: u8,
    pub delivery: Delivery,
}

/// The channels both ends open, the same in each direction.
pub open spec fn channel_plan_spec() -> Seq<ChannelSpec> {
    seq![
        ChannelSpec { id: RELIABLE_CHANNEL, delivery: Delivery::ReliableOrdered },
        ChannelSpec {
            id: SNAPSHOT_CHANNEL,
            delivery: Delivery::UnreliableSequenced {
                send_queue: SNAPSHOT_QUEUE_SIZE,
                receive_queue: SNAPSHOT_QUEUE_SIZE,
            },
        },
        ChannelSpec { id: PROBE_CHANNEL, delivery: Delivery::ReliableOrdered },
    ]
}

/// The channel plan: reliable ordered channel 0, unreliable sequenced
/// channel 1 with bounded queues, and reliable ordered channel 2 for probes.
pub fn channel_plan() -> (r: Vec<ChannelSpec>)
    ensures
        r@ == channel_plan_spec(),
{
    let mut r: Vec<ChannelSpec> = Vec::new();
    r.push(ChannelSpec { id: RELIABLE_CHANNEL, delivery: Delivery::ReliableOrdered });
    r.push(
        ChannelSpec {
            id: SNAPSHOT_CHANNEL,
            delivery: Delivery::UnreliableSequenced {
                send_queue: SNAPSHOT_QUEUE_SIZE,
                receive_queue: SNAPSHOT_QUEUE_SIZE,
            },
        },
    );
    r.push(ChannelSpec { id: PROBE_CHANNEL, delivery: Delivery::ReliableOrdered });
    proof {
        assert(r@ =~= channel_plan_spec());
    }
    r
}

} // verus!
