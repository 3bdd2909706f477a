//! The decision rules of the two bounded queues: the detection delivery
//! queue's bounded-retry policy, and the configuration-change queue's
//! capacity gate and batch handling. The queues themselves, their waiting
//! and their clock, live with the transport; the decisions live here.

use vstd::prelude::*;

verus! {

/// Capacity of the detection delivery queue.
pub const NOTIFS_QUEUE_CAPACITY: usize = 10000;

/// Capacity of the configuration-change queue.
pub const NOTIF_UPDATE_QUEUE_CAPACITY: usize = 1000;

/// Seconds to wait between delivery attempts.
pub const DELIVERY_RETRY_WAIT_SECS: u64 = 10;

/// Total delivery attempts per detection before it is dropped.
pub const DELIVERY_MAX_TRIES: u32 = 3;

/// How many change notices one partial reconciliation batches at most.
pub const NOTIF_UPDATE_BATCH_MAX: usize = 20;

/// What the delivery consumer does after one attempt.
#[derive(Clone, Copy, Debug, PartialEq, Eq, Structural)]
pub enum DeliveryDecision {
    Done,
    RetryAfterWait,
    DropItem,
}

/// After attempt number `tries` (counting from one): success finishes the
/// item; a failure is retried after the wait, up to three attempts in all,
/// then the item is dropped and only logged.
pub fn delivery_next_step(tries: u32, delivered: bool) -> (r: DeliveryDecision)
    ensures
        delivered ==> r == DeliveryDecision::Done,
        (!delivered && tries < DELIVERY_MAX_TRIES) ==> r == DeliveryDecision::RetryAfterWait,
        (!delivered && tries >= DELIVERY_MAX_TRIES) ==> r == DeliveryDecision::DropItem,
{
    if delivered {
        DeliveryDecision::Done
    } else if tries < DELIVERY_MAX_TRIES {
        DeliveryDecision::RetryAfterWait
    } else {
        DeliveryDecision::DropItem
    }
}

/// Whether a configuration-change notice is enqueued at all: only while
/// the change queue has spare capacity; at capacity the notice is silently
/// dropped and the periodic full refresh is the safety net.
pub fn should_enqueue_notif_change(spare_capacity: usize) -> (r: bool)
    ensures
        r == (spare_capacity > 0),
{
    spare_capacity > 0
}

/// Whether a drained change-queue batch is fatal: an empty batch means the
/// channel closed, and the process is meant to die and restart under
/// supervision rather than limp on.
pub fn update_batch_is_fatal(batch_len: usize) -> (r: bool)
    ensures
        r == (batch_len == 0),
{
    batch_len == 0
}

} // verus!
