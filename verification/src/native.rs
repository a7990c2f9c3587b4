//! The boundary to the driver: what is read from it and what is asked of it.

use vstd::prelude::*;
use crate::report::{DSReport, XUSBReport};

verus! {

/// The driver's record of one target, as plain values.
///
/// `handle` is the address under which the driver knows the target; the
/// other fields are what the record held when it was last read.
#[derive(Debug, Clone, Copy, PartialEq, Eq, Structural)]
pub struct NativeTarget {
    pub handle: usize,
    pub size: u32,
    pub serial_no: u32,
    pub state: u32,
    pub vendor_id: u16,
    pub product_id: u16,
    pub target_type: u32,
    pub closing_notification_threads: bool,
    pub notification_user_data: usize,
}

/// One call into the driver, with the handles and values to pass.
#[derive(Debug, Clone, Copy, PartialEq, Eq, Structural)]
#[allow(inconsistent_fields)]
pub enum NativeCall {
    /// Allocate an Xbox 360 target.
    AllocX360,
    /// Allocate a DualShock 4 target.
    AllocDs4,
    /// Release the memory of a target.
    Free { target: usize },
    /// Take a target off the bus of a client.
    Remove { client: usize, target: usize },
    /// Ask for the index of a target on its bus.
    GetIndex { target: usize },
    /// Ask whether a target is attached to a bus.
    IsAttached { target: usize },
    /// Set the vendor id of a target.
    SetVid { target: usize, vid: u16 },
    /// Set the product id of a target.
    SetPid { target: usize, pid: u16 },
    /// Stop notifications for an Xbox 360 target.
    UnregisterX360 { target: usize },
    /// Stop notifications for a DualShock 4 target.
    UnregisterDs4 { target: usize },
    /// Send a report to an Xbox 360 target.
    UpdateX360 { client: usize, target: usize, report: XUSBReport },
    /// Send a report to a DualShock 4 target.
    UpdateDs4 { client: usize, target: usize, report: DSReport },
}

/// How many of `calls` release the memory of a target.
pub open spec fn free_count(calls: Seq<NativeCall>) -> nat
    decreases calls.len(),
{
    if calls.len() == 0 {
        0
    } else {
        free_count(calls.drop_last()) + if calls.last() is Free {
            1nat
        } else {
            0nat
        }
    }
}

/// How many of `calls` take a target off a bus.
pub open spec fn remove_count(calls: Seq<NativeCall>) -> nat
    decreases calls.len(),
{
    if calls.len() == 0 {
        0
    } else {
        remove_count(calls.drop_last()) + if calls.last() is Remove {
            1nat
        } else {
            0nat
        }
    }
}

/// Counting the frees of two call lists in a row adds up.
pub proof fn lemma_free_count_concat(a: Seq<NativeCall>, b: Seq<NativeCall>)
    ensures
        free_count(a + b) == free_count(a) + free_count(b),
    decreases b.len(),
{
    if b.len() == 0 {
        assert(a + b =~= a);
    } else {
        assert((a + b).drop_last() =~= a + b.drop_last());
        assert((a + b).last() == b.last());
        lemma_free_count_concat(a, b.drop_last());
    }
}

/// Counting the removals of two call lists in a row adds up.
pub proof fn lemma_remove_count_concat(a: Seq<NativeCall>, b: Seq<NativeCall>)
    ensures
        remove_count(a + b) == remove_count(a) + remove_count(b),
    decreases b.len(),
{
    if b.len() == 0 {
        assert(a + b =~= a);
    } else {
        assert((a + b).drop_last() =~= a + b.drop_last());
        assert((a + b).last() == b.last());
        lemma_remove_count_concat(a, b.drop_last());
    }
}

} // verus!
