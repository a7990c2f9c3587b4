//! The client connection handle and its shared, reference-counted holder.

use std::sync::Arc;
use vstd::prelude::*;

verus! {

/// One native client connection, known by its address.
#[derive(Debug, Clone, Copy, PartialEq, Eq, Structural)]
pub struct ClientHandle {
    pub raw: usize,
}

/// A counted reference to a [`ClientHandle`].
///
/// Holding one keeps the handle's bookkeeping alive; it never closes the
/// connection, which stays the business of whoever opened it.
#[derive(Debug)]
pub struct SharedClientHandle {
    inner: Arc<ClientHandle>,
}

impl View for SharedClientHandle {
    type V = usize;

    /// The address of the connection that this reference stands for.
    closed spec fn view(&self) -> usize {
        self.inner.raw
    }
}

/// `Arc::clone`: another reference to the same allocation, so the value
/// behind the result is the value behind `handle`.
#[verifier::external_body]
fn arc_clone(handle: &Arc<ClientHandle>) -> (res: Arc<ClientHandle>)
    ensures
        res == *handle,
{
    Arc::clone(handle)
}

/// `Arc::strong_count`: the number of references to the allocation. The one
/// passed in is among them, so the count is never zero; other holders may
/// come and go, so nothing more is claimed.
#[verifier::external_body]
fn arc_strong_count(handle: &Arc<ClientHandle>) -> (res: usize)
    ensures
        res >= 1,
{
    Arc::strong_count(handle)
}

impl SharedClientHandle {
    /// Starts the reference counting for a raw client handle.
    pub fn wrap(raw: usize) -> (res: SharedClientHandle)
        ensures
            res@ == raw,
    {
        SharedClientHandle { inner: Arc::new(ClientHandle { raw }) }
    }

    /// Hands out another reference to the same client handle.
    pub fn clone_reference(&self) -> (res: SharedClientHandle)
        ensures
            res@ == self@,
    {
        SharedClientHandle { inner: arc_clone(&self.inner) }
    }

    /// The raw client handle to pass to the driver.
    pub fn handle(&self) -> (res: usize)
        ensures
            res == self@,
    {
        self.inner.raw
    }

    /// How many references to this client handle exist at the moment. This
    /// one exists, so the count is at least one.
    pub fn reference_count(&self) -> (res: usize)
        ensures
            res >= 1,
    {
        arc_strong_count(&self.inner)
    }
}

} // verus!
