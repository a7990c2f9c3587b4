//! A virtual controller and the operations on it.

use vstd::prelude::*;
use crate::client::SharedClientHandle;
use crate::error::VigemError;
use crate::kinds::{Provenance, TargetState, TargetType};
use crate::model::TargetModel;
use crate::native::{NativeCall, NativeTarget};
use crate::report::{DSReport, Reportable, XUSBReport};

verus! {

/// One virtual controller.
///
/// A target built by [`Target::new`] is owned: this layer must take it off
/// the bus and free it, once. A target built by [`Target::from_raw`] is only
/// observed: the driver keeps it, and this layer never releases it.
///
/// The attributes are answered from the driver's record of the target. The
/// record held here is the one last handed in, at construction or through
/// [`Target::refresh`]; whoever embeds the library reads it anew before
/// asking.
#[derive(Debug)]
pub struct Target {
    raw: NativeTarget,
    provenance: Provenance,
    client: Option<SharedClientHandle>,
    released: bool,
}

impl View for Target {
    type V = TargetModel;

    closed spec fn view(&self) -> TargetModel {
        TargetModel {
            raw: self.raw,
            provenance: self.provenance,
            client: match self.client {
                Some(c) => Some(c@),
                None => None,
            },
            released: self.released,
        }
    }
}

impl Target {
    /// The driver call that allocates a target of type `tt`.
    pub fn alloc_call(tt: TargetType) -> (res: NativeCall)
        ensures
            res == TargetModel::alloc_call(tt),
    {
        match tt {
            TargetType::Xbox360 => NativeCall::AllocX360,
            TargetType::DualShock4 => NativeCall::AllocDs4,
        }
    }

    /// Takes ownership of the handle that the driver allocated for type
    /// `tt`, given the record read from it.
    ///
    /// Construction fails when the driver did not deliver: the handle is
    /// null, or the record is not of the requested type. The new target is
    /// owned, refers to no client yet, and reports type `tt`.
    pub fn new(tt: TargetType, raw: NativeTarget) -> (res: Option<Target>)
        ensures
            res is Some <==> TargetModel::delivers(tt, raw),
            res matches Some(t) ==> t@ == TargetModel::owned(raw) && t@.target_type() == Ok::<
                TargetType,
                VigemError,
            >(tt) && t@.well_formed(),
    {
        if raw.handle == 0 || raw.target_type != tt.code() {
            None
        } else {
            Some(Target { raw, provenance: Provenance::Owned, client: None, released: false })
        }
    }

    /// Stores the client that the target was attached to.
    pub fn set_client(&mut self, client: SharedClientHandle)
        ensures
            final(self)@ == old(self)@.with_client(client@),
            old(self)@.well_formed() ==> final(self)@.well_formed(),
    {
        self.client = Some(client);
    }

    /// Wraps a target and a client delivered by a driver notification.
    /// Neither is owned: the client gets a reference count of its own, and
    /// the target will never be released by this layer.
    pub fn from_raw(target: NativeTarget, client: usize) -> (res: Target)
        ensures
            res@ == TargetModel::observed(target, client),
            res@.well_formed(),
    {
        Target {
            raw: target,
            provenance: Provenance::Observed,
            client: Some(SharedClientHandle::wrap(client)),
            released: false,
        }
    }

    /// The driver's record of the target as last read.
    pub fn raw(&self) -> (res: NativeTarget)
        ensures
            res == self@.raw,
    {
        self.raw
    }

    /// Takes a record read again from the driver. A record of another
    /// handle is refused and changes nothing.
    pub fn refresh(&mut self, raw: NativeTarget) -> (res: bool)
        ensures
            res == (raw.handle == old(self)@.raw.handle),
            final(self)@ == old(self)@.refreshed(raw),
            old(self)@.well_formed() ==> final(self)@.well_formed(),
    {
        if raw.handle == self.raw.handle {
            self.raw = raw;
            true
        } else {
            false
        }
    }

    /// Whether this layer must release the handle.
    pub fn provenance(&self) -> (res: Provenance)
        ensures
            res == self@.provenance,
    {
        self.provenance
    }

    /// The raw handle of the client that the target refers to, if any.
    pub fn client(&self) -> (res: Option<usize>)
        ensures
            res == self@.client,
    {
        match &self.client {
            Some(c) => Some(c.handle()),
            None => None,
        }
    }

    /// How many references to the target's client handle exist, if the
    /// target refers to one. The target's own reference is among them, so
    /// the count is never zero.
    pub fn client_reference_count(&self) -> (res: Option<usize>)
        ensures
            res is Some <==> self@.client is Some,
            res matches Some(n) ==> n >= 1,
    {
        match &self.client {
            Some(c) => Some(c.reference_count()),
            None => None,
        }
    }

    /// Whether the handle's memory has been handed back to the driver.
    pub fn is_released(&self) -> (res: bool)
        ensures
            res == self@.released,
    {
        self.released
    }

    pub fn size(&self) -> (res: u32)
        ensures
            res == self@.raw.size,
    {
        self.raw.size
    }

    pub fn serial_no(&self) -> (res: u32)
        ensures
            res == self@.raw.serial_no,
    {
        self.raw.serial_no
    }

    /// The state in the driver's record; a code outside the known states is
    /// a consistency violation.
    pub fn state(&self) -> (res: Result<TargetState, VigemError>)
        ensures
            res == self@.state(),
    {
        TargetState::new(self.raw.state)
    }

    pub fn get_vid(&self) -> (res: u16)
        ensures
            res == self@.raw.vendor_id,
    {
        self.raw.vendor_id
    }

    pub fn get_pid(&self) -> (res: u16)
        ensures
            res == self@.raw.product_id,
    {
        self.raw.product_id
    }

    /// The type in the driver's record; a code outside the known types is a
    /// consistency violation.
    pub fn get_type(&self) -> (res: Result<TargetType, VigemError>)
        ensures
            res == self@.target_type(),
    {
        TargetType::new(self.raw.target_type)
    }

    pub fn closing_notification_threads(&self) -> (res: bool)
        ensures
            res == self@.raw.closing_notification_threads,
    {
        self.raw.closing_notification_threads
    }

    /// The address of the user data that the notification carried: absent
    /// exactly when the driver's pointer is null. What lives at the address
    /// is for the caller to know.
    pub fn user_data(&self) -> (res: Option<usize>)
        ensures
            res == self@.user_data(),
            res is None <==> self@.raw.notification_user_data == 0,
    {
        if self.raw.notification_user_data == 0 {
            None
        } else {
            Some(self.raw.notification_user_data)
        }
    }

    /// The driver call that asks for the target's index; the driver's reply
    /// is the index.
    pub fn index(&self) -> (res: NativeCall)
        ensures
            res == (NativeCall::GetIndex { target: self@.raw.handle }),
    {
        NativeCall::GetIndex { target: self.raw.handle }
    }

    /// The driver call that asks whether the target is attached; see
    /// [`Target::attached_from`] for the meaning of the reply.
    pub fn is_attached(&self) -> (res: NativeCall)
        ensures
            res == (NativeCall::IsAttached { target: self@.raw.handle }),
    {
        NativeCall::IsAttached { target: self.raw.handle }
    }

    /// Reads the driver's reply to [`NativeCall::IsAttached`]: attached
    /// exactly when the reply is 1.
    pub fn attached_from(reply: u32) -> (res: bool)
        ensures
            res == (reply == 1),
    {
        match reply {
            1 => true,
            _ => false,
        }
    }

    /// Chooses the driver call that sends a report to the target, given the
    /// shapes that the report converted to. The driver's status for that
    /// call is read with [`VigemError::from_status`].
    ///
    /// Fails with `CallerContractViolation` when the target refers to no
    /// client or the shape for the target's type is missing, and with
    /// `ConsistencyViolation` when the driver's record holds an unknown type
    /// code; the client is looked at first, then the type, then the shape.
    pub fn dispatch(&self, xusb: Option<XUSBReport>, ds: Option<DSReport>) -> (res: Result<
        NativeCall,
        VigemError,
    >)
        ensures
            res == self@.update_plan(xusb, ds),
    {
        let client = match &self.client {
            Some(c) => c.handle(),
            None => {
                return Err(VigemError::CallerContractViolation);
            },
        };
        match self.get_type() {
            Err(e) => Err(e),
            Ok(TargetType::Xbox360) => match xusb {
                Some(report) => Ok(NativeCall::UpdateX360 { client, target: self.raw.handle, report }),
                None => Err(VigemError::CallerContractViolation),
            },
            Ok(TargetType::DualShock4) => match ds {
                Some(report) => Ok(NativeCall::UpdateDs4 { client, target: self.raw.handle, report }),
                None => Err(VigemError::CallerContractViolation),
            },
        }
    }

    /// Chooses the driver call that sends `report` to the target: converts
    /// the report to the shape that the target's type takes and hands it to
    /// [`Target::dispatch`].
    ///
    /// An unattached target is refused with `CallerContractViolation` and an
    /// unknown type code is a `ConsistencyViolation`, before the report is
    /// looked at. Otherwise the outcome is that of `dispatch` on what the
    /// conversion for the target's type gave: the update call of that type
    /// with that shape, or `CallerContractViolation` where the report has no
    /// such shape. The target is left as it was.
    pub fn update<T: Reportable>(&mut self, report: &T) -> (res: Result<NativeCall, VigemError>)
        ensures
            final(self)@ == old(self)@,
            (match (old(self)@.client, old(self)@.target_type()) {
                (None, _) => res == Err::<NativeCall, VigemError>(
                    VigemError::CallerContractViolation,
                ),
                (Some(_), Err(e)) => res == Err::<NativeCall, VigemError>(e),
                (Some(_), Ok(TargetType::Xbox360)) => exists|shape: Option<XUSBReport>|
                    T::to_xusb.ensures((report,), shape) && res == #[trigger] old(
                        self,
                    )@.update_plan(shape, None),
                (Some(_), Ok(TargetType::DualShock4)) => exists|shape: Option<DSReport>|
                    T::to_ds.ensures((report,), shape) && res == #[trigger] old(
                        self,
                    )@.update_plan(None, shape),
            }),
    {
        if self.client.is_none() {
            return self.dispatch(None, None);
        }
        match self.get_type() {
            Ok(TargetType::Xbox360) => {
                let shape = report.to_xusb();
                self.dispatch(shape, None)
            },
            Ok(TargetType::DualShock4) => {
                let shape = report.to_ds();
                self.dispatch(None, shape)
            },
            Err(_) => self.dispatch(None, None),
        }
    }

    /// Chooses the driver call that stops notifications for the target, by
    /// the target's type.
    pub fn unregister_notification(&self) -> (res: Result<NativeCall, VigemError>)
        ensures
            res == self@.unregister_plan(),
    {
        match self.get_type() {
            Err(e) => Err(e),
            Ok(TargetType::Xbox360) => Ok(NativeCall::UnregisterX360 { target: self.raw.handle }),
            Ok(TargetType::DualShock4) => Ok(NativeCall::UnregisterDs4 { target: self.raw.handle }),
        }
    }

    /// The driver call that sets the target's vendor id.
    pub fn set_vid(&self, vid: u16) -> (res: NativeCall)
        ensures
            res == (NativeCall::SetVid { target: self@.raw.handle, vid }),
    {
        NativeCall::SetVid { target: self.raw.handle, vid }
    }

    /// The driver call that sets the target's product id.
    pub fn set_pid(&self, pid: u16) -> (res: NativeCall)
        ensures
            res == (NativeCall::SetPid { target: self@.raw.handle, pid }),
    {
        NativeCall::SetPid { target: self.raw.handle, pid }
    }

    /// Hands the handle's memory back to the driver: gives the free call and
    /// records that the handle is gone.
    ///
    /// Only an owned target that has not been released may be freed; any
    /// other is refused with `CallerContractViolation` and left as it was.
    pub fn free(&mut self) -> (res: Result<NativeCall, VigemError>)
        ensures
            res == old(self)@.free_plan(),
            final(self)@ == old(self)@.after_free(),
            old(self)@.well_formed() ==> final(self)@.well_formed(),
    {
        match self.provenance {
            Provenance::Owned => {
                if self.released {
                    Err(VigemError::CallerContractViolation)
                } else {
                    self.released = true;
                    Ok(NativeCall::Free { target: self.raw.handle })
                }
            },
            Provenance::Observed => Err(VigemError::CallerContractViolation),
        }
    }

    /// What is owed to the driver when the target goes away, in the order in
    /// which it is to be done, and beside it the violation to report, if
    /// there is one.
    ///
    /// An owned target that is still live is released from then on: it is
    /// freed, and before that taken off the bus of the client it refers to.
    /// Where it refers to no client, nothing can be taken off a bus; the
    /// handle is freed all the same, and `CallerContractViolation` is
    /// reported beside the free. An observed target, and one that was
    /// released before, ask for nothing and report nothing.
    pub fn teardown(&mut self) -> (res: (Vec<NativeCall>, Option<VigemError>))
        ensures
            res.0@ == old(self)@.teardown_calls(),
            res.1 == old(self)@.teardown_violation(),
            res.1 is Some <==> old(self)@.may_free() && old(self)@.client is None,
            res.1 matches Some(e) ==> e == VigemError::CallerContractViolation,
            final(self)@ == old(self)@.after_teardown(),
            old(self)@.well_formed() ==> final(self)@.well_formed(),
    {
        let mut calls: Vec<NativeCall> = Vec::new();
        let mut violation: Option<VigemError> = None;
        match self.provenance {
            Provenance::Observed => {},
            Provenance::Owned => {
                if !self.released {
                    match &self.client {
                        Some(c) => {
                            calls.push(
                                NativeCall::Remove { client: c.handle(), target: self.raw.handle },
                            );
                        },
                        None => {
                            violation = Some(VigemError::CallerContractViolation);
                        },
                    }
                    calls.push(NativeCall::Free { target: self.raw.handle });
                    self.released = true;
                }
            },
        }
        proof {
            assert(calls@ =~= old(self)@.teardown_calls());
        }
        (calls, violation)
    }
}

} // verus!
