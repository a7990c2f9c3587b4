//! The mathematical model of a target and of what each operation on it
//! decides.

use vstd::prelude::*;
use crate::error::VigemError;
use crate::kinds::{Provenance, TargetState, TargetType};
use crate::native::{NativeCall, NativeTarget};
use crate::report::{DSReport, XUSBReport};

verus! {

/// What a target is, as far as any contract can tell.
pub struct TargetModel {
    /// The driver's record of the target as last read.
    pub raw: NativeTarget,
    /// Whether this layer must release the handle.
    pub provenance: Provenance,
    /// The raw handle of the client the target refers to, once it has one.
    pub client: Option<usize>,
    /// Whether the handle's memory has been handed back to the driver.
    pub released: bool,
}

impl TargetModel {
    /// An observed target always refers to a client and is never released.
    pub open spec fn well_formed(self) -> bool {
        self.provenance is Observed ==> self.client is Some && !self.released
    }

    /// A freshly allocated target: owned, not attached, not released.
    pub open spec fn owned(raw: NativeTarget) -> TargetModel {
        TargetModel { raw, provenance: Provenance::Owned, client: None, released: false }
    }

    /// A target taken from a notification: observed, referring to `client`.
    pub open spec fn observed(raw: NativeTarget, client: usize) -> TargetModel {
        TargetModel { raw, provenance: Provenance::Observed, client: Some(client), released: false }
    }

    /// Whether the driver delivered a usable handle of type `tt`: not null,
    /// and stamped with the code of `tt`.
    pub open spec fn delivers(tt: TargetType, raw: NativeTarget) -> bool {
        raw.handle != 0 && raw.target_type == tt.spec_code()
    }

    /// The allocation call for a target of type `tt`.
    pub open spec fn alloc_call(tt: TargetType) -> NativeCall {
        match tt {
            TargetType::Xbox360 => NativeCall::AllocX360,
            TargetType::DualShock4 => NativeCall::AllocDs4,
        }
    }

    /// The type that the driver's record gives for the target.
    pub open spec fn target_type(self) -> Result<TargetType, VigemError> {
        TargetType::spec_new(self.raw.target_type)
    }

    /// The state that the driver's record gives for the target.
    pub open spec fn state(self) -> Result<TargetState, VigemError> {
        TargetState::spec_new(self.raw.state)
    }

    /// The user-data address in the driver's record, unless it is null.
    pub open spec fn user_data(self) -> Option<usize> {
        if self.raw.notification_user_data == 0 {
            None
        } else {
            Some(self.raw.notification_user_data)
        }
    }

    /// The same target with `client` as the client it refers to.
    pub open spec fn with_client(self, client: usize) -> TargetModel {
        TargetModel { client: Some(client), ..self }
    }

    /// The same target after its record was read again: a record of another
    /// handle is not taken.
    pub open spec fn refreshed(self, raw: NativeTarget) -> TargetModel {
        if raw.handle == self.raw.handle {
            TargetModel { raw, ..self }
        } else {
            self
        }
    }

    /// What sending a report decides, given the two shapes the report
    /// offers. In this order: a target without a client cannot be updated;
    /// an unknown type code is a broken record; a report without the shape
    /// for the target's type is refused; otherwise the update call for that
    /// type goes out with the client, the target and the shape.
    pub open spec fn update_plan(
        self,
        xusb: Option<XUSBReport>,
        ds: Option<DSReport>,
    ) -> Result<NativeCall, VigemError> {
        match self.client {
            None => Err(VigemError::CallerContractViolation),
            Some(client) => match self.target_type() {
                Err(e) => Err(e),
                Ok(TargetType::Xbox360) => match xusb {
                    Some(report) => Ok(
                        NativeCall::UpdateX360 { client, target: self.raw.handle, report },
                    ),
                    None => Err(VigemError::CallerContractViolation),
                },
                Ok(TargetType::DualShock4) => match ds {
                    Some(report) => Ok(
                        NativeCall::UpdateDs4 { client, target: self.raw.handle, report },
                    ),
                    None => Err(VigemError::CallerContractViolation),
                },
            },
        }
    }

    /// The unregister call that matches the target's type.
    pub open spec fn unregister_plan(self) -> Result<NativeCall, VigemError> {
        match self.target_type() {
            Err(e) => Err(e),
            Ok(TargetType::Xbox360) => Ok(NativeCall::UnregisterX360 { target: self.raw.handle }),
            Ok(TargetType::DualShock4) => Ok(NativeCall::UnregisterDs4 { target: self.raw.handle }),
        }
    }

    /// Whether this layer may still free the handle: it owns it and has not
    /// released it yet.
    pub open spec fn may_free(self) -> bool {
        self.provenance is Owned && !self.released
    }

    /// What freeing decides: the free call where it is allowed.
    pub open spec fn free_plan(self) -> Result<NativeCall, VigemError> {
        if self.may_free() {
            Ok(NativeCall::Free { target: self.raw.handle })
        } else {
            Err(VigemError::CallerContractViolation)
        }
    }

    /// The target after an attempt to free it.
    pub open spec fn after_free(self) -> TargetModel {
        if self.may_free() {
            TargetModel { released: true, ..self }
        } else {
            self
        }
    }

    /// The calls that teardown asks of the driver, in order. An observed
    /// target and one already released ask for nothing. An owned, live
    /// target is freed, and before that taken off the bus of its client
    /// where it refers to one.
    pub open spec fn teardown_calls(self) -> Seq<NativeCall> {
        if !self.may_free() {
            Seq::empty()
        } else {
            match self.client {
                Some(client) => seq![
                    NativeCall::Remove { client, target: self.raw.handle },
                    NativeCall::Free { target: self.raw.handle },
                ],
                None => seq![NativeCall::Free { target: self.raw.handle }],
            }
        }
    }

    /// What teardown has to report beside its calls: an owned, live target
    /// that refers to no client could not be taken off a bus.
    pub open spec fn teardown_violation(self) -> Option<VigemError> {
        if self.may_free() && self.client is None {
            Some(VigemError::CallerContractViolation)
        } else {
            None
        }
    }

    /// The target after teardown: released, where this layer had to release
    /// it.
    pub open spec fn after_teardown(self) -> TargetModel {
        if self.may_free() {
            TargetModel { released: true, ..self }
        } else {
            self
        }
    }
}

} // verus!
