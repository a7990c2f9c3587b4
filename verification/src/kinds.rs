//! The closed enumerations that the driver reports as integer codes.

use vstd::prelude::*;
use crate::error::VigemError;

verus! {

/// Who is responsible for releasing a target's native handle.
#[derive(Debug, Clone, Copy, PartialEq, Eq, Structural)]
pub enum Provenance {
    /// Allocated through this layer, which must release it exactly once.
    Owned,
    /// Delivered by a driver notification; the driver reclaims it.
    Observed,
}

/// The kind of controller that a target emulates.
#[derive(Debug, Clone, Copy, PartialEq, Eq, Structural)]
pub enum TargetType {
    Xbox360,
    DualShock4,
}

impl TargetType {
    /// The driver's code for this type.
    pub open spec fn spec_code(self) -> u32 {
        match self {
            TargetType::Xbox360 => 0,
            TargetType::DualShock4 => 2,
        }
    }

    /// The type that a driver code stands for, if any.
    pub open spec fn spec_new(code: u32) -> Result<TargetType, VigemError> {
        if code == 0 {
            Ok(TargetType::Xbox360)
        } else if code == 2 {
            Ok(TargetType::DualShock4)
        } else {
            Err(VigemError::ConsistencyViolation)
        }
    }

    /// Decodes a type code reported by the driver. Codes other than 0 and 2
    /// are rejected.
    pub fn new(code: u32) -> (res: Result<TargetType, VigemError>)
        ensures
            res == Self::spec_new(code),
            res is Ok <==> (code == 0 || code == 2),
            res is Err ==> res == Err::<TargetType, VigemError>(VigemError::ConsistencyViolation),
    {
        match code {
            0 => Ok(TargetType::Xbox360),
            2 => Ok(TargetType::DualShock4),
            _ => Err(VigemError::ConsistencyViolation),
        }
    }

    /// The driver's code for this type.
    pub fn code(&self) -> (res: u32)
        ensures
            res == self.spec_code(),
    {
        match self {
            TargetType::Xbox360 => 0,
            TargetType::DualShock4 => 2,
        }
    }

    /// Encoding a type and decoding the code gives the type back.
    pub proof fn lemma_code_round_trip(tt: TargetType)
        ensures
            Self::spec_new(tt.spec_code()) == Ok::<TargetType, VigemError>(tt),
    {
    }
}

/// The connection state that the driver reports for a target.
#[derive(Debug, Clone, Copy, PartialEq, Eq, Structural)]
pub enum TargetState {
    New,
    Initialized,
    Connected,
    Disconnected,
}

impl TargetState {
    /// The driver's code for this state.
    pub open spec fn spec_code(self) -> u32 {
        match self {
            TargetState::New => 0,
            TargetState::Initialized => 1,
            TargetState::Connected => 2,
            TargetState::Disconnected => 3,
        }
    }

    /// The state that a driver code stands for, if any.
    pub open spec fn spec_new(code: u32) -> Result<TargetState, VigemError> {
        if code == 0 {
            Ok(TargetState::New)
        } else if code == 1 {
            Ok(TargetState::Initialized)
        } else if code == 2 {
            Ok(TargetState::Connected)
        } else if code == 3 {
            Ok(TargetState::Disconnected)
        } else {
            Err(VigemError::ConsistencyViolation)
        }
    }

    /// Decodes a state code reported by the driver. Codes above 3 are
    /// rejected.
    pub fn new(code: u32) -> (res: Result<TargetState, VigemError>)
        ensures
            res == Self::spec_new(code),
            res is Ok <==> code <= 3,
            res is Err ==> res == Err::<TargetState, VigemError>(VigemError::ConsistencyViolation),
    {
        match code {
            0 => Ok(TargetState::New),
            1 => Ok(TargetState::Initialized),
            2 => Ok(TargetState::Connected),
            3 => Ok(TargetState::Disconnected),
            _ => Err(VigemError::ConsistencyViolation),
        }
    }

    /// The driver's code for this state.
    pub fn code(&self) -> (res: u32)
        ensures
            res == self.spec_code(),
    {
        match self {
            TargetState::New => 0,
            TargetState::Initialized => 1,
            TargetState::Connected => 2,
            TargetState::Disconnected => 3,
        }
    }

    /// Encoding a state and decoding the code gives the state back.
    pub proof fn lemma_code_round_trip(s: TargetState)
        ensures
            Self::spec_new(s.spec_code()) == Ok::<TargetState, VigemError>(s),
    {
    }
}

} // verus!
