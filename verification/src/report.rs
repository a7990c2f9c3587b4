//! Report payloads and the capability of converting to them.
//!
//! A report is forwarded to the driver untouched; this layer only chooses
//! which of the two shapes a target needs.

use vstd::prelude::*;

verus! {

/// Button and axis state in the shape that an Xbox 360 target takes.
#[derive(Debug, Clone, Copy, PartialEq, Eq, Structural)]
pub struct XUSBReport {
    pub w_buttons: u16,
    pub b_left_trigger: u8,
    pub b_right_trigger: u8,
    pub s_thumb_lx: i16,
    pub s_thumb_ly: i16,
    pub s_thumb_rx: i16,
    pub s_thumb_ry: i16,
}

/// Button and axis state in the shape that a DualShock 4 target takes.
#[derive(Debug, Clone, Copy, PartialEq, Eq, Structural)]
pub struct DSReport {
    pub b_thumb_lx: u8,
    pub b_thumb_ly: u8,
    pub b_thumb_rx: u8,
    pub b_thumb_ry: u8,
    pub w_buttons: u16,
    pub b_special: u8,
    pub b_trigger_l: u8,
    pub b_trigger_r: u8,
}

/// A value that may be sent to a target as a report.
///
/// A report type offers both conversions and answers `None` for the shape it
/// cannot produce.
pub trait Reportable {
    /// The Xbox 360 shape of this value, if it has one.
    fn to_xusb(&self) -> Option<XUSBReport>;

    /// The DualShock 4 shape of this value, if it has one.
    fn to_ds(&self) -> Option<DSReport>;
}

impl Reportable for XUSBReport {
    fn to_xusb(&self) -> (res: Option<XUSBReport>)
        ensures
            res == Some(*self),
    {
        Some(*self)
    }

    fn to_ds(&self) -> (res: Option<DSReport>)
        ensures
            res is None,
    {
        None
    }
}

impl Reportable for DSReport {
    fn to_xusb(&self) -> (res: Option<XUSBReport>)
        ensures
            res is None,
    {
        None
    }

    fn to_ds(&self) -> (res: Option<DSReport>)
        ensures
            res == Some(*self),
    {
        Some(*self)
    }
}

} // verus!
