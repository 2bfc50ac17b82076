//! What a USB HID interface asks of the device behind it.
use vstd::prelude::*;

verus! {

/// The interface subclass a HID device announces.
#[derive(Clone, Copy, Debug, PartialEq, Eq, Structural)]
pub enum Subclass {
    NoSubclass,
    BootInterface,
}

/// The boot protocol a HID device announces.
#[derive(Clone, Copy, Debug, PartialEq, Eq, Structural)]
pub enum Protocol {
    NoProtocol,
    Keyboard,
    Mouse,
}

/// The kind of report that a GET_REPORT or SET_REPORT request names.
#[derive(Clone, Copy, Debug, PartialEq, Eq, Structural)]
pub enum ReportType {
    Input,
    Output,
    Feature,
    Reserved(u8),
}

/// A device that answers the requests of a HID interface.
pub trait HidDevice {
    /// The interface subclass.
    fn subclass(&self) -> Subclass;

    /// The interface protocol.
    fn protocol(&self) -> Protocol;

    /// The report descriptor, as sent to the host.
    fn report_descriptor(&self) -> &[u8];

    /// Answers a SET_REPORT request that carries `data`.
    fn handle_set_report(&mut self, report_type: ReportType, report_id: u8, data: &[u8]) -> Result<(), ()>;

    /// Answers a GET_REPORT request with the bytes of the report.
    fn get_report(&mut self, report_type: ReportType, report_id: u8) -> Result<&[u8], ()>;
}

} // verus!
