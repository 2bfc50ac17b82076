//! A joystick-like HID device that reports trackball moves and buttons.
use vstd::prelude::*;

use crate::hid::{HidDevice, Protocol, ReportType, Subclass};

verus! {

/// The report descriptor of the trackball: x and y as signed bytes,
/// then 31 one-bit buttons.
pub const REPORT_DESCRIPTOR: [u8; 52] = [
    0x0E, 0x0C, 0xCA,  // Unknown (bTag: 0x00, bType: 0x03)
    0x48,              // Designator Minimum
    0x05, 0x01,        // Usage Page (Generic Desktop Ctrls)
    0x09, 0x04,        // Usage (Joystick)
    0xA1, 0x01,        // Collection (Application)
    0x15, 0x81,        //   Logical Minimum (-127)
    0x25, 0x7F,        //   Logical Maximum (127)
    0x05, 0x01,        //   Usage Page (Generic Desktop Ctrls)
    0x09, 0x01,        //   Usage (Pointer)
    0xA1, 0x00,        //   Collection (Physical)
    0x09, 0x30,        //     Usage (X)
    0x09, 0x31,        //     Usage (Y)
    0x75, 0x08,        //     Report Size (8)
    0x95, 0x02,        //     Report Count (2)
    0x81, 0x02,        //     Input (Data,Var,Abs,No Wrap,Linear,Preferred State,No Null Position)
    0xC0,              //   End Collection
    0x05, 0x09,        //   Usage Page (Button)
    0x19, 0x01,        //   Usage Minimum (0x01)
    0x29, 0x1f,        //   Usage Maximum
    0x15, 0x00,        //   Logical Minimum (0)
    0x25, 0x01,        //   Logical Maximum (1)
    0x75, 0x01,        //   Report Size (1)
    0x95, 0x1f,        //   Report Count
    0x55, 0x00,        //   Unit Exponent (0)
    0x65, 0x00,        //   Unit (None)
    0x81, 0x02,        //   Input (Data,Var,Abs,No Wrap,Linear,Preferred State,No Null Position)
    0xC0,              // End Collection
];

/// One trackball report: a move and the state of the buttons.
#[derive(Clone, Copy)]
pub struct TrackballReport {
    pub x: i8,
    pub y: i8,
    pub buttons: [u8; 3],
}

impl TrackballReport {
    /// The five bytes of the report: x and y as bytes, then the buttons.
    pub open spec fn spec_bytes(self) -> Seq<u8> {
        seq![self.x as u8, self.y as u8, self.buttons[0], self.buttons[1], self.buttons[2]]
    }

    /// The report the trackball starts with.
    pub open spec fn spec_default() -> Self {
        TrackballReport { x: 50, y: 50, buttons: [0u8, 0u8, 0u8] }
    }

    pub fn new(x: i8, y: i8, buttons: [u8; 3]) -> (report: Self)
        ensures
            report == (TrackballReport { x, y, buttons }),
    {
        Self { x, y, buttons }
    }

    /// The report as it goes on the wire.
    pub fn as_bytes(&self) -> (bytes: [u8; 5])
        ensures
            bytes@ == self.spec_bytes(),
            bytes@.len() == 5,
            bytes@[0] == self.x as u8,
            bytes@[1] == self.y as u8,
            bytes@[2] == self.buttons[0],
            bytes@[3] == self.buttons[1],
            bytes@[4] == self.buttons[2],
    {
        [self.x as u8, self.y as u8, self.buttons[0], self.buttons[1], self.buttons[2]]
    }
}

impl Default for TrackballReport {
    fn default() -> (report: Self)
        ensures
            report.x == 50,
            report.y == 50,
            report.buttons@ == seq![0u8, 0u8, 0u8],
    {
        Self { x: 50, y: 50, buttons: [0; 3] }
    }
}

/// A HID device that hands out the last report it was given.
pub struct Trackball {
    report: [u8; 5],
}

impl View for Trackball {
    type V = Seq<u8>;

    /// The bytes of the report the trackball hands out.
    closed spec fn view(&self) -> Seq<u8> {
        self.report@
    }
}

/// What a GET_REPORT request of `report_type` is answered with, by a
/// trackball that holds `state`: the input report, or a refusal.
pub open spec fn spec_get_report(state: Seq<u8>, report_type: ReportType) -> Result<Seq<u8>, ()> {
    match report_type {
        ReportType::Input => Ok(state),
        _ => Err(()),
    }
}

impl Trackball {
    /// A trackball always holds five bytes.
    pub proof fn lemma_holds_five_bytes(&self)
        ensures
            self@.len() == 5,
    {
    }

    pub fn new() -> (trackball: Self)
        ensures
            trackball@ == TrackballReport::spec_default().spec_bytes(),
            trackball@ == seq![50u8, 50u8, 0u8, 0u8, 0u8],
    {
        Self { report: TrackballReport::default().as_bytes() }
    }

    /// Makes `report` the one that the trackball hands out.
    pub fn set_report(&mut self, report: TrackballReport)
        ensures
            final(self)@ == report.spec_bytes(),
            final(self)@ == seq![report.x as u8, report.y as u8, report.buttons[0], report.buttons[1], report.buttons[2]],
    {
        self.report = report.as_bytes();
    }
}

impl HidDevice for Trackball {
    fn subclass(&self) -> (subclass: Subclass)
        ensures
            subclass == Subclass::NoSubclass,
    {
        Subclass::NoSubclass
    }

    fn protocol(&self) -> (protocol: Protocol)
        ensures
            protocol == Protocol::NoProtocol,
    {
        Protocol::NoProtocol
    }

    fn report_descriptor(&self) -> (descriptor: &[u8])
        ensures
            descriptor@ == REPORT_DESCRIPTOR@,
    {
        REPORT_DESCRIPTOR.as_slice()
    }

    fn get_report(&mut self, report_type: ReportType, _report_id: u8) -> (result: Result<&[u8], ()>)
        ensures
            final(self)@ == old(self)@,
            match (result, spec_get_report(old(self)@, report_type)) {
                (Ok(bytes), Ok(expected)) => bytes@ == expected && bytes@.len() == 5,
                (Err(()), Err(())) => true,
                _ => false,
            },
            report_type == ReportType::Input ==> (result matches Ok(bytes) && bytes@ == old(self)@),
            report_type != ReportType::Input ==> result is Err,
    {
        match report_type {
            ReportType::Input => Ok(self.report.as_slice()),
            _ => Err(()),
        }
    }

    /// Reports sent by the host are accepted and ignored.
    fn handle_set_report(&mut self, _report_type: ReportType, _report_id: u8, _data: &[u8]) -> (result: Result<(), ()>)
        ensures
            final(self)@ == old(self)@,
            result == Ok::<(), ()>(()),
    {
        Ok(())
    }
}

/// A call that a program makes on a trackball, with any arguments that do
/// not bear on what the trackball holds.
pub enum TrackballCall {
    /// `Trackball::set_report` with this report.
    SetReport(TrackballReport),
    /// `HidDevice::handle_set_report`.
    HandleSetReport,
    /// `HidDevice::get_report`, of any kind.
    GetReport,
    /// `HidDevice::subclass`.
    AskSubclass,
    /// `HidDevice::protocol`.
    AskProtocol,
    /// `HidDevice::report_descriptor`.
    AskReportDescriptor,
}

/// The bytes a trackball holds after `call`, if it held `state` before:
/// what the `ensures` of the method called says of `final(self)@`.
pub open spec fn state_after_call(state: Seq<u8>, call: TrackballCall) -> Seq<u8> {
    match call {
        TrackballCall::SetReport(report) => report.spec_bytes(),
        _ => state,
    }
}

/// The bytes a trackball holds after `calls`, made in order from `state`.
pub open spec fn state_after_calls(state: Seq<u8>, calls: Seq<TrackballCall>) -> Seq<u8>
    decreases calls.len(),
{
    if calls.len() == 0 {
        state
    } else {
        state_after_call(state_after_calls(state, calls.drop_last()), calls.last())
    }
}

/// The report of the last `set_report` among `calls`, if there is one.
pub open spec fn last_set_report(calls: Seq<TrackballCall>) -> Option<TrackballReport>
    decreases calls.len(),
{
    if calls.len() == 0 {
        None
    } else {
        match calls.last() {
            TrackballCall::SetReport(report) => Some(report),
            _ => last_set_report(calls.drop_last()),
        }
    }
}

proof fn lemma_calls_from(state: Seq<u8>, calls: Seq<TrackballCall>)
    ensures
        state_after_calls(state, calls) == match last_set_report(calls) {
            Some(report) => report.spec_bytes(),
            None => state,
        },
    decreases calls.len(),
{
    if calls.len() > 0 {
        lemma_calls_from(state, calls.drop_last());
    }
}

/// The last `set_report` wins, and nothing else changes the report: after
/// any sequence of calls on a new trackball, GET_REPORT for the input
/// report is answered with the five bytes of the last report set, or with
/// those of the default report if none was set; any other kind of request
/// is refused.
pub proof fn lemma_last_set_report_wins(calls: Seq<TrackballCall>, report_type: ReportType)
    ensures
        ({
            let held = match last_set_report(calls) {
                Some(report) => report.spec_bytes(),
                None => TrackballReport::spec_default().spec_bytes(),
            };
            &&& state_after_calls(TrackballReport::spec_default().spec_bytes(), calls) == held
            &&& held.len() == 5
            &&& spec_get_report(held, report_type) == if report_type == ReportType::Input {
                Ok::<Seq<u8>, ()>(held)
            } else {
                Err::<Seq<u8>, ()>(())
            }
        }),
{
    lemma_calls_from(TrackballReport::spec_default().spec_bytes(), calls);
}

/// Each field of a report has its own place on the wire, whatever the
/// other fields hold: the first byte reads back as x, the second as y, and
/// the last three are the buttons in order.
pub proof fn lemma_report_bytes_decode(report: TrackballReport)
    ensures
        report.spec_bytes().len() == 5,
        report.spec_bytes()[0] as i8 == report.x,
        report.spec_bytes()[1] as i8 == report.y,
        report.spec_bytes().subrange(2, 5) == report.buttons@,
{
    let bytes = report.spec_bytes();
    let (b0, b1, x, y) = (bytes[0], bytes[1], report.x, report.y);
    assert(b0 == x as u8 ==> b0 as i8 == x) by (bit_vector);
    assert(b1 == y as u8 ==> b1 as i8 == y) by (bit_vector);
    assert(bytes.subrange(2, 5) =~= report.buttons@);
}

/// The bytes of a report determine the report: two reports that encode
/// to the same bytes are the same report.
pub proof fn lemma_as_bytes_injective(a: TrackballReport, b: TrackballReport)
    requires
        a.spec_bytes() == b.spec_bytes(),
    ensures
        a == b,
{
    let (ax, bx, ay, by) = (a.x, b.x, a.y, b.y);
    assert(a.spec_bytes()[0] == b.spec_bytes()[0]);
    assert(a.spec_bytes()[1] == b.spec_bytes()[1]);
    assert((ax as u8) == (bx as u8) ==> ax == bx) by (bit_vector);
    assert((ay as u8) == (by as u8) ==> ay == by) by (bit_vector);
    assert(a.spec_bytes()[2] == b.spec_bytes()[2]);
    assert(a.spec_bytes()[3] == b.spec_bytes()[3]);
    assert(a.spec_bytes()[4] == b.spec_bytes()[4]);
    assert(a.buttons =~= b.buttons);
}

} // verus!
