//! HID report for a 3-button mouse with a wheel.
//!
//! Only one button is used and the wheel stays still, but the report
//! descriptor describes a common mouse so that it can be reused.
use vstd::prelude::*;

verus! {

/// The four bytes of a mouse report: the button bits, x, y and the wheel.
pub open spec fn mouse_report_bytes(button: bool, x: i8, y: i8) -> Seq<u8> {
    seq![if button { 1u8 } else { 0u8 }, x as u8, y as u8, 0u8]
}

/// Hid report for a 3-button mouse with a wheel.
pub struct MouseReport {
    // byte 0: bits 0..2 = buttons
    // byte 1: x
    // byte 2: y
    // byte 3: wheel
    bytes: [u8; 4],
}

impl View for MouseReport {
    type V = Seq<u8>;

    closed spec fn view(&self) -> Seq<u8> {
        self.bytes@
    }
}

impl MouseReport {
    /// A report with the first button pressed or released, a move of
    /// (`x`, `y`) and no wheel movement.
    pub fn _new(button: bool, x: i8, y: i8) -> (report: Self)
        ensures
            report@ == mouse_report_bytes(button, x, y),
            report@.len() == 4,
            report@[0] == (if button { 1u8 } else { 0u8 }),
            report@[1] == x as u8,
            report@[2] == y as u8,
            report@[3] == 0u8,
    {
        let btn: u8 = if button { 0x01 } else { 0x00 };
        MouseReport { bytes: [btn, x as u8, y as u8, 0u8] }
    }

    /// A mouse report always has four bytes.
    pub proof fn lemma_has_four_bytes(&self)
        ensures
            self@.len() == 4,
    {
    }

    /// The report as it goes on the wire.
    pub fn as_ref(&self) -> (bytes: &[u8])
        ensures
            bytes@ == self@,
            bytes@.len() == 4,
    {
        self.bytes.as_slice()
    }
}

/// A mouse report reads back as what it was made from: bit 0 of the first
/// byte is the button and the other button bits are clear, the next two
/// bytes read back as x and y, and the wheel byte is zero.
pub proof fn lemma_mouse_report_decodes(button: bool, x: i8, y: i8)
    ensures
        ({
            let bytes = mouse_report_bytes(button, x, y);
            &&& bytes.len() == 4
            &&& (bytes[0] & 1u8 == 1u8) == button
            &&& bytes[0] & 0xfeu8 == 0u8
            &&& bytes[1] as i8 == x
            &&& bytes[2] as i8 == y
            &&& bytes[3] == 0u8
        }),
{
    let bytes = mouse_report_bytes(button, x, y);
    let (b0, b1, b2) = (bytes[0], bytes[1], bytes[2]);
    assert(b0 == 1u8 ==> (b0 & 1u8 == 1u8) && b0 & 0xfeu8 == 0u8) by (bit_vector);
    assert(b0 == 0u8 ==> (b0 & 1u8 != 1u8) && b0 & 0xfeu8 == 0u8) by (bit_vector);
    assert(b1 == x as u8 ==> b1 as i8 == x) by (bit_vector);
    assert(b2 == y as u8 ==> b2 as i8 == y) by (bit_vector);
}

/// The report descriptor that goes with [`MouseReport`].
pub const MOUSE_REPORT_DESCRIPTOR: [u8; 52] = [
    0x05, 0x01, // USAGE_PAGE Generic Desktop
    0x09, 0x02, // USAGE Mouse
    0xa1, 0x01, // COLLECTION Application
    0x09, 0x01, // USAGE Pointer
    0xa1, 0x00, // COLLECTION Physical
    0x05, 0x09, // USAGE_PAGE Button
    0x19, 0x01, // USAGE_MINIMUM Button 1
    0x29, 0x03, // USAGE_MAXIMUM Button 3
    0x15, 0x00, // LOGICAL_MINIMUM 0
    0x25, 0x01, // LOGICAL_MAXIMUM 1
    0x95, 0x03, // REPORT_COUNT 3
    0x75, 0x01, // REPORT_SIZE 1
    0x81, 0x02, // INPUT Data,Var,Abs
    0x95, 0x01, // REPORT_COUNT 1
    0x75, 0x05, // REPORT_SIZE 5
    0x81, 0x01, // INPUT Cnst,Ary,Abs
    0x05, 0x01, // USAGE_PAGE Generic Desktop
    0x09, 0x30, // USAGE X
    0x09, 0x31, // USAGE Y
    0x09, 0x38, // USAGE Wheel
    0x15, 0x81, // LOGICAL_MINIMUM -127
    0x25, 0x7f, // LOGICAL_MAXIMUM 127
    0x75, 0x08, // REPORT_SIZE 8
    0x95, 0x03, // REPORT_COUNT 3
    0x81, 0x06, // INPUT Data,Var,Rel
    0xc0, // END COLLECTION
    0xc0, // END COLLECTION
];

} // verus!
