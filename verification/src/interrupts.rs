//! What the firmware does when a button or a trackball wheel raises an
//! external interrupt.
//!
//! The pending register of the interrupt controller holds one bit per
//! line. A handler acts only when exactly the bit of a line it knows is
//! set: it clears that bit and sends one or two mouse reports. Any other
//! value is left as it is.
use vstd::prelude::*;

verus! {

/// The cycles to wait between the two reports of a button press.
pub const CLICK_PAUSE_CYCLES: u32 = 1000000;

/// A mouse report as the HID class sends it.
#[derive(Clone, Copy, Debug, PartialEq, Eq, Structural)]
pub struct PointerReport {
    pub x: i8,
    pub y: i8,
    pub buttons: u8,
}

/// One thing a handler does, in order.
#[derive(Clone, Copy, Debug, PartialEq, Eq, Structural)]
pub enum Step {
    /// Clear the pending bit of this line.
    ClearPending(u8),
    /// Send this report to the host.
    Send(PointerReport),
    /// Wait this many cycles.
    Pause(u32),
}

/// A button press: the report is sent twice with a pause between.
pub open spec fn click_steps(line: u8, buttons: u8) -> Seq<Step> {
    let report = PointerReport { x: 0, y: 0, buttons };
    seq![Step::ClearPending(line), Step::Send(report), Step::Pause(CLICK_PAUSE_CYCLES), Step::Send(report)]
}

/// A trackball wheel pulse: one report of a move.
pub open spec fn move_steps(line: u8, x: i8, y: i8) -> Seq<Step> {
    seq![Step::ClearPending(line), Step::Send(PointerReport { x, y, buttons: 0 })]
}

/// The steps for the lines 2 and 3, given the pending register.
pub open spec fn spec_exti2_3_steps(pending: u32) -> Seq<Step> {
    if pending == 0x8 {
        // the button on line 3
        click_steps(3, 3)
    } else {
        seq![]
    }
}

/// The steps for the lines 4 to 15, given the pending register.
pub open spec fn spec_exti4_15_steps(pending: u32) -> Seq<Step> {
    if pending == 0x8000 {
        // the button on line 15
        click_steps(15, 1)
    } else if pending == 0x10 {
        // trackball left
        move_steps(4, 0, -5i8)
    } else if pending == 0x20 {
        // trackball up
        move_steps(5, 5, 0)
    } else if pending == 0x40 {
        // trackball right
        move_steps(6, 0, 5)
    } else if pending == 0x80 {
        // trackball down
        move_steps(7, -5i8, 0)
    } else {
        seq![]
    }
}

/// The steps of a handler, without a heap: at most four, kept in order.
pub struct HandlerSteps {
    steps: [Step; 4],
    len: usize,
}

impl HandlerSteps {
    #[verifier::type_invariant]
    spec fn wf(self) -> bool {
        self.len <= 4
    }
}

impl View for HandlerSteps {
    type V = Seq<Step>;

    closed spec fn view(&self) -> Seq<Step> {
        self.steps@.take(self.len as int)
    }
}

impl HandlerSteps {
    fn none() -> (steps: Self)
        ensures
            steps@ == Seq::<Step>::empty(),
    {
        let filler = Step::Pause(0);
        let steps = HandlerSteps { steps: [filler, filler, filler, filler], len: 0 };
        assert(steps@ =~= Seq::<Step>::empty());
        steps
    }

    fn click(line: u8, buttons: u8) -> (steps: Self)
        ensures
            steps@ == click_steps(line, buttons),
    {
        let report = PointerReport { x: 0, y: 0, buttons };
        let steps = HandlerSteps {
            steps: [Step::ClearPending(line), Step::Send(report), Step::Pause(CLICK_PAUSE_CYCLES), Step::Send(report)],
            len: 4,
        };
        assert(steps@ =~= click_steps(line, buttons));
        steps
    }

    fn wheel_move(line: u8, x: i8, y: i8) -> (steps: Self)
        ensures
            steps@ == move_steps(line, x, y),
    {
        let filler = Step::Pause(0);
        let steps = HandlerSteps {
            steps: [Step::ClearPending(line), Step::Send(PointerReport { x, y, buttons: 0 }), filler, filler],
            len: 2,
        };
        assert(steps@ =~= move_steps(line, x, y));
        steps
    }

    /// The steps, in the order they are to be done.
    pub fn as_slice(&self) -> (steps: &[Step])
        ensures
            steps@ == self@,
    {
        proof {
            use_type_invariant(self);
        }
        &self.steps.as_slice()[0..self.len]
    }
}

/// The steps of the handler of the lines 2 and 3.
pub fn exti2_3_steps(pending: u32) -> (steps: HandlerSteps)
    ensures
        steps@ == spec_exti2_3_steps(pending),
        pending == 0x8 ==> steps@ == seq![
            Step::ClearPending(3),
            Step::Send(PointerReport { x: 0, y: 0, buttons: 3 }),
            Step::Pause(1000000),
            Step::Send(PointerReport { x: 0, y: 0, buttons: 3 }),
        ],
        pending != 0x8 ==> steps@.len() == 0,
{
    if pending == 0x8 {
        HandlerSteps::click(3, 3)
    } else {
        HandlerSteps::none()
    }
}

/// The steps of the handler of the lines 4 to 15.
pub fn exti4_15_steps(pending: u32) -> (steps: HandlerSteps)
    ensures
        steps@ == spec_exti4_15_steps(pending),
        pending == 0x8000 ==> steps@ == seq![
            Step::ClearPending(15),
            Step::Send(PointerReport { x: 0, y: 0, buttons: 1 }),
            Step::Pause(1000000),
            Step::Send(PointerReport { x: 0, y: 0, buttons: 1 }),
        ],
        pending == 0x10 ==> steps@ == seq![Step::ClearPending(4), Step::Send(PointerReport { x: 0, y: -5i8, buttons: 0 })],
        pending == 0x20 ==> steps@ == seq![Step::ClearPending(5), Step::Send(PointerReport { x: 5, y: 0, buttons: 0 })],
        pending == 0x40 ==> steps@ == seq![Step::ClearPending(6), Step::Send(PointerReport { x: 0, y: 5, buttons: 0 })],
        pending == 0x80 ==> steps@ == seq![Step::ClearPending(7), Step::Send(PointerReport { x: -5i8, y: 0, buttons: 0 })],
        !(pending == 0x8000 || pending == 0x10 || pending == 0x20 || pending == 0x40 || pending == 0x80)
            ==> steps@.len() == 0,
{
    if pending == 0x8000 {
        HandlerSteps::click(15, 1)
    } else if pending == 0x10 {
        HandlerSteps::wheel_move(4, 0, -5)
    } else if pending == 0x20 {
        HandlerSteps::wheel_move(5, 5, 0)
    } else if pending == 0x40 {
        HandlerSteps::wheel_move(6, 0, 5)
    } else if pending == 0x80 {
        HandlerSteps::wheel_move(7, -5, 0)
    } else {
        HandlerSteps::none()
    }
}

/// A handler that acts clears the pending bit it was raised for and no
/// other: its first step clears line `l` where the pending register is
/// exactly `1 << l`, and no later step clears anything.
pub proof fn lemma_handlers_clear_their_own_line(pending: u32)
    ensures
        ({
            let steps = spec_exti2_3_steps(pending);
            steps.len() > 0 ==> (steps[0] matches Step::ClearPending(l) && 2 <= l <= 3 && pending == (1u32 << l))
        }),
        ({
            let steps = spec_exti4_15_steps(pending);
            steps.len() > 0 ==> (steps[0] matches Step::ClearPending(l) && 4 <= l <= 15 && pending == (1u32 << l))
        }),
        forall|i: int| 0 < i < spec_exti2_3_steps(pending).len() ==> !(#[trigger] spec_exti2_3_steps(pending)[i] is ClearPending),
        forall|i: int| 0 < i < spec_exti4_15_steps(pending).len() ==> !(#[trigger] spec_exti4_15_steps(pending)[i] is ClearPending),
{
    assert((1u32 << 3u8) == 0x8u32) by (bit_vector);
    assert((1u32 << 4u8) == 0x10u32) by (bit_vector);
    assert((1u32 << 5u8) == 0x20u32) by (bit_vector);
    assert((1u32 << 6u8) == 0x40u32) by (bit_vector);
    assert((1u32 << 7u8) == 0x80u32) by (bit_vector);
    assert((1u32 << 15u8) == 0x8000u32) by (bit_vector);
}

/// The report a single-step handler sends, if it sends one.
pub open spec fn sent_move(steps: Seq<Step>) -> PointerReport {
    match steps[1] {
        Step::Send(report) => report,
        _ => PointerReport { x: 0, y: 0, buttons: 0 },
    }
}

/// The trackball wheels pair up: left and right move by opposite amounts
/// along one axis (y), up and down by opposite amounts along the other
/// (x); the two buttons send different button bits, the line-15 button
/// the first one.
pub proof fn lemma_wheels_are_opposite()
    ensures
        ({
            let left = sent_move(spec_exti4_15_steps(0x10));
            let up = sent_move(spec_exti4_15_steps(0x20));
            let right = sent_move(spec_exti4_15_steps(0x40));
            let down = sent_move(spec_exti4_15_steps(0x80));
            &&& left.x == 0 && right.x == 0 && left.y == -right.y && left.y < 0
            &&& up.y == 0 && down.y == 0 && up.x == -down.x && up.x > 0
        }),
        sent_move(spec_exti4_15_steps(0x8000)).buttons == 1u8,
        sent_move(spec_exti2_3_steps(0x8)).buttons == 3u8,
{
}

/// A button press sends the same report twice, with a pause between, and
/// the report holds no move; a wheel pulse sends one report, with no
/// button, that moves by 5 along one axis.
pub proof fn lemma_reports_sent(pending: u32)
    ensures
        ({
            let steps = spec_exti4_15_steps(pending);
            ||| steps.len() == 0
            ||| (steps[1] matches Step::Send(r) && r.x == 0 && r.y == 0 && r.buttons != 0
                && steps.len() == 4 && steps[1] == steps[3] && steps[2] == Step::Pause(CLICK_PAUSE_CYCLES))
            ||| (steps[1] matches Step::Send(r) && steps.len() == 2 && r.buttons == 0 && (
                (r.x == 0 && (r.y == 5 || r.y == -5)) || (r.y == 0 && (r.x == 5 || r.x == -5))))
        }),
        ({
            let steps = spec_exti2_3_steps(pending);
            ||| steps.len() == 0
            ||| (steps[1] matches Step::Send(r) && r.x == 0 && r.y == 0 && r.buttons != 0
                && steps.len() == 4 && steps[1] == steps[3] && steps[2] == Step::Pause(CLICK_PAUSE_CYCLES))
        }),
{
}

} // verus!
