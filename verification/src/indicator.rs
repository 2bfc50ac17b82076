//! The light test of the trackball board: the on-board LEDs follow the
//! trackball lines and the buttons.
//!
//! Each pass of the main loop reads all inputs and then writes the LEDs in
//! a fixed order; a later write to an LED overrides an earlier one of the
//! same pass.
use vstd::prelude::*;

verus! {

/// The levels read on one pass of the main loop.
#[derive(Clone, Copy, Debug, PartialEq, Eq, Structural)]
pub struct PanelInputs {
    pub up: bool,
    pub down: bool,
    pub left: bool,
    pub right: bool,
    pub trackball_button: bool,
    pub button: bool,
}

/// An on-board LED.
#[derive(Clone, Copy, Debug, PartialEq, Eq, Structural)]
pub enum Led {
    Red,
    Green,
    Blue,
}

/// Drive `led` high (`on`) or low.
#[derive(Clone, Copy, Debug, PartialEq, Eq, Structural)]
pub struct LedWrite {
    pub led: Led,
    pub on: bool,
}

/// The levels of the three LEDs.
#[derive(Clone, Copy, Debug, PartialEq, Eq, Structural)]
pub struct LedLevels {
    pub red: bool,
    pub green: bool,
    pub blue: bool,
}

/// The writes at start-up: every LED off.
pub open spec fn spec_startup_writes() -> Seq<LedWrite> {
    seq![
        LedWrite { led: Led::Blue, on: false },
        LedWrite { led: Led::Green, on: false },
        LedWrite { led: Led::Red, on: false },
    ]
}

/// The writes of one pass of the main loop, in order.
pub open spec fn spec_loop_writes(inputs: PanelInputs) -> Seq<LedWrite> {
    seq![
        LedWrite { led: Led::Blue, on: inputs.up },
        LedWrite { led: Led::Green, on: inputs.down },
        LedWrite { led: Led::Red, on: inputs.left },
        LedWrite { led: Led::Red, on: inputs.right },
        LedWrite { led: Led::Red, on: inputs.trackball_button },
        LedWrite { led: Led::Blue, on: inputs.button },
    ]
}

/// The levels after one write.
pub open spec fn apply_write(levels: LedLevels, write: LedWrite) -> LedLevels {
    match write.led {
        Led::Red => LedLevels { red: write.on, ..levels },
        Led::Green => LedLevels { green: write.on, ..levels },
        Led::Blue => LedLevels { blue: write.on, ..levels },
    }
}

/// The levels after `writes`, made in order from `levels`.
pub open spec fn apply_writes(levels: LedLevels, writes: Seq<LedWrite>) -> LedLevels
    decreases writes.len(),
{
    if writes.len() == 0 {
        levels
    } else {
        apply_writes(apply_write(levels, writes[0]), writes.drop_first())
    }
}

/// The writes at start-up.
pub fn startup_writes() -> (writes: [LedWrite; 3])
    ensures
        writes@ == spec_startup_writes(),
        writes@ == seq![
            LedWrite { led: Led::Blue, on: false },
            LedWrite { led: Led::Green, on: false },
            LedWrite { led: Led::Red, on: false },
        ],
{
    let writes = [
        LedWrite { led: Led::Blue, on: false },
        LedWrite { led: Led::Green, on: false },
        LedWrite { led: Led::Red, on: false },
    ];
    assert(writes@ =~= spec_startup_writes());
    writes
}

/// The writes of one pass of the main loop, for the levels read.
pub fn loop_writes(inputs: PanelInputs) -> (writes: [LedWrite; 6])
    ensures
        writes@ == spec_loop_writes(inputs),
        writes@.len() == 6,
        writes@[0] == (LedWrite { led: Led::Blue, on: inputs.up }),
        writes@[1] == (LedWrite { led: Led::Green, on: inputs.down }),
        writes@[2] == (LedWrite { led: Led::Red, on: inputs.left }),
        writes@[3] == (LedWrite { led: Led::Red, on: inputs.right }),
        writes@[4] == (LedWrite { led: Led::Red, on: inputs.trackball_button }),
        writes@[5] == (LedWrite { led: Led::Blue, on: inputs.button }),
{
    let writes = [
        // trackball movements
        LedWrite { led: Led::Blue, on: inputs.up },
        LedWrite { led: Led::Green, on: inputs.down },
        LedWrite { led: Led::Red, on: inputs.left },
        LedWrite { led: Led::Red, on: inputs.right },
        // trackball button
        LedWrite { led: Led::Red, on: inputs.trackball_button },
        // board button
        LedWrite { led: Led::Blue, on: inputs.button },
    ];
    assert(writes@ =~= spec_loop_writes(inputs));
    writes
}

/// Each write of a pass follows its own input and no other: which LED a
/// write drives does not depend on the inputs, and two passes whose inputs
/// differ in one line differ only in the write of that line.
pub proof fn lemma_each_write_follows_its_input(a: PanelInputs, b: PanelInputs)
    ensures
        spec_loop_writes(a).len() == 6,
        spec_loop_writes(b).len() == 6,
        forall|k: int| 0 <= k < 6 ==> (#[trigger] spec_loop_writes(a)[k]).led == spec_loop_writes(b)[k].led,
        spec_loop_writes(a)[0].led == Led::Blue && spec_loop_writes(a)[0].on == a.up,
        spec_loop_writes(a)[1].led == Led::Green && spec_loop_writes(a)[1].on == a.down,
        spec_loop_writes(a)[2].led == Led::Red && spec_loop_writes(a)[2].on == a.left,
        spec_loop_writes(a)[3].led == Led::Red && spec_loop_writes(a)[3].on == a.right,
        spec_loop_writes(a)[4].led == Led::Red && spec_loop_writes(a)[4].on == a.trackball_button,
        spec_loop_writes(a)[5].led == Led::Blue && spec_loop_writes(a)[5].on == a.button,
        a.up == b.up ==> spec_loop_writes(a)[0] == spec_loop_writes(b)[0],
        a.down == b.down ==> spec_loop_writes(a)[1] == spec_loop_writes(b)[1],
        a.left == b.left ==> spec_loop_writes(a)[2] == spec_loop_writes(b)[2],
        a.right == b.right ==> spec_loop_writes(a)[3] == spec_loop_writes(b)[3],
        a.trackball_button == b.trackball_button ==> spec_loop_writes(a)[4] == spec_loop_writes(b)[4],
        a.button == b.button ==> spec_loop_writes(a)[5] == spec_loop_writes(b)[5],
{
}

/// After start-up every LED is off, whatever the levels were before.
pub proof fn lemma_startup_turns_all_off(levels: LedLevels)
    ensures
        apply_writes(levels, spec_startup_writes()) == (LedLevels { red: false, green: false, blue: false }),
{
    reveal_with_fuel(apply_writes, 4);
    let w = spec_startup_writes();
    assert(w.drop_first() =~= seq![w[1], w[2]]);
    assert(w.drop_first().drop_first() =~= seq![w[2]]);
    assert(w.drop_first().drop_first().drop_first() =~= Seq::<LedWrite>::empty());
}

/// At the end of a pass, whatever the levels were before it, red shows the
/// trackball button, green shows the trackball moving down and blue shows
/// the board button.
pub proof fn lemma_pass_settles(levels: LedLevels, inputs: PanelInputs)
    ensures
        apply_writes(levels, spec_loop_writes(inputs)) == (LedLevels {
            red: inputs.trackball_button,
            green: inputs.down,
            blue: inputs.button,
        }),
{
    reveal_with_fuel(apply_writes, 7);
    let w = spec_loop_writes(inputs);
    assert(w.drop_first() =~= seq![w[1], w[2], w[3], w[4], w[5]]);
    assert(w.drop_first().drop_first() =~= seq![w[2], w[3], w[4], w[5]]);
    assert(w.drop_first().drop_first().drop_first() =~= seq![w[3], w[4], w[5]]);
    assert(w.drop_first().drop_first().drop_first().drop_first() =~= seq![w[4], w[5]]);
    assert(w.drop_first().drop_first().drop_first().drop_first().drop_first() =~= seq![w[5]]);
    assert(w.drop_first().drop_first().drop_first().drop_first().drop_first().drop_first()
        =~= Seq::<LedWrite>::empty());
}

} // verus!
