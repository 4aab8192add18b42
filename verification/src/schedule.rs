//! The frame: the fixed time slice in which the machine polls for a signal,
//! carries out one instruction, ticks its timers and shows its display.

use crate::input::{Event, Key, Keypad};
use crate::interpreter::Interpreter;
use crate::machine::{keypad_of, Fault, Step};
use vstd::prelude::*;

verus! {

/// The time that one frame is given, in nanoseconds.
pub const FRAME_BUDGET_NANOS: u32 = 1_000_000;

/// The time left of a frame's budget once `elapsed_nanos` have gone by: what
/// is to be slept off. A frame that overran its budget has nothing left.
pub fn frame_slack(elapsed_nanos: u128) -> (slack: Option<u32>)
    ensures
        elapsed_nanos < FRAME_BUDGET_NANOS ==> slack == Some(
            (FRAME_BUDGET_NANOS - elapsed_nanos) as u32,
        ),
        elapsed_nanos >= FRAME_BUDGET_NANOS ==> slack is None,
{
    if elapsed_nanos < FRAME_BUDGET_NANOS as u128 {
        Some(FRAME_BUDGET_NANOS - elapsed_nanos as u32)
    } else {
        None
    }
}

/// What the end of a frame asks of the output devices.
pub struct FrameEnd {
    /// Whether the tone is to sound.
    pub tone: bool,
    /// The grid to show, in row-major order, if it changed.
    pub picture: Option<Vec<bool>>,
}

impl Interpreter {
    /// The first half of a frame: reacts to the polled event, then carries
    /// out one instruction with the keys in `pressed` as the keypad. The
    /// result is `Ok(None)` if the user asked to quit, in which case nothing
    /// was carried out; otherwise it is what the instruction's own step gives.
    pub fn begin_frame(&mut self, event: Event, pressed: &[Key]) -> (result: Result<
        Option<Step>,
        Fault,
    >)
        requires
            old(self).wf(),
        ensures
            final(self).wf(),
            event is Quit ==> result == Ok::<Option<Step>, Fault>(None) && final(self)@ == old(
                self,
            )@,
            !(event is Quit) ==> match result {
                Ok(ending) => {
                    &&& old(self)@.polled(event, pressed@).fault() is None
                    &&& ending == Some(old(self)@.polled(event, pressed@).ending())
                    &&& exists|random: u8|
                        random < u8::MAX && final(self)@ == #[trigger] old(self)@.polled(
                            event,
                            pressed@,
                        ).step(random, keypad_of(pressed@))
                },
                Err(fault) => {
                    &&& old(self)@.polled(event, pressed@).fault() == Some(fault)
                    &&& final(self)@ == old(self)@.polled(event, pressed@)
                },
            },
    {
        if !self.poll(event, pressed) {
            return Ok(None);
        }
        let keypad = Keypad::from_keys(pressed);
        assert(keypad@ == keypad_of(pressed@));
        match self.cycle(&keypad) {
            Ok(ending) => Ok(Some(ending)),
            Err(fault) => Err(fault),
        }
    }

    /// The second half of a frame: ticks the timers and hands out the display
    /// if it changed.
    pub fn end_frame(&mut self) -> (end: FrameEnd)
        requires
            old(self).wf(),
        ensures
            final(self).wf(),
            final(self)@ == old(self)@.tick().shown(),
            end.tone == old(self)@.tone(),
            old(self)@.screen.dirty ==> end.picture is Some && end.picture->0@ == old(
                self,
            )@.screen.pixels,
            !old(self)@.screen.dirty ==> end.picture is None,
    {
        let tone = self.timer_routine();
        let picture = self.render_screen();
        FrameEnd { tone, picture }
    }
}

} // verus!
