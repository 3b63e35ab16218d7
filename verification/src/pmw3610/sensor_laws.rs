//! What comes of a reading, of a switch of smart mode and of a command.

use super::bus::{BusAction, BusEvent, Transfer};
use super::laws::burst_events;
use super::procedures::burst_script;
use super::registers::BURST_DATA_LEN_SMART;
use super::script::{Check, Instr, SessionState, SessionStatus};
use super::sensor::{Progress, SensorState, Task};
use super::types::{MotionData, Pmw3610Error};
use vstd::prelude::*;

verus! {

/// Whether `v` is the number that twelve bits, four above eight, stand for in two's
/// complement: the one in range that they agree with up to a multiple of 4096.
pub open spec fn encodes(high: int, low: int, v: int) -> bool {
    -2048 <= v < 2048 && (v - (high * 256 + low)) % 4096 == 0
}

/// Whether a burst encodes a movement. The low bytes of X and Y come after the status
/// byte, then one byte with the high bits of X above those of Y.
pub open spec fn burst_encodes(frame: Seq<u8>, motion: MotionData) -> bool {
    &&& encodes(frame[3] as int / 16, frame[1] as int, motion.dx as int)
    &&& encodes(frame[3] as int % 16, frame[2] as int, motion.dy as int)
}

/// The shutter value, high byte first, in the last two bytes of a burst.
pub open spec fn shutter(frame: Seq<u8>) -> int {
    frame[5] * 256 + frame[6]
}

/// Whether a burst calls for a switch of smart mode: the shutter value lies past 45 on
/// the side that the flag does not stand for yet.
pub open spec fn calls_for_switch(smart_flag: bool, frame: Seq<u8>) -> bool {
    if smart_flag {
        shutter(frame) < 45
    } else {
        shutter(frame) > 45
    }
}

/// Whether `event` ends the script under way without an error, with `frame` as the
/// bytes received last.
pub open spec fn ends_well(s: SensorState, event: BusEvent, frame: Seq<u8>) -> bool {
    &&& s.session.next(event).status() == SessionStatus::Over(Ok(()))
    &&& s.session.next(event).frame == frame
}

/// A burst without the motion bit is a reading without movement, whatever its other
/// bytes are. It is over, and smart mode stays as it is.
pub proof fn law_burst_without_motion(s: SensorState, event: BusEvent, frame: Seq<u8>)
    requires
        s.wf(),
        s.awaits(event),
        s.task is Burst,
        ends_well(s, event, frame),
        frame[0] < 128,
    ensures
        s.next(event).1 == Progress::Moved(Ok(MotionData { dx: 0, dy: 0 })),
        s.next(event).0.task is Idle,
        s.next(event).0.smart_flag == s.smart_flag,
{
}

/// A burst with the motion bit is a reading of the movement that its bytes encode, with
/// and without smart mode. The reading is over at once, or the movement is kept until
/// smart mode has been switched, which happens in smart mode alone and only where the
/// shutter value calls for it. The flag then is to be turned over.
pub proof fn law_burst_with_motion(
    s: SensorState,
    event: BusEvent,
    frame: Seq<u8>,
    motion: MotionData,
)
    requires
        s.wf(),
        s.awaits(event),
        s.task is Burst,
        ends_well(s, event, frame),
        frame[0] >= 128,
        burst_encodes(frame, motion),
    ensures
        ({
            let (next, progress) = s.next(event);
            &&& next.smart_flag == s.smart_flag
            &&& if s.config.smart_mode && calls_for_switch(s.smart_flag, frame) {
                &&& progress == Progress::Perform(BusAction::Select)
                &&& next.task == (Task::SmartSwitch { motion, smart_flag: !s.smart_flag })
                &&& next.session == SessionState::start(
                    super::procedures::smart_script(!s.smart_flag),
                )
            } else {
                &&& progress == Progress::Moved(Ok(motion))
                &&& next.task is Idle
            }
        }),
{
}

/// Every burst encodes a movement, and only one.
pub proof fn law_burst_encodes_one_movement(frame: Seq<u8>, a: MotionData, b: MotionData)
    ensures
        burst_encodes(frame, super::motion::motion_of(frame)),
        burst_encodes(frame, a) && burst_encodes(frame, b) ==> a == b,
{
    if burst_encodes(frame, a) && burst_encodes(frame, b) {
        assert(a.dx == b.dx && a.dy == b.dy);
    }
}

/// A switch of smart mode that succeeds ends the reading with the movement that was
/// kept for it, and the flag takes on its new value.
pub proof fn law_switch_ends_reading(
    s: SensorState,
    event: BusEvent,
    motion: MotionData,
    smart_flag: bool,
)
    requires
        s.wf(),
        s.awaits(event),
        s.task == (Task::SmartSwitch { motion, smart_flag }),
        s.session.next(event).status() == SessionStatus::Over(Ok(())),
    ensures
        s.next(event).1 == Progress::Moved(Ok(motion)),
        s.next(event).0.smart_flag == smart_flag,
        s.next(event).0.task is Idle,
{
}

/// A script that ends with an error hands it out, as that of a reading or that of a
/// command, and changes the flag in neither case.
pub proof fn law_error_ends_task(s: SensorState, event: BusEvent, error: Pmw3610Error)
    requires
        s.wf(),
        s.awaits(event),
        s.session.next(event).status() == SessionStatus::Over(Err(error)),
    ensures
        s.next(event).1 == if s.task is Command {
            Progress::Finished(Err(error))
        } else {
            Progress::Moved(Err(error))
        },
        s.next(event).0.task is Idle,
        s.next(event).0.smart_flag == s.smart_flag,
{
}

/// A command whose script ends without an error is over without one.
pub proof fn law_command_ends(s: SensorState, event: BusEvent)
    requires
        s.wf(),
        s.awaits(event),
        s.task is Command,
        s.session.next(event).status() == SessionStatus::Over(Ok(())),
    ensures
        s.next(event).1 == Progress::Finished(Ok(())),
        s.next(event).0.task is Idle,
        s.next(event).0.smart_flag == s.smart_flag,
{
}

/// While its script goes on, a task goes on with it: the next action of the script is
/// asked for, and nothing else changes.
pub proof fn law_task_goes_on_with_script(s: SensorState, event: BusEvent, action: BusAction)
    requires
        s.wf(),
        s.awaits(event),
        s.session.next(event).status() == SessionStatus::Perform(action),
    ensures
        s.next(event).1 == Progress::Perform(action),
        s.next(event).0 == (SensorState { session: s.session.next(event), ..s }),
{
}

/// Beginning a script keeps configuration and flag, and starts at its first instruction
/// with no error.
pub proof fn law_begin_starts_afresh(s: SensorState, task: Task, script: Seq<Instr>)
    ensures
        ({
            let begun = s.begin(task, script);
            &&& begun.config == s.config && begun.smart_flag == s.smart_flag
            &&& begun.task == task
            &&& begun.session.script == script
            &&& begun.session.pc == 0 && begun.session.step == 0
            &&& begun.session.error is None
        }),
{
}

impl SensorState {
    /// The driver after the events.
    pub open spec fn after(self, events: Seq<BusEvent>) -> SensorState
        decreases events.len(),
    {
        if events.len() == 0 {
            self
        } else {
            self.next(events[0]).0.after(events.skip(1))
        }
    }

    /// Whether each of the events leads on to another action.
    pub open spec fn goes_on_over(self, events: Seq<BusEvent>) -> bool
        decreases events.len(),
    {
        events.len() > 0 ==> {
            &&& self.next(events[0]).1 is Perform
            &&& self.next(events[0]).0.goes_on_over(events.skip(1))
        }
    }
}

/// A reading whose burst the bus carries out, up to its last action.
pub proof fn law_burst_up_to_last_action(s: SensorState, frame: [u8; BURST_DATA_LEN_SMART])
    requires
        s.task is Burst,
        s.session == SessionState::start(burst_script(s.burst_len())),
    ensures
        ({
            let events = burst_events(frame).take(7);
            let last = s.after(events);
            &&& s.goes_on_over(events)
            &&& last.wf() && last.task is Burst && last.awaits(BusEvent::Done)
            &&& last.config == s.config && last.smart_flag == s.smart_flag
            &&& ends_well(last, BusEvent::Done, frame@)
        }),
{
    let events = burst_events(frame).take(7);
    assert(events.skip(1).skip(1).skip(1).skip(1)[0] == events[4]);
    reveal_with_fuel(SensorState::after, 8);
    reveal_with_fuel(SensorState::goes_on_over, 8);
}

/// A reading on a bus that carries it out takes eight actions, and comes to the movement
/// that the received bytes encode, or to none without the motion bit. In smart mode the
/// same bytes come to the same movement, at once or after the switch.
pub proof fn law_reading_delivers_movement(
    s: SensorState,
    frame: [u8; BURST_DATA_LEN_SMART],
    motion: MotionData,
)
    requires
        burst_encodes(frame@, motion),
    ensures
        ({
            let begun = s.begin(Task::Burst, burst_script(s.burst_len()));
            let last = begun.after(burst_events(frame).take(7));
            let (end, progress) = last.next(BusEvent::Done);
            &&& last.awaits(BusEvent::Done)
            &&& if frame@[0] < 128 {
                &&& progress == Progress::Moved(Ok(MotionData { dx: 0, dy: 0 }))
                &&& end.smart_flag == s.smart_flag
            } else if s.config.smart_mode && calls_for_switch(s.smart_flag, frame@) {
                end.task == (Task::SmartSwitch { motion, smart_flag: !s.smart_flag })
            } else {
                &&& progress == Progress::Moved(Ok(motion))
                &&& end.smart_flag == s.smart_flag
            }
        }),
{
    let begun = s.begin(Task::Burst, burst_script(s.burst_len()));
    let last = begun.after(burst_events(frame).take(7));
    law_burst_up_to_last_action(begun, frame);
    if frame@[0] < 128 {
        law_burst_without_motion(last, BusEvent::Done, frame@);
    } else {
        law_burst_with_motion(last, BusEvent::Done, frame@, motion);
    }
}

/// A reading asks for one burst, from the burst register, of seven bytes in smart mode
/// and of four without.
pub proof fn law_reading_asks_for_burst(s: SensorState)
    ensures
        burst_script(s.burst_len()) == seq![
            Instr::Burst {
                addr: 0x12,
                len: if s.config.smart_mode {
                    7
                } else {
                    4
                },
            },
        ],
{
}

/// A read selects the sensor, clocks out the address with its top bit clear, clocks in
/// the bytes and deselects the sensor, with the pauses of the datasheet between.
pub proof fn law_read_transfer(addr: u8, len: usize)
    ensures
        ({
            let burst = (Transfer::ReadBurst { addr, len }).steps();
            let single = (Transfer::ReadReg { addr }).steps();
            &&& burst.len() == 8
            &&& burst[0] is Select && burst[6] is Deselect && burst[5] is ShortDelay
            &&& burst[2] matches BusAction::SendAddress { byte } && byte == addr % 128
            &&& burst[4] == (BusAction::Receive { len })
            &&& burst[1] == (BusAction::Delay { ticks: 1 })
            &&& burst[3] == (BusAction::Delay { ticks: 5 })
            &&& burst[7] == (BusAction::Delay { ticks: 2 })
            &&& single == burst.update(4, BusAction::Receive { len: 1 })
        }),
{
    assert(addr & 0x7fu8 == addr % 128) by (bit_vector);
    let burst = (Transfer::ReadBurst { addr, len }).steps();
    assert((Transfer::ReadReg { addr }).steps() =~= burst.update(4, BusAction::Receive { len: 1 }));
}

/// A write selects the sensor, clocks out the address with its top bit set and the
/// value, and deselects the sensor, with the pauses of the datasheet between.
pub proof fn law_write_transfer(addr: u8, value: u8)
    ensures
        ({
            let steps = (Transfer::WriteReg { addr, value }).steps();
            &&& steps.len() == 6
            &&& steps[0] is Select && steps[4] is Deselect
            &&& steps[2] matches BusAction::SendWrite { byte, value: sent } && byte == 128 + addr
                % 128 && sent == value
            &&& steps[1] == (BusAction::Delay { ticks: 1 })
            &&& steps[3] == (BusAction::Delay { ticks: 20 })
            &&& steps[5] == (BusAction::Delay { ticks: 35 })
        }),
{
    assert(addr | 0x80u8 == 128 + addr % 128) by (bit_vector);
}

/// Clocking in bytes comes to bytes or an error, clocking them out to an end or an
/// error, and everything else just to its end.
pub proof fn law_answers(action: BusAction, event: BusEvent)
    ensures
        action.answered_by(event) <==> match event {
            BusEvent::Done => !(action is Receive),
            BusEvent::Failed => action is Receive || action is SendAddress || action is SendWrite,
            BusEvent::Received { .. } => action is Receive,
        },
{
}

/// A busy driver has an action under way and takes in exactly what can come of it. One
/// at rest takes in nothing.
pub proof fn law_busy_driver_awaits_answer(s: SensorState, event: BusEvent)
    requires
        s.wf(),
    ensures
        s.task is Idle ==> !s.awaits(event),
        !(s.task is Idle) ==> (s.session.status() matches SessionStatus::Perform(action) && (
        s.awaits(event) <==> action.answered_by(event))),
{
}

/// A session keeps the bytes that it received last, the first of them as the value read
/// last. Nothing else changes them.
pub proof fn law_session_keeps_received_bytes(s: SessionState, event: BusEvent)
    requires
        s.wf(),
        s.awaits(event),
    ensures
        match event {
            BusEvent::Received { frame } => {
                &&& s.next(event).frame == frame@
                &&& s.next(event).latch == frame@[0]
            },
            _ => {
                &&& s.next(event).frame == s.frame
                &&& s.next(event).latch == s.latch
            },
        },
        s.next(event).script == s.script,
{
}

/// A session skips nothing and repeats nothing: what answers an action leads to the next
/// action of the same instruction, or, once that has none left, to the first of the next
/// instruction. A tested value that fails its test ends the script there.
pub proof fn law_session_skips_nothing(s: SessionState, event: BusEvent)
    requires
        s.wf(),
        s.awaits(event),
        !(event is Failed),
    ensures
        ({
            let next = s.next(event);
            let steps = s.script[s.pc].steps(s.latch);
            if s.step < steps.len() - 1 {
                next.pc == s.pc && next.step == s.step + 1 && next.error == s.error
            } else {
                &&& next.pc == s.pc + 1 && next.step == 0
                &&& next.error == match s.script[s.pc] {
                    Instr::Read { check, .. } => check.verdict(next.latch),
                    _ => None,
                }
            }
        }),
{
    assert(s.script[s.pc].steps(s.next(event).latch).len() == s.script[s.pc].steps(s.latch).len());
}

/// A session asks for the action that it has come to. It is over with the first error, at
/// an instruction to give up, or past the last instruction, and only then.
pub proof fn law_session_asks_for_its_action(s: SessionState)
    requires
        s.wf(),
    ensures
        ({
            let given_up = s.pc < s.script.len() && s.script[s.pc] is Fail;
            if s.error is Some {
                s.status() == SessionStatus::Over(Err(s.error->0))
            } else if s.pc == s.script.len() {
                s.status() == SessionStatus::Over(Ok(()))
            } else if given_up {
                s.status() == SessionStatus::Over(Err(s.script[s.pc]->error))
            } else {
                s.status() == SessionStatus::Perform(s.script[s.pc].steps(s.latch)[s.step])
            }
        }),
{
}

/// A product ID passes if it is 0x3e and is named in the error if not; a self-test result
/// passes with its low four bits set. A value that is read for nothing passes.
pub proof fn law_tests_of_values(value: u8)
    ensures
        Check::ProductId.verdict(value) is None <==> value == 0x3e,
        Check::ProductId.verdict(value) matches Some(error) ==> error
            == Pmw3610Error::InvalidProductId(value),
        Check::Observation1.verdict(value) is None <==> value % 16 == 15,
        Check::Observation1.verdict(value) matches Some(error) ==> error
            == Pmw3610Error::InitFailed,
        Check::Nothing.verdict(value) is None,
{
    assert(value & 0x0fu8 == 0x0fu8 <==> value % 16 == 15) by (bit_vector);
}

/// Coming to rest changes nothing but the task.
pub proof fn law_rest_keeps_all_but_task(s: SensorState)
    ensures
        s.rest() == (SensorState { task: Task::Idle, ..s }),
{
}

} // verus!
