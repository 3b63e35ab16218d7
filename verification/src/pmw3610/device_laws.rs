//! What holds of a device whatever happens to it.

use super::bus::{BusAction, BusEvent};
use super::device::{
    DeviceAction, DeviceEvent, DeviceState, InitState, Phase, MAX_INIT_RETRIES,
};
use super::laws::burst_events;
use super::registers::BURST_DATA_LEN_SMART;
use super::script::{Instr, SessionState};
use super::sensor::{PinReading, Progress};
use super::sensor_laws::{
    burst_encodes, calls_for_switch, law_burst_up_to_last_action, law_burst_with_motion,
};
use super::types::{MotionData, Pmw3610Config, Pmw3610Error};
use crate::event::{planar, Axis, AxisEvent, AxisValType};
use vstd::prelude::*;

verus! {

impl DeviceState {
    /// Whether the events, each with its time, answer one after the other what the
    /// device waits for, and no time lies before the last emitted event.
    pub open spec fn accepts(self, events: Seq<(DeviceEvent, u64)>) -> bool
        decreases events.len(),
    {
        events.len() > 0 ==> {
            &&& self.awaits(events[0].0)
            &&& self.not_after(events[0].1)
            &&& self.next(events[0].0, events[0].1).0.accepts(events.skip(1))
        }
    }

    /// How many times the events make the device begin to initialise the sensor.
    pub open spec fn attempts_in(self, events: Seq<(DeviceEvent, u64)>) -> nat
        decreases events.len(),
    {
        if events.len() == 0 {
            0
        } else {
            let next = self.next(events[0].0, events[0].1).0;
            let begun: nat = if next.phase is Initializing && !(self.phase is Initializing) {
                1
            } else {
                0
            };
            begun + next.attempts_in(events.skip(1))
        }
    }

    /// The device after the events.
    pub open spec fn after(self, events: Seq<(DeviceEvent, u64)>) -> DeviceState
        decreases events.len(),
    {
        if events.len() == 0 {
            self
        } else {
            self.next(events[0].0, events[0].1).0.after(events.skip(1))
        }
    }

    /// Whether the device accepts the readings one after the other, each of them the
    /// events that follow a call of `read_event`, and none of them is broken off while
    /// the sensor is being initialised.
    pub open spec fn accepts_readings(self, readings: Seq<Seq<(DeviceEvent, u64)>>) -> bool
        decreases readings.len(),
    {
        readings.len() > 0 ==> {
            let begun = self.poll().0;
            &&& begun.accepts(readings[0])
            &&& !(begun.after(readings[0]).phase is Initializing)
            &&& begun.after(readings[0]).accepts_readings(readings.skip(1))
        }
    }

    /// How many times the readings make the device begin to initialise the sensor.
    pub open spec fn attempts_in_readings(self, readings: Seq<Seq<(DeviceEvent, u64)>>) -> nat
        decreases readings.len(),
    {
        if readings.len() == 0 {
            0
        } else {
            let begun = self.poll().0;
            begun.attempts_in(readings[0]) + begun.after(readings[0]).attempts_in_readings(
                readings.skip(1),
            )
        }
    }

    /// How many times the device may still begin to initialise the sensor.
    pub open spec fn attempts_left(self) -> int {
        let attempts = match self.init_state {
            InitState::Pending => MAX_INIT_RETRIES as int,
            InitState::Initializing(failures) => MAX_INIT_RETRIES - failures,
            InitState::Ready => 0,
            InitState::Failed => 0,
        };
        if self.phase is Initializing {
            attempts - 1
        } else {
            attempts
        }
    }
}

/// Every event that the device waits for leaves it well-formed.
pub proof fn law_next_keeps_wf(s: DeviceState, event: DeviceEvent, now: u64)
    requires
        s.wf(),
        s.awaits(event),
    ensures
        s.next(event, now).0.wf(),
{
    match event {
        DeviceEvent::Bus(bus) => {
            super::trace::law_next_keeps_wf(s.sensor.session, bus);
        },
        _ => {},
    }
}

/// However long a device goes on reading an event, it begins to initialise its
/// sensor three times at the most, and each time leaves it with one time fewer.
pub proof fn law_init_attempts_bounded(s: DeviceState, events: Seq<(DeviceEvent, u64)>)
    requires
        s.wf(),
        s.accepts(events),
    ensures
        s.attempts_in(events) <= s.attempts_left() <= MAX_INIT_RETRIES,
        s.attempts_in(events) + s.after(events).attempts_left() <= s.attempts_left(),
        s.after(events).wf(),
    decreases events.len(),
{
    if events.len() > 0 {
        let (event, now) = events[0];
        law_next_keeps_wf(s, event, now);
        law_init_attempts_bounded(s.next(event, now).0, events.skip(1));
    }
}

/// Nor does it begin more often over any number of readings, as long as none of them
/// is broken off while the sensor is being initialised.
pub proof fn law_init_attempts_bounded_over_readings(
    s: DeviceState,
    readings: Seq<Seq<(DeviceEvent, u64)>>,
)
    requires
        s.wf(),
        !(s.phase is Initializing),
        s.accepts_readings(readings),
    ensures
        s.attempts_in_readings(readings) <= s.attempts_left() <= MAX_INIT_RETRIES,
    decreases readings.len(),
{
    if readings.len() > 0 {
        let begun = s.poll().0;
        law_init_attempts_bounded(begun, readings[0]);
        law_init_attempts_bounded_over_readings(begun.after(readings[0]), readings.skip(1));
    }
}

/// A device that has been given up stays so, and does nothing but wait: it never
/// uses the bus, looks at the pin or emits an event again.
pub proof fn law_failed_device_only_waits(s: DeviceState, event: DeviceEvent, now: u64)
    requires
        s.wf(),
        s.init_state is Failed,
        s.awaits(event),
    ensures
        s.next(event, now).0.init_state is Failed,
        s.next(event, now).1 == (DeviceAction::Sleep { ticks: s.poll_interval }),
{
}

/// A device that is ready stays so.
pub proof fn law_ready_device_stays_ready(s: DeviceState, event: DeviceEvent, now: u64)
    requires
        s.wf(),
        s.init_state is Ready,
        s.awaits(event),
    ensures
        s.next(event, now).0.init_state is Ready,
{
}

/// Only a device that is ready emits events. An event without movement is a
/// heartbeat that was decided on before. The time of each event is remembered.
pub proof fn law_events_come_from_ready_device(s: DeviceState, event: DeviceEvent, now: u64)
    requires
        s.wf(),
        s.awaits(event),
        s.next(event, now).1 is Emit,
    ensures
        s.init_state is Ready,
        s.next(event, now).0.last_event_time == Some(now),
        s.next(event, now).0.phase is Idle,
        s.next(event, now).1 == DeviceAction::Emit(planar(0, 0)) ==> s.heartbeat_pending(),
{
    if s.phase is Reading {
        let bus = event->Bus_0;
        match s.sensor.next(bus).1 {
            Progress::Moved(Ok(motion)) => {
                let axes = planar(motion.dx, motion.dy);
                assert(axes[0].value == motion.dx && axes[1].value == motion.dy);
                assert(planar(0, 0)[0].value == 0 && planar(0, 0)[1].value == 0);
            },
            _ => {},
        }
    }
}

/// A device decides on a heartbeat exactly where an event has been emitted and the
/// last one is at least a heartbeat interval old. So there is none before the
/// first movement.
pub proof fn law_heartbeat_decision(s: DeviceState, event: DeviceEvent, now: u64)
    requires
        s.wf(),
        s.awaits(event),
        s.next(event, now).0.phase is Sampling,
    ensures
        s.next(event, now).0.phase == (Phase::Sampling { need_heartbeat: s.heartbeat_due(now) }),
        s.last_event_time is None ==> !s.heartbeat_due(now),
{
}

/// Movement is delivered as it was read. A reading without movement delivers a
/// heartbeat where one is due, and nothing else; one with an error delivers nothing.
pub proof fn law_movement_is_delivered(s: DeviceState, event: DeviceEvent, now: u64)
    requires
        s.wf(),
        s.awaits(event),
        s.phase is Reading,
        event is Bus,
    ensures
        match s.sensor.next(event->Bus_0).1 {
            Progress::Moved(Ok(motion)) => if motion.dx != 0 || motion.dy != 0 {
                s.next(event, now).1 == DeviceAction::Emit(planar(motion.dx, motion.dy))
            } else if s.heartbeat_pending() {
                s.next(event, now).1 == DeviceAction::Emit(planar(0, 0))
            } else {
                s.next(event, now).1 == (DeviceAction::Sleep { ticks: s.poll_interval })
            },
            Progress::Moved(Err(_)) => s.next(event, now).1 == (DeviceAction::Sleep {
                ticks: s.poll_interval,
            }),
            Progress::Perform(action) => s.next(event, now).1 == DeviceAction::Bus(action),
            Progress::Finished(_) => false,
        },
{
}

/// A heartbeat that is due is not lost to the motion pin: a high pin delivers it at
/// once, and any other reading of the pin hands it on to the reading of the sensor.
pub proof fn law_due_heartbeat_outlives_pin(s: DeviceState, reading: PinReading, now: u64)
    requires
        s.wf(),
        s.phase == (Phase::Sampling { need_heartbeat: true }),
    ensures
        ({
            let (next, action) = s.next(DeviceEvent::Pin(reading), now);
            if reading is High {
                action == DeviceAction::Emit(planar(0, 0))
            } else {
                next.phase is Reading && next.heartbeat_pending()
            }
        }),
{
}

/// A heartbeat that is due stays so while the sensor is being read.
pub proof fn law_due_heartbeat_outlives_bus_actions(s: DeviceState, event: DeviceEvent, now: u64)
    requires
        s.wf(),
        s.awaits(event),
        s.phase is Reading,
        s.next(event, now).1 is Bus,
    ensures
        s.next(event, now).0.phase == s.phase,
{
}

/// Every emitted event holds relative movement along X, Y and Z in this order: X and
/// Y within twelve bits, and Z zero.
pub proof fn law_emitted_movement_in_range(s: DeviceState, event: DeviceEvent, now: u64)
    requires
        s.wf(),
        s.awaits(event),
        s.next(event, now).1 is Emit,
    ensures
        s.next(event, now).1 matches DeviceAction::Emit(axes) && {
            &&& axes == planar(axes[0].value, axes[1].value)
            &&& -2048 <= axes[0].value <= 2047
            &&& -2048 <= axes[1].value <= 2047
            &&& axes[2].value == 0
        },
{
    let motion = if s.phase is Reading {
        s.sensor.next(event->Bus_0).1->Moved_0->Ok_0
    } else {
        MotionData { dx: 0, dy: 0 }
    };
    assert(planar(motion.dx, motion.dy)[0].value == motion.dx);
    assert(planar(motion.dx, motion.dy)[1].value == motion.dy);
    assert(planar(motion.dx, motion.dy)[2].value == 0);
}

/// Whatever the pin reads as but high, the sensor is read at once: whether or not a
/// heartbeat is due and however long ago the last event was. The reading is a burst from
/// its start, of seven bytes in smart mode and of four without, and whether a heartbeat
/// is due is kept for its end.
pub proof fn law_pending_motion_is_read(s: DeviceState, reading: PinReading, now: u64)
    requires
        s.wf(),
        s.phase is Sampling,
        reading != PinReading::High,
    ensures
        ({
            let (next, action) = s.next(DeviceEvent::Pin(reading), now);
            let len: usize = if s.sensor.config.smart_mode {
                7
            } else {
                4
            };
            &&& s.awaits(DeviceEvent::Pin(reading))
            &&& action == DeviceAction::Bus(BusAction::Select)
            &&& next.phase == (Phase::Reading {
                need_heartbeat: s.phase->Sampling_need_heartbeat,
            })
            &&& next.sensor.task is Burst
            &&& next.sensor.session == SessionState::start(seq![Instr::Burst { addr: 0x12, len }])
            &&& next.sensor.smart_flag == s.sensor.smart_flag
            &&& next.last_event_time == s.last_event_time
        }),
{
}

/// A high pin never has the sensor read. It lets a heartbeat that is due go out, and else
/// the device waits for the poll interval.
pub proof fn law_high_pin_reads_nothing(s: DeviceState, now: u64)
    requires
        s.wf(),
        s.phase is Sampling,
    ensures
        ({
            let (next, action) = s.next(DeviceEvent::Pin(PinReading::High), now);
            &&& s.awaits(DeviceEvent::Pin(PinReading::High))
            &&& next.sensor == s.sensor
            &&& if s.phase == (Phase::Sampling { need_heartbeat: true }) {
                action == DeviceAction::Emit(planar(0, 0)) && next.phase is Idle
            } else {
                action == (DeviceAction::Sleep { ticks: s.poll_interval }) && next.phase is Polling
            }
        }),
{
}

/// The axis events of a movement are relative ones along X, Y and Z in this order, with
/// Z at rest.
pub proof fn law_axes_of_movement(dx: i16, dy: i16)
    ensures
        planar(dx, dy)@ == seq![
            AxisEvent { typ: AxisValType::Rel, axis: Axis::X, value: dx },
            AxisEvent { typ: AxisValType::Rel, axis: Axis::Y, value: dy },
            AxisEvent { typ: AxisValType::Rel, axis: Axis::Z, value: 0 },
        ],
{
    assert(planar(dx, dy)@ =~= seq![
        AxisEvent { typ: AxisValType::Rel, axis: Axis::X, value: dx },
        AxisEvent { typ: AxisValType::Rel, axis: Axis::Y, value: dy },
        AxisEvent { typ: AxisValType::Rel, axis: Axis::Z, value: 0 },
    ]);
}

/// The end of a reading decides on an event: any movement goes out, the lack of it only
/// where the reading was begun with a heartbeat due, and an error never. Without an event
/// the device waits for the poll interval.
pub proof fn law_reading_ends_in_event_or_poll(
    s: DeviceState,
    bus: BusEvent,
    now: u64,
    result: Result<MotionData, Pmw3610Error>,
)
    requires
        s.wf(),
        s.phase is Reading,
        s.awaits(DeviceEvent::Bus(bus)),
        s.sensor.next(bus).1 == Progress::Moved(result),
    ensures
        ({
            let (next, action) = s.next(DeviceEvent::Bus(bus), now);
            let due = s.phase == (Phase::Reading { need_heartbeat: true });
            &&& next.sensor == s.sensor.next(bus).0
            &&& match result {
                Ok(motion) => if motion.dx == 0 && motion.dy == 0 && !due {
                    action == (DeviceAction::Sleep { ticks: s.poll_interval })
                        && next.phase is Polling
                } else {
                    action == DeviceAction::Emit(planar(motion.dx, motion.dy))
                        && next.phase is Idle
                },
                Err(_) => action == (DeviceAction::Sleep { ticks: s.poll_interval })
                    && next.phase is Polling,
            }
        }),
{
}

/// Bus events as a device takes them in, all at one time.
pub open spec fn on_device(events: Seq<BusEvent>, now: u64) -> Seq<(DeviceEvent, u64)> {
    events.map_values(|event: BusEvent| (DeviceEvent::Bus(event), now))
}

/// As long as the sensor goes on, the device does nothing but follow it.
pub proof fn law_device_follows_sensor(s: DeviceState, events: Seq<BusEvent>, now: u64)
    requires
        s.phase is Initializing || s.phase is Reading,
        s.sensor.goes_on_over(events),
    ensures
        s.after(on_device(events, now)) == (DeviceState { sensor: s.sensor.after(events), ..s }),
    decreases events.len(),
{
    if events.len() > 0 {
        let next = s.next(DeviceEvent::Bus(events[0]), now).0;
        assert(on_device(events, now).skip(1) =~= on_device(events.skip(1), now));
        law_device_follows_sensor(next, events.skip(1), now);
    }
}

/// From a pin that is not high to the event: on a bus that carries out the burst, the
/// device emits exactly the movement that the received bytes encode, without smart mode
/// or where smart mode need not be switched.
pub proof fn law_pending_movement_comes_out(
    s: DeviceState,
    reading: PinReading,
    frame: [u8; BURST_DATA_LEN_SMART],
    motion: MotionData,
    now: u64,
)
    requires
        s.wf(),
        s.phase is Sampling,
        reading != PinReading::High,
        frame@[0] >= 128,
        burst_encodes(frame@, motion),
        motion.dx != 0 || motion.dy != 0,
        !s.sensor.config.smart_mode || !calls_for_switch(s.sensor.smart_flag, frame@),
    ensures
        ({
            let last = s.next(DeviceEvent::Pin(reading), now).0.after(
                on_device(burst_events(frame).take(7), now),
            );
            let (end, action) = last.next(DeviceEvent::Bus(BusEvent::Done), now);
            &&& last.awaits(DeviceEvent::Bus(BusEvent::Done))
            &&& action == DeviceAction::Emit(planar(motion.dx, motion.dy))
            &&& end.last_event_time == Some(now)
        }),
{
    law_pending_motion_is_read(s, reading, now);
    let begun = s.next(DeviceEvent::Pin(reading), now).0;
    let events = burst_events(frame).take(7);
    law_burst_up_to_last_action(begun.sensor, frame);
    law_device_follows_sensor(begun, events, now);
    let last = begun.after(on_device(events, now));
    law_burst_with_motion(last.sensor, BusEvent::Done, frame@, motion);
}

/// No event changes the configuration of the sensor or the intervals. The time of the
/// last event is that of the last one emitted.
pub proof fn law_settings_stay(s: DeviceState, event: DeviceEvent, now: u64)
    requires
        s.wf(),
        s.awaits(event),
    ensures
        ({
            let (next, action) = s.next(event, now);
            &&& next.sensor.config == s.sensor.config
            &&& next.poll_interval == s.poll_interval
            &&& next.heartbeat_interval == s.heartbeat_interval
            &&& next.last_event_time == if action is Emit {
                Some(now)
            } else {
                s.last_event_time
            }
        }),
{
}

/// A new device has nothing initialised and nothing emitted, and a heartbeat interval of
/// fifty milliseconds.
pub proof fn law_new_device(config: Pmw3610Config, poll_interval: u64)
    ensures
        ({
            let s = DeviceState::fresh(config, poll_interval);
            &&& s.init_state is Pending && s.phase is Idle && s.last_event_time is None
            &&& s.poll_interval == poll_interval && s.heartbeat_interval == 50_000
            &&& s.sensor.config == config && s.sensor.task is Idle && !s.sensor.smart_flag
        }),
{
}

/// Reading an event begins with the poll interval, and changes nothing but that.
pub proof fn law_reading_event_begins_with_pause(s: DeviceState)
    ensures
        s.poll().0 == (DeviceState { phase: Phase::Polling, ..s }),
        s.poll().1 == (DeviceAction::Sleep { ticks: s.poll_interval }),
{
}

/// Once the poll interval has passed, a ready device looks at the pin, and knows by then
/// whether a heartbeat is due: an event was emitted, at least a heartbeat interval ago.
/// One that is not ready begins to bring its sensor up, after as many failures as there
/// were; one that is given up waits again.
pub proof fn law_poll_interval_passed(s: DeviceState, now: u64)
    requires
        s.wf(),
        s.phase is Polling,
    ensures
        ({
            let (next, action) = s.next(DeviceEvent::Elapsed, now);
            &&& s.awaits(DeviceEvent::Elapsed)
            &&& match s.init_state {
                InitState::Ready => {
                    &&& action is SamplePin
                    &&& next.phase is Sampling && next.sensor == s.sensor
                    &&& next.phase->Sampling_need_heartbeat <==> (s.last_event_time is Some && now
                        >= s.last_event_time->0 + s.heartbeat_interval)
                },
                InitState::Failed => {
                    &&& action == (DeviceAction::Sleep { ticks: s.poll_interval })
                    &&& next == s
                },
                _ => {
                    &&& action == DeviceAction::Bus(BusAction::Deselect)
                    &&& next.phase is Initializing && next.sensor.task is Command
                    &&& next.sensor.session == SessionState::start(
                        super::procedures::init_script(s.sensor.config),
                    )
                    &&& next.init_state == if s.init_state is Pending {
                        InitState::Initializing(0)
                    } else {
                        s.init_state
                    }
                },
            }
        }),
{
}

/// An attempt to bring the sensor up that succeeds makes the device ready, and it looks at
/// the pin at once. One that fails counts: after the third the device is given up, and
/// before that it pauses for a hundred milliseconds.
pub proof fn law_init_attempt_ends(
    s: DeviceState,
    bus: BusEvent,
    now: u64,
    failures: u8,
    result: Result<(), Pmw3610Error>,
)
    requires
        s.wf(),
        s.phase is Initializing,
        s.awaits(DeviceEvent::Bus(bus)),
        s.init_state == InitState::Initializing(failures),
        s.sensor.next(bus).1 == Progress::Finished(result),
    ensures
        ({
            let (next, action) = s.next(DeviceEvent::Bus(bus), now);
            &&& next.sensor == s.sensor.next(bus).0
            &&& if result is Ok {
                &&& next.init_state is Ready && next.phase is Sampling && action is SamplePin
                &&& next.phase->Sampling_need_heartbeat <==> (s.last_event_time is Some && now
                    >= s.last_event_time->0 + s.heartbeat_interval)
            } else if failures == 2 {
                &&& next.init_state is Failed && next.phase is Polling
                &&& action == (DeviceAction::Sleep { ticks: s.poll_interval })
            } else {
                &&& next.init_state == InitState::Initializing((failures + 1) as u8)
                &&& next.phase is RetryPause
                &&& action == (DeviceAction::Sleep { ticks: 100_000 })
            }
        }),
{
}

/// The pause after a failed attempt is followed by the poll interval, and nothing else
/// changes.
pub proof fn law_pause_is_followed_by_poll(s: DeviceState, now: u64)
    requires
        s.wf(),
        s.phase is RetryPause,
    ensures
        s.awaits(DeviceEvent::Elapsed),
        s.next(DeviceEvent::Elapsed, now).0 == (DeviceState { phase: Phase::Polling, ..s }),
        s.next(DeviceEvent::Elapsed, now).1 == (DeviceAction::Sleep { ticks: s.poll_interval }),
{
}

/// While the sensor is at work, each of its bus actions is handed on, and the device stays
/// where it is.
pub proof fn law_bus_actions_are_handed_on(
    s: DeviceState,
    bus: BusEvent,
    now: u64,
    action: BusAction,
)
    requires
        s.wf(),
        s.awaits(DeviceEvent::Bus(bus)),
        s.sensor.next(bus).1 == Progress::Perform(action),
    ensures
        s.next(DeviceEvent::Bus(bus), now).0 == (DeviceState { sensor: s.sensor.next(bus).0, ..s }),
        s.next(DeviceEvent::Bus(bus), now).1 == DeviceAction::Bus(action),
{
}

/// A device takes in exactly what can come of what it asked for: the end of a pause, any
/// reading of the pin, or what the sensor's bus action can come to. Between events it
/// takes in nothing.
pub proof fn law_device_awaits_answer(s: DeviceState, event: DeviceEvent)
    requires
        s.wf(),
    ensures
        s.awaits(event) <==> match event {
            DeviceEvent::Elapsed => s.phase is Polling || s.phase is RetryPause,
            DeviceEvent::Pin(_) => s.phase is Sampling,
            DeviceEvent::Bus(bus) => (s.phase is Initializing || s.phase is Reading)
                && s.sensor.awaits(bus),
        },
{
}

} // verus!
