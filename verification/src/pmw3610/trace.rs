//! What a script comes to on the bus, and what that means for the registers.
//!
//! The bytes that the sensor answers with, one for each read, decide everything
//! that a script does. The laws here tie the steps of a session to that, and
//! say what the sensor's procedures do.

use super::bus::{BusAction, BusEvent};
use super::script::{Instr, SessionState, SessionStatus};
use super::types::Pmw3610Error;
use vstd::prelude::*;

verus! {

impl Instr {
    /// Whether the instruction takes in bytes.
    pub open spec fn receives(self) -> bool {
        self is Read || self is Burst
    }

    /// The last value read once the instruction is done: the first of the replies,
    /// if it receives anything.
    pub open spec fn latch_after(self, latch: u8, replies: Seq<u8>) -> u8 {
        if self.receives() {
            replies[0]
        } else {
            latch
        }
    }

    /// The replies that are left once the instruction is done.
    pub open spec fn replies_after(self, replies: Seq<u8>) -> Seq<u8> {
        if self.receives() {
            replies.skip(1)
        } else {
            replies
        }
    }
}

/// The position of the action that takes in bytes, in an instruction that has one.
pub open spec fn receive_step() -> int {
    4
}

/// The bus actions that a script comes to.
pub open spec fn script_actions(script: Seq<Instr>, latch: u8, replies: Seq<u8>) -> Seq<BusAction>
    decreases script.len(),
{
    if script.len() == 0 || script[0] is Fail {
        seq![]
    } else {
        let instr = script[0];
        let read = instr.latch_after(latch, replies);
        instr.steps(latch) + if instr.verdict(read) is Some {
            seq![]
        } else {
            script_actions(script.skip(1), read, instr.replies_after(replies))
        }
    }
}

/// How a script ends on a bus that reports no error.
pub open spec fn script_result(script: Seq<Instr>, latch: u8, replies: Seq<u8>) -> Result<
    (),
    Pmw3610Error,
>
    decreases script.len(),
{
    if script.len() == 0 {
        Ok(())
    } else {
        let instr = script[0];
        let read = instr.latch_after(latch, replies);
        match instr {
            Instr::Fail { error } => Err(error),
            _ => if instr.verdict(read) is Some {
                Err(instr.verdict(read)->0)
            } else {
                script_result(script.skip(1), read, instr.replies_after(replies))
            },
        }
    }
}

impl SessionState {
    /// The session past its current instruction's reception, if any is still to
    /// come: what the last value read will be, and which replies will be left.
    pub open spec fn received(self, replies: Seq<u8>) -> (u8, Seq<u8>) {
        let instr = self.script[self.pc];
        if instr.receives() && self.step <= receive_step() {
            (replies[0], replies.skip(1))
        } else {
            (self.latch, replies)
        }
    }

    /// The bus actions that are still to come, the one under way included, when
    /// the sensor answers with `replies`.
    pub open spec fn actions_left(self, replies: Seq<u8>) -> Seq<BusAction> {
        if self.status() is Over {
            seq![]
        } else {
            let instr = self.script[self.pc];
            let (latch, left) = self.received(replies);
            instr.steps(self.latch).skip(self.step) + if instr.verdict(latch) is Some {
                seq![]
            } else {
                script_actions(self.script.skip(self.pc + 1), latch, left)
            }
        }
    }

    /// How the script will end when the sensor answers with `replies` and the bus
    /// reports no further error.
    pub open spec fn result_ahead(self, replies: Seq<u8>) -> Result<(), Pmw3610Error> {
        match self.status() {
            SessionStatus::Over(result) => result,
            SessionStatus::Perform(_) => {
                let instr = self.script[self.pc];
                let (latch, left) = self.received(replies);
                if instr.verdict(latch) is Some {
                    Err(instr.verdict(latch)->0)
                } else {
                    script_result(self.script.skip(self.pc + 1), latch, left)
                }
            },
        }
    }

    /// Whether the events answer, one after the other, the actions that the
    /// session asks for.
    pub open spec fn accepts(self, events: Seq<BusEvent>) -> bool
        decreases events.len(),
    {
        events.len() > 0 ==> self.awaits(events[0]) && self.next(events[0]).accepts(events.skip(1))
    }

    /// The session after the events.
    pub open spec fn after(self, events: Seq<BusEvent>) -> SessionState
        decreases events.len(),
    {
        if events.len() == 0 {
            self
        } else {
            self.next(events[0]).after(events.skip(1))
        }
    }

    /// The actions that the events answered.
    pub open spec fn performed(self, events: Seq<BusEvent>) -> Seq<BusAction>
        decreases events.len(),
    {
        if events.len() == 0 {
            seq![]
        } else {
            seq![self.status()->Perform_0] + self.next(events[0]).performed(events.skip(1))
        }
    }
}

/// What the sensor answered in the events: the first byte of each reception.
pub open spec fn replies_in(events: Seq<BusEvent>) -> Seq<u8>
    decreases events.len(),
{
    if events.len() == 0 {
        seq![]
    } else {
        match events[0] {
            BusEvent::Received { frame } => seq![frame@[0]] + replies_in(events.skip(1)),
            _ => replies_in(events.skip(1)),
        }
    }
}

/// A session has in front of it exactly what its script comes to.
pub proof fn law_start_faces_whole_script(script: Seq<Instr>, replies: Seq<u8>)
    ensures
        SessionState::start(script).actions_left(replies) == script_actions(script, 0, replies),
        SessionState::start(script).result_ahead(replies) == script_result(script, 0, replies),
{
    let s = SessionState::start(script);
    if script.len() > 0 && !(script[0] is Fail) {
        assert(script[0].steps(0).skip(0) =~= script[0].steps(0));
    }
    assert(s.actions_left(replies) =~= script_actions(script, 0, replies));
}

/// Each step without a bus error takes one action off the front of what is to
/// come, and leaves the end of the script as it was.
pub proof fn law_step_takes_front_action(s: SessionState, event: BusEvent, replies: Seq<u8>)
    requires
        s.wf(),
        s.awaits(event),
        !(event is Failed),
    ensures
        ({
            let before = match event {
                BusEvent::Received { frame } => seq![frame@[0]] + replies,
                _ => replies,
            };
            &&& s.actions_left(before) == seq![s.status()->Perform_0] + s.next(event).actions_left(
                replies,
            )
            &&& s.result_ahead(before) == s.next(event).result_ahead(replies)
        }),
{
    let before = match event {
        BusEvent::Received { frame } => seq![frame@[0]] + replies,
        _ => replies,
    };
    let n = s.next(event);
    let instr = s.script[s.pc];
    let steps = instr.steps(s.latch);
    assert(before.skip(1) =~= replies || !(event is Received));
    if event is Received {
        assert(before.skip(1) =~= replies);
        assert(before[0] == n.latch);
    }
    assert(steps.skip(s.step) =~= seq![steps[s.step]] + steps.skip(s.step + 1));
    if s.step + 1 < steps.len() {
        assert(instr.steps(n.latch) =~= steps);
        assert(n.actions_left(replies) =~= steps.skip(s.step + 1) + if instr.verdict(
            n.received(replies).0,
        ) is Some {
            seq![]
        } else {
            script_actions(s.script.skip(s.pc + 1), n.received(replies).0, n.received(replies).1)
        });
    } else {
        assert(steps.skip(s.step + 1) =~= seq![]);
        let rest = s.script.skip(s.pc + 1);
        if n.error is None && rest.len() > 0 {
            assert(rest[0] == s.script[s.pc + 1]);
            assert(rest.skip(1) =~= s.script.skip(s.pc + 2));
            if !(rest[0] is Fail) {
                assert(rest[0].steps(n.latch).skip(0) =~= rest[0].steps(n.latch));
            }
        }
    }
    assert(s.actions_left(before) =~= seq![s.status()->Perform_0] + n.actions_left(replies));
}

/// The positions of a session stay within its script.
pub proof fn law_next_keeps_wf(s: SessionState, event: BusEvent)
    requires
        s.wf(),
        s.awaits(event),
    ensures
        s.next(event).wf(),
{
    let n = s.next(event);
    if !(event is Failed) {
        assert(s.script[s.pc].steps(n.latch).len() == s.script[s.pc].steps(s.latch).len());
    }
}

/// On a bus that reports no error a session performs the actions of its script,
/// each once and in order, and ends as the script does: what was performed and
/// what is still to come make up what was to come at first.
pub proof fn law_session_carries_out_script(
    s: SessionState,
    events: Seq<BusEvent>,
    replies: Seq<u8>,
)
    requires
        s.wf(),
        s.accepts(events),
        forall|i: int| 0 <= i < events.len() ==> !(#[trigger] events[i] is Failed),
    ensures
        s.after(events).wf(),
        s.actions_left(replies_in(events) + replies) == s.performed(events) + s.after(
            events,
        ).actions_left(replies),
        s.result_ahead(replies_in(events) + replies) == s.after(events).result_ahead(replies),
    decreases events.len(),
{
    if events.len() == 0 {
        assert(replies_in(events) + replies =~= replies);
        assert(s.performed(events) + s.actions_left(replies) =~= s.actions_left(replies));
    } else {
        let event = events[0];
        let rest = events.skip(1);
        let later = replies_in(rest) + replies;
        law_next_keeps_wf(s, event);
        assert forall|i: int| 0 <= i < rest.len() implies !(#[trigger] rest[i] is Failed) by {
            assert(rest[i] == events[i + 1]);
        }
        law_session_carries_out_script(s.next(event), rest, replies);
        law_step_takes_front_action(s, event, later);
        match event {
            BusEvent::Received { frame } => {
                assert(replies_in(events) + replies =~= seq![frame@[0]] + later);
            },
            _ => {
                assert(replies_in(events) + replies =~= later);
            },
        }
        assert(s.performed(events) + s.after(events).actions_left(replies) =~= seq![
            s.status()->Perform_0,
        ] + (s.next(event).performed(rest) + s.next(event).after(rest).actions_left(replies)));
    }
}

/// A session that has come to its end has nothing left to do.
pub proof fn law_over_means_nothing_left(s: SessionState, replies: Seq<u8>)
    requires
        s.status() is Over,
    ensures
        s.actions_left(replies) == Seq::<BusAction>::empty(),
        s.status() == SessionStatus::Over(s.result_ahead(replies)),
{
}

/// An error on the bus ends the script at once: no further action is asked for,
/// so the sensor stays selected, and the error is the one for the bus.
pub proof fn law_bus_error_ends_script(s: SessionState, replies: Seq<u8>)
    requires
        s.wf(),
        s.awaits(BusEvent::Failed),
    ensures
        s.status() == SessionStatus::Perform(s.script[s.pc].steps(s.latch)[s.step]),
        s.next(BusEvent::Failed).status() == SessionStatus::Over(Err(Pmw3610Error::Spi)),
        s.next(BusEvent::Failed).actions_left(replies) == Seq::<BusAction>::empty(),
        forall|event: BusEvent| !s.next(BusEvent::Failed).awaits(event),
{
}

/// The register writes among bus actions: first byte and value of each.
pub open spec fn writes_in(actions: Seq<BusAction>) -> Seq<(u8, u8)>
    decreases actions.len(),
{
    if actions.len() == 0 {
        seq![]
    } else {
        match actions[0] {
            BusAction::SendWrite { byte, value } => seq![(byte, value)] + writes_in(
                actions.skip(1),
            ),
            _ => writes_in(actions.skip(1)),
        }
    }
}

/// The register that an instruction writes and the value, if it writes one.
pub open spec fn instr_writes(instr: Instr, latch: u8) -> Seq<(u8, u8)> {
    match instr {
        Instr::Write { addr, value } => seq![(addr, value)],
        Instr::WriteBack { addr, clear, set } => seq![
            (addr, super::script::written_back(latch, clear, set)),
        ],
        _ => seq![],
    }
}

/// The registers that a script writes and the values, in order.
pub open spec fn script_writes(script: Seq<Instr>, latch: u8, replies: Seq<u8>) -> Seq<(u8, u8)>
    decreases script.len(),
{
    if script.len() == 0 || script[0] is Fail {
        seq![]
    } else {
        let instr = script[0];
        let read = instr.latch_after(latch, replies);
        instr_writes(instr, latch) + if instr.verdict(read) is Some {
            seq![]
        } else {
            script_writes(script.skip(1), read, instr.replies_after(replies))
        }
    }
}

/// Register writes as they appear on the bus, with the write bit set.
pub open spec fn on_bus(writes: Seq<(u8, u8)>) -> Seq<(u8, u8)> {
    writes.map_values(|w: (u8, u8)| (w.0 | super::registers::SPI_WRITE, w.1))
}

proof fn lemma_writes_in_concat(a: Seq<BusAction>, b: Seq<BusAction>)
    ensures
        writes_in(a + b) == writes_in(a) + writes_in(b),
    decreases a.len(),
{
    if a.len() == 0 {
        assert(a + b =~= b);
        assert(writes_in(a) + writes_in(b) =~= writes_in(b));
    } else {
        assert((a + b).skip(1) =~= a.skip(1) + b);
        lemma_writes_in_concat(a.skip(1), b);
        match a[0] {
            BusAction::SendWrite { byte, value } => {
                assert(seq![(byte, value)] + (writes_in(a.skip(1)) + writes_in(b)) =~= (seq![
                    (byte, value),
                ] + writes_in(a.skip(1))) + writes_in(b));
            },
            _ => {},
        }
    }
}

proof fn lemma_instr_writes(instr: Instr, latch: u8)
    ensures
        writes_in(instr.steps(latch)) == on_bus(instr_writes(instr, latch)),
{
    let steps = instr.steps(latch);
    reveal_with_fuel(writes_in, 9);
    assert(writes_in(steps) =~= on_bus(instr_writes(instr, latch)));
}

/// The writes that go out on the bus are those of the script, register by
/// register and in order.
pub proof fn law_bus_writes_are_script_writes(script: Seq<Instr>, latch: u8, replies: Seq<u8>)
    ensures
        writes_in(script_actions(script, latch, replies)) == on_bus(
            script_writes(script, latch, replies),
        ),
    decreases script.len(),
{
    if script.len() == 0 || script[0] is Fail {
        assert(on_bus(script_writes(script, latch, replies)) =~= seq![]);
    } else {
        let instr = script[0];
        let read = instr.latch_after(latch, replies);
        lemma_instr_writes(instr, latch);
        let (later_actions, later_writes) = if instr.verdict(read) is Some {
            (Seq::<BusAction>::empty(), Seq::<(u8, u8)>::empty())
        } else {
            (
                script_actions(script.skip(1), read, instr.replies_after(replies)),
                script_writes(script.skip(1), read, instr.replies_after(replies)),
            )
        };
        if instr.verdict(read) is None {
            law_bus_writes_are_script_writes(
                script.skip(1),
                read,
                instr.replies_after(replies),
            );
        }
        lemma_writes_in_concat(instr.steps(latch), later_actions);
        assert(on_bus(instr_writes(instr, latch) + later_writes) =~= on_bus(
            instr_writes(instr, latch),
        ) + on_bus(later_writes));
    }
}

} // verus!
