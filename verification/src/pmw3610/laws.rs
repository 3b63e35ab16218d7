//! What the sensor's procedures do to its registers, and how they end.

use super::bus::{BusAction, BusEvent, Transfer};
use super::procedures::{
    awake_bits, awake_script, axis_bits, burst_script, cpi_supported, init_script,
    resolution_script, setup_script, smart_script, tuning_script,
};
use super::registers::{
    BURST_DATA_LEN_SMART, OBSERVATION1_INIT_MASK, PERFORMANCE_FMODE_MASK, PERFORMANCE_INIT, PMW3610_OBSERVATION1,
    PMW3610_PERFORMANCE, PMW3610_POWER_UP_RESET, PMW3610_RES_STEP, PMW3610_REST1_DOWNSHIFT,
    PMW3610_REST1_RATE, PMW3610_RUN_DOWNSHIFT, PMW3610_SMART_MODE, PMW3610_SPI_CLK_ON_REQ,
    PMW3610_SPI_PAGE0, PMW3610_SPI_PAGE1, POWER_UP_RESET_VAL, PRODUCT_ID_PMW3610,
    REST1_DOWNSHIFT_INIT, REST1_RATE_INIT, RES_STEP, RES_STEP_AXIS_MASK, RES_STEP_RES_MASK,
    RUN_DOWNSHIFT_INIT, SMART_MODE_DISABLE, SMART_MODE_ENABLE, SPI_CLOCK_ON_REQ_OFF,
    SPI_CLOCK_ON_REQ_ON, SPI_PAGE0_1, SPI_PAGE1_0,
};
use super::script::{written_back, Check, Instr, SessionState, SessionStatus};
use super::trace::{
    instr_writes, law_over_means_nothing_left, law_session_carries_out_script,
    law_start_faces_whole_script, replies_in, script_result, script_writes,
};
use super::types::{Pmw3610Config, Pmw3610Error};
use vstd::prelude::*;

verus! {

/// An instruction that cannot end a script early.
pub open spec fn unchecked(instr: Instr) -> bool {
    match instr {
        Instr::Fail { .. } => false,
        Instr::Read { check, .. } => check is Nothing,
        _ => true,
    }
}

/// Instructions that cannot end a script early lead on to what follows them.
proof fn lemma_unchecked_prefix(a: Seq<Instr>, b: Seq<Instr>, latch: u8, replies: Seq<u8>) -> (next: (
    u8,
    Seq<u8>,
))
    requires
        forall|i: int| 0 <= i < a.len() ==> unchecked(#[trigger] a[i]),
    ensures
        script_result(a + b, latch, replies) == script_result(b, next.0, next.1),
        (forall|i: int| 0 <= i < a.len() ==> !(#[trigger] a[i]).receives()) ==> next == (
            latch,
            replies,
        ),
    decreases a.len(),
{
    if a.len() == 0 {
        assert(a + b =~= b);
        (latch, replies)
    } else {
        let whole = a + b;
        assert(whole[0] == a[0]);
        assert(whole.skip(1) =~= a.skip(1) + b);
        assert(unchecked(a[0]));
        let rest = a.skip(1);
        assert forall|i: int| 0 <= i < rest.len() implies unchecked(#[trigger] rest[i]) by {
            assert(rest[i] == a[i + 1]);
        }
        let next = lemma_unchecked_prefix(
            rest,
            b,
            a[0].latch_after(latch, replies),
            a[0].replies_after(replies),
        );
        if forall|i: int| 0 <= i < a.len() ==> !(#[trigger] a[i]).receives() {
            assert(!a[0].receives());
            assert forall|i: int| 0 <= i < rest.len() implies !(#[trigger] rest[i]).receives() by {
                assert(rest[i] == a[i + 1]);
            }
        }
        next
    }
}

/// How bringing the sensor up ends. The first reply is the product ID, the second
/// the self-test result.
pub open spec fn init_result(config: Pmw3610Config, replies: Seq<u8>) -> Result<(), Pmw3610Error> {
    if replies[0] != PRODUCT_ID_PMW3610 {
        Err(Pmw3610Error::InvalidProductId(replies[0]))
    } else if replies[1] & OBSERVATION1_INIT_MASK != OBSERVATION1_INIT_MASK {
        Err(Pmw3610Error::InitFailed)
    } else if config.res_cpi > 0 && !cpi_supported(config.res_cpi as int) {
        Err(Pmw3610Error::InvalidCpi)
    } else {
        Ok(())
    }
}

/// Bringing the sensor up succeeds exactly where the sensor identifies itself as a
/// PMW3610, its self-test passes and the resolution, where one is asked for, is
/// supported. Each other end has its own error, and an earlier fault hides a later
/// one.
pub proof fn law_init_result(config: Pmw3610Config, replies: Seq<u8>)
    requires
        replies.len() >= 2,
    ensures
        script_result(init_script(config), 0, replies) == init_result(config, replies),
{
    let script = init_script(config);
    let setup = setup_script(config);
    let tuning = tuning_script(config);
    assert(setup.len() == 21);
    let id = script.subrange(0, 4);
    let after_id = script.skip(5);
    assert(script =~= id + (seq![script[4]] + after_id));
    lemma_unchecked_prefix(id, seq![script[4]] + after_id, 0, replies);
    assert((seq![script[4]] + after_id).skip(1) =~= after_id);
    assert(script[4] == setup[2]);
    let later = replies.skip(1);
    if replies[0] == PRODUCT_ID_PMW3610 {
        let test = after_id.subrange(0, 4);
        let after_test = after_id.skip(5);
        assert(after_id =~= test + (seq![after_id[4]] + after_test));
        assert(after_id[4] == setup[7]);
        lemma_unchecked_prefix(test, seq![after_id[4]] + after_test, replies[0], later);
        assert((seq![after_id[4]] + after_test).skip(1) =~= after_test);
        assert(later[0] == replies[1]);
        if replies[1] & OBSERVATION1_INIT_MASK == OBSERVATION1_INIT_MASK {
            let rest = setup.skip(8);
            assert(after_test =~= rest + tuning);
            assert forall|i: int| 0 <= i < rest.len() implies unchecked(#[trigger] rest[i]) by {
                assert(rest[i] == setup[i + 8]);
            }
            let next = lemma_unchecked_prefix(rest, tuning, replies[1], later.skip(1));
            if config.res_cpi > 0 && !cpi_supported(config.res_cpi as int) {
                assert(tuning[0] is Fail);
            } else {
                assert forall|i: int| 0 <= i < tuning.len() implies unchecked(#[trigger] tuning[i]) by {
                }
                assert(tuning =~= tuning + seq![]);
                lemma_unchecked_prefix(tuning, seq![], next.0, next.1);
            }
        }
    }
}

/// A session that brings the sensor up ends as the sensor's answers say. What the
/// sensor would go on to answer, `more`, does not matter.
pub proof fn law_init_session_result(
    config: Pmw3610Config,
    events: Seq<BusEvent>,
    more: Seq<u8>,
)
    requires
        SessionState::start(init_script(config)).accepts(events),
        forall|i: int| 0 <= i < events.len() ==> !(#[trigger] events[i] is Failed),
        SessionState::start(init_script(config)).after(events).status() is Over,
        more.len() >= 2,
    ensures
        SessionState::start(init_script(config)).after(events).status() == SessionStatus::Over(
            init_result(config, replies_in(events) + more),
        ),
{
    let start = SessionState::start(init_script(config));
    let replies = replies_in(events) + more;
    law_start_faces_whole_script(init_script(config), replies);
    law_session_carries_out_script(start, events, more);
    law_over_means_nothing_left(start.after(events), more);
    law_init_result(config, replies);
}

/// The events of a burst read that the bus carries out, with `frame` received.
pub open spec fn burst_events(frame: [u8; BURST_DATA_LEN_SMART]) -> Seq<BusEvent> {
    seq![
        BusEvent::Done,
        BusEvent::Done,
        BusEvent::Done,
        BusEvent::Done,
        BusEvent::Received { frame },
        BusEvent::Done,
        BusEvent::Done,
        BusEvent::Done,
    ]
}

/// A burst read comes to a good end with the received bytes at hand.
pub proof fn law_burst_delivers_frame(len: usize, frame: [u8; BURST_DATA_LEN_SMART])
    ensures
        ({
            let start = SessionState::start(burst_script(len));
            let end = start.after(burst_events(frame));
            &&& start.accepts(burst_events(frame))
            &&& end.status() == SessionStatus::Over(Ok(()))
            &&& end.frame == frame@
        }),
{
    let e = burst_events(frame);
    reveal_with_fuel(SessionState::accepts, 9);
    reveal_with_fuel(SessionState::after, 9);
    assert(e.skip(1).skip(1).skip(1).skip(1)[0] == e[4]);
}

/// Setting a supported resolution always comes to a good end.
pub proof fn law_resolution_result(cpi: u16, replies: Seq<u8>)
    ensures
        script_result(resolution_script(cpi), 0, replies) is Ok,
{
    let script = resolution_script(cpi);
    assert(script =~= script + seq![]);
    lemma_unchecked_prefix(script, seq![], 0, replies);
}

/// Setting the force-awake field always comes to a good end.
pub proof fn law_awake_result(enable: bool, replies: Seq<u8>)
    ensures
        script_result(awake_script(enable), 0, replies) is Ok,
{
    let script = awake_script(enable);
    assert(script =~= script + seq![]);
    lemma_unchecked_prefix(script, seq![], 0, replies);
}

/// Setting the resolution writes, between clock on and clock off and on page 1,
/// the register with its axis bits kept and its resolution field set to the number
/// of whole steps. Page 0 is selected again and the clock off at the end.
pub proof fn law_resolution_writes(cpi: u16, before: u8, replies: Seq<u8>)
    requires
        cpi_supported(cpi as int),
        replies.len() >= 1,
    ensures
        ({
            let value = written_back(replies[0], RES_STEP_RES_MASK, (cpi / RES_STEP) as u8);
            &&& script_writes(resolution_script(cpi), before, replies) == resolution_writes(
                cpi,
                replies[0],
            )
            &&& value % 32 == cpi / 200
            &&& value / 32 == replies[0] / 32
        }),
{
    let latch = replies[0];
    let field = (cpi / RES_STEP) as u8;
    assert(field < 32);
    assert(((latch & !0x1fu8) | field) % 32 == field && ((latch & !0x1fu8) | field) / 32 == latch
        / 32) by (bit_vector)
        requires
            field < 32,
    ;
    let script = resolution_script(cpi);
    reveal_with_fuel(script_writes, 8);
    assert(script_writes(script, before, replies) =~= resolution_writes(cpi, latch));
}

/// Setting the force-awake field writes, between clock on and clock off, the
/// performance register with its low half kept and its high half all ones or all
/// zeros.
pub proof fn law_awake_writes(enable: bool, before: u8, replies: Seq<u8>)
    requires
        replies.len() >= 1,
    ensures
        ({
            let value = written_back(replies[0], PERFORMANCE_FMODE_MASK, awake_bits(enable));
            &&& script_writes(awake_script(enable), before, replies) == awake_writes(
                enable,
                replies[0],
            )
            &&& value % 16 == replies[0] % 16
            &&& value / 16 == if enable {
                15int
            } else {
                0
            }
        }),
{
    let latch = replies[0];
    assert(((latch & !0xf0u8) | 0xf0u8) % 16 == latch % 16 && ((latch & !0xf0u8) | 0xf0u8) / 16
        == 15) by (bit_vector);
    assert(((latch & !0xf0u8) | 0u8) % 16 == latch % 16 && ((latch & !0xf0u8) | 0u8) / 16 == 0)
        by (bit_vector);
    let script = awake_script(enable);
    reveal_with_fuel(script_writes, 7);
    assert(script_writes(script, before, replies) =~= awake_writes(enable, latch));
}

/// Switching smart mode writes its register between clock on and clock off: the
/// disabling value where the flag is to be raised, the enabling value where it is
/// to be cleared.
pub proof fn law_smart_writes(smart_flag: bool, replies: Seq<u8>)
    ensures
        script_writes(smart_script(smart_flag), 0, replies) == seq![
            (PMW3610_SPI_CLK_ON_REQ, SPI_CLOCK_ON_REQ_ON),
            (
                PMW3610_SMART_MODE,
                if smart_flag {
                    SMART_MODE_DISABLE
                } else {
                    SMART_MODE_ENABLE
                },
            ),
            (PMW3610_SPI_CLK_ON_REQ, SPI_CLOCK_ON_REQ_OFF),
        ],
{
    let script = smart_script(smart_flag);
    reveal_with_fuel(script_writes, 6);
    assert(script_writes(script, 0, replies) =~= seq![
        (PMW3610_SPI_CLK_ON_REQ, SPI_CLOCK_ON_REQ_ON),
        (
            PMW3610_SMART_MODE,
            if smart_flag {
                SMART_MODE_DISABLE
            } else {
                SMART_MODE_ENABLE
            },
        ),
        (PMW3610_SPI_CLK_ON_REQ, SPI_CLOCK_ON_REQ_OFF),
    ]);
}

/// The last value read and the replies left once a script is done.
pub open spec fn carried_over(script: Seq<Instr>, latch: u8, replies: Seq<u8>) -> (u8, Seq<u8>)
    decreases script.len(),
{
    if script.len() == 0 {
        (latch, replies)
    } else {
        carried_over(
            script.skip(1),
            script[0].latch_after(latch, replies),
            script[0].replies_after(replies),
        )
    }
}

/// A script that comes to a good end leads on to what follows it.
proof fn lemma_concat(a: Seq<Instr>, b: Seq<Instr>, latch: u8, replies: Seq<u8>)
    requires
        script_result(a, latch, replies) is Ok,
    ensures
        ({
            let (later, left) = carried_over(a, latch, replies);
            &&& script_writes(a + b, latch, replies) == script_writes(a, latch, replies)
                + script_writes(b, later, left)
            &&& script_result(a + b, latch, replies) == script_result(b, later, left)
            &&& carried_over(a + b, latch, replies) == carried_over(b, later, left)
        }),
    decreases a.len(),
{
    if a.len() == 0 {
        assert(a + b =~= b);
        assert(script_writes(a, latch, replies) + script_writes(b, latch, replies)
            =~= script_writes(b, latch, replies));
    } else {
        assert((a + b).skip(1) =~= a.skip(1) + b);
        lemma_concat(
            a.skip(1),
            b,
            a[0].latch_after(latch, replies),
            a[0].replies_after(replies),
        );
        let (later, left) = carried_over(a, latch, replies);
        let first = instr_writes(a[0], latch);
        let rest = script_writes(
            a.skip(1),
            a[0].latch_after(latch, replies),
            a[0].replies_after(replies),
        );
        let tail = script_writes(b, later, left);
        assert(first + (rest + tail) =~= (first + rest) + tail);
    }
}

/// The writes of the set-up, when the register with the axis bits holds `stored`.
pub open spec fn setup_writes(config: Pmw3610Config, stored: u8) -> Seq<(u8, u8)> {
    seq![
        (PMW3610_POWER_UP_RESET, POWER_UP_RESET_VAL),
        (PMW3610_SPI_CLK_ON_REQ, SPI_CLOCK_ON_REQ_ON),
        (PMW3610_OBSERVATION1, 0u8),
        (PMW3610_PERFORMANCE, PERFORMANCE_INIT),
        (PMW3610_RUN_DOWNSHIFT, RUN_DOWNSHIFT_INIT),
        (PMW3610_REST1_RATE, REST1_RATE_INIT),
        (PMW3610_REST1_DOWNSHIFT, REST1_DOWNSHIFT_INIT),
        (PMW3610_SPI_PAGE0, SPI_PAGE0_1),
        (PMW3610_RES_STEP, written_back(stored, RES_STEP_AXIS_MASK, axis_bits(config))),
        (PMW3610_SPI_PAGE1, SPI_PAGE1_0),
        (PMW3610_SPI_CLK_ON_REQ, SPI_CLOCK_ON_REQ_OFF),
    ]
}

/// The set-up on a sensor that passes its checks.
#[verifier::spinoff_prover]
proof fn lemma_setup(config: Pmw3610Config, replies: Seq<u8>)
    requires
        replies.len() >= 7,
        replies[0] == PRODUCT_ID_PMW3610,
        replies[1] & OBSERVATION1_INIT_MASK == OBSERVATION1_INIT_MASK,
    ensures
        ({
            let script = init_script(config).take(23);
            &&& script_result(script, 0, replies) is Ok
            &&& script_writes(script, 0, replies) == setup_writes(config, replies[6])
            &&& carried_over(script, 0, replies) == (replies[6], replies.skip(7))
        }),
{
    let script = init_script(config).take(23);
    let setup = setup_script(config);
    assert(setup.len() == 21);
    let a = script.subrange(0, 5);
    let b = script.subrange(5, 10);
    let c = script.subrange(10, 14);
    let d = script.subrange(14, 18);
    let e = script.subrange(18, 23);
    assert(script =~= a + (b + (c + (d + e))));
    let later = replies.skip(1);
    assert(carried_over(a, 0, replies) == (replies[0], later) && script_result(a, 0, replies) is Ok
        && script_writes(a, 0, replies) =~= seq![
        (PMW3610_POWER_UP_RESET, POWER_UP_RESET_VAL),
    ]) by {
        reveal_with_fuel(script_writes, 6);
        reveal_with_fuel(script_result, 6);
        reveal_with_fuel(carried_over, 6);
    }
    lemma_concat(a, b + (c + (d + e)), 0, replies);
    let id = replies[0];
    assert(later[0] == replies[1]);
    assert(later.skip(1) =~= replies.skip(2));
    assert(carried_over(b, id, later) == (replies[1], replies.skip(2)) && script_result(
        b,
        id,
        later,
    ) is Ok && script_writes(b, id, later) =~= seq![
        (PMW3610_SPI_CLK_ON_REQ, SPI_CLOCK_ON_REQ_ON),
        (PMW3610_OBSERVATION1, 0u8),
    ]) by {
        reveal_with_fuel(script_writes, 6);
        reveal_with_fuel(script_result, 6);
        reveal_with_fuel(carried_over, 6);
    }
    lemma_concat(b, c + (d + e), id, later);
    let r2 = replies.skip(2);
    let l2 = replies[1];
    assert(carried_over(c, l2, r2) == (replies[5], replies.skip(6)) && script_result(c, l2, r2) is Ok
        && script_writes(c, l2, r2) =~= seq![]) by {
        reveal_with_fuel(script_writes, 5);
        reveal_with_fuel(script_result, 5);
        reveal_with_fuel(carried_over, 5);
        assert(r2.skip(1).skip(1).skip(1).skip(1) =~= replies.skip(6));
    }
    lemma_concat(c, d + e, l2, r2);
    let l3 = replies[5];
    let r3 = replies.skip(6);
    assert(carried_over(d, l3, r3) == (l3, r3) && script_result(d, l3, r3) is Ok && script_writes(
        d,
        l3,
        r3,
    ) =~= seq![
        (PMW3610_PERFORMANCE, PERFORMANCE_INIT),
        (PMW3610_RUN_DOWNSHIFT, RUN_DOWNSHIFT_INIT),
        (PMW3610_REST1_RATE, REST1_RATE_INIT),
        (PMW3610_REST1_DOWNSHIFT, REST1_DOWNSHIFT_INIT),
    ]) by {
        reveal_with_fuel(script_writes, 5);
        reveal_with_fuel(script_result, 5);
        reveal_with_fuel(carried_over, 5);
    }
    lemma_concat(d, e, l3, r3);
    assert(carried_over(e, l3, r3) == (replies[6], replies.skip(7)) && script_result(e, l3, r3) is Ok
        && script_writes(e, l3, r3) =~= seq![
        (PMW3610_SPI_PAGE0, SPI_PAGE0_1),
        (PMW3610_RES_STEP, written_back(replies[6], RES_STEP_AXIS_MASK, axis_bits(config))),
        (PMW3610_SPI_PAGE1, SPI_PAGE1_0),
        (PMW3610_SPI_CLK_ON_REQ, SPI_CLOCK_ON_REQ_OFF),
    ]) by {
        reveal_with_fuel(script_writes, 6);
        reveal_with_fuel(script_result, 6);
        reveal_with_fuel(carried_over, 6);
        assert(r3.skip(1) =~= replies.skip(7));
    }
    assert(script_writes(script, 0, replies) =~= setup_writes(config, replies[6]));
}

/// The writes that set a resolution, when the register holds `stored`.
pub open spec fn resolution_writes(cpi: u16, stored: u8) -> Seq<(u8, u8)> {
    seq![
        (PMW3610_SPI_CLK_ON_REQ, SPI_CLOCK_ON_REQ_ON),
        (PMW3610_SPI_PAGE0, SPI_PAGE0_1),
        (PMW3610_RES_STEP, written_back(stored, RES_STEP_RES_MASK, (cpi / RES_STEP) as u8)),
        (PMW3610_SPI_PAGE1, SPI_PAGE1_0),
        (PMW3610_SPI_CLK_ON_REQ, SPI_CLOCK_ON_REQ_OFF),
    ]
}

/// The writes that set the force-awake field, when the register holds `stored`.
pub open spec fn awake_writes(enable: bool, stored: u8) -> Seq<(u8, u8)> {
    seq![
        (PMW3610_SPI_CLK_ON_REQ, SPI_CLOCK_ON_REQ_ON),
        (PMW3610_PERFORMANCE, written_back(stored, PERFORMANCE_FMODE_MASK, awake_bits(enable))),
        (PMW3610_SPI_CLK_ON_REQ, SPI_CLOCK_ON_REQ_OFF),
    ]
}

/// Bringing up a sensor that passes its checks writes the set-up, then the
/// resolution where one is asked for, then the force-awake field; an unsupported
/// resolution stops it after the set-up. Every one of these parts ends with the
/// register clock off and page 0 selected.
pub proof fn law_init_writes(config: Pmw3610Config, replies: Seq<u8>)
    requires
        replies.len() >= 9,
        replies[0] == PRODUCT_ID_PMW3610,
        replies[1] & OBSERVATION1_INIT_MASK == OBSERVATION1_INIT_MASK,
    ensures
        script_writes(init_script(config), 0, replies) == setup_writes(config, replies[6]) + (
        if config.res_cpi <= 0 {
            awake_writes(config.force_awake, replies[7])
        } else if cpi_supported(config.res_cpi as int) {
            resolution_writes(config.res_cpi as u16, replies[7]) + awake_writes(
                config.force_awake,
                replies[8],
            )
        } else {
            seq![]
        }),
{
    let script = init_script(config);
    let tuning = tuning_script(config);
    let (latch, left) = (replies[6], replies.skip(7));
    assert(setup_script(config).len() == 21);
    assert(script =~= script.take(23) + tuning);
    lemma_setup(config, replies);
    lemma_concat(script.take(23), tuning, 0, replies);
    if config.res_cpi <= 0 {
        law_awake_writes(config.force_awake, latch, left);
    } else if cpi_supported(config.res_cpi as int) {
        let cpi = config.res_cpi as u16;
        law_resolution_writes(cpi, latch, left);
        lemma_resolution_carries(cpi, latch, left);
        lemma_concat(resolution_script(cpi), awake_script(config.force_awake), latch, left);
        law_awake_writes(config.force_awake, left[0], left.skip(1));
    }
}

proof fn lemma_resolution_carries(cpi: u16, latch: u8, replies: Seq<u8>)
    requires
        replies.len() >= 1,
    ensures
        script_result(resolution_script(cpi), latch, replies) is Ok,
        carried_over(resolution_script(cpi), latch, replies) == (replies[0], replies.skip(1)),
{
    reveal_with_fuel(script_result, 8);
    reveal_with_fuel(carried_over, 8);
}

/// A chip that is no PMW3610 gets the reset and nothing else written to it.
pub proof fn law_foreign_chip_only_reset(config: Pmw3610Config, replies: Seq<u8>)
    requires
        replies.len() >= 1,
        replies[0] != PRODUCT_ID_PMW3610,
    ensures
        script_writes(init_script(config), 0, replies) == seq![
            (PMW3610_POWER_UP_RESET, POWER_UP_RESET_VAL),
        ],
{
    let script = init_script(config);
    let setup = setup_script(config);
    assert(script[2] == setup[0] && script[3] == setup[1] && script[4] == setup[2]);
    reveal_with_fuel(script_writes, 6);
    assert(script_writes(script, 0, replies) =~= seq![
        (PMW3610_POWER_UP_RESET, POWER_UP_RESET_VAL),
    ]);
}

/// Writing back with the axis bits of a configuration sets each axis bit as the
/// configuration says and keeps the resolution field.
pub proof fn law_axis_bits(config: Pmw3610Config, stored: u8)
    ensures
        ({
            let value = written_back(stored, RES_STEP_AXIS_MASK, axis_bits(config));
            &&& value % 32 == stored % 32
            &&& value / 128 == (if config.swap_xy {
                1int
            } else {
                0
            })
            &&& (value / 64) % 2 == (if config.invert_x {
                1int
            } else {
                0
            })
            &&& (value / 32) % 2 == (if config.invert_y {
                1int
            } else {
                0
            })
        }),
{
    let s: u8 = if config.swap_xy {
        0x80
    } else {
        0
    };
    let x: u8 = if config.invert_x {
        0x40
    } else {
        0
    };
    let y: u8 = if config.invert_y {
        0x20
    } else {
        0
    };
    let value = (stored & !0xe0u8) | (s | x | y);
    assert(value % 32 == stored % 32 && (value / 128 == 1 <==> s == 0x80) && ((value / 64) % 2 == 1
        <==> x == 0x40) && ((value / 32) % 2 == 1 <==> y == 0x20)) by (bit_vector)
        requires
            value == (stored & !0xe0u8) | (s | x | y),
            s == 0x80 || s == 0,
            x == 0x40 || x == 0,
            y == 0x20 || y == 0,
    ;
}

/// The resolutions that can be set run from 200 to 3200 CPI, both included.
pub proof fn law_supported_resolutions(cpi: int)
    ensures
        cpi_supported(cpi) <==> 200 <= cpi <= 3200,
{
}

/// Setting the resolution, by register number: with the clock on and settled, and on
/// page 1, the resolution field takes on the number of steps of 200 CPI and the axis bits
/// stay as they were read. Then page 0 is selected again and the clock turned off.
pub proof fn law_resolution_sets_field(cpi: u16, before: u8, replies: Seq<u8>)
    requires
        200 <= cpi <= 3200,
        replies.len() >= 1,
    ensures
        ({
            let script = resolution_script(cpi);
            let writes = script_writes(script, before, replies);
            &&& script.len() == 7
            &&& script[1] == (Instr::Wait { ticks: 300 })
            &&& script[3] matches Instr::Read { addr: 0x05, check: Check::Nothing }
            &&& writes.len() == 5
            &&& writes[0] == (0x41u8, 0xbau8) && writes[1] == (0x7fu8, 0xffu8)
            &&& writes[2].0 == 0x05
            &&& writes[2].1 % 32 == cpi / 200
            &&& writes[2].1 / 32 == replies[0] / 32
            &&& writes[3] == (0x7fu8, 0x00u8) && writes[4] == (0x41u8, 0xb5u8)
        }),
{
    law_resolution_writes(cpi, before, replies);
}

/// Setting the force-awake field, by register number: with the clock on and settled, the
/// high half of the performance register becomes all ones to keep the sensor awake and
/// all zeros to let it rest, and the low half stays as it was read.
pub proof fn law_awake_sets_field(enable: bool, before: u8, replies: Seq<u8>)
    requires
        replies.len() >= 1,
    ensures
        ({
            let script = awake_script(enable);
            let writes = script_writes(script, before, replies);
            &&& script.len() == 5
            &&& script[0] matches Instr::Read { addr: 0x11, check: Check::Nothing }
            &&& script[2] == (Instr::Wait { ticks: 300 })
            &&& writes.len() == 3
            &&& writes[0] == (0x41u8, 0xbau8) && writes[2] == (0x41u8, 0xb5u8)
            &&& writes[1].0 == 0x11
            &&& writes[1].1 % 16 == replies[0] % 16
            &&& enable ==> writes[1].1 >= 0xf0
            &&& !enable ==> writes[1].1 < 0x10
        }),
{
    law_awake_writes(enable, before, replies);
}

/// Switching smart mode, by register number: with the clock on and settled, 0x80 disables
/// it, for a raised flag, and zero enables it again.
pub proof fn law_smart_switch_sets_mode(smart_flag: bool)
    ensures
        ({
            let script = smart_script(smart_flag);
            &&& script.len() == 4
            &&& script[0] == (Instr::Write { addr: 0x41, value: 0xba })
            &&& script[1] == (Instr::Wait { ticks: 300 })
            &&& script[2] matches Instr::Write { addr: 0x32, value } && (value == 0x80
                <==> smart_flag) && (value == 0x00 <==> !smart_flag)
            &&& script[3] == (Instr::Write { addr: 0x41, value: 0xb5 })
        }),
{
}

/// Bringing the sensor up succeeds with a product ID of 0x3e, the low four bits of the
/// self-test result set, and a resolution that is supported or left to the sensor. A
/// wrong product ID is reported with its value, before anything else; a failed self-test
/// comes before an unsupported resolution.
pub proof fn law_init_succeeds_or_names_fault(config: Pmw3610Config, replies: Seq<u8>)
    requires
        replies.len() >= 2,
    ensures
        ({
            let result = script_result(init_script(config), 0, replies);
            let known = replies[0] == 0x3e;
            let tested = replies[1] % 16 == 15;
            let settable = config.res_cpi <= 0 || 200 <= config.res_cpi <= 3200;
            &&& result is Ok <==> known && tested && settable
            &&& !known ==> result == Err::<(), _>(Pmw3610Error::InvalidProductId(replies[0]))
            &&& known && !tested ==> result == Err::<(), _>(Pmw3610Error::InitFailed)
            &&& known && tested && !settable ==> result == Err::<(), _>(Pmw3610Error::InvalidCpi)
        }),
{
    law_init_result(config, replies);
    let tested = replies[1];
    assert(tested & 0x0fu8 == 0x0fu8 <==> tested % 16 == 15) by (bit_vector);
}

/// The set-up, by register number: release the bus and let the sensor power up, reset it,
/// ask for its product ID, let it test itself, read the movement registers empty, set its
/// rates and then, on page 1, the axis bits. Each reset, self-test and clock request is
/// given its time.
pub proof fn law_init_sets_up_registers(config: Pmw3610Config)
    ensures
        ({
            let script = init_script(config);
            &&& script.len() >= 23
            &&& script[0] is Release && script[1] == (Instr::Wait { ticks: 1_000 })
            &&& script[2] == (Instr::Write { addr: 0x3a, value: 0x5a })
            &&& script[3] == (Instr::Wait { ticks: 10_000 })
            &&& script[4] == (Instr::Read { addr: 0x00, check: Check::ProductId })
            &&& script[5] == (Instr::Write { addr: 0x41, value: 0xba })
            &&& script[6] == (Instr::Wait { ticks: 300 })
            &&& script[7] == (Instr::Write { addr: 0x2d, value: 0x00 })
            &&& script[8] == (Instr::Wait { ticks: 10_000 })
            &&& script[9] == (Instr::Read { addr: 0x2d, check: Check::Observation1 })
            &&& script[10] == (Instr::Read { addr: 0x02, check: Check::Nothing })
            &&& script[11] == (Instr::Read { addr: 0x03, check: Check::Nothing })
            &&& script[12] == (Instr::Read { addr: 0x04, check: Check::Nothing })
            &&& script[13] == (Instr::Read { addr: 0x05, check: Check::Nothing })
            &&& script[14] == (Instr::Write { addr: 0x11, value: 0x0d })
            &&& script[15] == (Instr::Write { addr: 0x1b, value: 0x04 })
            &&& script[16] == (Instr::Write { addr: 0x1c, value: 0x04 })
            &&& script[17] == (Instr::Write { addr: 0x1d, value: 0x0f })
            &&& script[18] == (Instr::Write { addr: 0x7f, value: 0xff })
            &&& script[19] == (Instr::Read { addr: 0x05, check: Check::Nothing })
            &&& script[20] matches Instr::WriteBack { addr: 0x05, .. }
            &&& script[21] == (Instr::Write { addr: 0x7f, value: 0x00 })
            &&& script[22] == (Instr::Write { addr: 0x41, value: 0xb5 })
        }),
{
    let script = init_script(config);
    let setup = setup_script(config);
    assert(setup.len() == 21);
    assert(script[2] == setup[0] && script[3] == setup[1] && script[4] == setup[2]);
    assert(script[5] == setup[3] && script[6] == setup[4] && script[7] == setup[5]);
    assert(script[8] == setup[6] && script[9] == setup[7]);
    assert(script[10] == setup[8] && script[11] == setup[9]);
    assert(script[12] == setup[10] && script[13] == setup[11]);
    assert(script[14] == setup[12] && script[15] == setup[13] && script[16] == setup[14]);
    assert(script[17] == setup[15] && script[18] == setup[16] && script[19] == setup[17]);
    assert(script[20] == setup[18] && script[21] == setup[19] && script[22] == setup[20]);
}

/// The set-up writes the axis register with swapped axes, X turned round and Y turned
/// round in its top three bits, each exactly where the configuration asks for it, and
/// with the resolution field as it was read.
pub proof fn law_init_sets_axis_bits(config: Pmw3610Config, stored: u8)
    ensures
        init_script(config)[20] matches Instr::WriteBack { addr: 0x05, clear, set } && {
            let value = written_back(stored, clear, set);
            &&& value % 32 == stored % 32
            &&& value / 128 == 1 <==> config.swap_xy
            &&& (value / 64) % 2 == 1 <==> config.invert_x
            &&& (value / 32) % 2 == 1 <==> config.invert_y
        },
{
    law_init_sets_up_registers(config);
    assert(init_script(config)[20] == setup_script(config)[18]);
    law_axis_bits(config, stored);
}

/// After the set-up comes the resolution, where the configuration names a supported one,
/// and then the force-awake field as configured. An unsupported one ends it there.
pub proof fn law_init_tunes_as_configured(config: Pmw3610Config)
    ensures
        init_script(config).skip(23) == if config.res_cpi <= 0 {
            awake_script(config.force_awake)
        } else if 200 <= config.res_cpi <= 3200 {
            resolution_script(config.res_cpi as u16) + awake_script(config.force_awake)
        } else {
            seq![Instr::Fail { error: Pmw3610Error::InvalidCpi }]
        },
{
    assert(setup_script(config).len() == 21);
    assert(init_script(config).skip(23) =~= tuning_script(config));
}

/// Writing back keeps every bit of the value read last that is neither to be cleared nor
/// to be set, and the bits to be set are set.
pub proof fn law_write_back_keeps_other_bits(latch: u8, addr: u8, clear: u8, set: u8)
    ensures
        ({
            let steps = (Instr::WriteBack { addr, clear, set }).steps(latch);
            &&& steps.len() == 6
            &&& steps[2] matches BusAction::SendWrite { byte, value } && {
                &&& byte == 128 + addr % 128
                &&& value & set == set
                &&& value & (clear & !set) == 0
                &&& value & !(clear | set) == latch & !(clear | set)
            }
        }),
{
    assert(addr | 0x80u8 == 128 + addr % 128) by (bit_vector);
    let value = (latch & !clear) | set;
    assert(value & set == set && value & (clear & !set) == 0 && value & !(clear | set) == latch & !(
    clear | set)) by (bit_vector)
        requires
            value == (latch & !clear) | set,
    ;
}

/// Each other instruction comes to the bus actions that it names: a transfer of the
/// register and value given, the pause given, or the release of the bus.
pub proof fn law_instructions_on_bus(latch: u8, addr: u8, value: u8, len: usize, ticks: u64, check: Check)
    ensures
        (Instr::Write { addr, value }).steps(latch) == (Transfer::WriteReg { addr, value }).steps(),
        (Instr::Read { addr, check }).steps(latch) == (Transfer::ReadReg { addr }).steps(),
        (Instr::Burst { addr, len }).steps(latch) == (Transfer::ReadBurst { addr, len }).steps(),
        (Instr::Wait { ticks }).steps(latch) == seq![BusAction::Delay { ticks }],
        Instr::Release.steps(latch) == seq![BusAction::Deselect],
{
}

} // verus!
