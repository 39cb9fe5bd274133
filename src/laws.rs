use vstd::prelude::*;
use crate::pulse::{count_after, counter_modulus};
use crate::sampler::{
    decision_of, elapsed_ms, record_of, window_after, CycleDecision, SampleWindow,
    SAMPLE_PERIOD_MS,
};

verus! {

/// Wraparound: after any number of edges the counter equals its initial
/// value plus that number, modulo 2^32.
pub proof fn law_wraparound(start: u32, edges: nat)
    ensures
        count_after(start, edges) as int == (start as int + edges) % counter_modulus(),
    decreases edges,
{
    if edges > 0 {
        law_wraparound(start, (edges - 1) as nat);
        let p = (start as int + edges - 1) % counter_modulus();
        assert((start as int + edges) % counter_modulus() == (p + 1) % counter_modulus()) by {
            vstd::arithmetic::div_mod::lemma_add_mod_noop(start as int + edges - 1, 1, counter_modulus());
            vstd::arithmetic::div_mod::lemma_small_mod(1, counter_modulus() as nat);
        }
        if p + 1 < counter_modulus() {
            vstd::arithmetic::div_mod::lemma_small_mod((p + 1) as nat, counter_modulus() as nat);
        } else {
            vstd::arithmetic::div_mod::lemma_mod_self_0(counter_modulus());
        }
    }
}

/// A reported pulse delta is never negative: it is the counter's advance
/// since the window opened, clamped at zero, also across a wraparound.
pub proof fn law_pulse_delta_clamped(
    w: SampleWindow,
    now: u64,
    count: u32,
    link_up: bool,
    session_up: bool,
)
    ensures
        decision_of(w, now, count, link_up, session_up) matches CycleDecision::Publish(a) ==> {
            &&& a.record.pulse_delta as int == if count >= w.last_pulse_count {
                count - w.last_pulse_count
            } else {
                0
            }
            &&& a.record.pulse_delta >= 0
        },
{
}

/// Within one sampling period of the window's opening a cycle asks for no
/// publish, whatever the counter and the flags say, so repeating
/// it within the period never publishes nor moves the window.
pub proof fn law_within_period(w: SampleWindow, now: u64, count: u32, link_up: bool, session_up: bool)
    requires
        elapsed_ms(w, now) < SAMPLE_PERIOD_MS,
    ensures
        decision_of(w, now, count, link_up, session_up) == CycleDecision::NotDue,
{
}

/// Skipping: once the period has elapsed, a cycle that sees the link or the
/// session down asks for no publish, and the window stays where it was.
pub proof fn law_skip(w: SampleWindow, now: u64, count: u32, link_up: bool, session_up: bool)
    requires
        elapsed_ms(w, now) >= SAMPLE_PERIOD_MS,
        !link_up || !session_up,
    ensures
        decision_of(w, now, count, link_up, session_up) == CycleDecision::Offline,
{
}

/// No loss on retry: when a publish at `(t1, c1)` fails, the window stays,
/// and the record of a later cycle at `(t2, c2)` is the failed record plus
/// what the later cycle would have reported had the first publish succeeded.
pub proof fn law_no_loss_on_retry(w: SampleWindow, t1: u64, c1: u32, t2: u64, c2: u32)
    requires
        elapsed_ms(w, t1) >= SAMPLE_PERIOD_MS,
        t1 <= t2,
        w.last_pulse_count <= c1 <= c2,
    ensures
        decision_of(w, t1, c1, true, true) matches CycleDecision::Publish(a1) && {
            let w1 = window_after(w, a1, false);
            let w_ok = window_after(w, a1, true);
            &&& w1 == w
            &&& decision_of(w1, t2, c2, true, true) matches CycleDecision::Publish(a2) && {
                &&& a2.record.pulse_delta == a1.record.pulse_delta + record_of(
                    w_ok,
                    t2,
                    c2,
                ).pulse_delta
                &&& a2.record.time_delta == a1.record.time_delta + record_of(w_ok, t2, c2).time_delta
            }
        },
{
}

} // verus!
