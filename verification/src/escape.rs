//! The iteration-count side of the escape-time evaluator. The evaluator
//! repeats: update the orbit, test its squared magnitude against the squared
//! escape radius, and decide whether to stop. The orbit update and the
//! radius test are floating-point work and stay with the driver; the
//! decision, and the count it produces, are here.

use vstd::prelude::*;

verus! {

/// The count the evaluator holds once it has run from iteration `k` to its
/// end: the index of the first positive escape test at or after `k`, or the
/// cap if none fires before the count reaches it. Outcome `i` of `escapes`
/// is the test made right after the `i`-th orbit update; a run shorter than
/// the cap means the test never fired after the run ends.
pub open spec fn escape_count_from(escapes: Seq<bool>, cap: nat, k: nat) -> nat
    decreases cap - k,
{
    if k >= cap {
        cap
    } else if k < escapes.len() && escapes[k as int] {
        k
    } else {
        escape_count_from(escapes, cap, (k + 1) as nat)
    }
}

/// The count the evaluator returns for a given run of escape-test outcomes:
/// the number of iterations completed before the first positive test,
/// capped at `cap`.
pub open spec fn escape_count(escapes: Seq<bool>, cap: nat) -> nat {
    escape_count_from(escapes, cap, 0)
}

proof fn lemma_escape_count_from_bounded(escapes: Seq<bool>, cap: nat, k: nat)
    requires
        k <= cap,
    ensures
        k <= escape_count_from(escapes, cap, k) <= cap,
    decreases cap - k,
{
    if k < cap && !(k < escapes.len() && escapes[k as int]) {
        lemma_escape_count_from_bounded(escapes, cap, (k + 1) as nat);
    }
}

/// Boundedness: whatever the escape tests return, the count never exceeds
/// the iteration cap.
pub proof fn lemma_escape_count_bounded(escapes: Seq<bool>, cap: nat)
    ensures
        escape_count(escapes, cap) <= cap,
{
    lemma_escape_count_from_bounded(escapes, cap, 0);
}

proof fn lemma_escape_count_from_never_escaping(escapes: Seq<bool>, cap: nat, k: nat)
    requires
        k <= cap,
        forall|i: int| 0 <= i < escapes.len() ==> !escapes[i],
    ensures
        escape_count_from(escapes, cap, k) == cap,
    decreases cap - k,
{
    if k < cap {
        lemma_escape_count_from_never_escaping(escapes, cap, (k + 1) as nat);
    }
}

/// A run whose escape test never fires — such as the orbit of the origin,
/// which stays at the origin forever — returns exactly the cap.
pub proof fn lemma_escape_count_never_escaping(escapes: Seq<bool>, cap: nat)
    requires
        forall|i: int| 0 <= i < escapes.len() ==> !escapes[i],
    ensures
        escape_count(escapes, cap) == cap,
{
    lemma_escape_count_from_never_escaping(escapes, cap, 0);
}

/// One decision of the evaluator's loop, taken after an orbit update with
/// the outcome of that update's escape test: the count the loop now holds,
/// and whether it goes on. The loop stops on a positive test, keeping its
/// count, or once the count reaches the cap.
pub fn evaluate_step(count: u32, cap: u32, escaped: bool) -> (step: (u32, bool))
    requires
        count < cap,
    ensures
        escaped ==> step == (count, false),
        !escaped ==> step.0 == count + 1 && (step.1 <==> count + 1 < cap),
        step.0 <= cap,
{
    if escaped {
        (count, false)
    } else {
        (count + 1, count + 1 < cap)
    }
}

/// Replays a recorded run of escape-test outcomes and returns the count the
/// evaluator would have produced: the index of the first positive test, or
/// the cap if none fires before the count reaches it.
pub fn evaluate_outcomes(escapes: &Vec<bool>, cap: u32) -> (count: u32)
    ensures
        count == escape_count(escapes@, cap as nat),
        count <= cap,
{
    let mut i: u32 = 0;
    while i < cap
        invariant
            i <= cap,
            escape_count(escapes@, cap as nat) == escape_count_from(
                escapes@,
                cap as nat,
                i as nat,
            ),
        decreases cap - i,
    {
        if (i as usize) < escapes.len() && escapes[i as usize] {
            return i;
        }
        i = i + 1;
    }
    cap
}

} // verus!
