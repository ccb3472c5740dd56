use vstd::prelude::*;
use crate::fetch_loop::{
    accepts, initial, next_plan, next_state, wf, Event, LoopState, Phase, Plan,
};
use crate::meme::Meme;
use crate::report::{rate_spec, seconds_spec, lemma_rate_nearest, NANOS_PER_SEC};

verus! {

/// The state after a loop in state `s` takes the events `evs` in turn.
pub open spec fn run(s: LoopState, evs: Seq<Event>) -> LoopState
    decreases evs.len(),
{
    if evs.len() == 0 {
        s
    } else {
        next_state(run(s, evs.drop_last()), evs.last())
    }
}

/// Whether a loop in state `s` takes each of the events `evs` when it comes.
pub open spec fn accepted_run(s: LoopState, evs: Seq<Event>) -> bool
    decreases evs.len(),
{
    evs.len() == 0 || (accepted_run(s, evs.drop_last()) && accepts(
        run(s, evs.drop_last()),
        evs.last(),
    ))
}

/// The memes that the `Fetched` events among `evs` carry, in their order.
pub open spec fn fetched_in(evs: Seq<Event>) -> Seq<Meme>
    decreases evs.len(),
{
    if evs.len() == 0 {
        Seq::empty()
    } else {
        match evs.last() {
            Event::Fetched { meme, .. } => fetched_in(evs.drop_last()).push(meme),
            _ => fetched_in(evs.drop_last()),
        }
    }
}

/// The events of a run in which every fetch succeeds: `Ready`, then the
/// fetch of `rs[k]`, for each `k` in turn, and a last `Ready`. The `i`-th
/// event reports `clock(i)` as the elapsed time.
pub open spec fn success_trace(rs: Seq<Meme>, clock: spec_fn(int) -> u64) -> Seq<Event> {
    Seq::new(
        2 * rs.len() + 1,
        |i: int|
            if i % 2 == 0 {
                Event::Ready { elapsed_nanos: clock(i) }
            } else {
                Event::Fetched { meme: rs[i / 2], elapsed_nanos: clock(i) }
            },
    )
}

proof fn lemma_take_last(evs: Seq<Event>, j: int)
    requires
        0 <= j < evs.len(),
    ensures
        evs.take(j + 1).drop_last() == evs.take(j),
        evs.take(j + 1).last() == evs[j],
{
    assert(evs.take(j + 1).drop_last() =~= evs.take(j));
}

/// Every state that a well-formed loop reaches is well formed, and asks
/// for as many memes as at the start.
pub proof fn lemma_run_wf(s: LoopState, evs: Seq<Event>)
    requires
        wf(s),
    ensures
        wf(run(s, evs)),
        run(s, evs).amount == s.amount,
    decreases evs.len(),
{
    if evs.len() > 0 {
        lemma_run_wf(s, evs.drop_last());
    }
}

/// The elapsed time that a loop reports never goes back: after any prefix
/// of a run it is at most what it is after the whole run.
pub proof fn lemma_elapsed_monotone(s: LoopState, evs: Seq<Event>, i: int)
    requires
        0 <= i <= evs.len(),
    ensures
        run(s, evs.take(i)).elapsed_nanos <= run(s, evs).elapsed_nanos,
    decreases evs.len(),
{
    if i == evs.len() {
        assert(evs.take(i) =~= evs);
    } else {
        let front = evs.drop_last();
        assert(front.take(i) =~= evs.take(i));
        lemma_elapsed_monotone(s, front, i);
    }
}

/// The memes that a run holds are those of its `Fetched` events, in the
/// order in which the responses came, none reordered.
pub proof fn lemma_memes_in_order(amount: nat, evs: Seq<Event>)
    requires
        accepted_run(initial(amount), evs),
    ensures
        run(initial(amount), evs).memes == fetched_in(evs),
    decreases evs.len(),
{
    if evs.len() > 0 {
        lemma_memes_in_order(amount, evs.drop_last());
    }
}

/// A run that has finished holds exactly `amount` memes, those of its
/// `Fetched` events in order.
pub proof fn lemma_finished_holds_amount(amount: nat, evs: Seq<Event>)
    requires
        accepted_run(initial(amount), evs),
        run(initial(amount), evs).phase == Phase::Finished,
    ensures
        run(initial(amount), evs).memes.len() == amount,
        run(initial(amount), evs).memes == fetched_in(evs),
{
    lemma_run_wf(initial(amount), evs);
    lemma_memes_in_order(amount, evs);
}

proof fn lemma_success_prefix(rs: Seq<Meme>, clock: spec_fn(int) -> u64, k: int)
    requires
        0 <= k <= rs.len(),
    ensures
        accepted_run(initial(rs.len()), success_trace(rs, clock).take(2 * k)),
        run(initial(rs.len()), success_trace(rs, clock).take(2 * k)).phase == Phase::AwaitingReady,
        run(initial(rs.len()), success_trace(rs, clock).take(2 * k)).memes == rs.take(k),
        run(initial(rs.len()), success_trace(rs, clock).take(2 * k)).amount == rs.len(),
    decreases k,
{
    let t = success_trace(rs, clock);
    let s0 = initial(rs.len());
    if k == 0 {
        assert(t.take(0) =~= Seq::<Event>::empty());
        assert(rs.take(0) =~= Seq::<Meme>::empty());
    } else {
        lemma_success_prefix(rs, clock, k - 1);
        lemma_take_last(t, 2 * k - 2);
        lemma_take_last(t, 2 * k - 1);
        assert((2 * k - 2) % 2 == 0);
        assert((2 * k - 1) % 2 == 1);
        assert((2 * k - 1) / 2 == k - 1);
        assert(rs.take(k - 1).push(rs[k - 1]) =~= rs.take(k));
        let a = t.take(2 * k - 2);
        let b = t.take(2 * k - 1);
        let c = t.take(2 * k);
        assert(accepts(run(s0, a), t[2 * k - 2]));
        assert(accepted_run(s0, b));
        assert(run(s0, b).phase == Phase::AwaitingFetch);
        assert(accepts(run(s0, b), t[2 * k - 1]));
        assert(accepted_run(s0, c));
    }
}

/// When every fetch succeeds, a loop asked for `rs.len()` memes finishes
/// after the events of `success_trace`, and hands out exactly the memes
/// fetched, in order, whatever times the driver reports.
pub proof fn lemma_success_run(rs: Seq<Meme>, clock: spec_fn(int) -> u64)
    ensures
        accepted_run(initial(rs.len()), success_trace(rs, clock)),
        run(initial(rs.len()), success_trace(rs, clock)).phase == Phase::Finished,
        run(initial(rs.len()), success_trace(rs, clock)).memes == rs,
        run(initial(rs.len()), success_trace(rs, clock)).memes.len() == rs.len(),
{
    let t = success_trace(rs, clock);
    let n = rs.len() as int;
    lemma_success_prefix(rs, clock, n);
    lemma_take_last(t, 2 * n);
    assert(t.take(2 * n + 1) =~= t);
    assert((2 * n) % 2 == 0);
    assert(rs.take(n) =~= rs);
}

/// A loop asked for no meme finishes on its first event: it never asks for
/// a fetch or a pause, and its summary reports zero memes.
pub proof fn lemma_zero_amount(elapsed_nanos: u64)
    ensures
        next_state(initial(0), Event::Ready { elapsed_nanos }).phase == Phase::Finished,
        next_state(initial(0), Event::Ready { elapsed_nanos }).memes.len() == 0,
        next_plan(initial(0), Event::Ready { elapsed_nanos }) == (Plan::Finish {
            fetched: 0,
            seconds: seconds_spec(elapsed_nanos as nat),
        }),
{
}

/// After the `i`-th fetch the progress shows the rate `i / seconds`, to
/// the nearest hundredth, taken at the elapsed time of that state; with no
/// time elapsed it shows zero.
pub proof fn lemma_progress_rate(s: LoopState, meme: Meme, elapsed_nanos: u64)
    requires
        wf(s),
        s.phase == Phase::AwaitingFetch,
    ensures
        ({
            let t = next_state(s, Event::Fetched { meme, elapsed_nanos });
            let i = s.memes.len() + 1;
            let r = rate_spec(i, t.elapsed_nanos);
            &&& t.memes.len() == i
            &&& next_plan(s, Event::Fetched { meme, elapsed_nanos }) == (Plan::Progress {
                fetched: i,
                amount: s.amount,
                rate: r,
                pause: i < s.amount,
            })
            &&& t.elapsed_nanos == 0 ==> r == 0
            &&& t.elapsed_nanos > 0 ==> 2 * r * t.elapsed_nanos <= 200 * NANOS_PER_SEC * i
                + t.elapsed_nanos && 200 * NANOS_PER_SEC * i + t.elapsed_nanos < 2 * (r + 1)
                * t.elapsed_nanos
        }),
{
    let t = next_state(s, Event::Fetched { meme, elapsed_nanos });
    if t.elapsed_nanos > 0 {
        lemma_rate_nearest(s.memes.len() + 1, t.elapsed_nanos);
    }
}

} // verus!
