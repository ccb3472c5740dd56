use vstd::prelude::*;
use crate::text::{decimal_text, fixed2_text, unit_text, push_decimal, push_fixed2, unit_word};

verus! {

/// Nanoseconds in one second.
pub const NANOS_PER_SEC: u64 = 1_000_000_000;

/// The fetch rate, in hundredths of an item per second, after `fetched`
/// items in `elapsed_nanos` nanoseconds: `fetched / seconds` rounded to the
/// nearest hundredth, halves up. With no time elapsed the rate is zero.
pub open spec fn rate_spec(fetched: nat, elapsed_nanos: nat) -> nat {
    if elapsed_nanos == 0 {
        0
    } else {
        ((200 * NANOS_PER_SEC * fetched + elapsed_nanos) / ((2 * elapsed_nanos) as int)) as nat
    }
}

/// A duration in nanoseconds as hundredths of a second, rounded to the
/// nearest, halves up.
pub open spec fn seconds_spec(elapsed_nanos: nat) -> nat {
    ((elapsed_nanos + 5_000_000) / 10_000_000) as nat
}

/// The line announcing a run that fetches `amount` items.
pub open spec fn header_text(amount: nat) -> Seq<char> {
    "Fetching "@ + decimal_text(amount) + " "@ + unit_text(amount) + "..."@
}

/// The progress line after `fetched` of `amount` items at `rate` hundredths
/// per second. It starts with a carriage return, so that it redraws the last one.
pub open spec fn progress_text(fetched: nat, amount: nat, rate: nat) -> Seq<char> {
    "\rFetched "@ + decimal_text(fetched) + "/"@ + decimal_text(amount) + " "@ + unit_text(
        fetched,
    ) + "... "@ + fixed2_text(rate) + " memes/sec"@
}

/// The summary line after `fetched` items in `hundredths` hundredths of a second.
pub open spec fn summary_text(fetched: nat, hundredths: nat) -> Seq<char> {
    "\rFetched a total of "@ + decimal_text(fetched) + " "@ + unit_text(fetched) + " in "@
        + fixed2_text(hundredths) + " seconds. Override with the --amount (int) arg"@
}

/// The rate is the nearest hundredth to `fetched / seconds`: its distance to
/// the exact value is at most half a hundredth, and a tie goes up.
pub proof fn lemma_rate_nearest(fetched: nat, elapsed_nanos: nat)
    requires
        elapsed_nanos > 0,
    ensures
        2 * rate_spec(fetched, elapsed_nanos) * elapsed_nanos <= 200 * NANOS_PER_SEC * fetched
            + elapsed_nanos,
        200 * NANOS_PER_SEC * fetched + elapsed_nanos < 2 * (rate_spec(fetched, elapsed_nanos)
            + 1) * elapsed_nanos,
{
    let x: int = 200 * NANOS_PER_SEC * fetched + elapsed_nanos;
    let d: int = (2 * elapsed_nanos) as int;
    let q: int = x / d;
    assert(q * d <= x && x < (q + 1) * d) by (nonlinear_arith)
        requires
            d > 0,
            q == x / d,
            x >= 0,
    ;
    assert(2 * q * elapsed_nanos == q * d) by (nonlinear_arith)
        requires
            d == 2 * elapsed_nanos,
    ;
    assert(2 * (q + 1) * elapsed_nanos == (q + 1) * d) by (nonlinear_arith)
        requires
            d == 2 * elapsed_nanos,
    ;
}

/// The fetch rate after `fetched` items in `elapsed_nanos` nanoseconds, in
/// hundredths of an item per second; zero when no time has elapsed.
pub fn rate_hundredths(fetched: u64, elapsed_nanos: u64) -> (r: u128)
    ensures
        r == rate_spec(fetched as nat, elapsed_nanos as nat),
        elapsed_nanos == 0 ==> r == 0,
        elapsed_nanos > 0 ==> 2 * r * elapsed_nanos <= 200 * NANOS_PER_SEC * fetched
            + elapsed_nanos && 200 * NANOS_PER_SEC * fetched + elapsed_nanos < 2 * (r + 1)
            * elapsed_nanos,
{
    if elapsed_nanos == 0 {
        0
    } else {
        proof {
            lemma_rate_nearest(fetched as nat, elapsed_nanos as nat);
        }
        assert(200 * NANOS_PER_SEC * (fetched as u128) <= 200_000_000_000u128 * 0xffff_ffff_ffff_ffffu128)
            by (nonlinear_arith)
            requires
                fetched <= 0xffff_ffff_ffff_ffffu64,
        ;
        let num: u128 = 200_000_000_000u128 * (fetched as u128) + (elapsed_nanos as u128);
        num / (2 * (elapsed_nanos as u128))
    }
}

/// A duration in nanoseconds as hundredths of a second, rounded to the nearest.
pub fn seconds_hundredths(elapsed_nanos: u64) -> (r: u128)
    ensures
        r == seconds_spec(elapsed_nanos as nat),
{
    ((elapsed_nanos as u128) + 5_000_000) / 10_000_000
}

/// The line announcing a run that fetches `amount` items.
pub fn header_line(amount: u64) -> (r: String)
    ensures
        r@ == header_text(amount as nat),
{
    let mut s = String::from_str("Fetching ");
    push_decimal(&mut s, amount as u128);
    s.append(" ");
    s.append(unit_word(amount));
    s.append("...");
    assert(s@ =~= header_text(amount as nat));
    s
}

/// The progress line after `fetched` of `amount` items in `elapsed_nanos`
/// nanoseconds, showing the rate with two decimal places.
pub fn progress_line(fetched: u64, amount: u64, elapsed_nanos: u64) -> (r: String)
    ensures
        r@ == progress_text(
            fetched as nat,
            amount as nat,
            rate_spec(fetched as nat, elapsed_nanos as nat),
        ),
{
    let rate = rate_hundredths(fetched, elapsed_nanos);
    let mut s = String::from_str("\rFetched ");
    push_decimal(&mut s, fetched as u128);
    s.append("/");
    push_decimal(&mut s, amount as u128);
    s.append(" ");
    s.append(unit_word(fetched));
    s.append("... ");
    push_fixed2(&mut s, rate);
    s.append(" memes/sec");
    assert(s@ =~= progress_text(fetched as nat, amount as nat, rate as nat));
    s
}

/// The summary line after `fetched` items in `elapsed_nanos` nanoseconds,
/// showing the seconds with two decimal places.
pub fn summary_line(fetched: u64, elapsed_nanos: u64) -> (r: String)
    ensures
        r@ == summary_text(fetched as nat, seconds_spec(elapsed_nanos as nat)),
{
    let secs = seconds_hundredths(elapsed_nanos);
    let mut s = String::from_str("\rFetched a total of ");
    push_decimal(&mut s, fetched as u128);
    s.append(" ");
    s.append(unit_word(fetched));
    s.append(" in ");
    push_fixed2(&mut s, secs);
    s.append(" seconds. Override with the --amount (int) arg");
    assert(s@ =~= summary_text(fetched as nat, secs as nat));
    s
}

} // verus!
