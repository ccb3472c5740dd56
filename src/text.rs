use vstd::prelude::*;

verus! {

/// The text of one decimal digit.
pub open spec fn digit_text(d: nat) -> Seq<char> {
    if d == 0 {
        "0"@
    } else if d == 1 {
        "1"@
    } else if d == 2 {
        "2"@
    } else if d == 3 {
        "3"@
    } else if d == 4 {
        "4"@
    } else if d == 5 {
        "5"@
    } else if d == 6 {
        "6"@
    } else if d == 7 {
        "7"@
    } else if d == 8 {
        "8"@
    } else {
        "9"@
    }
}

/// The decimal text of `n`, without leading zeros.
pub open spec fn decimal_text(n: nat) -> Seq<char>
    decreases n,
{
    if n < 10 {
        digit_text(n)
    } else {
        decimal_text(n / 10) + digit_text(n % 10)
    }
}

/// The text of a fixed-point value given in hundredths, with two digits
/// after the point (`hundredths == 1234` reads `12.34`).
pub open spec fn fixed2_text(hundredths: nat) -> Seq<char> {
    decimal_text(hundredths / 100) + "."@ + digit_text((hundredths / 10) % 10) + digit_text(
        hundredths % 10,
    )
}

/// The unit word for `count` items: singular for exactly one, plural otherwise.
pub open spec fn unit_text(count: nat) -> Seq<char> {
    if count == 1 {
        "meme"@
    } else {
        "memes"@
    }
}

fn digit_str(d: u64) -> (r: &'static str)
    requires
        d < 10,
    ensures
        r@ == digit_text(d as nat),
{
    if d == 0 {
        "0"
    } else if d == 1 {
        "1"
    } else if d == 2 {
        "2"
    } else if d == 3 {
        "3"
    } else if d == 4 {
        "4"
    } else if d == 5 {
        "5"
    } else if d == 6 {
        "6"
    } else if d == 7 {
        "7"
    } else if d == 8 {
        "8"
    } else {
        "9"
    }
}

/// Appends `hundredths / 100` with two decimal places to `s`.
pub fn push_fixed2(s: &mut String, hundredths: u128)
    ensures
        final(s)@ == old(s)@ + fixed2_text(hundredths as nat),
{
    let whole: u128 = hundredths / 100;
    push_decimal(s, whole);
    s.append(".");
    s.append(digit_str(((hundredths / 10) % 10) as u64));
    s.append(digit_str((hundredths % 10) as u64));
    assert(final(s)@ =~= old(s)@ + fixed2_text(hundredths as nat));
}

/// Appends the decimal text of `n` to `s`.
pub fn push_decimal(s: &mut String, n: u128)
    ensures
        final(s)@ == old(s)@ + decimal_text(n as nat),
    decreases n,
{
    if n < 10 {
        s.append(digit_str(n as u64));
    } else {
        push_decimal(s, n / 10);
        s.append(digit_str((n % 10) as u64));
        assert(final(s)@ =~= old(s)@ + decimal_text(n as nat));
    }
}

/// The unit word for `count` items: "meme" for exactly one, "memes" otherwise.
pub fn unit_word(count: u64) -> (r: &'static str)
    ensures
        r@ == unit_text(count as nat),
{
    if count == 1 {
        "meme"
    } else {
        "memes"
    }
}

} // verus!
