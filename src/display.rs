//! How a prescription reads on screen, and which intensity class colours it.
use vstd::prelude::*;
use crate::program::{Exercise, ExerciseView};

verus! {

/// The decimal digit `d` (0 to 9) as text.
pub open spec fn digit_text(d: int) -> Seq<char> {
    if d == 0 {
        "0"@
    } else if d == 1 {
        "1"@
    } else if d == 2 {
        "2"@
    } else if d == 3 {
        "3"@
    } else if d == 4 {
        "4"@
    } else if d == 5 {
        "5"@
    } else if d == 6 {
        "6"@
    } else if d == 7 {
        "7"@
    } else if d == 8 {
        "8"@
    } else {
        "9"@
    }
}

/// The decimal notation of `n`, without leading zeros.
pub open spec fn decimal(n: nat) -> Seq<char>
    decreases n,
{
    if n < 10 {
        digit_text(n as int)
    } else {
        decimal(n / 10) + digit_text((n % 10) as int)
    }
}

/// A weight in hundredths of a kilogram as kilograms: the whole part, then
/// the fraction without trailing zeros, if any ("82.5", "65", "-2.5").
pub open spec fn weight_text(w: int) -> Seq<char> {
    let a = if w < 0 { -w } else { w };
    let frac = a % 100;
    (if w < 0 { "-"@ } else { ""@ }) + decimal((a / 100) as nat) + if frac == 0 {
        ""@
    } else if frac % 10 == 0 {
        "."@ + digit_text(frac / 10)
    } else {
        "."@ + digit_text(frac / 10) + digit_text(frac % 10)
    }
}

/// The line that shows a prescription: "Bench Press: 3x5 @ 82.5kg (75%)".
/// A single set of one rep drops "1x1 @ "; an as-many-reps-as-possible set
/// shows its reps with a trailing "+".
pub open spec fn exercise_text(e: ExerciseView) -> Seq<char> {
    let head = e.name + ": "@;
    let tail = weight_text(e.weight) + "kg ("@ + decimal(e.percentage) + "%)"@;
    let single = e.sets == 1 && e.reps == 1;
    if e.is_amrap && single {
        head + "1+ @ "@ + tail
    } else if e.is_amrap {
        head + decimal(e.sets) + "x"@ + decimal(e.reps) + "+ @ "@ + tail
    } else if single {
        head + tail
    } else {
        head + decimal(e.sets) + "x"@ + decimal(e.reps) + " @ "@ + tail
    }
}

/// The colour class of an intensity: 70 shares the colour of 65, 95 that of 90.
pub open spec fn intensity_class_of(percentage: int) -> Seq<char> {
    if percentage == 65 || percentage == 70 {
        "intensity-65"@
    } else if percentage == 75 {
        "intensity-75"@
    } else if percentage == 80 {
        "intensity-warmup"@
    } else if percentage == 85 {
        "intensity-85"@
    } else if percentage == 90 || percentage == 95 {
        "intensity-90"@
    } else if percentage == 100 {
        "intensity-100"@
    } else if percentage == 105 {
        "intensity-105"@
    } else {
        "intensity-default"@
    }
}

fn digit_str(d: u64) -> (r: &'static str)
    requires
        d < 10,
    ensures
        r@ == digit_text(d as int),
{
    if d == 0 {
        "0"
    } else if d == 1 {
        "1"
    } else if d == 2 {
        "2"
    } else if d == 3 {
        "3"
    } else if d == 4 {
        "4"
    } else if d == 5 {
        "5"
    } else if d == 6 {
        "6"
    } else if d == 7 {
        "7"
    } else if d == 8 {
        "8"
    } else {
        "9"
    }
}

/// Appends the decimal notation of `n` to `s`.
pub fn push_decimal(s: String, n: u64) -> (r: String)
    ensures
        r@ == s@ + decimal(n as nat),
    decreases n,
{
    let front = if n >= 10 {
        push_decimal(s, n / 10)
    } else {
        s
    };
    let r = front.concat(digit_str(n % 10));
    proof {
        if n >= 10 {
            assert(r@ =~= s@ + decimal(n as nat));
        }
    }
    r
}

/// Appends a weight in hundredths of a kilogram, as kilograms, to `s`.
pub fn push_weight(s: String, w: i64) -> (r: String)
    ensures
        r@ == s@ + weight_text(w as int),
{
    let a: u64 = if w < 0 {
        (-(w as i128)) as u64
    } else {
        w as u64
    };
    let frac = a % 100;
    let signed = if w < 0 {
        s.concat("-")
    } else {
        s.concat("")
    };
    let whole = push_decimal(signed, a / 100);
    let r = if frac == 0 {
        whole.concat("")
    } else if frac % 10 == 0 {
        whole.concat(".").concat(digit_str(frac / 10))
    } else {
        whole.concat(".").concat(digit_str(frac / 10)).concat(digit_str(frac % 10))
    };
    assert(r@ =~= s@ + weight_text(w as int));
    r
}

/// The line that shows the prescription `e`.
pub fn exercise_text_of(e: &Exercise) -> (r: String)
    ensures
        r@ == exercise_text(e@),
{
    let head = e.name.clone().concat(": ");
    let single = e.sets == 1 && e.reps == 1;
    let lead = if e.is_amrap && single {
        head.concat("1+ @ ")
    } else if e.is_amrap {
        push_decimal(push_decimal(head, e.sets as u64).concat("x"), e.reps as u64).concat("+ @ ")
    } else if single {
        head
    } else {
        push_decimal(push_decimal(head, e.sets as u64).concat("x"), e.reps as u64).concat(" @ ")
    };
    let r = push_decimal(push_weight(lead, e.weight).concat("kg ("), e.percentage as u64).concat(
        "%)",
    );
    assert(r@ =~= exercise_text(e@));
    r
}

/// The colour class of an intensity.
pub fn intensity_class(percentage: u32) -> (r: &'static str)
    ensures
        r@ == intensity_class_of(percentage as int),
{
    if percentage == 65 || percentage == 70 {
        "intensity-65"
    } else if percentage == 75 {
        "intensity-75"
    } else if percentage == 80 {
        "intensity-warmup"
    } else if percentage == 85 {
        "intensity-85"
    } else if percentage == 90 || percentage == 95 {
        "intensity-90"
    } else if percentage == 100 {
        "intensity-100"
    } else if percentage == 105 {
        "intensity-105"
    } else {
        "intensity-default"
    }
}

/// The heading of week `n`; week 4, the max-test week, is marked as such.
pub open spec fn week_title_of(n: nat) -> Seq<char> {
    if n == 4 {
        "Week "@ + decimal(n) + " - MAX WEEK!"@
    } else {
        "Week "@ + decimal(n)
    }
}

/// The heading of week `week_number`: "Week 2", "Week 4 - MAX WEEK!".
pub fn week_title(week_number: u32) -> (r: String)
    ensures
        r@ == week_title_of(week_number as nat),
{
    let t = push_decimal(String::from_str("Week "), week_number as u64);
    if week_number == 4 {
        t.concat(" - MAX WEEK!")
    } else {
        t
    }
}

/// The short label of week `week_number` on its tab: "W1".
pub fn week_tab_label(week_number: u32) -> (r: String)
    ensures
        r@ == "W"@ + decimal(week_number as nat),
{
    push_decimal(String::from_str("W"), week_number as u64)
}

} // verus!
