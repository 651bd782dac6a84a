//! What holds of every generated program.
use vstd::prelude::*;
use crate::program::{program_plan, Day, Lift, OneRepMax};
use crate::weight::{lemma_rounded_weight_sign, rounded_weight};

verus! {

/// The lift that prescription `k` of the session on `day` of week `week` trains.
pub open spec fn entry_lift(week: int, day: Day, k: int) -> Lift {
    match day {
        Day::Monday => Lift::spec_at(k),
        Day::Friday => if week == 4 {
            Lift::spec_at(k / 5)
        } else {
            Lift::spec_at(k / 3)
        },
    }
}

/// Equal maxima give equal programs: the program is a function of the maxima alone.
pub proof fn lemma_program_deterministic(a: OneRepMax, b: OneRepMax)
    requires
        a == b,
    ensures
        program_plan(a) == program_plan(b),
{
}

/// Every program has four weeks numbered 1 to 4 in order, each with a Monday
/// session followed by a Friday session.
pub proof fn lemma_program_shape(m: OneRepMax)
    ensures
        program_plan(m).len() == 4,
        forall|i: int|
            0 <= i < 4 ==> {
                &&& (#[trigger] program_plan(m)[i]).week_number == i + 1
                &&& program_plan(m)[i].sessions.len() == 2
                &&& program_plan(m)[i].sessions[0].day == Day::Monday
                &&& program_plan(m)[i].sessions[1].day == Day::Friday
            },
{
}

/// Every prescribed weight is the maximum of its lift times its percentage,
/// rounded to 2.5 kg (see `lemma_rounded_weight_nearest`), and so a multiple of 2.5 kg.
pub proof fn lemma_program_weights_rounded(m: OneRepMax)
    ensures
        forall|i: int, j: int, k: int|
            0 <= i < 4 && 0 <= j < 2 && 0 <= k < program_plan(m)[i].sessions[j].exercises.len()
                ==> {
                let e = #[trigger] program_plan(m)[i].sessions[j].exercises[k];
                let day = program_plan(m)[i].sessions[j].day;
                &&& e.weight == rounded_weight(
                    m.spec_of(entry_lift(i + 1, day, k)),
                    e.percentage as int,
                )
                &&& e.weight % 250 == 0
            },
{
    assert forall|i: int, j: int, k: int|
        0 <= i < 4 && 0 <= j < 2 && 0 <= k < program_plan(m)[i].sessions[j].exercises.len()
            implies {
            let e = #[trigger] program_plan(m)[i].sessions[j].exercises[k];
            let day = program_plan(m)[i].sessions[j].day;
            &&& e.weight == rounded_weight(
                m.spec_of(entry_lift(i + 1, day, k)),
                e.percentage as int,
            )
            &&& e.weight % 250 == 0
        } by {
        let e = program_plan(m)[i].sessions[j].exercises[k];
        crate::weight::lemma_rounded_weight_nearest(
            m.spec_of(entry_lift(i + 1, program_plan(m)[i].sessions[j].day, k)),
            e.percentage as int,
            0,
        );
    }
}

/// Week 4's Friday holds, for each lift in turn, five singles at 65, 80, 90,
/// 100 and 105 percent, named "Warmup", "Single", "Single", "Max" and
/// "BEYOND!" after the lift's name, none of them as-many-reps-as-possible.
pub proof fn lemma_max_week(m: OneRepMax)
    ensures
        program_plan(m)[3].sessions[1].exercises.len() == 15,
        forall|l: int, s: int|
            0 <= l < 3 && 0 <= s < 5 ==> {
                let e = #[trigger] program_plan(m)[3].sessions[1].exercises[5 * l + s];
                &&& e.sets == 1
                &&& e.reps == 1
                &&& !e.is_amrap
                &&& e.percentage == seq![65nat, 80, 90, 100, 105][s]
                &&& e.name == Lift::spec_at(l).spec_name() + " - "@ + seq![
                    "Warmup"@,
                    "Single"@,
                    "Single"@,
                    "Max"@,
                    "BEYOND!"@,
                ][s]
                &&& e.weight == rounded_weight(m.spec_of(Lift::spec_at(l)), e.percentage as int)
            },
{
    assert forall|l: int, s: int| 0 <= l < 3 && 0 <= s < 5 implies {
        let e = #[trigger] program_plan(m)[3].sessions[1].exercises[5 * l + s];
        &&& e.sets == 1
        &&& e.reps == 1
        &&& !e.is_amrap
        &&& e.percentage == seq![65nat, 80, 90, 100, 105][s]
        &&& e.name == Lift::spec_at(l).spec_name() + " - "@ + seq![
            "Warmup"@,
            "Single"@,
            "Single"@,
            "Max"@,
            "BEYOND!"@,
        ][s]
        &&& e.weight == rounded_weight(m.spec_of(Lift::spec_at(l)), e.percentage as int)
    } by {
        assert((5 * l + s) / 5 == l && (5 * l + s) % 5 == s);
    }
}

/// In weeks 1 to 3 the last Friday set of each lift is its heaviest, and that
/// top percentage never falls from one week to the next.
pub proof fn lemma_friday_top_nondecreasing(m: OneRepMax)
    ensures
        forall|w: int, l: int, s: int|
            1 <= w <= 3 && 0 <= l < 3 && 0 <= s < 3 ==> (#[trigger] program_plan(m)[w
                - 1].sessions[1].exercises[3 * l + s]).percentage <= program_plan(m)[w
                - 1].sessions[1].exercises[3 * l + 2].percentage,
        forall|w: int, l: int|
            1 <= w < 3 && 0 <= l < 3 ==> (#[trigger] program_plan(m)[w
                - 1].sessions[1].exercises[3 * l + 2]).percentage <= program_plan(m)[
                w].sessions[1].exercises[3 * l + 2].percentage,
{
    assert forall|w: int, l: int, s: int|
        1 <= w <= 3 && 0 <= l < 3 && 0 <= s < 3 implies (#[trigger] program_plan(m)[w
        - 1].sessions[1].exercises[3 * l + s]).percentage <= program_plan(m)[w
        - 1].sessions[1].exercises[3 * l + 2].percentage by {
        assert((3 * l + s) / 3 == l && (3 * l + s) % 3 == s);
        assert((3 * l + 2) / 3 == l && (3 * l + 2) % 3 == 2);
    }
    assert forall|w: int, l: int|
        1 <= w < 3 && 0 <= l < 3 implies (#[trigger] program_plan(m)[w
        - 1].sessions[1].exercises[3 * l + 2]).percentage <= program_plan(m)[
        w].sessions[1].exercises[3 * l + 2].percentage by {
        assert((3 * l + 2) / 3 == l && (3 * l + 2) % 3 == 2);
    }
}

/// Maxima of zero give a program whose every weight is zero; maxima that are
/// all negative give no positive weight.
pub proof fn lemma_zero_maxima(m: OneRepMax)
    ensures
        forall|i: int, j: int, k: int|
            0 <= i < 4 && 0 <= j < 2 && 0 <= k < program_plan(m)[i].sessions[j].exercises.len()
                ==> {
                let e = #[trigger] program_plan(m)[i].sessions[j].exercises[k];
                &&& (m.front_squat == 0 && m.deadlift == 0 && m.bench_press == 0) ==> e.weight
                    == 0
                &&& (m.front_squat <= 0 && m.deadlift <= 0 && m.bench_press <= 0) ==> e.weight
                    <= 0
            },
{
    lemma_program_weights_rounded(m);
    assert forall|i: int, j: int, k: int|
        0 <= i < 4 && 0 <= j < 2 && 0 <= k < program_plan(m)[i].sessions[j].exercises.len()
            implies {
            let e = #[trigger] program_plan(m)[i].sessions[j].exercises[k];
            &&& (m.front_squat == 0 && m.deadlift == 0 && m.bench_press == 0) ==> e.weight == 0
            &&& (m.front_squat <= 0 && m.deadlift <= 0 && m.bench_press <= 0) ==> e.weight <= 0
        } by {
        let e = program_plan(m)[i].sessions[j].exercises[k];
        let lift = entry_lift(i + 1, program_plan(m)[i].sessions[j].day, k);
        lemma_rounded_weight_sign(m.spec_of(lift), e.percentage as int);
    }
}

} // verus!
