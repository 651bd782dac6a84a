//! The program: its data, the rule table that decides each prescription, and
//! the generator that applies the table to three one-rep maxima.
//!
//! The table is the ramped variant of the program: Monday at 65% in weeks 1
//! and 4 and at 75% in weeks 2 and 3, Friday with three ascending sets per lift
//! whose top set is as-many-reps-as-possible, and a week-4 Friday of five
//! singles per lift up to 105%.
use vstd::prelude::*;
use crate::weight::{rounded_weight, PLATE_STEP};

verus! {

/// One of the three lifts of the program, in prescription order.
#[derive(Clone, Copy, Debug, PartialEq, Eq, Structural)]
pub enum Lift {
    FrontSquat,
    Deadlift,
    BenchPress,
}

/// The two training days of a week.
#[derive(Clone, Copy, Debug, PartialEq, Eq, Hash, Structural)]
pub enum Day {
    Monday,
    Friday,
}

/// The three one-rep maxima, in hundredths of a kilogram.
#[derive(Clone, Copy, Debug, PartialEq, Eq, Structural)]
pub struct OneRepMax {
    pub front_squat: i32,
    pub deadlift: i32,
    pub bench_press: i32,
}

/// One prescription: `sets` × `reps` at `weight` (hundredths of a kilogram),
/// which is `percentage` percent of the lift's maximum rounded to 2.5 kg.
#[derive(Clone, Debug, PartialEq)]
pub struct Exercise {
    pub name: String,
    pub sets: u32,
    pub reps: u32,
    pub weight: i64,
    pub percentage: u32,
    pub is_amrap: bool,
}

/// A training day and its prescriptions, in the order they are performed.
#[derive(Clone, Debug, PartialEq)]
pub struct Session {
    pub day: Day,
    pub exercises: Vec<Exercise>,
}

/// A numbered week: its Monday session, then its Friday session.
#[derive(Clone, Debug, PartialEq)]
pub struct Week {
    pub week_number: u32,
    pub sessions: Vec<Session>,
}

/// The four weeks of the program, in order.
#[derive(Clone, Debug, PartialEq)]
pub struct TrainingProgram {
    pub weeks: Vec<Week>,
}

/// The generator of the program.
pub struct Beyond531Calculator;

/// The mathematical value of an [`Exercise`].
pub struct ExerciseView {
    pub name: Seq<char>,
    pub sets: nat,
    pub reps: nat,
    pub weight: int,
    pub percentage: nat,
    pub is_amrap: bool,
}

/// The mathematical value of a [`Session`].
pub struct SessionView {
    pub day: Day,
    pub exercises: Seq<ExerciseView>,
}

/// The mathematical value of a [`Week`].
pub struct WeekView {
    pub week_number: int,
    pub sessions: Seq<SessionView>,
}

impl View for Exercise {
    type V = ExerciseView;

    open spec fn view(&self) -> ExerciseView {
        ExerciseView {
            name: self.name@,
            sets: self.sets as nat,
            reps: self.reps as nat,
            weight: self.weight as int,
            percentage: self.percentage as nat,
            is_amrap: self.is_amrap,
        }
    }
}

/// The values of a sequence of prescriptions.
pub open spec fn exercises_view(v: Seq<Exercise>) -> Seq<ExerciseView> {
    v.map_values(|e: Exercise| e@)
}

impl View for Session {
    type V = SessionView;

    open spec fn view(&self) -> SessionView {
        SessionView { day: self.day, exercises: exercises_view(self.exercises@) }
    }
}

impl View for Week {
    type V = WeekView;

    open spec fn view(&self) -> WeekView {
        WeekView {
            week_number: self.week_number as int,
            sessions: self.sessions@.map_values(|s: Session| s@),
        }
    }
}

impl View for TrainingProgram {
    type V = Seq<WeekView>;

    open spec fn view(&self) -> Seq<WeekView> {
        self.weeks@.map_values(|w: Week| w@)
    }
}

impl Lift {
    /// The lift at position `i` of the prescription order.
    pub open spec fn spec_at(i: int) -> Lift {
        if i == 0 {
            Lift::FrontSquat
        } else if i == 1 {
            Lift::Deadlift
        } else {
            Lift::BenchPress
        }
    }

    pub open spec fn spec_name(self) -> Seq<char> {
        match self {
            Lift::FrontSquat => "Front Squat"@,
            Lift::Deadlift => "Deadlift"@,
            Lift::BenchPress => "Bench Press"@,
        }
    }

    pub fn at(i: usize) -> (l: Lift)
        requires
            i < 3,
        ensures
            l == Lift::spec_at(i as int),
    {
        if i == 0 {
            Lift::FrontSquat
        } else if i == 1 {
            Lift::Deadlift
        } else {
            Lift::BenchPress
        }
    }

    /// The display name of the lift.
    pub fn name(self) -> (r: &'static str)
        ensures
            r@ == self.spec_name(),
    {
        match self {
            Lift::FrontSquat => "Front Squat",
            Lift::Deadlift => "Deadlift",
            Lift::BenchPress => "Bench Press",
        }
    }
}

impl Day {
    pub open spec fn spec_name(self) -> Seq<char> {
        match self {
            Day::Monday => "Monday"@,
            Day::Friday => "Friday"@,
        }
    }

    /// The name of the day.
    pub fn name(self) -> (r: &'static str)
        ensures
            r@ == self.spec_name(),
    {
        match self {
            Day::Monday => "Monday",
            Day::Friday => "Friday",
        }
    }
}

impl OneRepMax {
    pub open spec fn spec_of(self, l: Lift) -> int {
        match l {
            Lift::FrontSquat => self.front_squat as int,
            Lift::Deadlift => self.deadlift as int,
            Lift::BenchPress => self.bench_press as int,
        }
    }

    /// The maximum of lift `l`.
    pub fn of(&self, l: Lift) -> (r: i32)
        ensures
            r as int == self.spec_of(l),
    {
        match l {
            Lift::FrontSquat => self.front_squat,
            Lift::Deadlift => self.deadlift,
            Lift::BenchPress => self.bench_press,
        }
    }
}

/// A prescription of `percentage` percent of `one_rm`, its weight rounded to 2.5 kg.
pub open spec fn prescription(
    name: Seq<char>,
    one_rm: int,
    sets: nat,
    reps: nat,
    percentage: nat,
    is_amrap: bool,
) -> ExerciseView {
    ExerciseView {
        name,
        sets,
        reps,
        weight: rounded_weight(one_rm, percentage as int),
        percentage,
        is_amrap,
    }
}

/// Monday's intensity: 65% in the first and last week, 75% in between.
pub open spec fn monday_percentage(week: int) -> nat {
    if week == 1 || week == 4 {
        65
    } else {
        75
    }
}

/// Monday's sets of five: three for the squat and the bench press, one for the deadlift.
pub open spec fn monday_sets(l: Lift) -> nat {
    match l {
        Lift::Deadlift => 1,
        _ => 3,
    }
}

/// The repetitions of every Monday set.
pub const MONDAY_REPS: u32 = 5;

pub open spec fn monday_set(m: OneRepMax, week: int, l: Lift) -> ExerciseView {
    prescription(
        l.spec_name(),
        m.spec_of(l),
        monday_sets(l),
        MONDAY_REPS as nat,
        monday_percentage(week),
        false,
    )
}

/// Monday of `week`: one prescription per lift.
pub open spec fn monday_exercises(m: OneRepMax, week: int) -> Seq<ExerciseView> {
    Seq::new(3, |i: int| monday_set(m, week, Lift::spec_at(i)))
}

/// The intensity of set `step` (0, 1 or 2) of a Friday ramp in weeks 1 to 3.
pub open spec fn ramp_percentage(week: int, step: int) -> nat {
    if step == 0 {
        if week == 3 { 70 } else { 65 }
    } else if step == 1 {
        if week == 3 { 80 } else { 75 }
    } else {
        if week == 1 { 80 } else if week == 2 { 85 } else { 90 }
    }
}

/// The repetitions of set `step` of a Friday ramp: fives in week 1, threes in
/// week 2, and five, three, one in week 3.
pub open spec fn ramp_reps(week: int, step: int) -> nat {
    if week == 1 {
        5
    } else if week == 2 {
        3
    } else if step == 0 {
        5
    } else if step == 1 {
        3
    } else {
        1
    }
}

/// Set `step` of the Friday ramp of lift `l`; the top set is as-many-reps-as-possible.
pub open spec fn ramp_set(m: OneRepMax, week: int, l: Lift, step: int) -> ExerciseView {
    prescription(
        l.spec_name(),
        m.spec_of(l),
        1,
        ramp_reps(week, step),
        ramp_percentage(week, step),
        step == 2,
    )
}

/// Friday of weeks 1 to 3: three ramp sets per lift.
pub open spec fn ramp_exercises(m: OneRepMax, week: int) -> Seq<ExerciseView> {
    Seq::new(9, |k: int| ramp_set(m, week, Lift::spec_at(k / 3), k % 3))
}

/// The intensity of single `step` (0 to 4) of the week-4 max test.
pub open spec fn max_test_percentage(step: int) -> nat {
    if step == 0 {
        65
    } else if step == 1 {
        80
    } else if step == 2 {
        90
    } else if step == 3 {
        100
    } else {
        105
    }
}

/// The label of single `step` of the week-4 max test.
pub open spec fn max_test_label(step: int) -> Seq<char> {
    if step == 0 {
        "Warmup"@
    } else if step == 1 || step == 2 {
        "Single"@
    } else if step == 3 {
        "Max"@
    } else {
        "BEYOND!"@
    }
}

/// Single `step` of the max test of lift `l`, named "<lift> - <label>".
pub open spec fn max_test_set(m: OneRepMax, l: Lift, step: int) -> ExerciseView {
    prescription(
        l.spec_name() + " - "@ + max_test_label(step),
        m.spec_of(l),
        1,
        1,
        max_test_percentage(step),
        false,
    )
}

/// Friday of week 4: five singles per lift.
pub open spec fn max_test_exercises(m: OneRepMax) -> Seq<ExerciseView> {
    Seq::new(15, |k: int| max_test_set(m, Lift::spec_at(k / 5), k % 5))
}

pub open spec fn friday_exercises(m: OneRepMax, week: int) -> Seq<ExerciseView> {
    if week == 4 {
        max_test_exercises(m)
    } else {
        ramp_exercises(m, week)
    }
}

/// Week `week` of the program.
pub open spec fn week_plan(m: OneRepMax, week: int) -> WeekView {
    WeekView {
        week_number: week,
        sessions: seq![
            SessionView { day: Day::Monday, exercises: monday_exercises(m, week) },
            SessionView { day: Day::Friday, exercises: friday_exercises(m, week) },
        ],
    }
}

/// The whole program for the maxima `m`.
pub open spec fn program_plan(m: OneRepMax) -> Seq<WeekView> {
    Seq::new(4, |i: int| week_plan(m, i + 1))
}

fn monday_percentage_of(week: u32) -> (r: u32)
    ensures
        r as nat == monday_percentage(week as int),
{
    if week == 1 || week == 4 {
        65
    } else {
        75
    }
}

fn monday_sets_of(l: Lift) -> (r: u32)
    ensures
        r as nat == monday_sets(l),
{
    match l {
        Lift::Deadlift => 1,
        _ => 3,
    }
}

fn ramp_percentage_of(week: u32, step: usize) -> (r: u32)
    ensures
        r as nat == ramp_percentage(week as int, step as int),
{
    if step == 0 {
        if week == 3 { 70 } else { 65 }
    } else if step == 1 {
        if week == 3 { 80 } else { 75 }
    } else {
        if week == 1 { 80 } else if week == 2 { 85 } else { 90 }
    }
}

fn ramp_reps_of(week: u32, step: usize) -> (r: u32)
    ensures
        r as nat == ramp_reps(week as int, step as int),
{
    if week == 1 {
        5
    } else if week == 2 {
        3
    } else if step == 0 {
        5
    } else if step == 1 {
        3
    } else {
        1
    }
}

fn max_test_percentage_of(step: usize) -> (r: u32)
    ensures
        r as nat == max_test_percentage(step as int),
{
    if step == 0 {
        65
    } else if step == 1 {
        80
    } else if step == 2 {
        90
    } else if step == 3 {
        100
    } else {
        105
    }
}

fn max_test_label_of(step: usize) -> (r: &'static str)
    ensures
        r@ == max_test_label(step as int),
{
    if step == 0 {
        "Warmup"
    } else if step == 1 || step == 2 {
        "Single"
    } else if step == 3 {
        "Max"
    } else {
        "BEYOND!"
    }
}

impl Beyond531Calculator {
    /// `one_rm × percentage / 100`, rounded to the nearest multiple of 2.5 kg,
    /// halves away from zero; weights in hundredths of a kilogram.
    pub fn round_to_2_5(one_rm: i32, percentage: u32) -> (w: i64)
        ensures
            w as int == rounded_weight(one_rm as int, percentage as int),
    {
        let a: i64 = one_rm as i64;
        let b: i64 = percentage as i64;
        assert(-0x8000_0000_0000_0000 < a * b < 0x8000_0000_0000_0000) by (nonlinear_arith)
            requires
                -0x8000_0000 <= a < 0x8000_0000,
                0 <= b < 0x1_0000_0000,
        ;
        let n: i64 = a * b;
        let d: i64 = 100 * PLATE_STEP;
        let magnitude: i64 = if n >= 0 { n } else { -n };
        let q: i64 = if 2 * (magnitude % d) >= d { magnitude / d + 1 } else { magnitude / d };
        if n >= 0 {
            PLATE_STEP * q
        } else {
            -(PLATE_STEP * q)
        }
    }

    fn prescribe(
        name: String,
        one_rm: i32,
        sets: u32,
        reps: u32,
        percentage: u32,
        is_amrap: bool,
    ) -> (e: Exercise)
        ensures
            e@ == prescription(
                name@,
                one_rm as int,
                sets as nat,
                reps as nat,
                percentage as nat,
                is_amrap,
            ),
    {
        let weight = Self::round_to_2_5(one_rm, percentage);
        Exercise { name, sets, reps, weight, percentage, is_amrap }
    }

    fn monday_session(one_rep_max: &OneRepMax, week_number: u32) -> (s: Session)
        ensures
            s@ == (SessionView {
                day: Day::Monday,
                exercises: monday_exercises(*one_rep_max, week_number as int),
            }),
    {
        let ghost plan = monday_exercises(*one_rep_max, week_number as int);
        let percentage = monday_percentage_of(week_number);
        let mut exercises: Vec<Exercise> = Vec::new();
        let mut i: usize = 0;
        while i < 3
            invariant
                i <= 3,
                percentage as nat == monday_percentage(week_number as int),
                plan == monday_exercises(*one_rep_max, week_number as int),
                exercises_view(exercises@) =~= plan.take(i as int),
            decreases 3 - i,
        {
            let lift = Lift::at(i);
            let e = Self::prescribe(
                String::from_str(lift.name()),
                one_rep_max.of(lift),
                monday_sets_of(lift),
                MONDAY_REPS,
                percentage,
                false,
            );
            let ghost before = exercises@;
            exercises.push(e);
            assert(exercises_view(exercises@) =~= exercises_view(before).push(e@));
            i = i + 1;
        }
        assert(plan.take(3) =~= plan);
        Session { day: Day::Monday, exercises }
    }

    fn ramp_session(one_rep_max: &OneRepMax, week_number: u32) -> (s: Session)
        ensures
            s@ == (SessionView {
                day: Day::Friday,
                exercises: ramp_exercises(*one_rep_max, week_number as int),
            }),
    {
        let ghost plan = ramp_exercises(*one_rep_max, week_number as int);
        let mut exercises: Vec<Exercise> = Vec::new();
        let mut k: usize = 0;
        while k < 9
            invariant
                k <= 9,
                plan == ramp_exercises(*one_rep_max, week_number as int),
                exercises_view(exercises@) =~= plan.take(k as int),
            decreases 9 - k,
        {
            let lift = Lift::at(k / 3);
            let step = k % 3;
            let e = Self::prescribe(
                String::from_str(lift.name()),
                one_rep_max.of(lift),
                1,
                ramp_reps_of(week_number, step),
                ramp_percentage_of(week_number, step),
                step == 2,
            );
            assert(e@ == plan[k as int]);
            let ghost before = exercises@;
            exercises.push(e);
            assert(exercises_view(exercises@) =~= exercises_view(before).push(e@));
            k = k + 1;
        }
        assert(plan.take(9) =~= plan);
        Session { day: Day::Friday, exercises }
    }

    fn max_test_session(one_rep_max: &OneRepMax) -> (s: Session)
        ensures
            s@ == (SessionView { day: Day::Friday, exercises: max_test_exercises(*one_rep_max) }),
    {
        let ghost plan = max_test_exercises(*one_rep_max);
        let mut exercises: Vec<Exercise> = Vec::new();
        let mut k: usize = 0;
        while k < 15
            invariant
                k <= 15,
                plan == max_test_exercises(*one_rep_max),
                exercises_view(exercises@) =~= plan.take(k as int),
            decreases 15 - k,
        {
            let lift = Lift::at(k / 5);
            let step = k % 5;
            let label = max_test_label_of(step);
            let name = String::from_str(lift.name()).concat(" - ").concat(label);
            let e = Self::prescribe(
                name,
                one_rep_max.of(lift),
                1,
                1,
                max_test_percentage_of(step),
                false,
            );
            assert(e@ == plan[k as int]);
            let ghost before = exercises@;
            exercises.push(e);
            assert(exercises_view(exercises@) =~= exercises_view(before).push(e@));
            k = k + 1;
        }
        assert(plan.take(15) =~= plan);
        Session { day: Day::Friday, exercises }
    }

    /// The four-week program for the given maxima.
    pub fn calculate_program(one_rep_max: &OneRepMax) -> (p: TrainingProgram)
        ensures
            p@ == program_plan(*one_rep_max),
    {
        let ghost plan = program_plan(*one_rep_max);
        let mut weeks: Vec<Week> = Vec::new();
        let mut week_number: u32 = 1;
        while week_number <= 4
            invariant
                1 <= week_number <= 5,
                weeks@.map_values(|w: Week| w@) =~= plan.take(week_number - 1),
                plan == program_plan(*one_rep_max),
            decreases 5 - week_number,
        {
            let mut sessions: Vec<Session> = Vec::new();
            sessions.push(Self::monday_session(one_rep_max, week_number));
            if week_number == 4 {
                sessions.push(Self::max_test_session(one_rep_max));
            } else {
                sessions.push(Self::ramp_session(one_rep_max, week_number));
            }
            let week = Week { week_number, sessions };
            assert(week@.sessions =~= week_plan(*one_rep_max, week_number as int).sessions);
            assert(week@ == plan[week_number - 1]);
            let ghost before = weeks@;
            weeks.push(week);
            assert(weeks@.map_values(|w: Week| w@) =~= before.map_values(|w: Week| w@).push(
                week@,
            ));
            week_number = week_number + 1;
        }
        assert(plan.take(4) =~= plan);
        TrainingProgram { weeks }
    }
}

} // verus!
