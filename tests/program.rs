use beyond_531::program::{Beyond531Calculator, Day, Exercise, OneRepMax, TrainingProgram};

fn maxima(front_squat: i32, deadlift: i32, bench_press: i32) -> OneRepMax {
    OneRepMax { front_squat, deadlift, bench_press }
}

fn friday(p: &TrainingProgram, week: usize) -> &Vec<Exercise> {
    &p.weeks[week - 1].sessions[1].exercises
}

fn all_weights(p: &TrainingProgram) -> Vec<i64> {
    let mut out = Vec::new();
    for w in &p.weeks {
        for s in &w.sessions {
            for e in &s.exercises {
                out.push(e.weight);
            }
        }
    }
    out
}

#[test]
fn scenario_week_one_monday_and_week_four_bench() {
    let p = Beyond531Calculator::calculate_program(&maxima(10000, 12000, 8000));
    let fs = &p.weeks[0].sessions[0].exercises[0];
    assert_eq!(fs.name, "Front Squat");
    assert_eq!(fs.percentage, 65);
    assert_eq!(fs.weight, 6500);
    let f4 = friday(&p, 4);
    let max = &f4[13];
    assert_eq!(max.name, "Bench Press - Max");
    assert_eq!(max.percentage, 100);
    assert_eq!(max.weight, 8000);
    let beyond = &f4[14];
    assert_eq!(beyond.name, "Bench Press - BEYOND!");
    assert_eq!(beyond.percentage, 105);
    assert_eq!(beyond.weight, 8500);
}

#[test]
fn generation_is_deterministic() {
    let m = maxima(14250, 18075, 9990);
    let first = Beyond531Calculator::calculate_program(&m);
    let second = Beyond531Calculator::calculate_program(&m);
    assert_eq!(first, second);
}

#[test]
fn program_has_four_weeks_of_monday_then_friday() {
    let p = Beyond531Calculator::calculate_program(&maxima(10000, 12000, 8000));
    assert_eq!(p.weeks.len(), 4);
    for (i, w) in p.weeks.iter().enumerate() {
        assert_eq!(w.week_number as usize, i + 1);
        assert_eq!(w.sessions.len(), 2);
        assert_eq!(w.sessions[0].day, Day::Monday);
        assert_eq!(w.sessions[1].day, Day::Friday);
        assert_eq!(w.sessions[0].exercises.len(), 3);
        assert_eq!(w.sessions[1].exercises.len(), if i == 3 { 15 } else { 9 });
    }
}

#[test]
fn monday_volume_and_intensity() {
    let p = Beyond531Calculator::calculate_program(&maxima(10000, 12000, 8000));
    let pcts: Vec<u32> = p.weeks.iter().map(|w| w.sessions[0].exercises[0].percentage).collect();
    assert_eq!(pcts, vec![65, 75, 75, 65]);
    let mon = &p.weeks[1].sessions[0].exercises;
    assert_eq!((mon[0].sets, mon[0].reps, mon[0].weight), (3, 5, 7500));
    assert_eq!(mon[1].name, "Deadlift");
    assert_eq!((mon[1].sets, mon[1].reps, mon[1].weight), (1, 5, 9000));
    assert_eq!(mon[2].name, "Bench Press");
    assert_eq!((mon[2].sets, mon[2].reps, mon[2].weight), (3, 5, 6000));
    assert!(mon.iter().all(|e| !e.is_amrap));
}

#[test]
fn friday_ramps_of_weeks_one_to_three() {
    let p = Beyond531Calculator::calculate_program(&maxima(10000, 12000, 8000));
    let expected = [
        ([65, 75, 80], [5, 5, 5]),
        ([65, 75, 85], [3, 3, 3]),
        ([70, 80, 90], [5, 3, 1]),
    ];
    for (w, (pcts, reps)) in expected.iter().enumerate() {
        let f = friday(&p, w + 1);
        for (l, name) in ["Front Squat", "Deadlift", "Bench Press"].iter().enumerate() {
            for s in 0..3 {
                let e = &f[3 * l + s];
                assert_eq!(e.name, *name);
                assert_eq!(e.sets, 1);
                assert_eq!(e.reps, reps[s]);
                assert_eq!(e.percentage, pcts[s]);
                assert_eq!(e.is_amrap, s == 2);
            }
        }
    }
    // Deadlift 120 kg at 85% is 102 kg, which rounds to 102.5 kg.
    assert_eq!(friday(&p, 2)[5].weight, 10250);
}

#[test]
fn friday_top_percentage_never_falls() {
    let p = Beyond531Calculator::calculate_program(&maxima(10000, 12000, 8000));
    for l in 0..3 {
        let tops: Vec<u32> = (1..=3)
            .map(|w| friday(&p, w)[3 * l..3 * l + 3].iter().map(|e| e.percentage).max().unwrap())
            .collect();
        assert_eq!(tops, vec![80, 85, 90]);
        assert!(tops[0] <= tops[1] && tops[1] <= tops[2]);
    }
}

#[test]
fn week_four_is_five_singles_per_lift() {
    let p = Beyond531Calculator::calculate_program(&maxima(10000, 12000, 8000));
    let f = friday(&p, 4);
    assert_eq!(f.len(), 15);
    let labels = ["Warmup", "Single", "Single", "Max", "BEYOND!"];
    let pcts = [65, 80, 90, 100, 105];
    for (l, lift) in ["Front Squat", "Deadlift", "Bench Press"].iter().enumerate() {
        for s in 0..5 {
            let e = &f[5 * l + s];
            assert_eq!(e.name, format!("{} - {}", lift, labels[s]));
            assert_eq!((e.sets, e.reps), (1, 1));
            assert_eq!(e.percentage, pcts[s]);
            assert!(!e.is_amrap);
        }
    }
    let dl: Vec<i64> = f[5..10].iter().map(|e| e.weight).collect();
    assert_eq!(dl, vec![7750, 9500, 10750, 12000, 12500]);
}

#[test]
fn every_weight_is_a_multiple_of_two_and_a_half() {
    let p = Beyond531Calculator::calculate_program(&maxima(10133, 17777, 6301));
    for w in all_weights(&p) {
        assert_eq!(w % 250, 0);
    }
}

#[test]
fn rounding_examples() {
    assert_eq!(Beyond531Calculator::round_to_2_5(11000, 75), 8250);
    assert_eq!(Beyond531Calculator::round_to_2_5(10000, 65), 6500);
    assert_eq!(Beyond531Calculator::round_to_2_5(8000, 105), 8500);
    assert_eq!(Beyond531Calculator::round_to_2_5(10124, 100), 10000);
    assert_eq!(Beyond531Calculator::round_to_2_5(10126, 100), 10250);
    assert_eq!(Beyond531Calculator::round_to_2_5(i32::MAX, u32::MAX), 92233720304123250);
}

#[test]
fn rounding_ties_go_away_from_zero() {
    assert_eq!(Beyond531Calculator::round_to_2_5(10125, 100), 10250);
    assert_eq!(Beyond531Calculator::round_to_2_5(-10125, 100), -10250);
    let p = Beyond531Calculator::calculate_program(&maxima(10125, 10000, 10000));
    assert_eq!(friday(&p, 4)[3].weight, 10250);
}

#[test]
fn zero_maxima_give_zero_weights() {
    let p = Beyond531Calculator::calculate_program(&maxima(0, 0, 0));
    assert_eq!(p.weeks.len(), 4);
    assert!(all_weights(&p).iter().all(|w| *w == 0));
}

#[test]
fn negative_maxima_give_negative_weights() {
    let p = Beyond531Calculator::calculate_program(&maxima(-10000, -12000, -8000));
    assert_eq!(p.weeks.len(), 4);
    assert!(all_weights(&p).iter().all(|w| *w < 0));
    assert_eq!(friday(&p, 4)[14].weight, -8500);
}

#[test]
fn day_names() {
    assert_eq!(Day::Monday.name(), "Monday");
    assert_eq!(Day::Friday.name(), "Friday");
}
