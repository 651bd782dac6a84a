use beyond_531::display::{exercise_text_of, intensity_class, week_tab_label, week_title};
use beyond_531::program::Exercise;

fn exercise(
    name: &str,
    sets: u32,
    reps: u32,
    weight: i64,
    percentage: u32,
    is_amrap: bool,
) -> Exercise {
    Exercise { name: name.to_string(), sets, reps, weight, percentage, is_amrap }
}

#[test]
fn text_of_sets_across() {
    let e = exercise("Bench Press", 3, 5, 8250, 75, false);
    assert_eq!(exercise_text_of(&e), "Bench Press: 3x5 @ 82.5kg (75%)");
}

#[test]
fn text_of_amrap_set() {
    let e = exercise("Deadlift", 1, 5, 9500, 80, true);
    assert_eq!(exercise_text_of(&e), "Deadlift: 1x5+ @ 95kg (80%)");
}

#[test]
fn text_of_amrap_single() {
    let e = exercise("Front Squat", 1, 1, 9000, 90, true);
    assert_eq!(exercise_text_of(&e), "Front Squat: 1+ @ 90kg (90%)");
}

#[test]
fn text_of_single() {
    assert_eq!(
        exercise_text_of(&exercise("Bench Press - BEYOND!", 1, 1, 8500, 105, false)),
        "Bench Press - BEYOND!: 85kg (105%)"
    );
}

#[test]
fn text_of_odd_weights() {
    assert_eq!(exercise_text_of(&exercise("X", 1, 1, -250, 65, false)), "X: -2.5kg (65%)");
    assert_eq!(exercise_text_of(&exercise("X", 1, 1, 0, 0, false)), "X: 0kg (0%)");
    assert_eq!(exercise_text_of(&exercise("X", 12, 10, 101, 7, false)), "X: 12x10 @ 1.01kg (7%)");
    assert_eq!(exercise_text_of(&exercise("X", 2, 1, 110, 100, false)), "X: 2x1 @ 1.1kg (100%)");
}

#[test]
fn intensity_classes() {
    let cases = [
        (65, "intensity-65"),
        (70, "intensity-65"),
        (75, "intensity-75"),
        (80, "intensity-warmup"),
        (85, "intensity-85"),
        (90, "intensity-90"),
        (95, "intensity-90"),
        (100, "intensity-100"),
        (105, "intensity-105"),
        (60, "intensity-default"),
    ];
    for (p, c) in cases {
        assert_eq!(intensity_class(p), c);
    }
}

#[test]
fn week_titles() {
    assert_eq!(week_title(1), "Week 1");
    assert_eq!(week_title(4), "Week 4 - MAX WEEK!");
    assert_eq!(week_tab_label(3), "W3");
    assert_eq!(week_tab_label(4), "W4");
}
