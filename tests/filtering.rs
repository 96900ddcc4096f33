use bgg_collection::filter::{admits, apply, FilterCriteria, FilterError, TitlePattern};
use bgg_collection::record::GameRecord;

fn game(name: &str, min: Option<i64>, max: Option<i64>, time: Option<i64>, year: Option<i64>) -> GameRecord {
    GameRecord::new(name.to_string(), min, max, time, year)
}

fn names(v: &[GameRecord]) -> Vec<String> {
    v.iter().map(|g| g.name.clone()).collect()
}

fn players(p: i64) -> FilterCriteria {
    let mut c = FilterCriteria::none();
    c.players = Some(p);
    c
}

fn time(t: i64) -> FilterCriteria {
    let mut c = FilterCriteria::none();
    c.time = Some(t);
    c
}

#[test]
fn no_criteria_keeps_everything_in_order() {
    let records = vec![
        game("B", None, None, None, None),
        game("A", Some(1), Some(2), Some(3), Some(4)),
        game("B", Some(9), Some(9), Some(9), None),
    ];
    let out = apply(&records, &FilterCriteria::none());
    assert_eq!(names(&out), vec!["B", "A", "B"]);
    assert_eq!(out[1].min_players, Some(1));
    assert_eq!(out[2].playtime, Some(9));
}

#[test]
fn no_criteria_on_empty_input() {
    assert!(apply(&Vec::new(), &FilterCriteria::none()).is_empty());
}

#[test]
fn player_count_range_is_inclusive() {
    let records = vec![game("G", Some(2), Some(4), None, None)];
    for p in [2, 3, 4] {
        assert_eq!(apply(&records, &players(p)).len(), 1, "p = {}", p);
    }
    for p in [1, 5] {
        assert_eq!(apply(&records, &players(p)).len(), 0, "p = {}", p);
    }
}

#[test]
fn duration_window_is_ten_minutes() {
    let records = vec![game("G", None, None, Some(30), None)];
    assert_eq!(apply(&records, &time(25)).len(), 1);
    assert_eq!(apply(&records, &time(10)).len(), 0);
    assert_eq!(apply(&records, &time(20)).len(), 1);
    assert_eq!(apply(&records, &time(40)).len(), 1);
    assert_eq!(apply(&records, &time(41)).len(), 0);
}

#[test]
fn absent_player_bounds_read_as_zero() {
    let records = vec![game("G", None, None, None, None)];
    assert_eq!(apply(&records, &players(1)).len(), 0);
    assert_eq!(apply(&records, &players(3)).len(), 0);
    assert_eq!(apply(&records, &players(-1)).len(), 0);
    assert_eq!(apply(&records, &players(0)).len(), 1);
    assert_eq!(apply(&records, &FilterCriteria::none()).len(), 1);
}

#[test]
fn absent_playtime_reads_as_zero() {
    let records = vec![game("G", None, None, None, None)];
    assert_eq!(apply(&records, &time(10)).len(), 1);
    assert_eq!(apply(&records, &time(11)).len(), 0);
}

#[test]
fn extreme_targets_do_not_overflow() {
    let records = vec![game("G", Some(i64::MIN), Some(i64::MAX), Some(i64::MAX), None)];
    assert_eq!(apply(&records, &time(i64::MAX)).len(), 1);
    assert_eq!(apply(&records, &time(i64::MIN)).len(), 0);
    assert_eq!(apply(&records, &players(i64::MAX)).len(), 1);
}

#[test]
fn catan_and_chess_scenario() {
    let records = vec![
        game("Catan", Some(3), Some(4), Some(90), Some(1995)),
        game("Chess", Some(2), Some(2), Some(30), Some(1475)),
    ];
    assert_eq!(names(&apply(&records, &players(2))), vec!["Chess"]);
    assert_eq!(names(&apply(&records, &time(90))), vec!["Catan"]);
    assert_eq!(names(&apply(&records, &FilterCriteria::none())), vec!["Catan", "Chess"]);
}

#[test]
fn title_pattern_is_a_regular_expression() {
    let records = vec![
        game("Catan", None, None, None, None),
        game("Chess", None, None, None, None),
        game("Carcassonne", None, None, None, None),
    ];
    let mut c = FilterCriteria::none();
    c.title = Some(TitlePattern::new("^Ca").unwrap());
    assert_eq!(names(&apply(&records, &c)), vec!["Catan", "Carcassonne"]);
    c.title = Some(TitlePattern::new("ss").unwrap());
    assert_eq!(names(&apply(&records, &c)), vec!["Chess", "Carcassonne"]);
    c.title = Some(TitlePattern::new("^chess$").unwrap());
    assert!(apply(&records, &c).is_empty());
}

#[test]
fn title_match_is_not_literal() {
    let tp = TitlePattern::new("C.t+an").unwrap();
    assert!(tp.matches_title("Catttan"));
    assert!(!tp.matches_title("Cn"));
    assert!(!tp.matches_title("C.t+"));
}

#[test]
fn criteria_combine() {
    let records = vec![
        game("Catan", Some(3), Some(4), Some(90), Some(1995)),
        game("Carcassonne", Some(2), Some(5), Some(45), Some(2000)),
        game("Chess", Some(2), Some(2), Some(30), Some(1475)),
    ];
    let mut c = FilterCriteria::none();
    c.title = Some(TitlePattern::new("^C").unwrap());
    c.players = Some(2);
    c.time = Some(40);
    assert_eq!(names(&apply(&records, &c)), vec!["Carcassonne", "Chess"]);
}

#[test]
fn invalid_pattern_is_refused() {
    assert!(matches!(TitlePattern::new("(unclosed"), Err(FilterError::InvalidPattern)));
    assert!(matches!(TitlePattern::new("[z-a]"), Err(FilterError::InvalidPattern)));
}

#[test]
fn admits_decides_from_title_outcome() {
    let g = game("G", Some(2), Some(4), Some(30), None);
    assert!(admits(&g, true, Some(3), Some(30)));
    assert!(!admits(&g, false, None, None));
    assert!(!admits(&g, true, Some(5), None));
    assert!(!admits(&g, true, None, Some(50)));
    assert!(admits(&g, true, None, None));
}

#[test]
fn record_predicates() {
    let g = game("G", Some(2), None, Some(30), None);
    assert!(!g.fits_players(2));
    assert!(g.fits_players(0) == false);
    assert!(g.fits_playtime(20));
    assert!(!g.fits_playtime(19));
    let c = g.clone();
    assert_eq!(c.name, "G");
    assert_eq!(c.min_players, Some(2));
}
