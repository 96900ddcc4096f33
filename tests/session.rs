use bgg_collection::filter::{apply, FilterError};
use bgg_collection::record::GameRecord;
use bgg_collection::session::{Args, MyApp};
use bgg_collection::state::AsyncState;

fn args(filter: Option<&str>, time: Option<i64>, players: Option<i64>) -> Args {
    Args {
        username: Some("someone".to_string()),
        filter: filter.map(|s| s.to_string()),
        time,
        players,
        export: false,
    }
}

#[test]
fn options_become_criteria() {
    let c = args(Some("^C"), Some(30), Some(2)).criteria().unwrap();
    assert_eq!(c.players, Some(2));
    assert_eq!(c.time, Some(30));
    let records = vec![
        GameRecord::new("Chess".to_string(), Some(2), Some(2), Some(30), None),
        GameRecord::new("Go".to_string(), Some(2), Some(2), Some(30), None),
    ];
    let out = apply(&records, &c);
    assert_eq!(out.len(), 1);
    assert_eq!(out[0].name, "Chess");
}

#[test]
fn no_options_no_criteria() {
    let c = args(None, None, None).criteria().unwrap();
    assert!(c.title.is_none() && c.players.is_none() && c.time.is_none());
}

#[test]
fn bad_pattern_option_is_refused() {
    assert!(matches!(args(Some("(("), None, None).criteria(), Err(FilterError::InvalidPattern)));
}

#[test]
fn load_marks_loading_and_keeps_records() {
    let mut app = MyApp::new();
    assert_eq!(app.username, "");
    app.username = "someone".to_string();
    let mut state = AsyncState::new();
    state.publish(Ok(vec![GameRecord::new("Go".to_string(), None, None, None, None)]));
    let who = app.start_load(&mut state);
    assert_eq!(who, "someone");
    let (loading, games) = state.snapshot();
    assert!(loading);
    assert_eq!(games.len(), 1);
}
