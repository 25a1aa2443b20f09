use coin_jar::load::{combined_load_state, load_stuff, AppState, LoadAction, LoadStatus};

#[test]
fn empty_set_is_loaded() {
    assert_eq!(combined_load_state(&vec![]), LoadStatus::Loaded);
}

#[test]
fn failed_asset_fails_the_set() {
    let states = vec![LoadStatus::Loaded, LoadStatus::Failed];
    assert_eq!(combined_load_state(&states), LoadStatus::Failed);
    let states = vec![LoadStatus::NotLoaded, LoadStatus::Loading, LoadStatus::Failed];
    assert_eq!(combined_load_state(&states), LoadStatus::Failed);
}

#[test]
fn unknown_asset_beats_loading() {
    let states = vec![LoadStatus::Loading, LoadStatus::NotLoaded, LoadStatus::Loaded];
    assert_eq!(combined_load_state(&states), LoadStatus::NotLoaded);
}

#[test]
fn asset_in_flight_keeps_set_loading() {
    let states = vec![LoadStatus::Loaded, LoadStatus::Loading];
    assert_eq!(combined_load_state(&states), LoadStatus::Loading);
}

#[test]
fn forced_failure_aborts_loading() {
    let states = vec![LoadStatus::Loaded, LoadStatus::Failed];
    assert_eq!(
        load_stuff(AppState::LoadingState, &states),
        (AppState::LoadingState, LoadAction::Abort)
    );
}

#[test]
fn all_loaded_enters_main_once() {
    let states = vec![LoadStatus::Loaded, LoadStatus::Loaded];
    let (state, action) = load_stuff(AppState::LoadingState, &states);
    assert_eq!((state, action), (AppState::MainState, LoadAction::EnterMain));
    assert_eq!(load_stuff(state, &states), (AppState::MainState, LoadAction::Idle));
}

#[test]
fn loading_set_waits() {
    let states = vec![LoadStatus::Loading, LoadStatus::Loaded];
    assert_eq!(
        load_stuff(AppState::LoadingState, &states),
        (AppState::LoadingState, LoadAction::Wait)
    );
}

#[test]
fn unknown_set_is_ignored() {
    let states = vec![LoadStatus::NotLoaded];
    assert_eq!(
        load_stuff(AppState::LoadingState, &states),
        (AppState::LoadingState, LoadAction::Idle)
    );
}
