//! Load states of requested assets and the poller of the loading phase.
use vstd::prelude::*;

verus! {

/// Resolution status of one asynchronously requested asset.
#[derive(Clone, Copy, Debug, PartialEq, Eq, Structural)]
pub enum LoadStatus {
    /// The asset has not been requested, or its request is unknown.
    NotLoaded,
    /// The asset is being loaded.
    Loading,
    /// The asset is available.
    Loaded,
    /// The asset could not be loaded.
    Failed,
}

/// Combined status of a set of assets: any failure makes the set failed;
/// otherwise an unknown asset makes it not loaded; otherwise one still in
/// flight makes it loading; otherwise (the empty set too) it is loaded.
pub open spec fn combined_spec(s: Seq<LoadStatus>) -> LoadStatus {
    if s.contains(LoadStatus::Failed) {
        LoadStatus::Failed
    } else if s.contains(LoadStatus::NotLoaded) {
        LoadStatus::NotLoaded
    } else if s.contains(LoadStatus::Loading) {
        LoadStatus::Loading
    } else {
        LoadStatus::Loaded
    }
}

/// Computes the combined status of the given assets' statuses.
pub fn combined_load_state(states: &Vec<LoadStatus>) -> (r: LoadStatus)
    ensures
        r == combined_spec(states@),
{
    let mut any_failed = false;
    let mut any_not_loaded = false;
    let mut any_loading = false;
    let mut i: usize = 0;
    while i < states.len()
        invariant
            i <= states.len(),
            any_failed <==> exists|j: int| 0 <= j < i && states@[j] == LoadStatus::Failed,
            any_not_loaded <==> exists|j: int| 0 <= j < i && states@[j] == LoadStatus::NotLoaded,
            any_loading <==> exists|j: int| 0 <= j < i && states@[j] == LoadStatus::Loading,
        decreases states.len() - i,
    {
        match states[i] {
            LoadStatus::Failed => any_failed = true,
            LoadStatus::NotLoaded => any_not_loaded = true,
            LoadStatus::Loading => any_loading = true,
            LoadStatus::Loaded => {},
        }
        i = i + 1;
    }
    if any_failed {
        LoadStatus::Failed
    } else if any_not_loaded {
        LoadStatus::NotLoaded
    } else if any_loading {
        LoadStatus::Loading
    } else {
        LoadStatus::Loaded
    }
}

/// Phase of the application.
#[derive(Clone, Copy, Debug, PartialEq, Eq, Structural)]
pub enum AppState {
    /// Assets are requested and awaited; the initial phase.
    LoadingState,
    /// Every requested asset is available; the final phase.
    MainState,
}

/// What the poller asks of its caller.
#[derive(Clone, Copy, Debug, PartialEq, Eq, Structural)]
pub enum LoadAction {
    /// Nothing to do.
    Idle,
    /// Assets are still in flight: report progress and poll again later.
    Wait,
    /// Every asset loaded: the application has entered its main phase.
    EnterMain,
    /// An asset failed to load: stop the application.
    Abort,
}

/// The poller's step: the next phase and the action, from the current phase
/// and the combined status of the awaited assets.
pub open spec fn poll_spec(state: AppState, combined: LoadStatus) -> (AppState, LoadAction) {
    match state {
        AppState::MainState => (AppState::MainState, LoadAction::Idle),
        AppState::LoadingState => match combined {
            LoadStatus::Failed => (AppState::LoadingState, LoadAction::Abort),
            LoadStatus::Loaded => (AppState::MainState, LoadAction::EnterMain),
            LoadStatus::Loading => (AppState::LoadingState, LoadAction::Wait),
            LoadStatus::NotLoaded => (AppState::LoadingState, LoadAction::Idle),
        },
    }
}

/// Polls the awaited assets once: in the loading phase, a failed set aborts,
/// a loaded set moves on to the main phase, a set in flight waits; the main
/// phase polls nothing.
pub fn load_stuff(state: AppState, states: &Vec<LoadStatus>) -> (r: (AppState, LoadAction))
    ensures
        r == poll_spec(state, combined_spec(states@)),
{
    match state {
        AppState::MainState => (AppState::MainState, LoadAction::Idle),
        AppState::LoadingState => match combined_load_state(states) {
            LoadStatus::Failed => (AppState::LoadingState, LoadAction::Abort),
            LoadStatus::Loaded => (AppState::MainState, LoadAction::EnterMain),
            LoadStatus::Loading => (AppState::LoadingState, LoadAction::Wait),
            LoadStatus::NotLoaded => (AppState::LoadingState, LoadAction::Idle),
        },
    }
}

/// A set in which one asset failed is failed, whatever the others are, and
/// polling it in the loading phase aborts.
pub proof fn lemma_failed_asset_fails_set(states: Seq<LoadStatus>, i: int)
    requires
        0 <= i < states.len(),
        states[i] == LoadStatus::Failed,
    ensures
        combined_spec(states) == LoadStatus::Failed,
        poll_spec(AppState::LoadingState, combined_spec(states)) == (
        AppState::LoadingState,
        LoadAction::Abort,
        ),
{
    assert(states.contains(LoadStatus::Failed));
}

/// A set whose assets all loaded is loaded; polling it in the loading phase
/// enters the main phase, and no later poll enters it again.
pub proof fn lemma_loaded_set_enters_main_once(states: Seq<LoadStatus>)
    requires
        forall|i: int| 0 <= i < states.len() ==> states[i] == LoadStatus::Loaded,
    ensures
        combined_spec(states) == LoadStatus::Loaded,
        poll_spec(AppState::LoadingState, combined_spec(states)) == (
        AppState::MainState,
        LoadAction::EnterMain,
        ),
        forall|later: LoadStatus|
            #![auto]
            poll_spec(poll_spec(AppState::LoadingState, combined_spec(states)).0, later).1
                != LoadAction::EnterMain,
{
    assert(!states.contains(LoadStatus::Failed));
    assert(!states.contains(LoadStatus::NotLoaded));
    assert(!states.contains(LoadStatus::Loading));
}

} // verus!
