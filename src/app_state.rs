use vstd::prelude::*;

use crate::discord::{activity_for, default_activity, playing_activity, Activity, ActivityView};
use crate::error::{
    fault_error, presence_result, reports_fault, CubicErr, VersionFault, EMPTY_PLAYING_VERSION,
};
use crate::version::{blank, is_blank, validate_version, version_fault};

verus! {

/// What the application is doing.
#[derive(Debug, Clone)]
pub enum AppState {
    Idle,
    PlayingVersion(String),
}

/// An activity state is seen as `None` when idle and as the version when playing.
impl View for AppState {
    type V = Option<Seq<char>>;

    open spec fn view(&self) -> Option<Seq<char>> {
        match self {
            AppState::Idle => None,
            AppState::PlayingVersion(v) => Some(v@),
        }
    }
}

impl PartialEq for AppState {
    fn eq(&self, other: &AppState) -> (r: bool) {
        match self {
            AppState::Idle => match other {
                AppState::Idle => true,
                AppState::PlayingVersion(_) => false,
            },
            AppState::PlayingVersion(a) => match other {
                AppState::Idle => false,
                AppState::PlayingVersion(b) => *a == *b,
            },
        }
    }
}

impl vstd::std_specs::cmp::PartialEqSpecImpl for AppState {
    open spec fn obeys_eq_spec() -> bool {
        true
    }

    open spec fn eq_spec(&self, other: &AppState) -> bool {
        self@ == other@
    }
}

/// The state manager: the current activity and, optionally, the presence client
/// that mirrors it.
pub struct ApplicationState<C> {
    app_state: AppState,
    rpc_client: Option<C>,
}

/// The model of a manager: the activity (`None` when idle) and the client held.
pub struct StateModel<C> {
    pub activity: Option<Seq<char>>,
    pub client: Option<C>,
}

impl<C> View for ApplicationState<C> {
    type V = StateModel<C>;

    closed spec fn view(&self) -> StateModel<C> {
        StateModel { activity: self.app_state@, client: self.rpc_client }
    }
}

/// What a request asks of the presence client.
#[derive(Debug, Clone, Copy, PartialEq, Eq)]
pub enum Effect {
    /// Nothing to report: the state was already the requested one, or no client
    /// is attached and the state was committed locally.
    Silent,
    /// The client must be told of the new activity before the state is committed.
    Report,
}

/// What a request for `target` asks of the client, or the fault that refuses it.
pub open spec fn request_effect<C>(m: StateModel<C>, target: Option<Seq<char>>) -> Result<
    Effect,
    VersionFault,
> {
    if m.activity == target {
        Ok(Effect::Silent)
    } else if m.client is None {
        Ok(Effect::Silent)
    } else if target matches Some(v) && blank(v) {
        Err(VersionFault::Empty)
    } else {
        Ok(Effect::Report)
    }
}

/// The model right after a request for `target`: only a change made without a
/// client is committed at once.
pub open spec fn after_request<C>(m: StateModel<C>, target: Option<Seq<char>>) -> StateModel<C> {
    if m.activity != target && m.client is None {
        StateModel { activity: target, ..m }
    } else {
        m
    }
}

/// What a request to play `version` asks of the client, or the fault that refuses it.
pub open spec fn playing_effect<C>(m: StateModel<C>, version: Seq<char>) -> Result<
    Effect,
    VersionFault,
> {
    match version_fault(version) {
        Some(f) => Err(f),
        None => request_effect(m, Some(version)),
    }
}

/// The model right after a request to play `version`.
pub open spec fn after_playing<C>(m: StateModel<C>, version: Seq<char>) -> StateModel<C> {
    if version_fault(version) is Some {
        m
    } else {
        after_request(m, Some(version))
    }
}

/// The model once the client has answered a report for `target`: the state is
/// committed only if it accepted.
pub open spec fn after_answer<C>(
    m: StateModel<C>,
    target: Option<Seq<char>>,
    accepted: bool,
) -> StateModel<C> {
    if accepted {
        StateModel { activity: target, ..m }
    } else {
        m
    }
}

/// The model after a request for `target` whose report, if one was asked, the
/// client accepted.
pub open spec fn settled_request<C>(m: StateModel<C>, target: Option<Seq<char>>) -> StateModel<
    C,
> {
    if request_effect(m, target) == Ok::<Effect, VersionFault>(Effect::Report) {
        after_answer(after_request(m, target), target, true)
    } else {
        after_request(m, target)
    }
}

/// The model after a request to play `version` whose report, if one was asked,
/// the client accepted.
pub open spec fn settled_playing<C>(m: StateModel<C>, version: Seq<char>) -> StateModel<C> {
    if playing_effect(m, version) == Ok::<Effect, VersionFault>(Effect::Report) {
        after_answer(after_playing(m, version), Some(version), true)
    } else {
        after_playing(m, version)
    }
}

/// The manager plays an empty version: its invariant is broken.
pub open spec fn plays_empty<C>(m: StateModel<C>) -> bool {
    m.activity matches Some(v) && v.len() == 0
}

/// The model after the client was taken out.
pub open spec fn after_disconnect<C>(m: StateModel<C>) -> StateModel<C> {
    StateModel { client: None, ..m }
}

/// An activity to report to the client, and the state to commit once it accepts.
pub struct PresenceUpdate {
    activity: Activity,
    target: AppState,
}

impl View for PresenceUpdate {
    type V = (ActivityView, Option<Seq<char>>);

    closed spec fn view(&self) -> (ActivityView, Option<Seq<char>>) {
        (self.activity@, self.target@)
    }
}

impl PresenceUpdate {
    /// The activity to hand to the client.
    pub fn activity(&self) -> (a: &Activity)
        ensures
            a@ == self@.0,
    {
        &self.activity
    }

    /// The state committed once the client accepts.
    pub fn target(&self) -> (t: &AppState)
        ensures
            t@ == self@.1,
    {
        &self.target
    }
}

/// `r` is the answer to a request for `target` whose effect is `e`: nothing to
/// send, an update carrying the activity for `target`, or the fault's error.
pub open spec fn answers(
    r: Result<Option<PresenceUpdate>, CubicErr>,
    e: Result<Effect, VersionFault>,
    target: Option<Seq<char>>,
) -> bool {
    match e {
        Ok(Effect::Silent) => r matches Ok(u) && u is None,
        Ok(Effect::Report) => r matches Ok(u) && u matches Some(p) && p@ == (
            activity_for(target),
            target,
        ),
        Err(f) => r matches Err(err) && reports_fault(err, f),
    }
}

impl<C> ApplicationState<C> {
    /// A manager that is idle and has no client.
    pub fn new() -> (s: Self)
        ensures
            s@.activity is None,
            s@.client is None,
    {
        ApplicationState { app_state: AppState::Idle, rpc_client: None }
    }

    /// A manager that is idle and holds `client`.
    pub fn with_rpc_client(client: C) -> (s: Self)
        ensures
            s@.activity is None,
            s@.client == Some(client),
    {
        ApplicationState { app_state: AppState::Idle, rpc_client: Some(client) }
    }

    /// Requests the state `state`. A request for the current state does nothing.
    /// Without a client the state is committed at once. With one, a blank version
    /// is refused, and otherwise the update to send is handed back: the state
    /// stays as it was until `finish_update` hears the client's answer.
    pub fn set_app_state(&mut self, state: AppState) -> (r: Result<Option<PresenceUpdate>, CubicErr>)
        ensures
            answers(r, request_effect(old(self)@, state@), state@),
            final(self)@ == after_request(old(self)@, state@),
    {
        if self.app_state == state {
            return Ok(None);
        }
        if self.rpc_client.is_none() {
            self.app_state = state;
            return Ok(None);
        }
        let activity = match &state {
            AppState::Idle => default_activity(),
            AppState::PlayingVersion(version) => {
                if is_blank(version.as_str()) {
                    return Err(fault_error(VersionFault::Empty));
                }
                playing_activity(version.as_str())
            },
        };
        Ok(Some(PresenceUpdate { activity, target: state }))
    }

    /// Commits the state of `update` if the client accepted it; otherwise keeps
    /// the state and returns the client's error.
    pub fn finish_update(&mut self, update: PresenceUpdate, outcome: Result<(), String>) -> (r:
        Result<(), CubicErr>)
        ensures
            final(self)@ == after_answer(old(self)@, update@.1, outcome is Ok),
            outcome is Ok ==> r is Ok,
            outcome matches Err(m) ==> r == Err::<(), CubicErr>(CubicErr::DiscordRpcError(m)),
    {
        let accepted = outcome.is_ok();
        let r = presence_result(outcome);
        if accepted {
            self.app_state = update.target;
        }
        r
    }

    /// Requests playing `version`: a blank, too long or badly formed version is
    /// refused before anything else; playing it already does nothing.
    pub fn transition_to_playing(&mut self, version: &str) -> (r: Result<
        Option<PresenceUpdate>,
        CubicErr,
    >)
        ensures
            answers(r, playing_effect(old(self)@, version@), Some(version@)),
            final(self)@ == after_playing(old(self)@, version@),
    {
        if let Err(e) = validate_version(version) {
            return Err(e);
        }
        let wanted = version.to_owned();
        if let AppState::PlayingVersion(current) = &self.app_state {
            if *current == wanted {
                return Ok(None);
            }
        }
        self.set_app_state(AppState::PlayingVersion(wanted))
    }

    /// Requests going idle.
    pub fn transition_to_idle(&mut self) -> (r: Result<Option<PresenceUpdate>, CubicErr>)
        ensures
            answers(r, request_effect(old(self)@, None), None),
            final(self)@ == after_request(old(self)@, None),
    {
        self.set_app_state(AppState::Idle)
    }
    /// The current state.
    pub fn get_app_state(&self) -> (s: &AppState)
        ensures
            s@ == self@.activity,
    {
        &self.app_state
    }

    /// Whether a version is being played.
    pub fn is_playing(&self) -> (r: bool)
        ensures
            r == self@.activity is Some,
    {
        match &self.app_state {
            AppState::PlayingVersion(_) => true,
            AppState::Idle => false,
        }
    }

    /// Whether the application is idle.
    pub fn is_idle(&self) -> (r: bool)
        ensures
            r == self@.activity is None,
    {
        match &self.app_state {
            AppState::Idle => true,
            AppState::PlayingVersion(_) => false,
        }
    }

    /// The version being played, if any.
    pub fn get_current_version(&self) -> (r: Option<&str>)
        ensures
            r is Some == self@.activity is Some,
            r matches Some(v) ==> v@ == self@.activity->0,
    {
        match &self.app_state {
            AppState::PlayingVersion(version) => Some(version.as_str()),
            AppState::Idle => None,
        }
    }

    /// Installs `client`, replacing any other; reports nothing by itself.
    pub fn set_rpc_client(&mut self, client: C)
        ensures
            final(self)@ == (StateModel { client: Some(client), ..old(self)@ }),
    {
        self.rpc_client = Some(client);
    }

    /// Whether a client is attached.
    pub fn has_rpc_client(&self) -> (r: bool)
        ensures
            r == self@.client is Some,
    {
        self.rpc_client.is_some()
    }

    /// The attached client, to be used in place.
    pub fn get_rpc_client(&mut self) -> (r: Option<&mut C>)
        ensures
            r is Some == old(self)@.client is Some,
            r matches Some(c) ==> *c == old(self)@.client->0,
            final(self)@.activity == old(self)@.activity,
            final(self)@.client is Some == old(self)@.client is Some,
            r matches Some(c) ==> final(self)@.client == Some(*final(c)),
    {
        self.rpc_client.as_mut()
    }

    /// The attached client, to be read.
    pub fn get_rpc_client_ref(&self) -> (r: Option<&C>)
        ensures
            r is Some == self@.client is Some,
            r matches Some(c) ==> *c == self@.client->0,
    {
        match &self.rpc_client {
            Some(c) => Some(c),
            None => None,
        }
    }

    /// Takes the client out, so that later requests are tracked locally only, and
    /// hands it back for the caller to disconnect (see `presence_result`).
    pub fn disconnect_rpc(&mut self) -> (r: Option<C>)
        ensures
            r == old(self)@.client,
            final(self)@ == after_disconnect(old(self)@),
    {
        self.rpc_client.take()
    }

    /// Checks the manager's invariant: a played version is never empty.
    pub fn validate_state(&self) -> (r: Result<(), CubicErr>)
        ensures
            plays_empty(self@) ==> (r matches Err(CubicErr::InvalidState(m)) && m@
                == EMPTY_PLAYING_VERSION@),
            !plays_empty(self@) ==> r is Ok,
    {
        match &self.app_state {
            AppState::Idle => Ok(()),
            AppState::PlayingVersion(version) => {
                if version.as_str().is_empty() {
                    Err(CubicErr::InvalidState(EMPTY_PLAYING_VERSION.to_owned()))
                } else {
                    Ok(())
                }
            },
        }
    }
}

impl<C> Default for ApplicationState<C> {
    fn default() -> (s: Self)
        ensures
            s@.activity is None,
            s@.client is None,
    {
        ApplicationState { app_state: AppState::Idle, rpc_client: None }
    }
}

} // verus!
