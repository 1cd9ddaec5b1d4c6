use cubic_launcher_lib::app_state::{AppState, ApplicationState, PresenceUpdate};
use cubic_launcher_lib::discord::{default_activity, playing_activity, Activity};
use cubic_launcher_lib::error::{presence_result, CubicErr};
use cubic_launcher_lib::version::{is_blank, validate_version, validate_version_format};

/// A presence client that records what it is sent and may refuse it.
#[derive(Debug, Default)]
struct Spy {
    sent: Vec<Activity>,
    refuse: bool,
}

impl Spy {
    fn set_activity(&mut self, activity: Activity) -> Result<(), String> {
        self.sent.push(activity);
        if self.refuse {
            Err("connection lost".to_string())
        } else {
            Ok(())
        }
    }
}

/// Sends the update a request asked for, if any, and completes the request.
fn drive(
    st: &mut ApplicationState<Spy>,
    step: Result<Option<PresenceUpdate>, CubicErr>,
) -> Result<(), CubicErr> {
    match step? {
        None => Ok(()),
        Some(update) => {
            let activity = update.activity().clone();
            let outcome = st
                .get_rpc_client()
                .expect("a report is only asked with a client")
                .set_activity(activity);
            st.finish_update(update, outcome)
        }
    }
}

fn calls(st: &ApplicationState<Spy>) -> usize {
    st.get_rpc_client_ref().map(|c| c.sent.len()).unwrap_or(0)
}

fn with_spy() -> ApplicationState<Spy> {
    ApplicationState::with_rpc_client(Spy::default())
}

#[test]
fn playing_same_version_twice_calls_client_once() {
    let mut st = with_spy();
    let r = st.transition_to_playing("1.21.3");
    assert!(drive(&mut st, r).is_ok());
    let r = st.transition_to_playing("1.21.3");
    assert!(matches!(r, Ok(None)));
    assert!(drive(&mut st, r).is_ok());
    assert_eq!(calls(&st), 1);
    assert_eq!(st.get_current_version(), Some("1.21.3"));
}

#[test]
fn blank_versions_fail_without_client_call() {
    let mut st = with_spy();
    assert!(matches!(st.transition_to_playing(""), Err(CubicErr::EmptyVersionError)));
    assert!(matches!(st.transition_to_playing(" "), Err(CubicErr::EmptyVersionError)));
    assert!(matches!(st.transition_to_playing("\t \n"), Err(CubicErr::EmptyVersionError)));
    assert_eq!(calls(&st), 0);
    assert!(st.is_idle());
}

#[test]
fn version_of_fifty_chars_is_accepted() {
    let mut st = with_spy();
    let v = "a".repeat(50);
    let r = st.transition_to_playing(&v);
    assert!(drive(&mut st, r).is_ok());
    assert_eq!(st.get_current_version(), Some(v.as_str()));
    assert_eq!(calls(&st), 1);
}

#[test]
fn version_of_fifty_one_chars_is_refused() {
    let mut st = with_spy();
    let v = "a".repeat(51);
    match st.transition_to_playing(&v) {
        Err(CubicErr::InvalidVersionFormat(m)) => {
            assert_eq!(m, "Version too long (max 50 characters)")
        }
        _ => panic!("expected InvalidVersionFormat"),
    }
    assert_eq!(calls(&st), 0);
    assert!(st.is_idle());
}

#[test]
fn length_counts_characters() {
    assert!(validate_version_format(&"é".repeat(50)).is_ok());
    assert!(validate_version_format(&"é".repeat(51)).is_err());
}

#[test]
fn version_with_newline_is_refused() {
    let mut st = with_spy();
    match st.transition_to_playing("1.21\n") {
        Err(CubicErr::InvalidVersionFormat(m)) => {
            assert_eq!(m, "Version contains invalid characters")
        }
        _ => panic!("expected InvalidVersionFormat"),
    }
    assert!(matches!(
        st.transition_to_playing("1.21\r3"),
        Err(CubicErr::InvalidVersionFormat(_))
    ));
    assert!(matches!(
        st.transition_to_playing("1.\u{7}21"),
        Err(CubicErr::InvalidVersionFormat(_))
    ));
    assert_eq!(calls(&st), 0);
}

#[test]
fn refused_update_keeps_previous_state() {
    let mut st = with_spy();
    let r = st.transition_to_playing("1.20.1");
    assert!(drive(&mut st, r).is_ok());
    st.get_rpc_client().unwrap().refuse = true;
    let r = st.transition_to_playing("1.21.3");
    match drive(&mut st, r) {
        Err(CubicErr::DiscordRpcError(m)) => assert_eq!(m, "connection lost"),
        _ => panic!("expected DiscordRpcError"),
    }
    assert_eq!(st.get_app_state(), &AppState::PlayingVersion("1.20.1".to_string()));
    let r = st.transition_to_idle();
    assert!(drive(&mut st, r).is_err());
    assert_eq!(st.get_current_version(), Some("1.20.1"));
    assert_eq!(calls(&st), 3);
}

#[test]
fn pending_update_leaves_state_until_answered() {
    let mut st = with_spy();
    let update = st.transition_to_playing("1.20.1").unwrap().unwrap();
    assert!(st.is_idle());
    assert_eq!(update.target(), &AppState::PlayingVersion("1.20.1".to_string()));
    assert_eq!(update.activity(), &playing_activity("1.20.1"));
    assert!(st.finish_update(update, Ok(())).is_ok());
    assert!(st.is_playing());
}

#[test]
fn no_client_tracks_locally() {
    let mut st: ApplicationState<Spy> = ApplicationState::new();
    assert!(!st.has_rpc_client());
    assert!(matches!(st.transition_to_playing("1.20.1"), Ok(None)));
    assert_eq!(st.get_current_version(), Some("1.20.1"));
    assert!(st.is_playing());
    assert!(matches!(st.transition_to_idle(), Ok(None)));
    assert!(st.is_idle());
}

#[test]
fn disconnect_removes_client() {
    let mut st = with_spy();
    let r = st.transition_to_playing("1.21.3");
    assert!(drive(&mut st, r).is_ok());
    let client = st.disconnect_rpc();
    assert_eq!(client.map(|c| c.sent.len()), Some(1));
    assert!(presence_result(Ok(())).is_ok());
    assert!(!st.has_rpc_client());
    assert!(matches!(st.transition_to_idle(), Ok(None)));
    assert!(st.is_idle());
    assert!(st.disconnect_rpc().is_none());
}

#[test]
fn disconnect_error_is_wrapped() {
    match presence_result(Err("closed".to_string())) {
        Err(CubicErr::DiscordRpcError(m)) => assert_eq!(m, "closed"),
        _ => panic!("expected DiscordRpcError"),
    }
}

#[test]
fn playing_then_idle_round_trip() {
    let mut st = with_spy();
    let r = st.transition_to_playing("1.21.3");
    assert!(drive(&mut st, r).is_ok());
    assert!(st.is_playing());
    let r = st.transition_to_idle();
    assert!(drive(&mut st, r).is_ok());
    assert_eq!(st.get_app_state(), &AppState::Idle);
    assert!(!st.is_playing());
    assert_eq!(st.get_current_version(), None);
    let sent = &st.get_rpc_client_ref().unwrap().sent;
    assert_eq!(sent.len(), 2);
    assert_eq!(sent[1], default_activity());
}

#[test]
fn switching_versions_reports_each() {
    let mut st = with_spy();
    for v in ["1.21.3", "1.12.2"] {
        let r = st.transition_to_playing(v);
        assert!(drive(&mut st, r).is_ok());
    }
    assert_eq!(st.get_current_version(), Some("1.12.2"));
    assert_eq!(calls(&st), 2);
}

#[test]
fn set_app_state_with_client_refuses_blank_version() {
    let mut st = with_spy();
    let r = st.set_app_state(AppState::PlayingVersion("  ".to_string()));
    assert!(matches!(r, Err(CubicErr::EmptyVersionError)));
    assert_eq!(calls(&st), 0);
    assert!(st.is_idle());
}

#[test]
fn set_app_state_same_state_is_noop() {
    let mut st = with_spy();
    assert!(matches!(st.set_app_state(AppState::Idle), Ok(None)));
    assert_eq!(calls(&st), 0);
}

#[test]
fn validate_state_detects_empty_version() {
    let mut st: ApplicationState<Spy> = ApplicationState::default();
    assert!(st.validate_state().is_ok());
    assert!(matches!(st.set_app_state(AppState::PlayingVersion(String::new())), Ok(None)));
    match st.validate_state() {
        Err(CubicErr::InvalidState(m)) => assert_eq!(m, "Playing version cannot be empty"),
        _ => panic!("expected InvalidState"),
    }
    assert!(matches!(st.transition_to_playing("1.0"), Ok(None)));
    assert!(st.validate_state().is_ok());
}

#[test]
fn attaching_client_reports_nothing_until_next_transition() {
    let mut st: ApplicationState<Spy> = ApplicationState::new();
    assert!(matches!(st.transition_to_playing("1.0"), Ok(None)));
    st.set_rpc_client(Spy::default());
    assert!(st.has_rpc_client());
    assert_eq!(calls(&st), 0);
    let r = st.transition_to_idle();
    assert!(drive(&mut st, r).is_ok());
    assert_eq!(calls(&st), 1);
}

#[test]
fn idle_activity_payload() {
    let a = default_activity();
    assert_eq!(a.details.as_deref(), Some("Idle"));
    assert_eq!(a.state, None);
    let assets = a.assets.unwrap();
    assert_eq!(assets.large_image.as_deref(), Some("logo"));
    assert_eq!(assets.large_text.as_deref(), Some("CubicMC"));
    assert_eq!(assets.small_image, None);
    assert_eq!(assets.small_text, None);
}

#[test]
fn playing_activity_payload() {
    let a = playing_activity("1.21.3");
    assert_eq!(a.details.as_deref(), Some("Playing 1.21.3"));
    assert_eq!(a.state, None);
    let assets = a.assets.unwrap();
    assert_eq!(assets.large_image.as_deref(), Some("logo"));
    assert_eq!(assets.large_text.as_deref(), Some("CubicMC"));
    assert_eq!(assets.small_image.as_deref(), Some("minecraft"));
    assert_eq!(assets.small_text.as_deref(), Some("1.21.3"));
}

#[test]
fn blank_detection() {
    assert!(is_blank(""));
    assert!(is_blank(" \t\u{a0}"));
    assert!(!is_blank(" a "));
    assert!(matches!(validate_version(" "), Err(CubicErr::EmptyVersionError)));
    assert!(validate_version(" 1.0 ").is_ok());
    assert!(validate_version_format("a\u{1}b").is_err());
    assert!(validate_version_format("1.21.3").is_ok());
}
