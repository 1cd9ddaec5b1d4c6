use vstd::prelude::*;

use crate::app_state::{
    after_answer, after_disconnect, after_playing, after_request, playing_effect, request_effect,
    settled_playing, settled_request, Effect, StateModel,
};
use crate::error::VersionFault;
use crate::version::{blank, version_fault};

verus! {

/// Asking twice in a row to play the same valid version reports once at most: the
/// first request reports exactly when a client is attached and another state is
/// current, and once that report is accepted the second request is silent and
/// changes nothing.
pub proof fn repeated_playing_reports_once<C>(m: StateModel<C>, v: Seq<char>)
    requires
        version_fault(v) is None,
    ensures
        (playing_effect(m, v) == Ok::<Effect, VersionFault>(Effect::Report)) <==> (m.client is Some
            && m.activity != Some(v)),
        playing_effect(settled_playing(m, v), v) == Ok::<Effect, VersionFault>(Effect::Silent),
        after_playing(settled_playing(m, v), v) == settled_playing(m, v),
{
}

/// A blank version is refused as empty whatever the state, with nothing to report
/// and the state unchanged.
pub proof fn blank_version_refused_first<C>(m: StateModel<C>, v: Seq<char>)
    requires
        blank(v),
    ensures
        playing_effect(m, v) == Err::<Effect, VersionFault>(VersionFault::Empty),
        after_playing(m, v) == m,
{
}

/// While a report is pending, and after the client refused it, the state is the
/// one from before the request.
pub proof fn refused_report_keeps_state<C>(m: StateModel<C>, target: Option<Seq<char>>)
    requires
        request_effect(m, target) == Ok::<Effect, VersionFault>(Effect::Report),
    ensures
        after_request(m, target) == m,
        after_answer(after_request(m, target), target, false) == m,
{
}

/// The same for a request to play a version.
pub proof fn refused_playing_report_keeps_state<C>(m: StateModel<C>, v: Seq<char>)
    requires
        playing_effect(m, v) == Ok::<Effect, VersionFault>(Effect::Report),
    ensures
        after_playing(m, v) == m,
        after_answer(after_playing(m, v), Some(v), false) == m,
{
}

/// Without a client, playing a valid version asks for no report and commits it at once.
pub proof fn local_tracking_without_client<C>(m: StateModel<C>, v: Seq<char>)
    requires
        m.client is None,
        version_fault(v) is None,
    ensures
        playing_effect(m, v) == Ok::<Effect, VersionFault>(Effect::Silent),
        after_playing(m, v).activity == Some(v),
{
}

/// Once the client is taken out, no request asks for a report, and going idle
/// succeeds and commits at once.
pub proof fn disconnect_silences_requests<C>(m: StateModel<C>, target: Option<Seq<char>>)
    ensures
        after_disconnect(m).client is None,
        request_effect(after_disconnect(m), target) == Ok::<Effect, VersionFault>(Effect::Silent),
        request_effect(after_disconnect(m), None) == Ok::<Effect, VersionFault>(Effect::Silent),
        after_request(after_disconnect(m), None).activity is None,
{
}

/// Playing a valid version and then going idle, each accepted by the client when a
/// report was asked, ends idle.
pub proof fn playing_then_idle_ends_idle<C>(m: StateModel<C>, v: Seq<char>)
    requires
        version_fault(v) is None,
    ensures
        settled_playing(m, v).activity == Some(v),
        settled_request(settled_playing(m, v), None).activity is None,
{
}

} // verus!
