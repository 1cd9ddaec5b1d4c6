use vstd::prelude::*;

verus! {

/// Image key shown large in every activity.
pub const LOGO_IMAGE: &'static str = "logo";
/// Image key shown small while playing.
pub const MINECRAFT_IMAGE: &'static str = "minecraft";
/// Hover text of the large image.
pub const CUBIC_MC_TEXT: &'static str = "CubicMC";
/// Details line while idle.
pub const IDLE_DETAILS: &'static str = "Idle";
/// Start of the details line while playing; the version follows.
pub const PLAYING_PREFIX: &'static str = "Playing ";

/// Images and their texts of a presence activity.
#[derive(Debug, Clone, PartialEq, Eq)]
pub struct Assets {
    pub large_image: Option<String>,
    pub large_text: Option<String>,
    pub small_image: Option<String>,
    pub small_text: Option<String>,
}

/// The payload reported to the presence service.
#[derive(Debug, Clone, PartialEq, Eq)]
pub struct Activity {
    pub details: Option<String>,
    pub state: Option<String>,
    pub assets: Option<Assets>,
}

pub struct AssetsView {
    pub large_image: Option<Seq<char>>,
    pub large_text: Option<Seq<char>>,
    pub small_image: Option<Seq<char>>,
    pub small_text: Option<Seq<char>>,
}

pub struct ActivityView {
    pub details: Option<Seq<char>>,
    pub state: Option<Seq<char>>,
    pub assets: Option<AssetsView>,
}

pub open spec fn text_view(t: Option<String>) -> Option<Seq<char>> {
    match t {
        Some(s) => Some(s@),
        None => None,
    }
}

impl View for Assets {
    type V = AssetsView;

    open spec fn view(&self) -> AssetsView {
        AssetsView {
            large_image: text_view(self.large_image),
            large_text: text_view(self.large_text),
            small_image: text_view(self.small_image),
            small_text: text_view(self.small_text),
        }
    }
}

impl View for Activity {
    type V = ActivityView;

    open spec fn view(&self) -> ActivityView {
        ActivityView {
            details: text_view(self.details),
            state: text_view(self.state),
            assets: match self.assets {
                Some(a) => Some(a@),
                None => None,
            },
        }
    }
}

/// The activity reported while idle.
pub open spec fn idle_activity() -> ActivityView {
    ActivityView {
        details: Some(IDLE_DETAILS@),
        state: None,
        assets: Some(
            AssetsView {
                large_image: Some(LOGO_IMAGE@),
                large_text: Some(CUBIC_MC_TEXT@),
                small_image: None,
                small_text: None,
            },
        ),
    }
}

/// The activity reported while playing `version`.
pub open spec fn playing_activity_of(version: Seq<char>) -> ActivityView {
    ActivityView {
        details: Some(PLAYING_PREFIX@ + version),
        state: None,
        assets: Some(
            AssetsView {
                large_image: Some(LOGO_IMAGE@),
                large_text: Some(CUBIC_MC_TEXT@),
                small_image: Some(MINECRAFT_IMAGE@),
                small_text: Some(version),
            },
        ),
    }
}

/// The activity reported for a state: idle (`None`) or playing a version.
pub open spec fn activity_for(state: Option<Seq<char>>) -> ActivityView {
    match state {
        None => idle_activity(),
        Some(v) => playing_activity_of(v),
    }
}

/// The activity reported while the application is idle.
pub fn default_activity() -> (a: Activity)
    ensures
        a@ == idle_activity(),
{
    Activity {
        details: Some(IDLE_DETAILS.to_owned()),
        state: None,
        assets: Some(
            Assets {
                large_image: Some(LOGO_IMAGE.to_owned()),
                large_text: Some(CUBIC_MC_TEXT.to_owned()),
                small_image: None,
                small_text: None,
            },
        ),
    }
}

/// The activity reported while the application plays `version`.
pub fn playing_activity(version: &str) -> (a: Activity)
    ensures
        a@ == playing_activity_of(version@),
{
    let mut details = PLAYING_PREFIX.to_owned();
    details.append(version);
    Activity {
        details: Some(details),
        state: None,
        assets: Some(
            Assets {
                large_image: Some(LOGO_IMAGE.to_owned()),
                large_text: Some(CUBIC_MC_TEXT.to_owned()),
                small_image: Some(MINECRAFT_IMAGE.to_owned()),
                small_text: Some(version.to_owned()),
            },
        ),
    }
}

} // verus!
