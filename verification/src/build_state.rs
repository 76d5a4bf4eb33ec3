//! The states of a build, as shown on the dashboard and on status badges.
use vstd::prelude::*;

verus! {

/// The state of a build, as stored in the `build_state` column.
#[derive(PartialEq, Eq, Structural, Clone, Copy)]
pub enum BuildState {
    PENDING,
    BUILDING,
    SUCCESSFUL,
    FAILED,
}

/// The text a build state is shown as.
pub open spec fn spec_build_state_label(s: BuildState) -> Seq<char> {
    match s {
        BuildState::PENDING => "Pending"@,
        BuildState::BUILDING => "Building"@,
        BuildState::SUCCESSFUL => "Successful"@,
        BuildState::FAILED => "Failed"@,
    }
}

impl BuildState {
    /// The text the state is shown as (its `Display` in the dashboard).
    pub fn fmt(&self) -> (r: String)
        ensures
            r@ == spec_build_state_label(*self),
    {
        match self {
            BuildState::PENDING => "Pending".to_owned(),
            BuildState::BUILDING => "Building".to_owned(),
            BuildState::SUCCESSFUL => "Successful".to_owned(),
            BuildState::FAILED => "Failed".to_owned(),
        }
    }

    /// The state named by the lower-case value of the `build_state`
    /// column, where it names one.
    pub fn from_column(value: &str) -> (r: Option<BuildState>)
        ensures
            value@ == "pending"@ <==> r == Some(BuildState::PENDING),
            value@ == "building"@ <==> r == Some(BuildState::BUILDING),
            value@ == "successful"@ <==> r == Some(BuildState::SUCCESSFUL),
            value@ == "failed"@ <==> r == Some(BuildState::FAILED),
    {
        proof {
            reveal_strlit("pending");
            reveal_strlit("building");
            reveal_strlit("successful");
            reveal_strlit("failed");
            assert("pending"@.len() == 7);
            assert("building"@.len() == 8);
            assert("successful"@.len() == 10);
            assert("failed"@.len() == 6);
        }
        if crate::text::str_eq(value, "pending") {
            Some(BuildState::PENDING)
        } else if crate::text::str_eq(value, "building") {
            Some(BuildState::BUILDING)
        } else if crate::text::str_eq(value, "successful") {
            Some(BuildState::SUCCESSFUL)
        } else if crate::text::str_eq(value, "failed") {
            Some(BuildState::FAILED)
        } else {
            None
        }
    }
}

/// The background colour of a status badge.
#[derive(PartialEq, Eq, Structural, Clone, Copy)]
pub enum BadgeColor {
    Grey,
    Red,
    Green,
    Yellow,
}

pub open spec fn spec_badge_color(s: BuildState) -> BadgeColor {
    match s {
        BuildState::PENDING => BadgeColor::Grey,
        BuildState::FAILED => BadgeColor::Red,
        BuildState::SUCCESSFUL => BadgeColor::Green,
        BuildState::BUILDING => BadgeColor::Yellow,
    }
}

pub fn badge_color(s: BuildState) -> (r: BadgeColor)
    ensures
        r == spec_badge_color(s),
{
    match s {
        BuildState::PENDING => BadgeColor::Grey,
        BuildState::FAILED => BadgeColor::Red,
        BuildState::SUCCESSFUL => BadgeColor::Green,
        BuildState::BUILDING => BadgeColor::Yellow,
    }
}

/// The SVG that `badgen::badge` draws in the flat style with `color` as
/// background, or nothing where it reports a formatting error.
pub uninterp spec fn badge_svg(color: BadgeColor, status: Seq<char>, label: Seq<char>) -> Option<Seq<char>>;

/// The longest status and label, together, that a badge is drawn for:
/// badgen measures the texts' widths in `u32`, which a text of millions of
/// characters overflows.
pub const BADGE_TEXT_MAX: usize = 10000;

/// `badgen::badge(&style, status, Some(label)).ok()` with the flat style
/// and `color` as background, for texts short enough that the widths
/// badgen computes in `u32` cannot overflow.
#[verifier::external_body]
pub(crate) fn draw_badge(color: BadgeColor, status: &str, label: &str) -> (r: Option<String>)
    requires
        status@.len() + label@.len() <= BADGE_TEXT_MAX,
    ensures
        match r {
            Some(s) => badge_svg(color, status@, label@) == Some(s@),
            None => badge_svg(color, status@, label@) is None,
        },
{
    let mut style = badgen::Style::flat();
    style.background = match color {
        BadgeColor::Grey => badgen::Color::Grey,
        BadgeColor::Red => badgen::Color::Red,
        BadgeColor::Green => badgen::Color::Green,
        BadgeColor::Yellow => badgen::Color::Yellow,
    };
    badgen::badge(&style, status, Some(label)).ok()
}

/// The status badge of a project's latest build: its state as text on the
/// state's colour, labelled `PWS Build Status`.
pub fn status_badge(state: BuildState) -> (r: Option<String>)
    ensures
        match r {
            Some(s) => badge_svg(spec_badge_color(state), spec_build_state_label(state), "PWS Build Status"@)
                == Some(s@),
            None => badge_svg(spec_badge_color(state), spec_build_state_label(state), "PWS Build Status"@) is None,
        },
{
    let color = badge_color(state);
    let label = state.fmt();
    proof {
        reveal_strlit("Pending");
        reveal_strlit("Building");
        reveal_strlit("Successful");
        reveal_strlit("Failed");
        reveal_strlit("PWS Build Status");
    }
    draw_badge(color, label.as_str(), "PWS Build Status")
}

/// Each build state is shown by its own name: no two states share a
/// label, and a badge reads "Successful" exactly on green, "Failed"
/// exactly on red, "Building" exactly on yellow and "Pending" exactly on
/// grey.
pub proof fn each_state_shows_its_own_name(a: BuildState, b: BuildState)
    ensures
        spec_build_state_label(a) == spec_build_state_label(b) ==> a == b,
        spec_build_state_label(a) == "Successful"@ <==> spec_badge_color(a) == BadgeColor::Green,
        spec_build_state_label(a) == "Failed"@ <==> spec_badge_color(a) == BadgeColor::Red,
        spec_build_state_label(a) == "Building"@ <==> spec_badge_color(a) == BadgeColor::Yellow,
        spec_build_state_label(a) == "Pending"@ <==> spec_badge_color(a) == BadgeColor::Grey,
{
    reveal_strlit("Pending");
    reveal_strlit("Building");
    reveal_strlit("Successful");
    reveal_strlit("Failed");
    assert("Pending"@.len() == 7 && "Building"@.len() == 8 && "Successful"@.len() == 10
        && "Failed"@.len() == 6);
}

} // verus!
