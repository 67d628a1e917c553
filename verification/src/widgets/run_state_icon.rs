//! The badge that shows where a directory stands.

use crate::domain::run_state::RunState;
use crate::icons::{
    check_circle, check_circle_icon, document, error_sign, error_sign_icon, lock, lock_icon,
    pause_circle, pause_circle_icon, refresh, refresh_icon, svg_document, warning_sign,
    warning_sign_icon,
};
use vstd::prelude::*;

verus! {

/// The SVG document of the badge of `state`. A directory that has not started
/// yet has a blank in its place, which keeps the labels in line.
pub open spec fn badge(state: Option<RunState>) -> Option<Seq<char>> {
    match state {
        None | Some(RunState::Waiting) => None,
        Some(RunState::Paused) => Some(document(pause_circle_icon(), "#6b7280"@)),
        Some(RunState::AuthNeeded) => Some(document(lock_icon(), "#f97316"@)),
        Some(RunState::Syncing(_)) => Some(document(refresh_icon(), "#3b82f6"@)),
        Some(RunState::Synced) => Some(document(check_circle_icon(), "#22c55e"@)),
        Some(RunState::Warning) => Some(document(warning_sign_icon(), "#eab308"@)),
        Some(RunState::Error) => Some(document(error_sign_icon(), "#ef4444"@)),
    }
}

/// The SVG document of the badge of `state`, or nothing where a blank is shown.
pub fn status_icon(state: Option<RunState>) -> (r: Option<String>)
    ensures
        r.deep_view() == badge(state),
{
    match state {
        None | Some(RunState::Waiting) => None,
        Some(RunState::Paused) => Some(svg_document(&pause_circle(), "#6b7280")),
        Some(RunState::AuthNeeded) => Some(svg_document(&lock(), "#f97316")),
        Some(RunState::Syncing(_)) => Some(svg_document(&refresh(), "#3b82f6")),
        Some(RunState::Synced) => Some(svg_document(&check_circle(), "#22c55e")),
        Some(RunState::Warning) => Some(svg_document(&warning_sign(), "#eab308")),
        Some(RunState::Error) => Some(svg_document(&error_sign(), "#ef4444")),
    }
}

/// A blank is shown exactly where nothing has started yet; every other state has
/// a glyph and a colour of its own.
pub proof fn law_every_state_has_its_badge(state: RunState)
    ensures
        badge(None) is None,
        badge(Some(state)) is None <==> state == RunState::Waiting,
        state is Syncing ==> badge(Some(state)) == Some(document(refresh_icon(), "#3b82f6"@)),
        state == RunState::Paused ==> badge(Some(state)) == Some(
            document(pause_circle_icon(), "#6b7280"@),
        ),
        state == RunState::AuthNeeded ==> badge(Some(state)) == Some(
            document(lock_icon(), "#f97316"@),
        ),
        state == RunState::Synced ==> badge(Some(state)) == Some(
            document(check_circle_icon(), "#22c55e"@),
        ),
        state == RunState::Warning ==> badge(Some(state)) == Some(
            document(warning_sign_icon(), "#eab308"@),
        ),
        state == RunState::Error ==> badge(Some(state)) == Some(
            document(error_sign_icon(), "#ef4444"@),
        ),
{
}

} // verus!
