//! Outcomes of detached browser and clipboard commands.

use vstd::prelude::*;

use crate::actions::{ExternalCommandKind, ExternalCommandTarget};
use crate::attached::{notice_is, Notice};

verus! {

/// Notice after a command succeeded.
pub open spec fn success_message(command: ExternalCommandKind) -> Seq<char> {
    match command {
        ExternalCommandKind::Browser => "Opened in browser"@,
        ExternalCommandKind::Clipboard => "Copied URL"@,
    }
}

/// Prefix of the notice after a command failed.
pub open spec fn failure_prefix(command: ExternalCommandKind) -> Seq<char> {
    match command {
        ExternalCommandKind::Browser => "Couldn't open browser"@,
        ExternalCommandKind::Clipboard => "Couldn't copy URL"@,
    }
}

/// Whether a finished command's track context menu is still the one open:
/// same track and same menu generation.
pub open spec fn menu_still_open(target: ExternalCommandTarget, open_menu_track: Option<String>, generation: u64) -> bool {
    &&& target matches ExternalCommandTarget::TrackContext { track_id, generation: g }
    &&& open_menu_track matches Some(open) && open@ == track_id@
    &&& g == generation
}

/// Apply a finished external command: on success the menu it ran from is
/// closed if it is still the open one, never one the user reopened since;
/// either way a notice reports the result. Returns whether to close the menu.
pub fn finish_external_command(
    command: ExternalCommandKind,
    target: ExternalCommandTarget,
    result: Result<(), String>,
    open_menu_track: Option<&String>,
    generation: u64,
) -> (outcome: (bool, Notice))
    ensures
        match result {
            Ok(()) => {
                &&& outcome.0 == menu_still_open(target, match open_menu_track {
                    Some(t) => Some(*t),
                    None => None,
                }, generation)
                &&& notice_is(outcome.1, success_message(command), false)
            },
            Err(error) => !outcome.0 && notice_is(outcome.1, failure_prefix(command) + ": "@ + error@, true),
        },
{
    proof {
        reveal_strlit("Opened in browser");
        reveal_strlit("Couldn't open browser");
        reveal_strlit("Copied URL");
        reveal_strlit("Couldn't copy URL");
        reveal_strlit(": ");
    }
    let (success, failure) = match command {
        ExternalCommandKind::Browser => ("Opened in browser", "Couldn't open browser"),
        ExternalCommandKind::Clipboard => ("Copied URL", "Couldn't copy URL"),
    };
    match result {
        Ok(()) => {
            let close = match target {
                ExternalCommandTarget::TrackContext { track_id, generation: g } => match open_menu_track {
                    Some(open) => *open == track_id && g == generation,
                    None => false,
                },
                ExternalCommandTarget::Selection => false,
            };
            (close, Notice { message: String::from_str(success), error: false })
        },
        Err(error) => (
            false,
            Notice { message: String::from_str(failure).concat(": ").concat(error.as_str()), error: true },
        ),
    }
}

} // verus!
