//! The loop that keeps the live settings in step with the settings file, as decisions.

use vstd::prelude::*;

verus! {

/// What woke the watcher.
#[derive(Debug, Clone, Copy, PartialEq, Eq, Structural)]
pub enum WatchEvent {
    /// The signal to shut down was raised.
    Cancelled,
    /// The file system reported something about the settings file.
    Changed {
        /// Whether the report says that the file was modified.
        modified: bool,
    },
    /// Watching failed.
    Failed,
}

/// What the watcher does next.
#[derive(Debug, Clone, Copy, PartialEq, Eq, Structural)]
pub enum WatchAction {
    /// Stop watching.
    Stop,
    /// Read the settings file again and hand the result to the store, then wait on.
    Reload,
    /// Report the failure, then wait on.
    Report,
    /// Wait on.
    Wait,
}

/// What the watcher does about an event: it stops when it is cancelled, reloads the settings
/// when the file was modified, reports a failure, and lets everything else pass.
pub fn on_watch_event(event: WatchEvent) -> (r: WatchAction)
    ensures
        r == match event {
            WatchEvent::Cancelled => WatchAction::Stop,
            WatchEvent::Changed { modified } => if modified {
                WatchAction::Reload
            } else {
                WatchAction::Wait
            },
            WatchEvent::Failed => WatchAction::Report,
        },
{
    match event {
        WatchEvent::Cancelled => WatchAction::Stop,
        WatchEvent::Changed { modified } => if modified {
            WatchAction::Reload
        } else {
            WatchAction::Wait
        },
        WatchEvent::Failed => WatchAction::Report,
    }
}

} // verus!
