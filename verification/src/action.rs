//! The closed set of messages that drive the application: every state
//! transition and every externally observable effect request is one of
//! these, applied in arrival order by the dispatcher.

use vstd::prelude::*;
use crate::home::Mode;
use crate::units::UnitId;
use crate::units::UnitWithStatus;

verus! {

/// A message for the dispatcher. Applying one is always total: an action
/// that is irrelevant in the current mode is a no-op.
#[derive(Debug)]
pub enum Action {
    Quit,
    Resume,
    Suspend,
    Render,
    DebouncedRender,
    SpinnerTick,
    Resize(u16, u16),
    ToggleShowLogger,
    RefreshServices,
    SetServices(Vec<UnitWithStatus>),
    EnterMode(Mode),
    EnterError { err: String },
    CancelTask,
    ToggleHelp,
    SetUnitFilePath { unit: UnitId, path: Result<String, String> },
    CopyUnitFilePath,
    SetUnitDescription { unit: UnitId, description: String },
    SetLogs { unit: UnitId, logs: Vec<String> },
    AppendLogLine { unit: UnitId, line: String },
    StartService(UnitId),
    StopService(UnitId),
    RestartService(UnitId),
    ReloadService(UnitId),
    EnableService(UnitId),
    DisableService(UnitId),
    ScrollUp(u16),
    ScrollDown(u16),
    ScrollToTop,
    ScrollToBottom,
    Noop,
}

impl Action {
    /// The shapes an action-menu entry is allowed to carry.
    pub open spec fn is_menu_action(&self) -> bool {
        self is StartService || self is StopService || self is RestartService
            || self is CopyUnitFilePath
    }

    /// An equal copy of a menu-entry action (derived `Clone` carries no
    /// specification).
    pub fn duplicate_menu(&self) -> (r: Action)
        requires
            self.is_menu_action(),
        ensures
            r == *self,
    {
        match self {
            Action::StartService(id) => Action::StartService(id.duplicate()),
            Action::StopService(id) => Action::StopService(id.duplicate()),
            Action::RestartService(id) => Action::RestartService(id.duplicate()),
            _ => Action::CopyUnitFilePath,
        }
    }
}

/// Which service operation a background task performs.
#[derive(Debug, Clone, Copy, PartialEq, Eq, Structural)]
pub enum ServiceActionKind {
    Start,
    Stop,
    Restart,
}

/// A request the dispatcher hands back to its caller: the outside work the
/// library itself cannot perform.
#[derive(Debug)]
pub enum Effect {
    /// Launch the given service operation as a cancellable background task
    /// registered under `token`.
    StartTask { unit: UnitId, kind: ServiceActionKind, token: u64 },
    /// Signal the cancellation handle registered under this token.
    CancelToken(u64),
    /// Fetch a fresh unit snapshot from the service manager.
    FetchServices,
    /// Redirect the log source to this unit.
    RequestLogs(UnitId),
    /// Put this text on the clipboard.
    CopyToClipboard(String),
}

/// What applying one action produced: at most one follow-up action to
/// enqueue and at most one effect to perform.
#[derive(Debug)]
pub struct DispatchOutcome {
    pub follow_up: Option<Action>,
    pub effect: Option<Effect>,
}

/// What one key press produced: actions to enqueue, possibly a log
/// redirection, and possibly the request to route the key into the
/// search-input editor.
#[derive(Debug)]
pub struct KeyOutcome {
    pub actions: Vec<Action>,
    pub log_request: Option<UnitId>,
    pub edit_search: bool,
}

} // verus!
