//! The input model: raw events as one merged stream hands them over, and
//! how the application loop routes actions it pulls off the queue.

use vstd::prelude::*;
use crate::action::Action;

verus! {

/// A key, reduced to what the key bindings distinguish.
#[derive(Debug, Clone, Copy, PartialEq, Eq, Structural)]
pub enum KeyCode {
    Char(char),
    F(u8),
    Enter,
    Esc,
    Up,
    Down,
    Tab,
    PageUp,
    PageDown,
    Home,
    End,
    Other,
}

/// One key press, with the one modifier the bindings use.
#[derive(Debug, Clone, Copy, PartialEq, Eq, Structural)]
pub struct KeyEvent {
    pub code: KeyCode,
    pub ctrl: bool,
}

/// A raw event as the merged event stream delivers it.
#[derive(Debug, Clone, Copy, PartialEq, Eq, Structural)]
pub enum Event {
    Quit,
    Error,
    Closed,
    RenderTick,
    RefreshTick,
    Key(KeyEvent),
    Mouse,
    Resize(u16, u16),
}

/// The actions a non-key event translates to; key events carry state and
/// go through the key handler instead.
pub fn actions_for_event(event: &Event) -> (r: Vec<Action>)
    ensures
        match event {
            Event::Quit => r@ =~= seq![Action::Quit],
            Event::RenderTick => r@ =~= seq![Action::Render],
            Event::RefreshTick => r@ =~= seq![Action::RefreshServices],
            Event::Resize(x, y) => r@ =~= seq![Action::Resize(*x, *y)],
            _ => r@ =~= Seq::<Action>::empty(),
        },
{
    let mut r: Vec<Action> = Vec::new();
    match event {
        Event::Quit => r.push(Action::Quit),
        Event::RenderTick => r.push(Action::Render),
        Event::RefreshTick => r.push(Action::RefreshServices),
        Event::Resize(x, y) => r.push(Action::Resize(*x, *y)),
        _ => (),
    }
    r
}

/// What the application loop does with one action before anything else
/// sees it.
#[derive(Debug, Clone, Copy, PartialEq, Eq, Structural)]
pub enum Route {
    /// Draw a frame now.
    DrawNow,
    /// Coalesce into the debounced render stream.
    Debounce,
    /// Leave the loop after draining background tasks.
    Quit,
    /// Tear the terminal and event source down around a stop signal.
    Suspend,
    /// Rebuild them afterwards.
    Resume,
    /// Nothing at all.
    Ignore,
    /// Hand the action to the dispatcher.
    Forward,
}

/// The application loop's triage: lifecycle actions are handled directly,
/// everything else is forwarded to the dispatcher.
pub fn route_action(action: &Action) -> (r: Route)
    ensures
        r == match action {
            Action::Render => Route::DrawNow,
            Action::Resize(_, _) => Route::DrawNow,
            Action::DebouncedRender => Route::Debounce,
            Action::Quit => Route::Quit,
            Action::Suspend => Route::Suspend,
            Action::Resume => Route::Resume,
            Action::Noop => Route::Ignore,
            _ => Route::Forward,
        },
{
    match action {
        Action::Render => Route::DrawNow,
        Action::Resize(_, _) => Route::DrawNow,
        Action::DebouncedRender => Route::Debounce,
        Action::Quit => Route::Quit,
        Action::Suspend => Route::Suspend,
        Action::Resume => Route::Resume,
        Action::Noop => Route::Ignore,
        _ => Route::Forward,
    }
}

} // verus!
