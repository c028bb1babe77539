//! The typed event vocabulary of the overlay UI.
//!
//! Interaction dispatch and shortcut matching produce [`UiEvent`] values;
//! the independent state reducers consume them, each filtering for the
//! variants it cares about.

use vstd::prelude::*;

verus! {

/// An editor tool that a tool-palette button can select.
#[derive(Clone, Copy, PartialEq, Eq, Structural, Debug, Hash)]
pub enum Tool {
    Pointer,
    Move,
    Rotate,
    Scale,
    AddEntity,
    ImportFile,
}

impl Default for Tool {
    /// The pointer is the tool selected before any event arrives.
    fn default() -> (r: Self)
        ensures
            r == Tool::Pointer,
    {
        Tool::Pointer
    }
}

/// A semantic action requested by the user, decoupled from the input
/// mechanism that produced it. Every reducer sees every event of a tick.
#[derive(Clone, Debug)]
pub enum UiEvent {
    OpenMenu { id: String },
    CloseMenus,
    FileNew,
    FileOpen,
    FileSave,
    FileSaveAs,
    FileClose,
    FileExit,
    ShowHelp,
    Undo,
    Redo,
    SelectTool(Tool),
    SelectTab(usize),
    CloseTab(usize),
    ToggleFullscreen,
    NextTab,
    PreviousTab,
}

/// Value equality of two events: same variant, and payloads equal
/// (menu ids compared by their characters).
pub open spec fn ui_event_eq(a: UiEvent, b: UiEvent) -> bool {
    match (a, b) {
        (UiEvent::OpenMenu { id: x }, UiEvent::OpenMenu { id: y }) => x@ == y@,
        (UiEvent::CloseMenus, UiEvent::CloseMenus) => true,
        (UiEvent::FileNew, UiEvent::FileNew) => true,
        (UiEvent::FileOpen, UiEvent::FileOpen) => true,
        (UiEvent::FileSave, UiEvent::FileSave) => true,
        (UiEvent::FileSaveAs, UiEvent::FileSaveAs) => true,
        (UiEvent::FileClose, UiEvent::FileClose) => true,
        (UiEvent::FileExit, UiEvent::FileExit) => true,
        (UiEvent::ShowHelp, UiEvent::ShowHelp) => true,
        (UiEvent::Undo, UiEvent::Undo) => true,
        (UiEvent::Redo, UiEvent::Redo) => true,
        (UiEvent::SelectTool(x), UiEvent::SelectTool(y)) => x == y,
        (UiEvent::SelectTab(x), UiEvent::SelectTab(y)) => x == y,
        (UiEvent::CloseTab(x), UiEvent::CloseTab(y)) => x == y,
        (UiEvent::ToggleFullscreen, UiEvent::ToggleFullscreen) => true,
        (UiEvent::NextTab, UiEvent::NextTab) => true,
        (UiEvent::PreviousTab, UiEvent::PreviousTab) => true,
        _ => false,
    }
}

impl PartialEq for UiEvent {
    fn eq(&self, other: &UiEvent) -> (r: bool) {
        match (self, other) {
            (UiEvent::OpenMenu { id: x }, UiEvent::OpenMenu { id: y }) => x.eq(y),
            (UiEvent::CloseMenus, UiEvent::CloseMenus) => true,
            (UiEvent::FileNew, UiEvent::FileNew) => true,
            (UiEvent::FileOpen, UiEvent::FileOpen) => true,
            (UiEvent::FileSave, UiEvent::FileSave) => true,
            (UiEvent::FileSaveAs, UiEvent::FileSaveAs) => true,
            (UiEvent::FileClose, UiEvent::FileClose) => true,
            (UiEvent::FileExit, UiEvent::FileExit) => true,
            (UiEvent::ShowHelp, UiEvent::ShowHelp) => true,
            (UiEvent::Undo, UiEvent::Undo) => true,
            (UiEvent::Redo, UiEvent::Redo) => true,
            (UiEvent::SelectTool(x), UiEvent::SelectTool(y)) => x == y,
            (UiEvent::SelectTab(x), UiEvent::SelectTab(y)) => x == y,
            (UiEvent::CloseTab(x), UiEvent::CloseTab(y)) => x == y,
            (UiEvent::ToggleFullscreen, UiEvent::ToggleFullscreen) => true,
            (UiEvent::NextTab, UiEvent::NextTab) => true,
            (UiEvent::PreviousTab, UiEvent::PreviousTab) => true,
            _ => false,
        }
    }
}

impl vstd::std_specs::cmp::PartialEqSpecImpl for UiEvent {
    open spec fn obeys_eq_spec() -> bool {
        true
    }

    open spec fn eq_spec(&self, other: &UiEvent) -> bool {
        ui_event_eq(*self, *other)
    }
}

impl UiEvent {
    /// An exact copy of the event; the reducers fan one event out to
    /// several consumers.
    pub fn duplicate(&self) -> (r: UiEvent)
        ensures
            r == *self,
    {
        match self {
            UiEvent::OpenMenu { id } => UiEvent::OpenMenu { id: id.clone() },
            UiEvent::CloseMenus => UiEvent::CloseMenus,
            UiEvent::FileNew => UiEvent::FileNew,
            UiEvent::FileOpen => UiEvent::FileOpen,
            UiEvent::FileSave => UiEvent::FileSave,
            UiEvent::FileSaveAs => UiEvent::FileSaveAs,
            UiEvent::FileClose => UiEvent::FileClose,
            UiEvent::FileExit => UiEvent::FileExit,
            UiEvent::ShowHelp => UiEvent::ShowHelp,
            UiEvent::Undo => UiEvent::Undo,
            UiEvent::Redo => UiEvent::Redo,
            UiEvent::SelectTool(t) => UiEvent::SelectTool(*t),
            UiEvent::SelectTab(i) => UiEvent::SelectTab(*i),
            UiEvent::CloseTab(i) => UiEvent::CloseTab(*i),
            UiEvent::ToggleFullscreen => UiEvent::ToggleFullscreen,
            UiEvent::NextTab => UiEvent::NextTab,
            UiEvent::PreviousTab => UiEvent::PreviousTab,
        }
    }
}

/// Binds one event to a clickable UI node; declarative, never mutated.
#[derive(Debug, PartialEq)]
pub struct ClickAction(pub UiEvent);

} // verus!
