//! Reactive state engine for an in-process editor overlay UI.
//!
//! The library holds the logic of the overlay: the typed event vocabulary,
//! the independent state reducers (current tab, open menu, fullscreen mode,
//! selected tool), the theme resolver with its interaction-state precedence,
//! the keyboard shortcut matcher, the reactive widget rebuilders and the
//! camera-preview viewport projection. A thin driver feeds it each tick with
//! plain snapshots of the input, interaction and change-detection feeds and
//! applies the returned scene-graph mutations.

pub mod bootstrap;
pub mod colors;
pub mod elements;
pub mod events;
pub mod fullscreen;
pub mod reducers;
pub mod shortcuts;
pub mod viewport;

pub use colors::EditorBackgroundColor;
pub use colors::EditorColor;
pub use colors::EditorTextColor;
pub use colors::Interaction;
pub use colors::Rgba;
pub use colors::UiColors;
pub use events::ClickAction;
pub use events::Tool;
pub use events::UiEvent;
