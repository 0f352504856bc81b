//! The styles the widgets can wear. Each names a look; the colours that go
//! with it are the presentation layer's.

use vstd::prelude::*;

verus! {

/// The style of the application window.
#[derive(Clone, Copy, Debug, PartialEq, Eq, Structural)]
pub enum App {
    Default,
}

impl Default for App {
    fn default() -> (r: App)
        ensures
            r == App::Default,
    {
        App::Default
    }
}

/// The style of a text input.
#[derive(Clone, Copy, Debug, PartialEq, Eq, Structural)]
pub enum TextInput {
    Default,
}

impl Default for TextInput {
    fn default() -> (r: TextInput)
        ensures
            r == TextInput::Default,
    {
        TextInput::Default
    }
}

/// The style of a container.
#[derive(Clone, Copy, Debug, PartialEq, Eq, Structural)]
pub enum Container {
    Transparent,
    Background,
    Card,
    Sidebar,
}

impl Default for Container {
    fn default() -> (r: Container)
        ensures
            r == Container::Transparent,
    {
        Container::Transparent
    }
}

/// The style of a button.
#[derive(Clone, Copy, Debug, PartialEq, Eq, Structural)]
pub enum Button {
    Primary,
    Secondary,
    Destructive,
    /// An entry of the sidebar.
    Menu,
}

impl Default for Button {
    fn default() -> (r: Button)
        ensures
            r == Button::Primary,
    {
        Button::Primary
    }
}

} // verus!
