//! From input events to commands, and from commands to changes of the view
//! and to the actions that the surrounding loop has to carry out.

use vstd::prelude::*;
use crate::config::{Config, ConfigModel};
use crate::viewport::{ViewportModel, ViewportState};

verus! {

/// The keys that the viewer listens to.
#[derive(Clone, Copy, Debug, PartialEq, Eq, Structural)]
pub enum Key {
    Escape,
    Q,
    R,
    C,
    S,
    E,
    Other,
}

/// A mouse button.
#[derive(Clone, Copy, Debug, PartialEq, Eq, Structural)]
pub enum MouseButton {
    Left,
    Middle,
    Right,
    Other,
}

/// An input event, as the windowing layer delivers it.
#[derive(Clone, Copy, Debug, PartialEq, Eq, Structural)]
pub enum Event {
    KeyDown { key: Key },
    MouseButtonDown { button: MouseButton, x: i32, y: i32 },
    MouseButtonUp { button: MouseButton },
    MouseMotion { x: i32, y: i32 },
    MouseWheel { y: i32 },
    Other,
}

/// What an event asks for.
#[derive(Clone, Copy, Debug, PartialEq, Eq, Structural)]
pub enum Command {
    Quit,
    ResetView,
    ResetScale,
    SaveCurrent,
    SaveFresh,
    BeginDrag { x: i32, y: i32 },
    EndDrag,
    Motion { x: i32, y: i32 },
    Zoom { direction: i32 },
    Nothing,
}

/// What the loop has to do after an event, beyond what was done to the
/// view.
#[derive(Clone, Copy, Debug, PartialEq, Eq, Structural)]
pub enum Action {
    /// Go on with the next event.
    Continue,
    /// Leave the loop.
    Quit,
    /// Save the image that is shown.
    SaveCurrent,
    /// Capture the whole desktop anew and save that.
    SaveFresh,
}

/// The command that an event stands for. Escape and Q quit, R resets the
/// view, C resets the scale, S saves what is shown, E saves a fresh
/// capture; the left button starts and ends a drag, and the wheel zooms in
/// the direction of its sign. Everything else asks for nothing.
pub open spec fn command_of(event: Event) -> Command {
    match event {
        Event::KeyDown { key } => match key {
            Key::Escape => Command::Quit,
            Key::Q => Command::Quit,
            Key::R => Command::ResetView,
            Key::C => Command::ResetScale,
            Key::S => Command::SaveCurrent,
            Key::E => Command::SaveFresh,
            Key::Other => Command::Nothing,
        },
        Event::MouseButtonDown { button, x, y } => if button == MouseButton::Left {
            Command::BeginDrag { x, y }
        } else {
            Command::Nothing
        },
        Event::MouseButtonUp { button } => if button == MouseButton::Left {
            Command::EndDrag
        } else {
            Command::Nothing
        },
        Event::MouseMotion { x, y } => Command::Motion { x, y },
        Event::MouseWheel { y } => Command::Zoom { direction: y },
        Event::Other => Command::Nothing,
    }
}

/// The view after a command. Quitting and saving leave it as it is.
pub open spec fn applied(
    s: ViewportModel,
    cfg: ConfigModel,
    image_width: int,
    image_height: int,
    command: Command,
) -> ViewportModel {
    match command {
        Command::ResetView => ViewportModel::initial(),
        Command::ResetScale => s.reset_scale(image_width, image_height),
        Command::BeginDrag { x, y } => s.begin_drag(x as int, y as int),
        Command::EndDrag => s.end_drag(),
        Command::Motion { x, y } => s.on_motion(x as int, y as int),
        Command::Zoom { direction } => s.on_zoom(cfg, direction as int),
        Command::Quit => s,
        Command::SaveCurrent => s,
        Command::SaveFresh => s,
        Command::Nothing => s,
    }
}

/// What is left for the loop to do after a command.
pub open spec fn action_of(command: Command) -> Action {
    match command {
        Command::Quit => Action::Quit,
        Command::SaveCurrent => Action::SaveCurrent,
        Command::SaveFresh => Action::SaveFresh,
        _ => Action::Continue,
    }
}

/// Reads an event as a command.
pub fn command_for(event: Event) -> (command: Command)
    ensures
        command == command_of(event),
{
    match event {
        Event::KeyDown { key } => match key {
            Key::Escape => Command::Quit,
            Key::Q => Command::Quit,
            Key::R => Command::ResetView,
            Key::C => Command::ResetScale,
            Key::S => Command::SaveCurrent,
            Key::E => Command::SaveFresh,
            Key::Other => Command::Nothing,
        },
        Event::MouseButtonDown { button, x, y } => match button {
            MouseButton::Left => Command::BeginDrag { x, y },
            _ => Command::Nothing,
        },
        Event::MouseButtonUp { button } => match button {
            MouseButton::Left => Command::EndDrag,
            _ => Command::Nothing,
        },
        Event::MouseMotion { x, y } => Command::Motion { x, y },
        Event::MouseWheel { y } => Command::Zoom { direction: y },
        Event::Other => Command::Nothing,
    }
}

/// Carries out a command on the view of an image of the given size, with
/// at most one call into the engine, and says what is left for the loop to
/// do.
pub fn apply(
    state: &mut ViewportState,
    cfg: &Config,
    image_width: u32,
    image_height: u32,
    command: Command,
) -> (action: Action)
    ensures
        final(state)@ == applied(
            old(state)@,
            cfg@,
            image_width as int,
            image_height as int,
            command,
        ),
        action == action_of(command),
{
    match command {
        Command::Quit => Action::Quit,
        Command::SaveCurrent => Action::SaveCurrent,
        Command::SaveFresh => Action::SaveFresh,
        Command::ResetView => {
            state.reset();
            Action::Continue
        },
        Command::ResetScale => {
            state.reset_scale(image_width, image_height);
            Action::Continue
        },
        Command::BeginDrag { x, y } => {
            state.begin_drag(x, y);
            Action::Continue
        },
        Command::EndDrag => {
            state.end_drag();
            Action::Continue
        },
        Command::Motion { x, y } => {
            state.on_motion(x, y);
            Action::Continue
        },
        Command::Zoom { direction } => {
            state.on_zoom(cfg, direction);
            Action::Continue
        },
        Command::Nothing => Action::Continue,
    }
}

/// Handles one input event: reads it as a command and carries that out.
pub fn dispatch(
    state: &mut ViewportState,
    cfg: &Config,
    image_width: u32,
    image_height: u32,
    event: Event,
) -> (action: Action)
    ensures
        final(state)@ == applied(
            old(state)@,
            cfg@,
            image_width as int,
            image_height as int,
            command_of(event),
        ),
        action == action_of(command_of(event)),
{
    let command: Command = command_for(event);
    apply(state, cfg, image_width, image_height, command)
}

} // verus!
