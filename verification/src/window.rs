//! The window's part: what each signal of the event loop means for the
//! input flags, the renderer and the loop itself.

use vstd::prelude::*;
use crate::renderer::PoritzCraftRenderer;

verus! {

/// The keys the window reacts to.
#[derive(Clone, Copy, Debug, PartialEq, Eq, Structural)]
pub enum Key {
    LControl,
    W,
    A,
    S,
    D,
    Other,
}

/// What the event loop delivers.
#[derive(Clone, Copy, Debug, PartialEq, Eq, Structural)]
pub enum WindowSignal {
    CloseRequested,
    Resized,
    KeyboardInput { key: Key, pressed: bool },
    RedrawEventsCleared,
    Other,
}

/// What the event loop does after a signal.
#[derive(Clone, Copy, Debug, PartialEq, Eq, Structural)]
pub enum LoopCommand {
    /// Leave the loop.
    Exit,
    /// Render one frame.
    Redraw,
    /// Wait for the next signal.
    Wait,
}

/// Which of the control and pan keys are held down.
#[derive(Clone, Copy, Debug, PartialEq, Eq, Structural)]
pub struct PoritzCraftWindow {
    pub control: bool,
    pub pan_up: bool,
    pub pan_left: bool,
    pub pan_down: bool,
    pub pan_right: bool,
}

impl PoritzCraftWindow {
    /// The flags after a key was pressed or released.
    pub open spec fn with_key(self, key: Key, pressed: bool) -> PoritzCraftWindow {
        match key {
            Key::LControl => PoritzCraftWindow { control: pressed, ..self },
            Key::W => PoritzCraftWindow { pan_up: pressed, ..self },
            Key::A => PoritzCraftWindow { pan_left: pressed, ..self },
            Key::S => PoritzCraftWindow { pan_down: pressed, ..self },
            Key::D => PoritzCraftWindow { pan_right: pressed, ..self },
            Key::Other => self,
        }
    }

    /// The flags after a signal.
    pub open spec fn after(self, signal: WindowSignal) -> PoritzCraftWindow {
        match signal {
            WindowSignal::KeyboardInput { key, pressed } => self.with_key(key, pressed),
            _ => self,
        }
    }

    /// What the loop does after a signal.
    pub open spec fn command(signal: WindowSignal) -> LoopCommand {
        match signal {
            WindowSignal::CloseRequested => LoopCommand::Exit,
            WindowSignal::RedrawEventsCleared => LoopCommand::Redraw,
            _ => LoopCommand::Wait,
        }
    }

    /// A window with no key held down.
    pub fn new() -> (w: PoritzCraftWindow)
        ensures
            w == (PoritzCraftWindow {
                control: false,
                pan_up: false,
                pan_left: false,
                pan_down: false,
                pan_right: false,
            }),
    {
        PoritzCraftWindow {
            control: false,
            pan_up: false,
            pan_left: false,
            pan_down: false,
            pan_right: false,
        }
    }

    /// Runs the window for one signal of the event loop: a key changes its
    /// flag, a resize marks the renderer's surface stale, and the answer
    /// tells the loop whether to leave, to render a frame or to wait.
    pub fn run(&mut self, renderer: &mut PoritzCraftRenderer, signal: WindowSignal) -> (command:
        LoopCommand)
        ensures
            *final(self) == old(self).after(signal),
            command == PoritzCraftWindow::command(signal),
            final(renderer)@ == if signal == WindowSignal::Resized {
                old(renderer)@.resized()
            } else {
                old(renderer)@
            },
    {
        match signal {
            WindowSignal::CloseRequested => LoopCommand::Exit,
            WindowSignal::Resized => {
                renderer.notify_resized();
                LoopCommand::Wait
            },
            WindowSignal::KeyboardInput { key, pressed } => {
                match key {
                    Key::LControl => {
                        self.control = pressed;
                    },
                    Key::W => {
                        self.pan_up = pressed;
                    },
                    Key::A => {
                        self.pan_left = pressed;
                    },
                    Key::S => {
                        self.pan_down = pressed;
                    },
                    Key::D => {
                        self.pan_right = pressed;
                    },
                    Key::Other => {},
                }
                LoopCommand::Wait
            },
            WindowSignal::RedrawEventsCleared => LoopCommand::Redraw,
            WindowSignal::Other => LoopCommand::Wait,
        }
    }
}

} // verus!
