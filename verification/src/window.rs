//! Settings of a top-level window, collected before the window is created.

use crate::hwnd_builder::{create_window_handle, WindowRequest};
use vstd::prelude::*;

verus! {

/// What to do with a window right after it was created.
#[derive(Clone, Copy, Debug, PartialEq, Eq, Structural)]
pub enum ShowCommand {
    Minimize,
    Maximize,
}

/// The window class that built windows belong to.
pub open spec fn class_name() -> Seq<char> {
    "NativeWindowsGuiWindow"@
}

/// What it takes to bring a window about: the request to create it, and the
/// commands to give it once it exists.
pub struct WindowPlan {
    pub request: WindowRequest,
    pub commands: Vec<ShowCommand>,
}

/// Collects the settings of a window.
pub struct WindowBuilder<'a> {
    title: &'a str,
    size: (i32, i32),
    position: (i32, i32),
    accept_files: bool,
    center: bool,
    topmost: bool,
    maximized: bool,
    minimized: bool,
}

/// Mathematical model of a [`WindowBuilder`].
pub struct WindowSettings {
    pub title: Seq<char>,
    pub size: (i32, i32),
    pub position: (i32, i32),
    pub accept_files: bool,
    pub center: bool,
    pub topmost: bool,
    pub maximized: bool,
    pub minimized: bool,
}

impl WindowSettings {
    /// The settings a builder starts from.
    pub open spec fn initial() -> Self {
        WindowSettings {
            title: "New Window"@,
            size: (500, 500),
            position: (300, 300),
            accept_files: false,
            center: false,
            topmost: false,
            maximized: false,
            minimized: false,
        }
    }

    /// The commands to give to the new window, in order.
    pub open spec fn show_commands(self) -> Seq<ShowCommand> {
        let first = if self.minimized {
            seq![ShowCommand::Minimize]
        } else {
            Seq::empty()
        };
        if self.maximized {
            first.push(ShowCommand::Maximize)
        } else {
            first
        }
    }
}

impl<'a> View for WindowBuilder<'a> {
    type V = WindowSettings;

    closed spec fn view(&self) -> WindowSettings {
        WindowSettings {
            title: self.title@,
            size: self.size,
            position: self.position,
            accept_files: self.accept_files,
            center: self.center,
            topmost: self.topmost,
            maximized: self.maximized,
            minimized: self.minimized,
        }
    }
}

impl Default for WindowBuilder<'static> {
    fn default() -> (builder: Self)
        ensures
            builder@ == WindowSettings::initial(),
    {
        WindowBuilder {
            title: "New Window",
            size: (500, 500),
            position: (300, 300),
            accept_files: false,
            topmost: false,
            center: false,
            maximized: false,
            minimized: false,
        }
    }
}

impl<'a> WindowBuilder<'a> {
    /// The window starts minimized.
    pub fn minimized(self) -> (builder: Self)
        ensures
            builder@ == (WindowSettings { minimized: true, ..self@ }),
    {
        let mut builder = self;
        builder.minimized = true;
        builder
    }

    /// The window starts maximized.
    pub fn maximized(self) -> (builder: Self)
        ensures
            builder@ == (WindowSettings { maximized: true, ..self@ }),
    {
        let mut builder = self;
        builder.maximized = true;
        builder
    }

    pub fn title(&self) -> (title: &'a str)
        ensures
            title@ == self@.title,
    {
        self.title
    }

    pub fn size(&self) -> (size: (i32, i32))
        ensures
            size == self@.size,
    {
        self.size
    }

    pub fn position(&self) -> (position: (i32, i32))
        ensures
            position == self@.position,
    {
        self.position
    }

    /// What it takes to bring the window about: a window of the class for
    /// built windows, of the size and at the position chosen, without text,
    /// style or parent; then the commands that show it as asked.
    pub fn build(&self) -> (plan: WindowPlan)
        ensures
            plan.request.class_name@ == class_name(),
            plan.request.window_name@ == Seq::<char>::empty(),
            (plan.request.width, plan.request.height) == self@.size,
            (plan.request.x, plan.request.y) == self@.position,
            plan.request.style == 0,
            plan.request.ex_style == 0,
            plan.request.parent == 0,
            plan.commands@ == self@.show_commands(),
    {
        let request = create_window_handle().class_name("NativeWindowsGuiWindow").size(
            self.size,
        ).position(self.position).build();
        WindowPlan { request, commands: self.show_commands() }
    }

    /// The commands to give to the window once it exists: minimize first,
    /// then maximize, each only if it was asked for.
    pub fn show_commands(&self) -> (commands: Vec<ShowCommand>)
        ensures
            commands@ == self@.show_commands(),
    {
        let mut commands: Vec<ShowCommand> = Vec::new();
        if self.minimized {
            commands.push(ShowCommand::Minimize);
        }
        if self.maximized {
            commands.push(ShowCommand::Maximize);
        }
        commands
    }
}

/// A builder with the initial settings.
pub fn window() -> (builder: WindowBuilder<'static>)
    ensures
        builder@ == WindowSettings::initial(),
{
    WindowBuilder::default()
}

} // verus!
