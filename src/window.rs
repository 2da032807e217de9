use vstd::prelude::*;
use bevy_math::Vec2;

use crate::descriptor::{Real32, Real64, WindowDescriptor, WindowMode};
use crate::id::WindowId;

verus! {

/// `bevy_math::Vec2` (glam's two-component vector), carried through unread: a
/// cursor position as the application requests it or the backend reports it.
#[verifier::external_type_specification]
#[verifier::external_body]
pub struct ExVec2(Vec2);

/// One change that the application asked for, awaiting the backend.
#[derive(Debug)]
pub enum WindowCommand {
    SetWindowMode { mode: WindowMode, resolution: (u32, u32) },
    SetTitle { title: String },
    SetResolution { resolution: (Real32, Real32) },
    SetVsync { vsync: bool },
    SetResizable { resizable: bool },
    SetDecorations { decorations: bool },
    SetCursorLockMode { locked: bool },
    SetCursorVisibility { visible: bool },
    SetCursorPosition { position: Vec2 },
    SetMaximized { maximized: bool },
}

/// One call of an application-side mutator of [`Window`], with its arguments.
pub enum WindowRequest {
    SetResolution { width: Real32, height: Real32 },
    SetTitle { title: String },
    SetVsync { vsync: bool },
    SetResizable { resizable: bool },
    SetDecorations { decorations: bool },
    SetCursorLockMode { locked: bool },
    SetCursorVisibility { visible: bool },
    SetCursorPosition { position: Vec2 },
    SetMode { mode: WindowMode },
    SetMaximized { maximized: bool },
}

/// What a [`Window`] holds, as values.
pub struct WindowModel {
    pub id: WindowId,
    pub requested_width: Real32,
    pub requested_height: Real32,
    pub physical_width: u32,
    pub physical_height: u32,
    pub scale_factor: Real64,
    pub title: Seq<char>,
    pub vsync: bool,
    pub resizable: bool,
    pub decorations: bool,
    pub cursor_visible: bool,
    pub cursor_locked: bool,
    pub cursor_position: Option<Vec2>,
    pub mode: WindowMode,
    /// The commands not yet drained, oldest first.
    pub commands: Seq<WindowCommand>,
}

impl WindowModel {
    /// The command that a request records. A mode change carries the current
    /// physical size as its resolution.
    pub open spec fn command_for(self, r: WindowRequest) -> WindowCommand {
        match r {
            WindowRequest::SetResolution { width, height } =>
                WindowCommand::SetResolution { resolution: (width, height) },
            WindowRequest::SetTitle { title } => WindowCommand::SetTitle { title },
            WindowRequest::SetVsync { vsync } => WindowCommand::SetVsync { vsync },
            WindowRequest::SetResizable { resizable } => WindowCommand::SetResizable { resizable },
            WindowRequest::SetDecorations { decorations } =>
                WindowCommand::SetDecorations { decorations },
            WindowRequest::SetCursorLockMode { locked } => WindowCommand::SetCursorLockMode { locked },
            WindowRequest::SetCursorVisibility { visible } =>
                WindowCommand::SetCursorVisibility { visible },
            WindowRequest::SetCursorPosition { position } =>
                WindowCommand::SetCursorPosition { position },
            WindowRequest::SetMode { mode } => WindowCommand::SetWindowMode {
                mode,
                resolution: (self.physical_width, self.physical_height),
            },
            WindowRequest::SetMaximized { maximized } => WindowCommand::SetMaximized { maximized },
        }
    }

    /// The stored properties after a request: the field it names takes the new
    /// value, except for a cursor position or maximization, which store nothing.
    pub open spec fn with_property(self, r: WindowRequest) -> WindowModel {
        match r {
            WindowRequest::SetResolution { width, height } => WindowModel {
                requested_width: width,
                requested_height: height,
                ..self
            },
            WindowRequest::SetTitle { title } => WindowModel { title: title@, ..self },
            WindowRequest::SetVsync { vsync } => WindowModel { vsync, ..self },
            WindowRequest::SetResizable { resizable } => WindowModel { resizable, ..self },
            WindowRequest::SetDecorations { decorations } => WindowModel { decorations, ..self },
            WindowRequest::SetCursorLockMode { locked } => WindowModel {
                cursor_locked: locked,
                ..self
            },
            WindowRequest::SetCursorVisibility { visible } => WindowModel {
                cursor_visible: visible,
                ..self
            },
            WindowRequest::SetCursorPosition { .. } => self,
            WindowRequest::SetMode { mode } => WindowModel { mode, ..self },
            WindowRequest::SetMaximized { .. } => self,
        }
    }

    /// The state after one application-side request: the property is updated
    /// and exactly one command is appended to the queue.
    pub open spec fn after_request(self, r: WindowRequest) -> WindowModel {
        WindowModel { commands: self.commands.push(self.command_for(r)), ..self.with_property(r) }
    }

    /// The state after a sequence of application-side requests, in order.
    pub open spec fn after_requests(self, rs: Seq<WindowRequest>) -> WindowModel
        decreases rs.len(),
    {
        if rs.len() == 0 {
            self
        } else {
            self.after_requests(rs.drop_last()).after_request(rs.last())
        }
    }

    /// The state once the queue has been drained.
    pub open spec fn drained(self) -> WindowModel {
        WindowModel { commands: Seq::empty(), ..self }
    }
}

/// The state of one window: its identity, sizes, properties, and the commands
/// that the application has issued and the backend has not yet drained.
///
/// There are three sizes. The physical size, in pixels of the monitor, is what
/// the backend last reported. The logical size is the physical size divided by
/// the scale factor. The requested size, in logical pixels, is what the
/// application last asked for; operating system limits and the quantization of
/// the scale factor may make it differ from the logical size.
#[derive(Debug)]
pub struct Window {
    id: WindowId,
    requested_width: Real32,
    requested_height: Real32,
    physical_width: u32,
    physical_height: u32,
    scale_factor: Real64,
    title: String,
    vsync: bool,
    resizable: bool,
    decorations: bool,
    cursor_visible: bool,
    cursor_locked: bool,
    cursor_position: Option<Vec2>,
    mode: WindowMode,
    command_queue: Vec<WindowCommand>,
}

impl View for Window {
    type V = WindowModel;

    closed spec fn view(&self) -> WindowModel {
        WindowModel {
            id: self.id,
            requested_width: self.requested_width,
            requested_height: self.requested_height,
            physical_width: self.physical_width,
            physical_height: self.physical_height,
            scale_factor: self.scale_factor,
            title: self.title@,
            vsync: self.vsync,
            resizable: self.resizable,
            decorations: self.decorations,
            cursor_visible: self.cursor_visible,
            cursor_locked: self.cursor_locked,
            cursor_position: self.cursor_position,
            mode: self.mode,
            commands: self.command_queue@,
        }
    }
}

impl Window {
    /// A window made from a descriptor and the physical size and scale factor
    /// that the backend reported on creating it. No cursor position is known
    /// yet and no command is queued.
    pub fn new(
        id: WindowId,
        window_descriptor: &WindowDescriptor,
        physical_width: u32,
        physical_height: u32,
        scale_factor: Real64,
    ) -> (r: Window)
        ensures
            r@ == (WindowModel {
                id,
                requested_width: window_descriptor.width,
                requested_height: window_descriptor.height,
                physical_width,
                physical_height,
                scale_factor,
                title: window_descriptor.title@,
                vsync: window_descriptor.vsync,
                resizable: window_descriptor.resizable,
                decorations: window_descriptor.decorations,
                cursor_visible: window_descriptor.cursor_visible,
                cursor_locked: window_descriptor.cursor_locked,
                cursor_position: None,
                mode: window_descriptor.mode,
                commands: Seq::empty(),
            }),
    {
        let r = Window {
            id,
            requested_width: window_descriptor.width,
            requested_height: window_descriptor.height,
            physical_width,
            physical_height,
            scale_factor,
            title: window_descriptor.title.clone(),
            vsync: window_descriptor.vsync,
            resizable: window_descriptor.resizable,
            decorations: window_descriptor.decorations,
            cursor_visible: window_descriptor.cursor_visible,
            cursor_locked: window_descriptor.cursor_locked,
            cursor_position: None,
            mode: window_descriptor.mode,
            command_queue: Vec::new(),
        };
        assert(r@.commands =~= Seq::<WindowCommand>::empty());
        r
    }

    /// Removes and returns every queued command, oldest first, leaving the
    /// queue empty and the rest of the state as it was.
    pub fn drain_commands(&mut self) -> (r: Vec<WindowCommand>)
        ensures
            r@ == old(self)@.commands,
            final(self)@ == old(self)@.drained(),
    {
        let mut r: Vec<WindowCommand> = Vec::new();
        std::mem::swap(&mut r, &mut self.command_queue);
        assert(self@.commands =~= Seq::<WindowCommand>::empty());
        r
    }

    /// The window's identity.
    pub fn id(&self) -> (r: WindowId)
        ensures
            r == self@.id,
    {
        self.id
    }

    /// The requested client-area width, in logical pixels, from creation or the
    /// last call to [`Window::set_resolution`].
    pub fn requested_width(&self) -> (r: Real32)
        ensures
            r == self@.requested_width,
    {
        self.requested_width
    }

    /// The requested client-area height, in logical pixels, from creation or the
    /// last call to [`Window::set_resolution`].
    pub fn requested_height(&self) -> (r: Real32)
        ensures
            r == self@.requested_height,
    {
        self.requested_height
    }

    /// The client-area width in physical pixels, as the backend last reported it.
    pub fn physical_width(&self) -> (r: u32)
        ensures
            r == self@.physical_width,
    {
        self.physical_width
    }

    /// The client-area height in physical pixels, as the backend last reported it.
    pub fn physical_height(&self) -> (r: u32)
        ensures
            r == self@.physical_height,
    {
        self.physical_height
    }

    /// The ratio of physical pixels to logical pixels, as the backend last
    /// reported it: `physical_pixels = logical_pixels * scale_factor`.
    pub fn scale_factor(&self) -> (r: Real64)
        ensures
            r == self@.scale_factor,
    {
        self.scale_factor
    }

    /// The window's title.
    pub fn title(&self) -> (r: &str)
        ensures
            r@ == self@.title,
    {
        self.title.as_str()
    }

    /// Whether vertical sync is on.
    pub fn vsync(&self) -> (r: bool)
        ensures
            r == self@.vsync,
    {
        self.vsync
    }

    /// Whether the user may resize the window.
    pub fn resizable(&self) -> (r: bool)
        ensures
            r == self@.resizable,
    {
        self.resizable
    }

    /// Whether the window has its title bar and borders.
    pub fn decorations(&self) -> (r: bool)
        ensures
            r == self@.decorations,
    {
        self.decorations
    }

    /// Whether the cursor is locked to the window.
    pub fn cursor_locked(&self) -> (r: bool)
        ensures
            r == self@.cursor_locked,
    {
        self.cursor_locked
    }

    /// Whether the cursor is shown over the window.
    pub fn cursor_visible(&self) -> (r: bool)
        ensures
            r == self@.cursor_visible,
    {
        self.cursor_visible
    }

    /// The cursor position that the backend last reported, if any.
    pub fn cursor_position(&self) -> (r: Option<Vec2>)
        ensures
            r == self@.cursor_position,
    {
        self.cursor_position
    }

    /// How the window is displayed.
    pub fn mode(&self) -> (r: WindowMode)
        ensures
            r == self@.mode,
    {
        self.mode
    }

    /// Asks the backend to maximize or restore the window. Nothing is stored.
    pub fn set_maximized(&mut self, maximized: bool)
        ensures
            final(self)@ == old(self)@.after_request(WindowRequest::SetMaximized { maximized }),
    {
        self.command_queue.push(WindowCommand::SetMaximized { maximized });
    }

    /// Asks the backend to resize the client area to the given logical size,
    /// which becomes the requested size.
    pub fn set_resolution(&mut self, width: Real32, height: Real32)
        ensures
            final(self)@ == old(self)@.after_request(
                WindowRequest::SetResolution { width, height },
            ),
    {
        self.requested_width = width;
        self.requested_height = height;
        self.command_queue.push(
            WindowCommand::SetResolution { resolution: (self.requested_width, self.requested_height) },
        );
    }

    /// Sets the title and asks the backend to show it.
    pub fn set_title(&mut self, title: String)
        ensures
            final(self)@ == old(self)@.after_request(WindowRequest::SetTitle { title }),
    {
        self.title = title.clone();
        self.command_queue.push(WindowCommand::SetTitle { title });
    }

    /// Turns vertical sync on or off and asks the backend to do the same.
    pub fn set_vsync(&mut self, vsync: bool)
        ensures
            final(self)@ == old(self)@.after_request(WindowRequest::SetVsync { vsync }),
    {
        self.vsync = vsync;
        self.command_queue.push(WindowCommand::SetVsync { vsync });
    }

    /// Sets whether the user may resize the window, and asks the backend to apply it.
    pub fn set_resizable(&mut self, resizable: bool)
        ensures
            final(self)@ == old(self)@.after_request(WindowRequest::SetResizable { resizable }),
    {
        self.resizable = resizable;
        self.command_queue.push(WindowCommand::SetResizable { resizable });
    }

    /// Shows or hides the title bar and borders, and asks the backend to apply it.
    pub fn set_decorations(&mut self, decorations: bool)
        ensures
            final(self)@ == old(self)@.after_request(
                WindowRequest::SetDecorations { decorations },
            ),
    {
        self.decorations = decorations;
        self.command_queue.push(WindowCommand::SetDecorations { decorations });
    }

    /// Locks or releases the cursor, and asks the backend to apply it.
    pub fn set_cursor_lock_mode(&mut self, lock_mode: bool)
        ensures
            final(self)@ == old(self)@.after_request(
                WindowRequest::SetCursorLockMode { locked: lock_mode },
            ),
    {
        self.cursor_locked = lock_mode;
        self.command_queue.push(WindowCommand::SetCursorLockMode { locked: lock_mode });
    }

    /// Shows or hides the cursor, and asks the backend to apply it.
    pub fn set_cursor_visibility(&mut self, visible_mode: bool)
        ensures
            final(self)@ == old(self)@.after_request(
                WindowRequest::SetCursorVisibility { visible: visible_mode },
            ),
    {
        self.cursor_visible = visible_mode;
        self.command_queue.push(WindowCommand::SetCursorVisibility { visible: visible_mode });
    }

    /// Asks the backend to move the cursor. The stored cursor position is left
    /// as it is: only the backend's report changes it, since the position it
    /// applies may differ from the one asked for.
    pub fn set_cursor_position(&mut self, position: Vec2)
        ensures
            final(self)@ == old(self)@.after_request(WindowRequest::SetCursorPosition { position }),
            final(self)@.cursor_position == old(self)@.cursor_position,
    {
        self.command_queue.push(WindowCommand::SetCursorPosition { position });
    }

    /// Sets the display mode; the command carries the current physical size.
    pub fn set_mode(&mut self, mode: WindowMode)
        ensures
            final(self)@ == old(self)@.after_request(WindowRequest::SetMode { mode }),
    {
        self.mode = mode;
        self.command_queue.push(
            WindowCommand::SetWindowMode {
                mode,
                resolution: (self.physical_width, self.physical_height),
            },
        );
    }

    /// Records the scale factor that the backend observed. Nothing is queued.
    pub fn update_scale_factor_from_backend(&mut self, scale_factor: Real64)
        ensures
            final(self)@ == (WindowModel { scale_factor, ..old(self)@ }),
    {
        self.scale_factor = scale_factor;
    }

    /// Records the physical size that the backend observed. Nothing is queued.
    pub fn update_actual_size_from_backend(&mut self, physical_width: u32, physical_height: u32)
        ensures
            final(self)@ == (WindowModel { physical_width, physical_height, ..old(self)@ }),
    {
        self.physical_width = physical_width;
        self.physical_height = physical_height;
    }

    /// Records the cursor position that the backend observed. Nothing is queued.
    pub fn update_cursor_position_from_backend(&mut self, cursor_position: Option<Vec2>)
        ensures
            final(self)@ == (WindowModel { cursor_position, ..old(self)@ }),
    {
        self.cursor_position = cursor_position;
    }
}

} // verus!
