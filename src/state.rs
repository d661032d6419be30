use vstd::prelude::*;

use crate::buffers::Buffers;
use crate::mesh::IndexFormat;

verus! {

/// A size in physical pixels.
#[derive(Clone, Copy, Debug, PartialEq, Eq, Structural)]
pub struct PhysicalSize {
    pub width: u32,
    pub height: u32,
}

/// The dimensions the output surface is configured with.
#[derive(Clone, Copy, Debug, PartialEq, Eq, Structural)]
pub struct SurfaceConfig {
    pub width: u32,
    pub height: u32,
}

/// One indexed draw: the index range, the base vertex and the instance range.
#[derive(Clone, Copy, Debug, PartialEq, Eq, Structural)]
pub struct DrawCall {
    pub vertex_slot: u32,
    pub index_format: IndexFormat,
    pub index_start: u32,
    pub index_end: u32,
    pub base_vertex: i32,
    pub instance_start: u32,
    pub instance_end: u32,
}

/// The window events that the render state reacts to.
#[derive(Clone, Copy, Debug, PartialEq, Eq, Structural)]
pub enum WindowEvent {
    CloseRequested,
    EscapePressed,
    Resized(PhysicalSize),
    RedrawRequested,
    Other,
}

/// What the event loop must do after an event.
#[derive(Clone, Copy, Debug, PartialEq, Eq, Structural)]
pub enum Action {
    Exit,
    Reconfigure(SurfaceConfig),
    Draw(DrawCall),
    Nothing,
}

/// Why the next surface image could not be acquired.
#[derive(Clone, Copy, Debug, PartialEq, Eq, Structural)]
pub enum SurfaceErrorKind {
    Lost,
    Outdated,
    Timeout,
    OutOfMemory,
}

/// How a failed acquisition is handled.
#[derive(Clone, Copy, Debug, PartialEq, Eq, Structural)]
pub enum Recovery {
    /// Configure the surface again and retry the frame.
    Reconfigure,
    /// Stop: the error cannot be recovered from.
    Fatal,
}

/// A lost, outdated or timed-out surface is configured again and the frame
/// retried, once; running out of memory, or failing again after the retry, is
/// fatal.
pub open spec fn spec_recovery(kind: SurfaceErrorKind, retried: bool) -> Recovery {
    match kind {
        SurfaceErrorKind::Lost | SurfaceErrorKind::Outdated | SurfaceErrorKind::Timeout => if retried {
            Recovery::Fatal
        } else {
            Recovery::Reconfigure
        },
        SurfaceErrorKind::OutOfMemory => Recovery::Fatal,
    }
}

pub fn surface_error_recovery(kind: SurfaceErrorKind, retried: bool) -> (r: Recovery)
    ensures
        r == spec_recovery(kind, retried),
{
    match kind {
        SurfaceErrorKind::Lost | SurfaceErrorKind::Outdated | SurfaceErrorKind::Timeout => if retried {
            Recovery::Fatal
        } else {
            Recovery::Reconfigure
        },
        SurfaceErrorKind::OutOfMemory => Recovery::Fatal,
    }
}

/// A size that a surface can be configured with.
pub open spec fn nonzero_area(s: PhysicalSize) -> bool {
    s.width > 0 && s.height > 0
}

/// The state of the single render pipeline: the window size, the surface
/// configuration and the buffers it draws from.
pub struct State<R> {
    size: PhysicalSize,
    config: SurfaceConfig,
    buffers: Buffers<R>,
}

impl<R> State<R> {
    pub closed spec fn spec_size(&self) -> PhysicalSize {
        self.size
    }

    pub closed spec fn spec_config(&self) -> SurfaceConfig {
        self.config
    }

    pub closed spec fn spec_buffers(&self) -> &Buffers<R> {
        &self.buffers
    }

    /// The one draw that each frame issues: every index of the index buffer,
    /// one instance.
    pub open spec fn spec_draw(&self) -> DrawCall {
        DrawCall {
            vertex_slot: 0,
            index_format: self.spec_buffers().index.format,
            index_start: 0,
            index_end: self.spec_buffers().index.count,
            base_vertex: 0,
            instance_start: 0,
            instance_end: 1,
        }
    }

    /// The surface is configured with the window's size.
    pub fn new(size: PhysicalSize, buffers: Buffers<R>) -> (r: Self)
        ensures
            r.spec_size() == size,
            r.spec_config() == (SurfaceConfig { width: size.width, height: size.height }),
            *r.spec_buffers() == buffers,
    {
        State { size, config: SurfaceConfig { width: size.width, height: size.height }, buffers }
    }

    pub fn size(&self) -> (r: PhysicalSize)
        ensures
            r == self.spec_size(),
    {
        self.size
    }

    pub fn config(&self) -> (r: SurfaceConfig)
        ensures
            r == self.spec_config(),
    {
        self.config
    }

    pub fn buffers(&self) -> (r: &Buffers<R>)
        ensures
            r == self.spec_buffers(),
    {
        &self.buffers
    }

    /// Takes a new window size; returns whether the surface must be configured
    /// again. A size of zero area is ignored.
    pub fn resize(&mut self, new_size: PhysicalSize) -> (r: bool)
        ensures
            r == nonzero_area(new_size),
            r ==> final(self).spec_size() == new_size,
            r ==> final(self).spec_config() == (SurfaceConfig {
                width: new_size.width,
                height: new_size.height,
            }),
            !r ==> final(self).spec_size() == old(self).spec_size(),
            !r ==> final(self).spec_config() == old(self).spec_config(),
            final(self).spec_buffers() == old(self).spec_buffers(),
    {
        if new_size.width > 0 && new_size.height > 0 {
            self.size = new_size;
            self.config.width = new_size.width;
            self.config.height = new_size.height;
            true
        } else {
            false
        }
    }

    /// The draw that a frame issues.
    pub fn render(&self) -> (r: DrawCall)
        ensures
            r == self.spec_draw(),
    {
        DrawCall {
            vertex_slot: 0,
            index_format: self.buffers.index.format,
            index_start: 0,
            index_end: self.buffers.index.count,
            base_vertex: 0,
            instance_start: 0,
            instance_end: 1,
        }
    }

    /// Reacts to a window event: close and escape exit, a resize of nonzero
    /// area reconfigures the surface, a redraw request draws.
    pub fn input(&mut self, event: WindowEvent) -> (r: Action)
        ensures
            final(self).spec_buffers() == old(self).spec_buffers(),
            match event {
                WindowEvent::CloseRequested | WindowEvent::EscapePressed => {
                    &&& r == Action::Exit
                    &&& *final(self) == *old(self)
                },
                WindowEvent::Resized(s) => if nonzero_area(s) {
                    &&& final(self).spec_size() == s
                    &&& final(self).spec_config() == (SurfaceConfig {
                        width: s.width,
                        height: s.height,
                    })
                    &&& r == Action::Reconfigure(final(self).spec_config())
                } else {
                    &&& r == Action::Nothing
                    &&& final(self).spec_size() == old(self).spec_size()
                    &&& final(self).spec_config() == old(self).spec_config()
                },
                WindowEvent::RedrawRequested => {
                    &&& r == Action::Draw(old(self).spec_draw())
                    &&& *final(self) == *old(self)
                },
                WindowEvent::Other => {
                    &&& r == Action::Nothing
                    &&& *final(self) == *old(self)
                },
            },
    {
        match event {
            WindowEvent::CloseRequested | WindowEvent::EscapePressed => Action::Exit,
            WindowEvent::Resized(s) => {
                if self.resize(s) {
                    Action::Reconfigure(self.config)
                } else {
                    Action::Nothing
                }
            },
            WindowEvent::RedrawRequested => Action::Draw(self.render()),
            WindowEvent::Other => Action::Nothing,
        }
    }
}

} // verus!
