//! Display surfaces: the record one is created from, its handle, and its
//! life beside a window of the host.

use vstd::prelude::*;

use crate::ledger::release_call;
use crate::native::{Call, Kind};

verus! {

/// Texture layouts of the graphics subsystem.
#[allow(non_camel_case_types)]
#[derive(Debug, Clone, Copy, PartialEq, Eq, Structural)]
pub enum GraphicsColorFormat {
    UNKNOWN,
    A8,
    R8,
    RGBA,
    BGRX,
    BGRA,
    R10G10B10A2,
    RGBA16,
    R16,
    RGBA16F,
    RGBA32F,
    RG16F,
    RG32F,
    R16F,
    R32F,
    DXT1,
    DXT3,
    DXT5,
    R8G8,
}

impl GraphicsColorFormat {
    /// The native code of this layout.
    pub open spec fn spec_as_raw(&self) -> u32 {
        match *self {
            GraphicsColorFormat::UNKNOWN => 0u32,
            GraphicsColorFormat::A8 => 1u32,
            GraphicsColorFormat::R8 => 2u32,
            GraphicsColorFormat::RGBA => 3u32,
            GraphicsColorFormat::BGRX => 4u32,
            GraphicsColorFormat::BGRA => 5u32,
            GraphicsColorFormat::R10G10B10A2 => 6u32,
            GraphicsColorFormat::RGBA16 => 7u32,
            GraphicsColorFormat::R16 => 8u32,
            GraphicsColorFormat::RGBA16F => 9u32,
            GraphicsColorFormat::RGBA32F => 10u32,
            GraphicsColorFormat::RG16F => 11u32,
            GraphicsColorFormat::RG32F => 12u32,
            GraphicsColorFormat::R16F => 13u32,
            GraphicsColorFormat::R32F => 14u32,
            GraphicsColorFormat::DXT1 => 15u32,
            GraphicsColorFormat::DXT3 => 16u32,
            GraphicsColorFormat::DXT5 => 17u32,
            GraphicsColorFormat::R8G8 => 18u32,
        }
    }

    /// The native code of this layout.
    #[verifier::when_used_as_spec(spec_as_raw)]
    pub fn as_raw(&self) -> (r: u32)
        ensures
            r == self.spec_as_raw(),
    {
        match self {
            GraphicsColorFormat::UNKNOWN => 0,
            GraphicsColorFormat::A8 => 1,
            GraphicsColorFormat::R8 => 2,
            GraphicsColorFormat::RGBA => 3,
            GraphicsColorFormat::BGRX => 4,
            GraphicsColorFormat::BGRA => 5,
            GraphicsColorFormat::R10G10B10A2 => 6,
            GraphicsColorFormat::RGBA16 => 7,
            GraphicsColorFormat::R16 => 8,
            GraphicsColorFormat::RGBA16F => 9,
            GraphicsColorFormat::RGBA32F => 10,
            GraphicsColorFormat::RG16F => 11,
            GraphicsColorFormat::RG32F => 12,
            GraphicsColorFormat::R16F => 13,
            GraphicsColorFormat::R32F => 14,
            GraphicsColorFormat::DXT1 => 15,
            GraphicsColorFormat::DXT3 => 16,
            GraphicsColorFormat::DXT5 => 17,
            GraphicsColorFormat::R8G8 => 18,
        }
    }
}

/// What the host knows of the window a display is to be drawn into.
#[derive(Debug, Clone, Copy, PartialEq, Eq, Structural)]
pub enum RawWindow {
    /// A Cocoa view, by the address of the view object.
    AppKit { ns_view: usize },
    /// A window of any other windowing system.
    Other,
}

/// The native window descriptor. Each platform reads its own fields; the
/// others stay zero.
#[allow(non_camel_case_types)]
#[derive(Debug, Clone, Copy, PartialEq, Eq, Structural)]
pub struct gs_window {
    /// Window handle, read on Windows.
    pub hwnd: usize,
    /// Address of the view object, read on macOS.
    pub view: usize,
    /// Window id, read on Linux.
    pub id: u32,
    /// Address of the display connection, read on Linux.
    pub display: usize,
}

/// The native record a display surface is created from.
#[allow(non_camel_case_types)]
#[derive(Debug, Clone, Copy, PartialEq, Eq, Structural)]
pub struct gs_init_data {
    pub window: gs_window,
    pub cx: u32,
    pub cy: u32,
    pub num_backbuffers: u32,
    pub format: u32,
    pub zsformat: u32,
    pub adapter: u32,
}

impl gs_init_data {
    /// The record with every field zero.
    pub open spec fn zeroed() -> gs_init_data {
        gs_init_data {
            window: gs_window { hwnd: 0, view: 0, id: 0, display: 0 },
            cx: 0,
            cy: 0,
            num_backbuffers: 0,
            format: 0,
            zsformat: 0,
            adapter: 0,
        }
    }
}

impl Default for gs_init_data {
    fn default() -> (r: Self)
        ensures
            r == gs_init_data::zeroed(),
    {
        gs_init_data {
            window: gs_window { hwnd: 0, view: 0, id: 0, display: 0 },
            cx: 0,
            cy: 0,
            num_backbuffers: 0,
            format: 0,
            zsformat: 0,
            adapter: 0,
        }
    }
}

/// Builder for the record a display surface is created from.
#[derive(Debug, Clone, Copy, PartialEq, Eq, Structural)]
pub struct DisplayInitInfo {
    pub inner: gs_init_data,
}

impl DisplayInitInfo {
    /// A surface of `cx` by `cy` pixels, everything else zero.
    pub fn new(cx: u32, cy: u32) -> (r: Self)
        ensures
            r.inner == (gs_init_data { cx, cy, ..gs_init_data::zeroed() }),
    {
        let mut inner = gs_init_data::default();
        inner.cx = cx;
        inner.cy = cy;
        DisplayInitInfo { inner }
    }

    /// Sets the color layout of the surface.
    pub fn with_color_format(self, format: GraphicsColorFormat) -> (r: Self)
        ensures
            r.inner == (gs_init_data { format: format.as_raw(), ..self.inner }),
    {
        let mut next = self;
        next.inner.format = format.as_raw();
        next
    }

    /// Sets the depth/stencil layout of the surface, by its native code.
    pub fn with_zstencil_format(self, format: u32) -> (r: Self)
        ensures
            r.inner == (gs_init_data { zsformat: format, ..self.inner }),
    {
        let mut next = self;
        next.inner.zsformat = format;
        next
    }

    /// The native code of the surface's color layout.
    pub fn color_format(&self) -> (r: u32)
        ensures
            r == self.inner.format,
    {
        self.inner.format
    }

    /// Binds the surface to a Cocoa view. No other kind of window is
    /// supported.
    pub fn build(self, handle: RawWindow) -> (r: Self)
        requires
            handle is AppKit,
        ensures
            r.inner.window == (gs_window { view: handle->ns_view, ..self.inner.window }),
            r.inner == (gs_init_data { window: r.inner.window, ..self.inner }),
    {
        let mut next = self;
        match handle {
            RawWindow::AppKit { ns_view } => {
                next.inner.window.view = ns_view;
            },
            RawWindow::Other => {},
        }
        next
    }
}

/// A display surface of the native engine, owned by the host. The address
/// held is never zero. Surfaces are not reference-counted: the one handle
/// destroys the surface when it is released.
#[derive(Debug, PartialEq, Eq)]
pub struct DisplayRef {
    pointer: usize,
}

impl View for DisplayRef {
    type V = usize;

    closed spec fn view(&self) -> usize {
        self.pointer
    }
}

impl DisplayRef {
    #[verifier::type_invariant]
    spec fn non_null(self) -> bool {
        self.pointer != 0
    }

    /// Wraps the address of a surface the host owns; address zero gives no
    /// handle.
    pub fn from_raw(pointer: usize) -> (r: Option<Self>)
        ensures
            pointer == 0 <==> r is None,
            r matches Some(h) ==> h@ == pointer,
    {
        if pointer == 0 {
            None
        } else {
            Some(DisplayRef { pointer })
        }
    }

    /// The address of the surface.
    pub fn as_ptr(&self) -> (r: usize)
        ensures
            r == self@,
            r != 0,
    {
        proof {
            use_type_invariant(self);
        }
        self.pointer
    }

    /// Changes the size of the surface in place.
    pub fn set_size(&self, cx: u32, cy: u32) -> (r: Call)
        ensures
            r == (Call::DisplayResize { display: self@, cx, cy }),
    {
        Call::DisplayResize { display: self.pointer, cx, cy }
    }

    /// Destroys the surface. The handle is spent.
    pub fn release(self) -> (r: Call)
        ensures
            r == (Call::DisplayDestroy { display: self@ }),
            r == release_call(Kind::Display, self@),
    {
        Call::DisplayDestroy { display: self.pointer }
    }
}

/// What the host's window tells of itself.
#[derive(Debug, Clone, Copy, PartialEq, Eq, Structural)]
pub enum WindowEvent {
    /// The window is gone.
    Destroyed,
    /// The window has a new size.
    Resized { width: u32, height: u32 },
    /// The window has a new place.
    Moved,
    /// Anything else.
    Other,
}

/// The display surface of one window of the host, for as long as the
/// window lives. The surface is resized in place, never made anew, and it
/// is destroyed once, when the window is.
#[derive(Debug)]
pub struct DisplayBox {
    display: Option<DisplayRef>,
}

impl DisplayBox {
    /// The address of the surface, while there is one.
    pub closed spec fn surface(&self) -> Option<usize> {
        match self.display {
            Some(display) => Some(display@),
            None => None,
        }
    }

    /// Puts a surface in the care of its window.
    pub fn new(display: DisplayRef) -> (r: Self)
        ensures
            r.surface() == Some(display@),
    {
        DisplayBox { display: Some(display) }
    }

    /// What is to be done about the surface on `event`: it follows the
    /// window's size, goes with the window, and is left alone otherwise.
    /// Once the surface is gone nothing is to be done ever again.
    pub fn on_event(&mut self, event: WindowEvent) -> (r: Option<Call>)
        ensures
            final(self).surface() == match event {
                WindowEvent::Destroyed => None,
                _ => old(self).surface(),
            },
            r == match (old(self).surface(), event) {
                (Some(display), WindowEvent::Destroyed) => Some(Call::DisplayDestroy { display }),
                (Some(display), WindowEvent::Resized { width, height }) => Some(
                    Call::DisplayResize { display, cx: width, cy: height },
                ),
                _ => None,
            },
    {
        match event {
            WindowEvent::Destroyed => match self.display.take() {
                Some(display) => Some(display.release()),
                None => None,
            },
            WindowEvent::Resized { width, height } => match &self.display {
                Some(display) => Some(display.set_size(width, height)),
                None => None,
            },
            _ => None,
        }
    }
}

} // verus!
