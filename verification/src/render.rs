//! The decisions of the drawing surface.

use vstd::prelude::*;

verus! {

/// The graphics device was removed.
pub const DXGI_ERROR_DEVICE_REMOVED: i32 = -2005270523;

/// The graphics device was reset.
pub const DXGI_ERROR_DEVICE_RESET: i32 = -2005270521;

/// The drawing target has to be made again.
pub const D2DERR_RECREATE_TARGET: i32 = -2003238900;

/// The code of a failure that the surface does not survive.
pub open spec fn loses_device(code: i32) -> bool {
    code == DXGI_ERROR_DEVICE_REMOVED || code == DXGI_ERROR_DEVICE_RESET || code
        == D2DERR_RECREATE_TARGET
}

/// Whether a failed frame means that the device is lost, so that the surface has to be made again.
pub fn is_device_lost(code: i32) -> (r: bool)
    ensures
        r == loses_device(code),
{
    code == DXGI_ERROR_DEVICE_REMOVED || code == DXGI_ERROR_DEVICE_RESET || code
        == D2DERR_RECREATE_TARGET
}

/// The corners of a window.
#[derive(Clone, Copy, Debug, PartialEq, Eq, Structural)]
pub enum Corner {
    /// The corners are not rounded, whatever the system would do by itself.
    Square,
    Round,
}

/// What shines through a window.
#[derive(Clone, Copy, Debug, PartialEq, Eq, Structural)]
pub enum Backdrop {
    Opaque,
    Transient,
}

/// How the system frames a window.
#[derive(Clone, Copy, Debug, PartialEq, Eq, Structural)]
pub struct DwmChrome {
    pub corner: Corner,
    pub backdrop: Backdrop,
}

impl DwmChrome {
    /// The number of the corner preference.
    pub fn corner_value(&self) -> (r: u32)
        ensures
            r == (if self.corner == Corner::Round {
                2u32
            } else {
                1u32
            }),
    {
        match self.corner {
            Corner::Round => 2,
            Corner::Square => 1,
        }
    }

    /// The number of the backdrop type.
    pub fn backdrop_value(&self) -> (r: u32)
        ensures
            r == (if self.backdrop == Backdrop::Transient {
                3u32
            } else {
                1u32
            }),
    {
        match self.backdrop {
            Backdrop::Transient => 3,
            Backdrop::Opaque => 1,
        }
    }
}

/// How the system frames a window: with round corners or explicitly without, and with a translucent
/// or an opaque backdrop. What the system cannot do it leaves out.
pub fn apply_dwm_chrome(rounded: bool, acrylic: bool) -> (r: DwmChrome)
    ensures
        r == (DwmChrome {
            corner: if rounded {
                Corner::Round
            } else {
                Corner::Square
            },
            backdrop: if acrylic {
                Backdrop::Transient
            } else {
                Backdrop::Opaque
            },
        }),
{
    DwmChrome {
        corner: if rounded {
            Corner::Round
        } else {
            Corner::Square
        },
        backdrop: if acrylic {
            Backdrop::Transient
        } else {
            Backdrop::Opaque
        },
    }
}

/// What draws a surface.
#[derive(Clone, Copy, Debug, PartialEq, Eq, Structural)]
pub enum Driver {
    Hardware,
    /// The software driver, which every machine has.
    Warp,
}

/// The driver to try next: the hardware first, then the software driver, then none.
pub fn next_driver(failed: Option<Driver>) -> (r: Option<Driver>)
    ensures
        r == (match failed {
            None => Some(Driver::Hardware),
            Some(Driver::Hardware) => Some(Driver::Warp),
            Some(Driver::Warp) => None,
        }),
{
    match failed {
        None => Some(Driver::Hardware),
        Some(Driver::Hardware) => Some(Driver::Warp),
        Some(Driver::Warp) => None,
    }
}

/// At least one.
pub open spec fn at_least_one(n: u32) -> u32 {
    if n == 0 {
        1
    } else {
        n
    }
}

fn one_or_more(n: u32) -> (r: u32)
    ensures
        r == at_least_one(n),
{
    if n == 0 {
        1
    } else {
        n
    }
}

/// A drawing surface, as far as its drawing does not matter.
#[derive(Clone, Copy, Debug, PartialEq, Eq, Structural)]
pub struct SurfaceRenderer {
    pub width: u32,
    pub height: u32,
    /// The surface can be made translucent as a whole.
    pub opacity: bool,
}

impl SurfaceRenderer {
    pub fn new(width: u32, height: u32, opacity: bool) -> (r: Self)
        ensures
            r == (SurfaceRenderer { width, height, opacity }),
    {
        SurfaceRenderer { width, height, opacity }
    }

    /// The extent of the buffers: a buffer has at least one pixel each way.
    pub fn buffer_extent(width: u32, height: u32) -> (r: (u32, u32))
        ensures
            r == (at_least_one(width), at_least_one(height)),
    {
        (one_or_more(width), one_or_more(height))
    }

    /// The buffers took another extent or not; a surface whose buffers did not keeps its own.
    pub fn resize(&mut self, width: u32, height: u32, resized: bool) -> (r: bool)
        ensures
            r == resized,
            *final(self) == (if resized {
                SurfaceRenderer { width, height, ..*old(self) }
            } else {
                *old(self)
            }),
    {
        if resized {
            self.width = width;
            self.height = height;
        }
        resized
    }

    /// Whether the surface can appear and go gradually.
    pub fn supports_opacity(&self) -> (r: bool)
        ensures
            r == self.opacity,
    {
        self.opacity
    }
}

/// A lost device is told by three codes, and by no other.
pub proof fn three_codes_lose_the_device(code: i32)
    ensures
        loses_device(code) <==> code == -2005270523 || code == -2005270521 || code == -2003238900,
        !loses_device(0),
{
}

/// A buffer has the extent of its surface, but never none.
pub proof fn a_buffer_is_never_empty(n: u32)
    ensures
        n > 0 ==> at_least_one(n) == n,
        at_least_one(0) == 1,
{
}

/// The codes of a lost device are those of the system.
pub proof fn the_codes_of_a_lost_device()
    ensures
        DXGI_ERROR_DEVICE_REMOVED == 0x887A_0005 - 0x1_0000_0000,
        DXGI_ERROR_DEVICE_RESET == 0x887A_0007 - 0x1_0000_0000,
        D2DERR_RECREATE_TARGET == 0x8899_000C - 0x1_0000_0000,
{
}

} // verus!
