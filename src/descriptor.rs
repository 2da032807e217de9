use vstd::prelude::*;

verus! {

/// A single-precision floating-point value, carried by its IEEE 754 bit pattern.
/// The library stores and forwards such values and does no arithmetic on them.
#[derive(Clone, Copy, Debug, PartialEq, Eq, Hash, Structural)]
pub struct Real32 {
    pub bits: u32,
}

/// A double-precision floating-point value, carried by its IEEE 754 bit pattern.
#[derive(Clone, Copy, Debug, PartialEq, Eq, Hash, Structural)]
pub struct Real64 {
    pub bits: u64,
}

/// `1280.0` as an IEEE 754 single.
pub const DEFAULT_WIDTH_BITS: u32 = 0x44a0_0000;

/// `720.0` as an IEEE 754 single.
pub const DEFAULT_HEIGHT_BITS: u32 = 0x4434_0000;

/// How a window is displayed. With `Fullscreen`, `use_size` says whether the
/// video mode chosen is the one that best fits the window's size, or the best
/// mode available whatever the size.
#[derive(Clone, Copy, Debug, PartialEq, Eq, Structural)]
pub enum WindowMode {
    Windowed,
    BorderlessFullscreen,
    Fullscreen { use_size: bool },
}

/// The initial settings of a window: its requested logical size, title, and
/// properties.
#[derive(Clone, Debug)]
pub struct WindowDescriptor {
    pub width: Real32,
    pub height: Real32,
    pub title: String,
    pub vsync: bool,
    pub resizable: bool,
    pub decorations: bool,
    pub cursor_visible: bool,
    pub cursor_locked: bool,
    pub mode: WindowMode,
}

impl Default for WindowDescriptor {
    /// 1280 by 720 logical pixels, titled "bevy", with vsync, resizable,
    /// decorated, the cursor visible and unlocked, in windowed mode.
    fn default() -> (r: WindowDescriptor)
        ensures
            r.width == (Real32 { bits: DEFAULT_WIDTH_BITS }),
            r.height == (Real32 { bits: DEFAULT_HEIGHT_BITS }),
            r.title@ == seq!['b', 'e', 'v', 'y'],
            r.vsync,
            r.resizable,
            r.decorations,
            r.cursor_visible,
            !r.cursor_locked,
            r.mode == WindowMode::Windowed,
    {
        let title = "bevy".to_owned();
        proof {
            reveal_strlit("bevy");
        }
        WindowDescriptor {
            width: Real32 { bits: DEFAULT_WIDTH_BITS },
            height: Real32 { bits: DEFAULT_HEIGHT_BITS },
            title,
            vsync: true,
            resizable: true,
            decorations: true,
            cursor_visible: true,
            cursor_locked: false,
            mode: WindowMode::Windowed,
        }
    }
}

} // verus!
