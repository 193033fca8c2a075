use vstd::prelude::*;
use crate::sheet::FRAME_SIZE;

verus! {

/// The ordered finite set of presentation-surface size tiers.  Scaling
/// up or down moves one step along the order and saturates at the
/// extremes.  The mode only resizes the surface; the logical buffer
/// stays at the fixed frame size.
#[derive(Clone, Copy, Debug, PartialEq, Eq, Structural)]
pub enum WindowSizeMode {
    Small,
    Medium,
    Large,
    XLarge,
}

impl WindowSizeMode {
    /// The surface edge length of this mode, in pixels: the frame size
    /// scaled by 1, 2, 4 or 8.
    pub fn get_size(&self) -> (size: usize)
        ensures
            size == match *self {
                WindowSizeMode::Small => FRAME_SIZE as int,
                WindowSizeMode::Medium => FRAME_SIZE * 2,
                WindowSizeMode::Large => FRAME_SIZE * 4,
                WindowSizeMode::XLarge => FRAME_SIZE * 8,
            },
    {
        match self {
            WindowSizeMode::Small => FRAME_SIZE,
            WindowSizeMode::Medium => FRAME_SIZE * 2,
            WindowSizeMode::Large => FRAME_SIZE * 4,
            WindowSizeMode::XLarge => FRAME_SIZE * 8,
        }
    }

    /// The next larger mode; the largest mode stays where it is.
    pub fn scale_up(&self) -> (next: WindowSizeMode)
        ensures
            next == match *self {
                WindowSizeMode::Small => WindowSizeMode::Medium,
                WindowSizeMode::Medium => WindowSizeMode::Large,
                WindowSizeMode::Large => WindowSizeMode::XLarge,
                WindowSizeMode::XLarge => WindowSizeMode::XLarge,
            },
    {
        match self {
            WindowSizeMode::Small => WindowSizeMode::Medium,
            WindowSizeMode::Medium => WindowSizeMode::Large,
            WindowSizeMode::Large => WindowSizeMode::XLarge,
            WindowSizeMode::XLarge => WindowSizeMode::XLarge,
        }
    }

    /// The next smaller mode; the smallest mode stays where it is.
    pub fn scale_down(&self) -> (next: WindowSizeMode)
        ensures
            next == match *self {
                WindowSizeMode::Small => WindowSizeMode::Small,
                WindowSizeMode::Medium => WindowSizeMode::Small,
                WindowSizeMode::Large => WindowSizeMode::Medium,
                WindowSizeMode::XLarge => WindowSizeMode::Large,
            },
    {
        match self {
            WindowSizeMode::Small => WindowSizeMode::Small,
            WindowSizeMode::Medium => WindowSizeMode::Small,
            WindowSizeMode::Large => WindowSizeMode::Medium,
            WindowSizeMode::XLarge => WindowSizeMode::Large,
        }
    }

    /// A short human-readable name of the mode's surface size.
    pub fn description(&self) -> (name: &'static str)
        ensures
            name@ == match *self {
                WindowSizeMode::Small => "128x128"@,
                WindowSizeMode::Medium => "256x256"@,
                WindowSizeMode::Large => "512x512"@,
                WindowSizeMode::XLarge => "1024x1024"@,
            },
    {
        match self {
            WindowSizeMode::Small => "128x128",
            WindowSizeMode::Medium => "256x256",
            WindowSizeMode::Large => "512x512",
            WindowSizeMode::XLarge => "1024x1024",
        }
    }
}

} // verus!
