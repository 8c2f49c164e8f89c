//! Window geometry and the advanced-view toggle.
use vstd::prelude::*;

verus! {

pub const WINDOW_WIDTH_DEFAULT: u32 = 720;
pub const WINDOW_HEIGHT_DEFAULT: u32 = 700;
pub const WINDOW_WIDTH_MIN: u32 = 400;
pub const WINDOW_HEIGHT_MIN: u32 = 500;

/// Stored window geometry.
#[derive(Debug, Clone, Copy, PartialEq, Eq, Structural)]
pub struct WindowConfig {
    pub width: u32,
    pub height: u32,
    pub maximized: bool,
}

impl Default for WindowConfig {
    fn default() -> (r: Self)
        ensures
            r.width == WINDOW_WIDTH_DEFAULT,
            r.height == WINDOW_HEIGHT_DEFAULT,
            !r.maximized,
    {
        WindowConfig { width: WINDOW_WIDTH_DEFAULT, height: WINDOW_HEIGHT_DEFAULT, maximized: false }
    }
}

impl WindowConfig {
    /// Raise stored dimensions to their lower bounds, guarding against a
    /// hand-edited settings file.
    pub fn sanitized(self) -> (r: Self)
        ensures
            r == sanitize_spec(self),
    {
        WindowConfig {
            width: if self.width >= WINDOW_WIDTH_MIN {
                self.width
            } else {
                WINDOW_WIDTH_MIN
            },
            height: if self.height >= WINDOW_HEIGHT_MIN {
                self.height
            } else {
                WINDOW_HEIGHT_MIN
            },
            maximized: self.maximized,
        }
    }
}

/// Sanitizing twice changes nothing more than sanitizing once, and a
/// sanitized window meets both lower bounds.
pub proof fn sanitized_is_idempotent(w: WindowConfig)
    ensures
        ({
            let once = sanitize_spec(w);
            &&& once.width >= WINDOW_WIDTH_MIN
            &&& once.height >= WINDOW_HEIGHT_MIN
            &&& sanitize_spec(once) == once
        }),
{
}

/// What [`WindowConfig::sanitized`] returns.
pub open spec fn sanitize_spec(w: WindowConfig) -> WindowConfig {
    WindowConfig {
        width: if w.width >= WINDOW_WIDTH_MIN {
            w.width
        } else {
            WINDOW_WIDTH_MIN
        },
        height: if w.height >= WINDOW_HEIGHT_MIN {
            w.height
        } else {
            WINDOW_HEIGHT_MIN
        },
        maximized: w.maximized,
    }
}

/// Whether the advanced controls are shown.
#[derive(Debug, Clone, Copy, PartialEq, Eq, Structural)]
pub struct UiConfig {
    pub show_advanced: bool,
}

impl Default for UiConfig {
    fn default() -> (r: Self)
        ensures
            !r.show_advanced,
    {
        UiConfig { show_advanced: false }
    }
}

} // verus!
