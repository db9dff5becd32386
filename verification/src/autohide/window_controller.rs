//! Where the window goes when it hides and when it shows.

use vstd::prelude::*;
use crate::autohide::config::{AutohideConfig, MonitorBounds, ScreenEdge};

verus! {

/// A position on the screen in physical pixels.
#[derive(Clone, Copy, Debug, PartialEq, Eq, Structural)]
pub struct PhysicalPosition {
    pub x: i32,
    pub y: i32,
}

/// A size in physical pixels.
#[derive(Clone, Copy, Debug, PartialEq, Eq, Structural)]
pub struct PhysicalSize {
    pub width: u32,
    pub height: u32,
}

/// The vertical position of a window whose own position is not known.
pub const DEFAULT_Y: i32 = 100;

/// What is remembered of the window and the monitor.
#[derive(Clone, Copy, Debug, PartialEq, Eq, Structural)]
pub struct WindowController {
    /// The monitor the window lives on.
    pub monitor_bounds: Option<MonitorBounds>,
    /// Where the window stood before it was first hidden.
    pub original_position: Option<PhysicalPosition>,
    /// The size of the window.
    pub window_size: Option<PhysicalSize>,
}

/// A result with its error as plain text.
pub open spec fn told<T>(result: Result<T, String>) -> Result<T, Seq<char>> {
    match result {
        Ok(value) => Ok(value),
        Err(e) => Err(e@),
    }
}

/// The width of a window as a signed number, as it enters the arithmetic of
/// positions.
pub open spec fn signed_width(size: PhysicalSize) -> i32 {
    size.width as i32
}

/// The horizontal position of the hidden window: pushed out over the edge
/// until only the handle is left. Positions wrap around at the ends of their
/// range.
pub open spec fn hidden_x(config: AutohideConfig, bounds: MonitorBounds, size: PhysicalSize) -> i32 {
    match config.edge {
        ScreenEdge::Left => bounds.left.wrapping_sub(signed_width(size)).wrapping_add(
            config.visible_pixels,
        ),
        ScreenEdge::Right => bounds.right.wrapping_sub(config.visible_pixels),
    }
}

/// The horizontal position of the window in sight: snapped to the edge.
pub open spec fn visible_x(config: AutohideConfig, bounds: MonitorBounds, size: PhysicalSize) -> i32 {
    match config.edge {
        ScreenEdge::Left => bounds.left,
        ScreenEdge::Right => bounds.right.wrapping_sub(signed_width(size)),
    }
}

/// As long as nothing leaves the range of positions, the positions are what
/// the arithmetic says: the hidden window stands its width less the handle
/// beyond the left edge, or the handle short of the right edge; the window in
/// sight stands at the left edge, or its width short of the right one.
pub proof fn law_positions_are_exact(
    config: AutohideConfig,
    bounds: MonitorBounds,
    size: PhysicalSize,
)
    requires
        size.width <= i32::MAX,
    ensures
        config.edge == ScreenEdge::Left && i32::MIN <= bounds.left - size.width
            + config.visible_pixels <= i32::MAX ==> hidden_x(config, bounds, size) == bounds.left
            - size.width + config.visible_pixels,
        config.edge == ScreenEdge::Right && i32::MIN <= bounds.right - config.visible_pixels
            <= i32::MAX ==> hidden_x(config, bounds, size) == bounds.right
            - config.visible_pixels,
        config.edge == ScreenEdge::Left ==> visible_x(config, bounds, size) == bounds.left,
        config.edge == ScreenEdge::Right && i32::MIN <= bounds.right - size.width ==> visible_x(
            config,
            bounds,
            size,
        ) == bounds.right - size.width,
{
    assert(signed_width(size) == size.width);
}

impl WindowController {
    /// The height at which the window is put: its own, where that is known.
    pub open spec fn resting_y(&self) -> i32 {
        match self.original_position {
            Some(p) => p.y,
            None => DEFAULT_Y,
        }
    }

    /// Where the hidden window goes, or what is missing to say so. The size
    /// of the window is asked for first, the monitor second.
    pub open spec fn hidden_position(&self, config: AutohideConfig) -> Result<
        PhysicalPosition,
        Seq<char>,
    > {
        if self.window_size is None {
            Err("Failed to get window size"@)
        } else if self.monitor_bounds is None {
            Err("No monitor found"@)
        } else {
            Ok(
                PhysicalPosition {
                    x: hidden_x(config, self.monitor_bounds->0, self.window_size->0),
                    y: self.resting_y(),
                },
            )
        }
    }

    /// Where the window in sight goes, or what is missing to say so. The
    /// monitor is asked for first, the size of the window second.
    pub open spec fn visible_position(&self, config: AutohideConfig) -> Result<
        PhysicalPosition,
        Seq<char>,
    > {
        if self.monitor_bounds is None {
            Err("No monitor found"@)
        } else if self.window_size is None {
            Err("Window size not cached"@)
        } else {
            Ok(
                PhysicalPosition {
                    x: visible_x(config, self.monitor_bounds->0, self.window_size->0),
                    y: self.resting_y(),
                },
            )
        }
    }

    /// A controller that knows the monitor and nothing of the window.
    pub fn new(monitor_bounds: Option<MonitorBounds>) -> (controller: WindowController)
        ensures
            controller == (WindowController {
                monitor_bounds,
                original_position: None,
                window_size: None,
            }),
    {
        WindowController { monitor_bounds, original_position: None, window_size: None }
    }

    /// Takes note of the bounds of the monitor.
    pub fn refresh_monitor_bounds(&mut self, bounds: MonitorBounds)
        ensures
            *final(self) == (WindowController { monitor_bounds: Some(bounds), ..*old(self) }),
    {
        self.monitor_bounds = Some(bounds);
    }

    /// Remembers position and size of the window as the host read them. Both
    /// are kept as read, and it is an error if either could not be read.
    pub fn cache_window_state(
        &mut self,
        position: Option<PhysicalPosition>,
        size: Option<PhysicalSize>,
    ) -> (result: Result<(), String>)
        ensures
            *final(self) == (WindowController {
                original_position: position,
                window_size: size,
                ..*old(self)
            }),
            position is Some && size is Some ==> result is Ok,
            position is None || size is None ==> result is Err && result->Err_0@
                == "Failed to get window state"@,
    {
        self.original_position = position;
        self.window_size = size;
        if self.original_position.is_none() || self.window_size.is_none() {
            return Err(String::from_str("Failed to get window state"));
        }
        Ok(())
    }

    fn resting_height(&self) -> (y: i32)
        ensures
            y == self.resting_y(),
    {
        match self.original_position {
            Some(p) => p.y,
            None => DEFAULT_Y,
        }
    }

    /// Calculates where the hidden window goes.
    pub fn calculate_hidden_position(&self, config: &AutohideConfig) -> (result: Result<
        PhysicalPosition,
        String,
    >)
        ensures
            told(result) == self.hidden_position(*config),
    {
        let size = match self.window_size {
            Some(size) => size,
            None => {
                return Err(String::from_str("Failed to get window size"));
            },
        };
        let bounds = match self.monitor_bounds {
            Some(bounds) => bounds,
            None => {
                return Err(String::from_str("No monitor found"));
            },
        };
        let width = #[verifier::truncate]
        (size.width as i32);
        let x = match config.edge {
            ScreenEdge::Left => bounds.left.wrapping_sub(width).wrapping_add(
                config.visible_pixels,
            ),
            ScreenEdge::Right => bounds.right.wrapping_sub(config.visible_pixels),
        };
        Ok(PhysicalPosition { x, y: self.resting_height() })
    }

    /// Calculates where the window in sight goes.
    pub fn calculate_visible_position(&self, config: &AutohideConfig) -> (result: Result<
        PhysicalPosition,
        String,
    >)
        ensures
            told(result) == self.visible_position(*config),
    {
        let bounds = match self.monitor_bounds {
            Some(bounds) => bounds,
            None => {
                return Err(String::from_str("No monitor found"));
            },
        };
        let size = match self.window_size {
            Some(size) => size,
            None => {
                return Err(String::from_str("Window size not cached"));
            },
        };
        let width = #[verifier::truncate]
        (size.width as i32);
        let x = match config.edge {
            ScreenEdge::Left => bounds.left,
            ScreenEdge::Right => bounds.right.wrapping_sub(width),
        };
        Ok(PhysicalPosition { x, y: self.resting_height() })
    }

    /// Forgets position and size of the window, once it stands where it
    /// stood at first.
    pub fn forget_window_state(&mut self)
        ensures
            *final(self) == (WindowController {
                original_position: None,
                window_size: None,
                ..*old(self)
            }),
    {
        self.original_position = None;
        self.window_size = None;
    }
}

} // verus!
