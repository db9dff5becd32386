//! The manager of the sliding sidebar.
//!
//! The manager decides where the window is to go; the host moves it. A
//! planning call says where, and once the host has moved the window there it
//! says so and the manager takes the new state.

use vstd::prelude::*;
use crate::autohide::config::{AutohideConfig, MonitorBounds, ScreenEdge, WindowState};
use crate::autohide::window_controller::{
    told, PhysicalPosition, PhysicalSize, WindowController,
};

verus! {

/// Where the window is to be put, and the state it is in once it is there.
#[derive(Clone, Copy, Debug, PartialEq, Eq, Structural)]
pub struct Placement {
    pub position: PhysicalPosition,
    pub state: WindowState,
}

/// The sidebar: its settings, whether it is in sight, and what is remembered
/// of window and monitor.
#[derive(Clone, Copy, Debug, PartialEq, Eq, Structural)]
pub struct AutohideManager {
    pub config: AutohideConfig,
    pub state: WindowState,
    pub window_controller: WindowController,
}

impl AutohideManager {
    /// The move out of sight: none while hiding is off, else the hidden
    /// position, or what is missing to say where that is.
    pub open spec fn hide_plan(&self) -> Result<Option<Placement>, Seq<char>> {
        if !self.config.enabled {
            Ok(None)
        } else {
            match self.window_controller.hidden_position(self.config) {
                Ok(position) => Ok(Some(Placement { position, state: WindowState::Hidden })),
                Err(e) => Err(e),
            }
        }
    }

    /// The move into sight: none while hiding is off, else the position in
    /// sight, or what is missing to say where that is.
    pub open spec fn show_plan(&self) -> Result<Option<Placement>, Seq<char>> {
        if !self.config.enabled {
            Ok(None)
        } else {
            match self.window_controller.visible_position(self.config) {
                Ok(position) => Ok(Some(Placement { position, state: WindowState::Visible })),
                Err(e) => Err(e),
            }
        }
    }

    /// The move that turns the state around, with whether the window counts
    /// as in sight after it.
    pub open spec fn toggle_plan(&self) -> Result<(Option<Placement>, bool), Seq<char>> {
        match self.state {
            WindowState::Hidden => match self.show_plan() {
                Ok(plan) => Ok((plan, true)),
                Err(e) => Err(e),
            },
            WindowState::Visible => match self.hide_plan() {
                Ok(plan) => Ok((plan, false)),
                Err(e) => Err(e),
            },
        }
    }

    /// A manager with the default settings and the window in sight.
    pub fn new(monitor_bounds: Option<MonitorBounds>) -> (manager: AutohideManager)
        ensures
            manager.config == (AutohideConfig {
                enabled: false,
                edge: ScreenEdge::Left,
                visible_pixels: 8,
                animation_duration_ms: 200,
            }),
            manager.state == WindowState::Visible,
            manager.window_controller == (WindowController {
                monitor_bounds,
                original_position: None,
                window_size: None,
            }),
    {
        AutohideManager {
            config: AutohideConfig::default(),
            state: WindowState::Visible,
            window_controller: WindowController::new(monitor_bounds),
        }
    }

    /// Turns hiding on: remembers position and size of the window as the host
    /// read them, and plans the move out of sight.
    pub fn enable(&mut self, position: Option<PhysicalPosition>, size: Option<PhysicalSize>) -> (result:
        Result<Option<Placement>, String>)
        ensures
            *final(self) == (AutohideManager {
                config: AutohideConfig { enabled: true, ..old(self).config },
                window_controller: WindowController {
                    original_position: position,
                    window_size: size,
                    ..old(self).window_controller
                },
                ..*old(self)
            }),
            told(result) == if position is None || size is None {
                Err("Failed to get window state"@)
            } else {
                final(self).hide_plan()
            },
    {
        self.config.enabled = true;
        match self.window_controller.cache_window_state(position, size) {
            Ok(()) => {},
            Err(e) => {
                return Err(e);
            },
        }
        self.hide_window()
    }

    /// Turns hiding off, and says where the window is to be put back: where
    /// it stood at first, if that is known.
    pub fn disable(&mut self) -> (restore: Option<PhysicalPosition>)
        ensures
            *final(self) == (AutohideManager {
                config: AutohideConfig { enabled: false, ..old(self).config },
                ..*old(self)
            }),
            restore == old(self).window_controller.original_position,
    {
        self.config.enabled = false;
        self.window_controller.original_position
    }

    /// Takes note that the window stands where it stood at first, or that
    /// there was no place to put it back to: what was remembered of it is
    /// forgotten, and it is in sight.
    pub fn restored(&mut self)
        ensures
            *final(self) == (AutohideManager {
                state: WindowState::Visible,
                window_controller: WindowController {
                    original_position: None,
                    window_size: None,
                    ..old(self).window_controller
                },
                ..*old(self)
            }),
    {
        self.window_controller.forget_window_state();
        self.state = WindowState::Visible;
    }

    /// Plans the move that turns the window's state around, and says whether
    /// the window counts as in sight after it.
    pub fn toggle(&self) -> (result: Result<(Option<Placement>, bool), String>)
        ensures
            told(result) == self.toggle_plan(),
    {
        match self.state {
            WindowState::Hidden => match self.show() {
                Ok(plan) => Ok((plan, true)),
                Err(e) => Err(e),
            },
            WindowState::Visible => match self.hide_window() {
                Ok(plan) => Ok((plan, false)),
                Err(e) => Err(e),
            },
        }
    }

    /// Plans the move into sight. There is nothing to do while hiding is off.
    pub fn show(&self) -> (result: Result<Option<Placement>, String>)
        ensures
            told(result) == self.show_plan(),
    {
        if !self.config.enabled {
            return Ok(None);
        }
        match self.window_controller.calculate_visible_position(&self.config) {
            Ok(position) => Ok(Some(Placement { position, state: WindowState::Visible })),
            Err(e) => Err(e),
        }
    }

    /// Plans the move out of sight. There is nothing to do while hiding is
    /// off.
    pub fn hide_window(&self) -> (result: Result<Option<Placement>, String>)
        ensures
            told(result) == self.hide_plan(),
    {
        if !self.config.enabled {
            return Ok(None);
        }
        match self.window_controller.calculate_hidden_position(&self.config) {
            Ok(position) => Ok(Some(Placement { position, state: WindowState::Hidden })),
            Err(e) => Err(e),
        }
    }

    /// Takes note that the host has put the window where `placement` says.
    pub fn placed(&mut self, placement: Placement)
        ensures
            *final(self) == (AutohideManager { state: placement.state, ..*old(self) }),
    {
        self.state = placement.state;
    }

    /// Sets the edge at which the window hides.
    pub fn set_edge(&mut self, edge: ScreenEdge)
        ensures
            *final(self) == (AutohideManager {
                config: AutohideConfig { edge, ..old(self).config },
                ..*old(self)
            }),
    {
        self.config.edge = edge;
    }

    /// The settings.
    pub fn get_config(&self) -> (config: AutohideConfig)
        ensures
            config == self.config,
    {
        self.config
    }

    /// Whether hiding is on.
    pub fn is_enabled(&self) -> (enabled: bool)
        ensures
            enabled == self.config.enabled,
    {
        self.config.enabled
    }

    /// Whether the window is in sight.
    pub fn is_visible(&self) -> (visible: bool)
        ensures
            visible == (self.state == WindowState::Visible),
    {
        match self.state {
            WindowState::Visible => true,
            WindowState::Hidden => false,
        }
    }
}

} // verus!
