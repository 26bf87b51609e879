//! Where the window of the game is, in whole pixels of the screen, and
//! whether the game has the focus.

use vstd::prelude::*;
use crate::settings::ApplicationSettings;
use crate::text::{lowercase_of, to_lowercase};

verus! {

/// Where the focused window is and how large, as the windowing system
/// reports it.
#[derive(Clone, Copy, Debug, PartialEq, Eq, Structural)]
pub struct WindowPosition {
    pub x: i32,
    pub y: i32,
    pub width: i32,
    pub height: i32,
}

/// How much of a window's rectangle its decorations take, in whole pixels.
/// The values differ between windowing systems; the host picks them.
#[derive(Clone, Copy, Debug, PartialEq, Eq, Structural)]
pub struct WindowChromeInsets {
    /// The height of the title bar, at the top.
    pub title_bar_height: i32,
    /// The width of the shadow, at the left, the right and the bottom.
    pub window_shadow_amount: i32,
}

/// `value`, or the nearer bound where it lies outside them. Where the bounds
/// cross, a value below the lower bound goes to the lower bound.
pub open spec fn clamp_axis(value: int, low: int, high: int) -> int {
    if value < low {
        low
    } else if value > high {
        high
    } else {
        value
    }
}

/// Whether a window title is that of the game, whatever its case.
pub open spec fn is_game_title(title: Seq<char>) -> bool {
    lowercase_of(title) == lowercase_of("Path of Exile"@)
}

/// Tracks the window of the game.
#[derive(Clone, Copy, Debug, PartialEq, Eq, Structural)]
pub struct GameWindowTracker {
    pub windowed_mode: bool,
    pub window_pos_x: i32,
    pub window_pos_y: i32,
    pub game_window_width: i32,
    pub game_window_height: i32,
}

impl GameWindowTracker {
    /// The tracker after a look at the focused window.
    ///
    /// The window of the game is where the focused window is, if that is
    /// the game; at the origin of the screen if it is not, or if nothing is
    /// reported. In windowed mode its size is that of the focused window
    /// while the game has the focus, and nothing if nothing is reported;
    /// otherwise the size stays.
    pub open spec fn after_update(self, active: bool, position: Option<WindowPosition>) -> Self {
        GameWindowTracker {
            windowed_mode: self.windowed_mode,
            window_pos_x: if active && position is Some {
                position->0.x
            } else {
                0
            },
            window_pos_y: if active && position is Some {
                position->0.y
            } else {
                0
            },
            game_window_width: if self.windowed_mode && active {
                if position is Some {
                    position->0.width
                } else {
                    0
                }
            } else {
                self.game_window_width
            },
            game_window_height: if self.windowed_mode && active {
                if position is Some {
                    position->0.height
                } else {
                    0
                }
            } else {
                self.game_window_height
            },
        }
    }

    /// The point of the visible part of the window that is nearest to a
    /// point of the screen.
    pub open spec fn bounded(self, x: int, y: int, insets: WindowChromeInsets) -> (int, int) {
        (
            clamp_axis(
                x,
                self.window_pos_x + insets.window_shadow_amount,
                self.window_pos_x + self.game_window_width - insets.window_shadow_amount,
            ),
            clamp_axis(
                y,
                self.window_pos_y + insets.title_bar_height,
                self.window_pos_y + self.game_window_height - insets.window_shadow_amount,
            ),
        )
    }

    /// Where the cursor may go for a target: inside the visible part of the
    /// window in windowed mode, anywhere otherwise.
    pub open spec fn safe(self, x: int, y: int, insets: WindowChromeInsets) -> (int, int) {
        if self.windowed_mode {
            self.bounded(x, y, insets)
        } else {
            (x, y)
        }
    }

    /// A tracker for a game that fills the configured screen.
    pub fn new(application_settings: &ApplicationSettings) -> (r: GameWindowTracker)
        ensures
            r == (GameWindowTracker {
                windowed_mode: application_settings@.overlay.windowed_mode,
                window_pos_x: 0,
                window_pos_y: 0,
                game_window_width: application_settings@.overlay.screen_width,
                game_window_height: application_settings@.overlay.screen_height,
            }),
    {
        let overlay = application_settings.overlay_settings();
        GameWindowTracker {
            windowed_mode: overlay.windowed_mode(),
            window_pos_x: 0,
            window_pos_y: 0,
            game_window_width: overlay.screen_width(),
            game_window_height: overlay.screen_height(),
        }
    }

    /// Whether the game runs in a window.
    pub fn windowed_mode(&self) -> (r: bool)
        ensures
            r == self.windowed_mode,
    {
        self.windowed_mode
    }

    /// The left edge of the window of the game.
    pub fn window_pos_x(&self) -> (r: i32)
        ensures
            r == self.window_pos_x,
    {
        self.window_pos_x
    }

    /// The top edge of the window of the game.
    pub fn window_pos_y(&self) -> (r: i32)
        ensures
            r == self.window_pos_y,
    {
        self.window_pos_y
    }

    /// The width of the window of the game.
    pub fn game_window_width(&self) -> (r: i32)
        ensures
            r == self.game_window_width,
    {
        self.game_window_width
    }

    /// The height of the window of the game.
    pub fn game_window_height(&self) -> (r: i32)
        ensures
            r == self.game_window_height,
    {
        self.game_window_height
    }

    /// Tells whether the game has the focus, from the title of the focused
    /// window; `None` stands for a title that could not be had.
    pub fn is_poe_active(&self, active_title: Option<&str>) -> (r: bool)
        ensures
            r == (active_title matches Some(title) && is_game_title(title@)),
    {
        match active_title {
            Some(title) => {
                let title = to_lowercase(title);
                let game = to_lowercase("Path of Exile");
                title == game
            },
            None => false,
        }
    }

    /// Takes a look at the focused window: its title and its position, each
    /// `None` where it could not be had.
    pub fn update_window_tracker(
        &mut self,
        active_title: Option<&str>,
        position: Option<WindowPosition>,
    )
        ensures
            *final(self) == old(self).after_update(
                active_title matches Some(title) && is_game_title(title@),
                position,
            ),
    {
        let active = self.is_poe_active(active_title);
        let (x, y) = self.window_position(active, position);
        let (width, height) = self.window_size(active, position);
        self.window_pos_x = x;
        self.window_pos_y = y;
        self.game_window_width = width;
        self.game_window_height = height;
    }

    /// Where the window of the game is.
    fn window_position(&self, active: bool, position: Option<WindowPosition>) -> (r: (i32, i32))
        ensures
            r.0 == self.after_update(active, position).window_pos_x,
            r.1 == self.after_update(active, position).window_pos_y,
    {
        if active {
            match position {
                Some(position) => (position.x, position.y),
                None => (0, 0),
            }
        } else {
            (0, 0)
        }
    }

    /// How large the window of the game is.
    fn window_size(&self, active: bool, position: Option<WindowPosition>) -> (r: (i32, i32))
        ensures
            r.0 == self.after_update(active, position).game_window_width,
            r.1 == self.after_update(active, position).game_window_height,
    {
        if self.windowed_mode && active {
            match position {
                Some(position) => (position.width, position.height),
                None => (0, 0),
            }
        } else {
            (self.game_window_width, self.game_window_height)
        }
    }

    /// The point of the visible part of the window that is nearest to a
    /// point of the screen.
    pub fn get_window_bounded_position(
        &self,
        new_x: i64,
        new_y: i64,
        insets: WindowChromeInsets,
    ) -> (r: (i64, i64))
        ensures
            (r.0 as int, r.1 as int) == self.bounded(new_x as int, new_y as int, insets),
    {
        let mut return_x = new_x;
        let mut return_y = new_y;
        let shadow: i64 = insets.window_shadow_amount as i64;
        let min_x_pos: i64 = self.window_pos_x as i64 + shadow;
        let min_y_pos: i64 = self.window_pos_y as i64 + insets.title_bar_height as i64;
        let max_x_pos: i64 = self.window_pos_x as i64 + self.game_window_width as i64 - shadow;
        let max_y_pos: i64 = self.window_pos_y as i64 + self.game_window_height as i64 - shadow;
        if new_x < min_x_pos {
            return_x = min_x_pos;
        } else if new_x > max_x_pos {
            return_x = max_x_pos;
        }
        if new_y < min_y_pos {
            return_y = min_y_pos;
        } else if new_y > max_y_pos {
            return_y = max_y_pos;
        }
        (return_x, return_y)
    }

    /// Where the cursor may go for a target: inside the visible part of the
    /// window in windowed mode, anywhere otherwise.
    pub fn safe_cursor_position(&self, new_x: i64, new_y: i64, insets: WindowChromeInsets) -> (r: (
        i64,
        i64,
    ))
        ensures
            (r.0 as int, r.1 as int) == self.safe(new_x as int, new_y as int, insets),
    {
        if self.windowed_mode {
            self.get_window_bounded_position(new_x, new_y, insets)
        } else {
            (new_x, new_y)
        }
    }
}

} // verus!
