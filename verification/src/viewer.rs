//! Viewer state: camera settings, the cube model, the wrapped cursor
//! and the viewport size, together with the per-frame derivation of the
//! cube's orientation from the cursor.

use crate::camera::CameraSettings;
use crate::cube::Cube;
use crate::cursor::{
    is_direction, key_delta_x, key_delta_y, update_cursor, wrap, CursorPos, Key,
};
use vstd::prelude::*;

verus! {

/// An angle as an exact fraction of a half turn: `num / den` of
/// π radians. The host multiplies the fraction by π when it needs the
/// angle as a scalar.
#[derive(Clone, Copy, PartialEq, Eq, Structural, Debug)]
pub struct TurnFraction {
    pub num: u32,
    pub den: u32,
}

/// The orientation of the cube as yaw, pitch and roll, each an exact
/// fraction of a half turn about its axis.
#[derive(Clone, Copy, PartialEq, Eq, Structural, Debug)]
pub struct Orientation {
    pub yaw: TurnFraction,
    pub pitch: TurnFraction,
    pub roll: TurnFraction,
}

impl TurnFraction {
    /// A well-formed fraction has a positive denominator and lies in
    /// [0, 1), so the angle it denotes lies in [0, π).
    pub open spec fn wf(self) -> bool {
        0 < self.den && self.num < self.den
    }
}

/// The current state of the cube viewer.
pub struct CubeState {
    /// Camera configuration parameters including field of view and
    /// distance.
    pub camera_settings: CameraSettings,
    /// The cube object being rendered.
    pub cube: Cube,
    /// Current cursor position on the screen.
    pub cursor: CursorPos,
    /// Width of the screen in pixels.
    pub screen_width: u32,
    /// Height of the screen in pixels.
    pub screen_height: u32,
}

impl CubeState {
    /// A well-formed viewer has a positive viewport, a cursor inside
    /// it, and the fixed cube model.
    pub open spec fn wf(self) -> bool {
        0 < self.screen_width && 0 < self.screen_height && self.cursor.x < self.screen_width
            && self.cursor.y < self.screen_height && self.cube.wf()
    }

    /// Builds the viewer state for a viewport of the given size, with
    /// the cursor at the viewport's center.
    pub fn new(camera_settings: CameraSettings, screen_width: u32, screen_height: u32) -> (s:
        CubeState)
        requires
            0 < screen_width,
            0 < screen_height,
        ensures
            s.wf(),
            s.camera_settings == camera_settings,
            s.cursor.x == screen_width / 2,
            s.cursor.y == screen_height / 2,
            s.screen_width == screen_width,
            s.screen_height == screen_height,
    {
        CubeState {
            camera_settings,
            cube: Cube::new(),
            cursor: CursorPos { x: screen_width / 2, y: screen_height / 2 },
            screen_width,
            screen_height,
        }
    }

    /// Moves the cursor for one key press: a directional key shifts it
    /// by ten pixels with toroidal wraparound, any other key leaves the
    /// state bit-for-bit unchanged. Nothing but the cursor ever moves.
    pub fn update_cursor(&mut self, key: Key)
        requires
            old(self).wf(),
        ensures
            final(self).wf(),
            is_direction(key) ==> final(self).cursor.x == wrap(
                old(self).cursor.x as int,
                key_delta_x(key),
                old(self).screen_width as int,
            ),
            is_direction(key) ==> final(self).cursor.y == wrap(
                old(self).cursor.y as int,
                key_delta_y(key),
                old(self).screen_height as int,
            ),
            !is_direction(key) ==> *final(self) == *old(self),
            final(self).camera_settings == old(self).camera_settings,
            final(self).cube == old(self).cube,
            final(self).screen_width == old(self).screen_width,
            final(self).screen_height == old(self).screen_height,
    {
        self.cursor = update_cursor(self.cursor, key, self.screen_width, self.screen_height);
    }

    /// Handles one key press as the event loop delivers it: `Quit`
    /// requests termination and leaves the state unchanged; every other
    /// key is handed to the cursor mapper. Returns whether the host
    /// should quit.
    pub fn key_down_event(&mut self, key: Key) -> (quit: bool)
        requires
            old(self).wf(),
        ensures
            final(self).wf(),
            quit == (key == Key::Quit),
            quit ==> *final(self) == *old(self),
            is_direction(key) ==> final(self).cursor.x == wrap(
                old(self).cursor.x as int,
                key_delta_x(key),
                old(self).screen_width as int,
            ) && final(self).cursor.y == wrap(
                old(self).cursor.y as int,
                key_delta_y(key),
                old(self).screen_height as int,
            ),
            !is_direction(key) ==> *final(self) == *old(self),
            final(self).camera_settings == old(self).camera_settings,
            final(self).cube == old(self).cube,
            final(self).screen_width == old(self).screen_width,
            final(self).screen_height == old(self).screen_height,
    {
        match key {
            Key::Quit => true,
            _ => {
                self.update_cursor(key);
                false
            },
        }
    }

    /// A frame tick. The viewer derives everything from its current
    /// state when it renders, so the tick changes nothing.
    pub fn update(&mut self)
        ensures
            *final(self) == *old(self),
    {
    }

    /// The orientation the current cursor stands for, derived anew each
    /// frame: yaw is pinned to zero, pitch is the cursor's horizontal
    /// fraction of the screen as a fraction of a half turn, and roll is
    /// the vertical fraction likewise.
    pub fn derive_orientation(&self) -> (o: Orientation)
        requires
            self.wf(),
        ensures
            o == (spec_orientation(*self)),
            o.yaw.wf() && o.pitch.wf() && o.roll.wf(),
            o.yaw.num == 0,
    {
        Orientation {
            yaw: TurnFraction { num: 0, den: 1 },
            pitch: TurnFraction { num: self.cursor.x, den: self.screen_width },
            roll: TurnFraction { num: self.cursor.y, den: self.screen_height },
        }
    }

    /// The point added to each projected vertex to move it into screen
    /// space: the center of the viewport, which is also where the
    /// cursor starts.
    pub fn screen_center(&self) -> (c: (u32, u32))
        ensures
            c.0 == self.screen_width / 2,
            c.1 == self.screen_height / 2,
    {
        (self.screen_width / 2, self.screen_height / 2)
    }
}

/// The orientation derived from a viewer state: yaw 0, pitch the
/// cursor's fraction of the screen width, roll its fraction of the
/// screen height, each as a fraction of a half turn.
pub open spec fn spec_orientation(s: CubeState) -> Orientation {
    Orientation {
        yaw: TurnFraction { num: 0, den: 1 },
        pitch: TurnFraction { num: s.cursor.x, den: s.screen_width },
        roll: TurnFraction { num: s.cursor.y, den: s.screen_height },
    }
}

} // verus!
