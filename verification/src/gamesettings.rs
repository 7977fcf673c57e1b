use vstd::prelude::*;

use crate::moveable::MAX_DIM;

verus! {

/// Color channels run from 0 to this value: an RGBA color in per-mille
/// units, converted to the renderer's format at the edge.
pub const CHANNEL_MAX: u16 = 1000;

/// An RGBA color with per-mille channels.
#[derive(Clone, Copy, Debug, PartialEq, Eq, Structural)]
pub struct Rgba {
    pub r: u16,
    pub g: u16,
    pub b: u16,
    pub a: u16,
}

impl Rgba {
    pub open spec fn wf(self) -> bool {
        &&& self.r <= CHANNEL_MAX
        &&& self.g <= CHANNEL_MAX
        &&& self.b <= CHANNEL_MAX
        &&& self.a <= CHANNEL_MAX
    }
}

/// Arena dimensions, population size and the palette, read once at startup.
#[derive(Clone, Copy, Debug)]
pub struct GameSettings {
    pub screen_size: (i64, i64),
    pub citizen_quantity: i32,
    pub bg_color: Rgba,
    pub player_color: Rgba,
    pub health_color: Rgba,
    pub disease_color: Rgba,
    pub sneeze_color: Rgba,
}

impl GameSettings {
    pub open spec fn wf(self) -> bool {
        &&& 0 < self.screen_size.0 <= MAX_DIM
        &&& 0 < self.screen_size.1 <= MAX_DIM
        &&& 0 <= self.citizen_quantity
        &&& self.bg_color.wf()
        &&& self.player_color.wf()
        &&& self.health_color.wf()
        &&& self.disease_color.wf()
        &&& self.sneeze_color.wf()
    }

    /// The fixed defaults: an 800 by 600 arena with 50 citizens.
    pub fn default() -> (s: GameSettings)
        ensures
            s.wf(),
            s.screen_size == (800i64, 600i64),
            s.citizen_quantity == 50,
            s.bg_color == (Rgba { r: 404, g: 561, b: 220, a: 1000 }),
            s.player_color == (Rgba { r: 800, g: 624, b: 353, a: 1000 }),
            s.health_color == (Rgba { r: 0, g: 200, b: 0, a: 900 }),
            s.disease_color == (Rgba { r: 514, g: 4, b: 145, a: 1000 }),
            s.sneeze_color == (Rgba { r: 200, g: 200, b: 200, a: 300 }),
    {
        GameSettings {
            screen_size: (800, 600),
            citizen_quantity: 50,
            bg_color: Rgba { r: 404, g: 561, b: 220, a: 1000 },
            player_color: Rgba { r: 800, g: 624, b: 353, a: 1000 },
            health_color: Rgba { r: 0, g: 200, b: 0, a: 900 },
            disease_color: Rgba { r: 514, g: 4, b: 145, a: 1000 },
            sneeze_color: Rgba { r: 200, g: 200, b: 200, a: 300 },
        }
    }

    pub fn get_player_col(self) -> (c: Rgba)
        ensures
            c == self.player_color,
    {
        self.player_color
    }

    pub fn get_bg_col(self) -> (c: Rgba)
        ensures
            c == self.bg_color,
    {
        self.bg_color
    }

    pub fn get_disease_color(self) -> (c: Rgba)
        ensures
            c == self.disease_color,
    {
        self.disease_color
    }

    pub fn get_health_col(self) -> (c: Rgba)
        ensures
            c == self.health_color,
    {
        self.health_color
    }

    pub fn get_citizens_quan(self) -> (q: i32)
        ensures
            q == self.citizen_quantity,
    {
        self.citizen_quantity
    }

    pub fn get_screen_size(self) -> (s: (i64, i64))
        ensures
            s == self.screen_size,
    {
        self.screen_size
    }

    pub fn get_sneeze_color(self) -> (c: Rgba)
        ensures
            c == self.sneeze_color,
    {
        self.sneeze_color
    }

    pub fn get_screen_width(self) -> (w: i64)
        ensures
            w == self.screen_size.0,
    {
        self.screen_size.0
    }

    pub fn get_screen_height(self) -> (h: i64)
        ensures
            h == self.screen_size.1,
    {
        self.screen_size.1
    }
}

} // verus!
