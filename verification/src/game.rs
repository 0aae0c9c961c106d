//! The session: map, player and pointer state, driven by discrete input
//! events, sampled once per frame into render data.
//!
//! Every transition is an immediate, deterministic response to one event.
//! A frame update casts the view fan against the current map and player
//! snapshot and hands back plain render data — the fan, its screen columns
//! and the wall cells of the top-down view; drawing itself happens outside
//! the library.

use vstd::prelude::*;
use crate::editor::{edit_map, edit_rel, HandleWall};
use crate::grid::GameMap;
use crate::player::Player;
use crate::projection::{cast_fan, column_height_of, fan_matches, project_columns, Column, RayHit};

verus! {

/// Movement, rotation and view configuration, bundled so the session is
/// built from one explicit value instead of scattered constants.
#[derive(Clone, Copy, Debug, PartialEq, Eq, Structural)]
pub struct GameConfig {
    /// Length units the player advances per move event.
    pub move_step: u64,
    /// Degrees the player turns per rotate event.
    pub rotate_step: u32,
    /// Degrees of view fan on each side of the center ray.
    pub half_fov: u32,
}

impl GameConfig {
    pub open spec fn wf(&self) -> bool {
        &&& self.move_step <= 1_000_000
        &&& 0 < self.rotate_step < 360
        &&& self.half_fov < 90
    }
}

/// A pointer button the editor distinguishes.
#[derive(Clone, Copy, Debug, PartialEq, Eq, Structural)]
pub enum PointerButton {
    LeftButton,
    RightButton,
}

/// The discrete input events the session responds to.
#[derive(Clone, Copy, Debug)]
pub enum InputEvent {
    RotateLeft,
    RotateRight,
    MoveForward,
    MoveBackward,
    PointerMoved(u64, u64),
    PointerPressed(PointerButton),
    PointerReleased(PointerButton),
}

/// One frame's render data: the corrected ray fan, its screen columns in
/// cast order, and the wall cells of the top-down map view. Built afresh
/// each frame and owned by the caller; nothing is kept across frames.
pub struct Frame {
    pub fan: Vec<RayHit>,
    pub columns: Vec<Column>,
    pub walls: Vec<(usize, usize)>,
}

/// The whole session state.
pub struct Game {
    pub map: GameMap,
    pub player: Player,
    pub config: GameConfig,
    pub mouse_x: u64,
    pub mouse_y: u64,
    pub mouse_left: bool,
    pub mouse_right: bool,
    pub screen_w: u64,
    pub screen_h: u64,
}

impl Game {
    pub open spec fn wf(&self) -> bool {
        &&& self.map.wf()
        &&& self.player.wf()
        &&& self.config.wf()
        &&& 1 <= self.screen_w <= 0x4000_0000
        &&& 1 <= self.screen_h <= 0x4000_0000
        &&& self.mouse_x <= self.screen_w
        &&& self.mouse_y <= self.screen_h
    }

    /// Everything but the map equal between two states.
    pub open spec fn same_but_map(&self, other: &Game) -> bool {
        &&& self.player == other.player
        &&& self.config == other.config
        &&& self.mouse_x == other.mouse_x
        &&& self.mouse_y == other.mouse_y
        &&& self.mouse_left == other.mouse_left
        &&& self.mouse_right == other.mouse_right
        &&& self.screen_w == other.screen_w
        &&& self.screen_h == other.screen_h
    }

    /// Everything but the player equal between two states.
    pub open spec fn same_but_player(&self, other: &Game) -> bool {
        &&& self.map == other.map
        &&& self.config == other.config
        &&& self.mouse_x == other.mouse_x
        &&& self.mouse_y == other.mouse_y
        &&& self.mouse_left == other.mouse_left
        &&& self.mouse_right == other.mouse_right
        &&& self.screen_w == other.screen_w
        &&& self.screen_h == other.screen_h
    }

    /// Player, configuration and screen equal between two states; the map
    /// and pointer fields are described by the event's own clauses.
    pub open spec fn same_but_pointer(&self, other: &Game) -> bool {
        &&& self.player == other.player
        &&& self.config == other.config
        &&& self.screen_w == other.screen_w
        &&& self.screen_h == other.screen_h
    }

    /// A heading change of `delta` degrees and nothing else.
    pub open spec fn rotated_by(&self, old_game: &Game, delta: int) -> bool {
        &&& self.same_but_player(old_game)
        &&& self.player.heading == (old_game.player.heading + delta) % 360
        &&& self.player.pos_x == old_game.player.pos_x
        &&& self.player.pos_y == old_game.player.pos_y
        &&& self.player.half_width == old_game.player.half_width
    }

    /// The map after applying `action` at the current pointer position, by
    /// the edit relation; the player decides the self-entrapment check.
    pub open spec fn edited_with(&self, m0: GameMap, m1: GameMap, action: HandleWall) -> bool {
        edit_rel(
            m0,
            self.player,
            self.mouse_x as int,
            self.mouse_y as int,
            self.screen_w as int,
            self.screen_h as int,
            action,
            m1,
        )
    }

    /// A fresh session on a `size` x `size` arena with walls all around the
    /// border, the player standing in the middle of the grid looking along
    /// the positive column axis.
    pub fn new(size: usize, config: GameConfig, screen_w: u64, screen_h: u64) -> (g: Game)
        requires
            2 <= size <= crate::MAX_GRID,
            config.wf(),
            1 <= screen_w <= 0x4000_0000,
            1 <= screen_h <= 0x4000_0000,
        ensures
            g.wf(),
            g.config == config,
            g.screen_w == screen_w,
            g.screen_h == screen_h,
            g.map.spec_size() == size,
            forall|r: int, c: int|
                g.map.in_bounds(r, c) ==> (g.map.spec_cell(r, c) == crate::grid::CellState::Wall
                    <==> (r == 0 || c == 0 || r == size - 1 || c == size - 1)),
            g.player.heading == 0,
            g.player.pos_x == size * crate::CELL_UNITS / 2,
            g.player.pos_y == size * crate::CELL_UNITS / 2,
            g.player.half_width == 75,
            g.mouse_x == 0,
            g.mouse_y == 0,
            g.mouse_left == false,
            g.mouse_right == false,
    {
        let map = GameMap::bordered(size);
        let center: i64 = ((size as i64) * 1000) / 2;
        proof {
            vstd::arithmetic::div_mod::lemma_div_pos_is_pos((size as i64) * 1000, 2);
            vstd::arithmetic::div_mod::lemma_div_is_ordered(
                (size as i64) * 1000,
                5_000_000,
                2,
            );
        }
        let player = Player::new(center, center, 0, 75);
        Game {
            map,
            player,
            config,
            mouse_x: 0,
            mouse_y: 0,
            mouse_left: false,
            mouse_right: false,
            screen_w,
            screen_h,
        }
    }

    /// Apply one edit at the current pointer position.
    fn handle_wall(&mut self, action: HandleWall)
        requires
            old(self).wf(),
        ensures
            final(self).wf(),
            final(self).same_but_map(old(self)),
            old(self).edited_with(old(self).map, final(self).map, action),
    {
        let px = self.mouse_x;
        let py = self.mouse_y;
        let w = self.screen_w;
        let h = self.screen_h;
        edit_map(&mut self.map, &self.player, px, py, w, h, action);
    }

    /// Consume one input event: rotations are unconditional, moves are
    /// validated against the map, pointer motion re-applies any held
    /// button's edit, and presses edit immediately.
    pub fn input(&mut self, event: &InputEvent) -> (consumed: bool)
        requires
            old(self).wf(),
        ensures
            final(self).wf(),
            consumed,
            match *event {
                InputEvent::RotateLeft => final(self).rotated_by(
                    old(self),
                    old(self).config.rotate_step as int,
                ),
                InputEvent::RotateRight => final(self).rotated_by(
                    old(self),
                    -(old(self).config.rotate_step as int),
                ),
                InputEvent::MoveForward => {
                    &&& final(self).same_but_player(old(self))
                    &&& final(self).player.moved_to(
                        old(self).map,
                        old(self).player,
                        old(self).player.forward_target(old(self).config.move_step as int).0,
                        old(self).player.forward_target(old(self).config.move_step as int).1,
                    )
                },
                InputEvent::MoveBackward => {
                    &&& final(self).same_but_player(old(self))
                    &&& final(self).player.moved_to(
                        old(self).map,
                        old(self).player,
                        old(self).player.backward_target(old(self).config.move_step as int).0,
                        old(self).player.backward_target(old(self).config.move_step as int).1,
                    )
                },
                InputEvent::PointerMoved(x, y) => {
                    &&& final(self).same_but_pointer(old(self))
                    &&& final(self).mouse_left == old(self).mouse_left
                    &&& final(self).mouse_right == old(self).mouse_right
                    &&& final(self).mouse_x == if x <= old(self).screen_w {
                        x
                    } else {
                        old(self).screen_w
                    }
                    &&& final(self).mouse_y == if y <= old(self).screen_h {
                        y
                    } else {
                        old(self).screen_h
                    }
                    &&& if old(self).mouse_left && old(self).mouse_right {
                        exists|mid: GameMap|
                            #[trigger] final(self).edited_with(old(self).map, mid, HandleWall::Create)
                                && final(self).edited_with(mid, final(self).map, HandleWall::Destroy)
                    } else if old(self).mouse_left {
                        final(self).edited_with(old(self).map, final(self).map, HandleWall::Create)
                    } else if old(self).mouse_right {
                        final(self).edited_with(old(self).map, final(self).map, HandleWall::Destroy)
                    } else {
                        final(self).map == old(self).map
                    }
                },
                InputEvent::PointerPressed(b) => {
                    &&& final(self).same_but_pointer(old(self))
                    &&& final(self).mouse_x == old(self).mouse_x
                    &&& final(self).mouse_y == old(self).mouse_y
                    &&& match b {
                        PointerButton::LeftButton => {
                            &&& final(self).mouse_left
                            &&& final(self).mouse_right == old(self).mouse_right
                            &&& old(self).edited_with(
                                old(self).map,
                                final(self).map,
                                HandleWall::Create,
                            )
                        },
                        PointerButton::RightButton => {
                            &&& final(self).mouse_right
                            &&& final(self).mouse_left == old(self).mouse_left
                            &&& old(self).edited_with(
                                old(self).map,
                                final(self).map,
                                HandleWall::Destroy,
                            )
                        },
                    }
                },
                InputEvent::PointerReleased(b) => {
                    &&& final(self).same_but_pointer(old(self))
                    &&& final(self).map == old(self).map
                    &&& final(self).mouse_x == old(self).mouse_x
                    &&& final(self).mouse_y == old(self).mouse_y
                    &&& match b {
                        PointerButton::LeftButton => {
                            &&& !final(self).mouse_left
                            &&& final(self).mouse_right == old(self).mouse_right
                        },
                        PointerButton::RightButton => {
                            &&& !final(self).mouse_right
                            &&& final(self).mouse_left == old(self).mouse_left
                        },
                    }
                },
            },
    {
        match event {
            InputEvent::RotateLeft => {
                let step = self.config.rotate_step;
                self.player.rotate(step as i32);
                true
            },
            InputEvent::RotateRight => {
                let step = self.config.rotate_step;
                self.player.rotate(-(step as i32));
                true
            },
            InputEvent::MoveForward => {
                let step = self.config.move_step;
                self.player.move_forward(&self.map, step);
                true
            },
            InputEvent::MoveBackward => {
                let step = self.config.move_step;
                self.player.move_backward(&self.map, step);
                true
            },
            InputEvent::PointerMoved(x, y) => {
                let nx = if *x <= self.screen_w {
                    *x
                } else {
                    self.screen_w
                };
                let ny = if *y <= self.screen_h {
                    *y
                } else {
                    self.screen_h
                };
                self.mouse_x = nx;
                self.mouse_y = ny;
                if self.mouse_left {
                    self.handle_wall(HandleWall::Create);
                }
                let ghost mid = self.map;
                if self.mouse_right {
                    self.handle_wall(HandleWall::Destroy);
                }
                proof {
                    if old(self).mouse_left && old(self).mouse_right {
                        assert(self.edited_with(old(self).map, mid, HandleWall::Create)
                            && self.edited_with(mid, self.map, HandleWall::Destroy));
                    }
                }
                true
            },
            InputEvent::PointerPressed(PointerButton::LeftButton) => {
                self.handle_wall(HandleWall::Create);
                self.mouse_left = true;
                true
            },
            InputEvent::PointerPressed(PointerButton::RightButton) => {
                self.handle_wall(HandleWall::Destroy);
                self.mouse_right = true;
                true
            },
            InputEvent::PointerReleased(PointerButton::LeftButton) => {
                self.mouse_left = false;
                true
            },
            InputEvent::PointerReleased(PointerButton::RightButton) => {
                self.mouse_right = false;
                true
            },
        }
    }

    /// Render one frame from the current snapshot: cast the fan, derive the
    /// columns, list the wall cells. The fan data lives only in the
    /// returned frame; nothing is carried to the next frame.
    pub fn update(&self) -> (frame: Frame)
        requires
            self.wf(),
        ensures
            frame.fan@.len() == 2 * self.config.half_fov + 1,
            forall|i: int|
                0 <= i < frame.fan@.len() ==> fan_matches(
                    self.map,
                    self.player.pos_x as int,
                    self.player.pos_y as int,
                    self.player.heading as int,
                    self.config.half_fov as int,
                    i,
                    #[trigger] frame.fan@[i],
                ),
            frame.columns@.len() == frame.fan@.len(),
            forall|i: int|
                0 <= i < frame.columns@.len() ==> (#[trigger] frame.columns@[i]).height
                    == column_height_of(frame.fan@[i].distance as int) && frame.columns@[i].side
                    == frame.fan@[i].side,
            forall|k: int|
                0 <= k < frame.walls@.len() ==> self.map.is_wall(
                    (#[trigger] frame.walls@[k]).0 as int,
                    frame.walls@[k].1 as int,
                ),
            forall|r: int, c: int|
                self.map.is_wall(r, c) ==> frame.walls@.contains((r as usize, c as usize)),
    {
        let fan = cast_fan(&self.player, &self.map, self.config.half_fov);
        let columns = project_columns(&fan);
        let walls = self.map.wall_cells();
        Frame { fan, columns, walls }
    }
}

} // verus!
