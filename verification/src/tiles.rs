use vstd::prelude::*;
use crate::geometry::Fraction;

verus! {

// Sprite tiles drawn into the logical buffer: the set of placed tiles, the
// per-instance data a renderer uploads for them, and the quad mesh they are
// drawn with. Positions are logical pixels; the GPU-side coordinates they
// normalize to are exact fractions of the screen size.

/// One placed tile: its position in logical pixels and which sprite of the
/// sheet it shows.
#[derive(Clone, Copy, PartialEq, Eq, Structural, Debug)]
pub struct TileInstance {
    pub x: u32,
    pub y: u32,
    pub sprite_index: u32,
}

/// The per-instance data uploaded for one tile: the position scaled to the
/// shader's coordinate space, `2 * p / screen`, and the horizontal offset
/// into the sprite sheet, `index / sprite_count`.
#[derive(Clone, Copy, PartialEq, Eq, Structural, Debug)]
pub struct RawInstance {
    pub x: Fraction,
    pub y: Fraction,
    pub u: Fraction,
    pub v: Fraction,
}

/// One vertex of the sprite quad: a position in the shader's coordinate
/// space and a texture coordinate into the sprite sheet, both exact.
#[derive(Clone, Copy, PartialEq, Eq, Structural, Debug)]
pub struct QuadVertex {
    pub x: Fraction,
    pub y: Fraction,
    pub u: Fraction,
    pub v: Fraction,
}

/// The tiles placed on the screen, and whether their instance data still has
/// to be uploaded: adding or moving a tile marks the set dirty, taking the
/// instance data clears the mark.
pub struct TileSet {
    /// Logical screen width in pixels; positive.
    pub screen_width: u32,
    /// Logical screen height in pixels; positive.
    pub screen_height: u32,
    /// Sprites in the sheet; positive.
    pub sprite_count: u32,
    pub instances: Vec<TileInstance>,
    /// Whether the instance data changed since it was last taken.
    pub dirty: bool,
}

impl TileSet {
    pub open spec fn wf(self) -> bool {
        self.screen_width > 0 && self.screen_height > 0 && self.sprite_count > 0
    }

    /// The instance data of one tile, as uploaded.
    pub open spec fn spec_raw(self, t: TileInstance) -> RawInstance {
        RawInstance {
            x: Fraction { num: (2 * t.x) as i64, den: self.screen_width as i64 },
            y: Fraction { num: (2 * t.y) as i64, den: self.screen_height as i64 },
            u: Fraction { num: t.sprite_index as i64, den: self.sprite_count as i64 },
            v: Fraction { num: 0, den: 1 },
        }
    }

    /// An empty tile set for a screen of the given logical size and a sprite
    /// sheet of `sprite_count` sprites in a row.
    pub fn new(screen_width: u32, screen_height: u32, sprite_count: u32) -> (r: TileSet)
        requires
            screen_width > 0,
            screen_height > 0,
            sprite_count > 0,
        ensures
            r.wf(),
            r.screen_width == screen_width,
            r.screen_height == screen_height,
            r.sprite_count == sprite_count,
            r.instances@.len() == 0,
            !r.dirty,
    {
        TileSet {
            screen_width,
            screen_height,
            sprite_count,
            instances: Vec::new(),
            dirty: false,
        }
    }

    /// Places a new tile at `position` showing sprite `index`, and marks the
    /// instance data for upload.
    pub fn add_tile(&mut self, position: (u32, u32), index: u32)
        ensures
            final(self).instances@ == old(self).instances@.push(
                TileInstance { x: position.0, y: position.1, sprite_index: index },
            ),
            final(self).dirty,
            final(self).screen_width == old(self).screen_width,
            final(self).screen_height == old(self).screen_height,
            final(self).sprite_count == old(self).sprite_count,
    {
        self.instances.push(
            TileInstance { x: position.0, y: position.1, sprite_index: index },
        );
        self.dirty = true;
    }

    /// Moves the tile numbered `index` to `position`, keeping its sprite,
    /// and marks the instance data for upload. The tile must exist.
    pub fn move_tile(&mut self, position: (u32, u32), index: u32)
        requires
            (index as int) < old(self).instances@.len(),
        ensures
            final(self).instances@ == old(self).instances@.update(
                index as int,
                TileInstance {
                    x: position.0,
                    y: position.1,
                    sprite_index: old(self).instances@[index as int].sprite_index,
                },
            ),
            final(self).dirty,
            final(self).screen_width == old(self).screen_width,
            final(self).screen_height == old(self).screen_height,
            final(self).sprite_count == old(self).sprite_count,
    {
        let kept: u32 = self.instances[index as usize].sprite_index;
        self.instances.set(
            index as usize,
            TileInstance { x: position.0, y: position.1, sprite_index: kept },
        );
        self.dirty = true;
    }

    /// Whether the instance data changed since it was last taken, so the
    /// renderer has to upload it again before drawing.
    pub fn needs_upload(&self) -> (r: bool)
        ensures
            r == self.dirty,
    {
        self.dirty
    }

    /// The instance data of every tile, in placement order, and the dirty
    /// mark cleared: the caller uploads what it is handed.
    pub fn configure_instances(&mut self) -> (r: Vec<RawInstance>)
        requires
            old(self).wf(),
        ensures
            !final(self).dirty,
            final(self).instances@ == old(self).instances@,
            final(self).screen_width == old(self).screen_width,
            final(self).screen_height == old(self).screen_height,
            final(self).sprite_count == old(self).sprite_count,
            r@.len() == old(self).instances@.len(),
            forall|i: int|
                0 <= i < r@.len() ==> r@[i] == old(self).spec_raw(
                    #[trigger] old(self).instances@[i],
                ),
    {
        let mut raws: Vec<RawInstance> = Vec::new();
        let mut i: usize = 0;
        let n: usize = self.instances.len();
        while i < n
            invariant
                self.wf(),
                i <= n,
                n == self.instances@.len(),
                raws@.len() == i,
                forall|j: int|
                    0 <= j < i ==> raws@[j] == self.spec_raw(#[trigger] self.instances@[j]),
            decreases n - i,
        {
            let t = self.instances[i];
            let raw = RawInstance {
                x: Fraction { num: 2 * (t.x as i64), den: self.screen_width as i64 },
                y: Fraction { num: 2 * (t.y as i64), den: self.screen_height as i64 },
                u: Fraction { num: t.sprite_index as i64, den: self.sprite_count as i64 },
                v: Fraction { num: 0, den: 1 },
            };
            raws.push(raw);
            i = i + 1;
        }
        self.dirty = false;
        raws
    }
}

/// The four vertices of the quad a sprite is drawn with, exact: a sprite of
/// `sprite_width` by `sprite_height` logical pixels, with positions in the
/// shader's coordinate space `p / screen - 2` and texture coordinates
/// covering one sprite of the sheet. The order is: top-left, bottom-left,
/// bottom-right, top-right.
pub fn sprite_quad(
    screen_width: u32,
    screen_height: u32,
    sprite_width: u32,
    sprite_height: u32,
    sprite_count: u32,
) -> (v: Vec<QuadVertex>)
    requires
        screen_width > 0,
        screen_height > 0,
        sprite_count > 0,
    ensures
        v@.len() == 4,
        v@[0] == spec_quad_vertex(
            0,
            sprite_height as int,
            0,
            0,
            screen_width as int,
            screen_height as int,
            sprite_count as int,
        ),
        v@[1] == spec_quad_vertex(
            0,
            0,
            0,
            1,
            screen_width as int,
            screen_height as int,
            sprite_count as int,
        ),
        v@[2] == spec_quad_vertex(
            sprite_width as int,
            0,
            1,
            1,
            screen_width as int,
            screen_height as int,
            sprite_count as int,
        ),
        v@[3] == spec_quad_vertex(
            sprite_width as int,
            sprite_height as int,
            1,
            0,
            screen_width as int,
            screen_height as int,
            sprite_count as int,
        ),
{
    let x0 = Fraction {
        num: 0 - 2 * (screen_width as i64),
        den: screen_width as i64,
    };
    let x1 = Fraction {
        num: (sprite_width as i64) - 2 * (screen_width as i64),
        den: screen_width as i64,
    };
    let y0 = Fraction {
        num: 0 - 2 * (screen_height as i64),
        den: screen_height as i64,
    };
    let y1 = Fraction {
        num: (sprite_height as i64) - 2 * (screen_height as i64),
        den: screen_height as i64,
    };
    let u0 = Fraction { num: 0, den: sprite_count as i64 };
    let u1 = Fraction { num: 1, den: sprite_count as i64 };
    let v0 = Fraction { num: 0, den: 1 };
    let v1 = Fraction { num: 1, den: 1 };
    let quad: Vec<QuadVertex> = vec![
        QuadVertex { x: x0, y: y1, u: u0, v: v0 },
        QuadVertex { x: x0, y: y0, u: u0, v: v1 },
        QuadVertex { x: x1, y: y0, u: u1, v: v1 },
        QuadVertex { x: x1, y: y1, u: u1, v: v0 },
    ];
    quad
}

/// The vertex of the sprite quad at logical offset `(px, py)` with texture
/// coordinate `(u, v)` in sprite-sheet units: the position is
/// `(p - 2 * screen) / screen`, that is `p / screen - 2`, and the horizontal
/// texture coordinate is `u / sprite_count`.
pub open spec fn spec_quad_vertex(
    px: int,
    py: int,
    u: int,
    v: int,
    screen_width: int,
    screen_height: int,
    sprite_count: int,
) -> QuadVertex {
    QuadVertex {
        x: Fraction { num: (px - 2 * screen_width) as i64, den: screen_width as i64 },
        y: Fraction { num: (py - 2 * screen_height) as i64, den: screen_height as i64 },
        u: Fraction { num: u as i64, den: sprite_count as i64 },
        v: Fraction { num: v as i64, den: 1 },
    }
}

/// The index list drawing the sprite quad as two triangles.
pub fn quad_indices() -> (r: Vec<u16>)
    ensures
        r@ == seq![0u16, 1u16, 2u16, 0u16, 2u16, 3u16],
{
    let r: Vec<u16> = vec![0, 1, 2, 0, 2, 3];
    proof {
        assert(r@ =~= seq![0u16, 1u16, 2u16, 0u16, 2u16, 3u16]);
    }
    r
}

} // verus!
