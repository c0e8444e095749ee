//! A thin helper for drawing simple shapes on a GPU: colors, vertices and
//! shape batches, frame pacing and the window-exit decision, and — under
//! [`render`] — the bookkeeping of brushes (which assets hang at which bind
//! group) and of textures (sizes, usages, write layouts). Everything here is
//! verified; the calls into the GPU itself live with the caller.

use vstd::prelude::*;

pub mod render;

verus! {

/// An RGBA color with one byte per channel.
#[derive(Clone, Copy, PartialEq, Eq, Structural, Debug)]
pub struct Color {
    pub r: u8,
    pub g: u8,
    pub b: u8,
    pub a: u8,
}

impl Color {
    pub fn new(r: u8, g: u8, b: u8, a: u8) -> (c: Color)
        ensures
            c == (Color { r, g, b, a }),
    {
        Color { r, g, b, a }
    }

    pub fn clear() -> (c: Color)
        ensures
            c == (Color { r: 0, g: 0, b: 0, a: 0 }),
    {
        Color { r: 0, g: 0, b: 0, a: 0 }
    }

    pub fn black() -> (c: Color)
        ensures
            c == (Color { r: 0, g: 0, b: 0, a: 255 }),
    {
        Color { r: 0, g: 0, b: 0, a: 255 }
    }

    pub fn gray() -> (c: Color)
        ensures
            c == (Color { r: 128, g: 128, b: 128, a: 255 }),
    {
        Color { r: 128, g: 128, b: 128, a: 255 }
    }

    pub fn silver() -> (c: Color)
        ensures
            c == (Color { r: 191, g: 191, b: 191, a: 255 }),
    {
        Color { r: 191, g: 191, b: 191, a: 255 }
    }

    pub fn white() -> (c: Color)
        ensures
            c == (Color { r: 255, g: 255, b: 255, a: 255 }),
    {
        Color { r: 255, g: 255, b: 255, a: 255 }
    }

    pub fn maroon() -> (c: Color)
        ensures
            c == (Color { r: 128, g: 0, b: 0, a: 255 }),
    {
        Color { r: 128, g: 0, b: 0, a: 255 }
    }

    pub fn red() -> (c: Color)
        ensures
            c == (Color { r: 255, g: 0, b: 0, a: 255 }),
    {
        Color { r: 255, g: 0, b: 0, a: 255 }
    }

    pub fn purple() -> (c: Color)
        ensures
            c == (Color { r: 128, g: 0, b: 128, a: 255 }),
    {
        Color { r: 128, g: 0, b: 128, a: 255 }
    }

    pub fn magenta() -> (c: Color)
        ensures
            c == (Color { r: 255, g: 0, b: 255, a: 255 }),
    {
        Color { r: 255, g: 0, b: 255, a: 255 }
    }

    pub fn green() -> (c: Color)
        ensures
            c == (Color { r: 0, g: 128, b: 0, a: 255 }),
    {
        Color { r: 0, g: 128, b: 0, a: 255 }
    }

    pub fn lime() -> (c: Color)
        ensures
            c == (Color { r: 0, g: 255, b: 0, a: 255 }),
    {
        Color { r: 0, g: 255, b: 0, a: 255 }
    }

    pub fn yellow() -> (c: Color)
        ensures
            c == (Color { r: 255, g: 255, b: 0, a: 255 }),
    {
        Color { r: 255, g: 255, b: 0, a: 255 }
    }

    pub fn blue_navy() -> (c: Color)
        ensures
            c == (Color { r: 0, g: 0, b: 128, a: 255 }),
    {
        Color { r: 0, g: 0, b: 128, a: 255 }
    }

    pub fn blue() -> (c: Color)
        ensures
            c == (Color { r: 0, g: 0, b: 255, a: 255 }),
    {
        Color { r: 0, g: 0, b: 255, a: 255 }
    }

    pub fn blue_teal() -> (c: Color)
        ensures
            c == (Color { r: 0, g: 128, b: 128, a: 255 }),
    {
        Color { r: 0, g: 128, b: 128, a: 255 }
    }

    pub fn blue_aqua() -> (c: Color)
        ensures
            c == (Color { r: 0, g: 255, b: 255, a: 255 }),
    {
        Color { r: 0, g: 255, b: 255, a: 255 }
    }

    /// The color as the four bytes of one RGBA texel.
    pub fn to_rgba8(&self) -> (v: Vec<u8>)
        ensures
            v@ == seq![self.r, self.g, self.b, self.a],
    {
        let v: Vec<u8> = vec![self.r, self.g, self.b, self.a];
        proof {
            assert(v@ =~= seq![self.r, self.g, self.b, self.a]);
        }
        v
    }
}

/// Settings that govern a window's frame pacing.
pub struct WindowSettings {
    max_fps: u64,
}

impl WindowSettings {
    /// The frame-rate cap, in frames per second; zero means unlimited.
    pub closed spec fn spec_max_fps(&self) -> u64 {
        self.max_fps
    }

    pub fn new(max_fps: u64) -> (s: WindowSettings)
        ensures
            s.spec_max_fps() == max_fps,
    {
        WindowSettings { max_fps }
    }

    pub fn max_fps(&self) -> (r: u64)
        ensures
            r == self.spec_max_fps(),
    {
        self.max_fps
    }

    /// How long a frame that took `elapsed_ms` milliseconds must still wait so
    /// that frames are no more frequent than `max_fps` per second; a cap of
    /// zero never waits.
    pub open spec fn spec_frame_wait_ms(&self, elapsed_ms: u64) -> u64 {
        if self.spec_max_fps() > 0 && 1000 as u64 / self.spec_max_fps() >= elapsed_ms {
            (1000 as u64 / self.spec_max_fps() - elapsed_ms) as u64
        } else {
            0
        }
    }

    pub fn frame_wait_ms(&self, elapsed_ms: u64) -> (wait: u64)
        ensures
            wait == self.spec_frame_wait_ms(elapsed_ms),
    {
        if self.max_fps > 0 && 1000 / self.max_fps >= elapsed_ms {
            1000 / self.max_fps - elapsed_ms
        } else {
            0
        }
    }
}

impl Default for WindowSettings {
    /// A fresh window is capped at sixty frames per second.
    fn default() -> (s: WindowSettings)
        ensures
            s.spec_max_fps() == 60,
    {
        WindowSettings { max_fps: 60 }
    }
}

/// A key on the keyboard, as far as the window logic cares: the escape key
/// closes the window, every other key is alike.
#[derive(Clone, Copy, PartialEq, Eq, Structural, Debug)]
pub enum Key {
    Escape,
    Other,
}

/// A window event, reduced to what the exit decision reads.
#[derive(Clone, Copy, PartialEq, Eq, Structural, Debug)]
pub enum WindowEvent {
    CloseRequested,
    KeyboardInput { key: Option<Key> },
    Other,
}

/// Decides whether an event asks for the window to be closed: a close request
/// does, and so does pressing the escape key.
pub fn exit_request(ev: &WindowEvent) -> (r: bool)
    requires
        (*ev matches WindowEvent::KeyboardInput { key } ==> key is Some),
    ensures
        r == (*ev == WindowEvent::CloseRequested || *ev == (WindowEvent::KeyboardInput {
            key: Some(Key::Escape),
        })),
{
    match ev {
        WindowEvent::CloseRequested => true,
        WindowEvent::KeyboardInput { key } => {
            match key {
                Some(k) => *k == Key::Escape,
                None => false,
            }
        },
        WindowEvent::Other => false,
    }
}

/// One coordinate unit of the viewport, in the fixed-point scale that vertex
/// positions are stored in.
pub const COORD_UNIT: i64 = 1048576;

/// A point of the viewport. Coordinates are fixed-point: `COORD_UNIT` parts
/// make one viewport unit.
#[derive(Clone, Copy, PartialEq, Eq, Structural, Debug)]
pub struct Vertex {
    pub x: i64,
    pub y: i64,
}

impl Vertex {
    pub fn from_viewport(x: i64, y: i64) -> (v: Vertex)
        ensures
            v == (Vertex { x, y }),
    {
        Vertex { x, y }
    }

    /// The point `x / width` along and `y / height` down the viewport, as a
    /// pixel position does, rounded down to the fixed-point scale.
    pub fn from_pixel(x: u32, y: u32, width: u32, height: u32) -> (v: Vertex)
        requires
            width > 0,
            height > 0,
        ensures
            v.x == x as int * COORD_UNIT / width as int,
            v.y == y as int * COORD_UNIT / height as int,
    {
        let vx: i64 = (x as i64 * COORD_UNIT) / (width as i64);
        let vy: i64 = (y as i64 * COORD_UNIT) / (height as i64);
        Vertex { x: vx, y: vy }
    }

    #[must_use]
    #[inline]
    pub fn x(&self) -> (r: i64)
        ensures
            r == self.x,
    {
        self.x
    }

    #[must_use]
    #[inline]
    pub fn y(&self) -> (r: i64)
        ensures
            r == self.y,
    {
        self.y
    }
}

/// Queue of shapes to be drawn. All shapes added to the same batch are drawn
/// at the same time using the same brush.
pub struct ShapeBatch {
    pub vertices: Vec<Vertex>,
    pub indices: Vec<u32>,
}

impl Default for ShapeBatch {
    /// A fresh batch holds no shape.
    fn default() -> (b: ShapeBatch)
        ensures
            b.vertices@ == Seq::<Vertex>::empty(),
            b.indices@ == Seq::<u32>::empty(),
    {
        ShapeBatch { vertices: Vec::new(), indices: Vec::new() }
    }
}

impl ShapeBatch {
    /// Add a triangle to the batch specifying its 3 vertices. The three new
    /// indices name the three new vertices: they start at the number of
    /// vertices already queued.
    pub fn add_triangle(&mut self, v: [Vertex; 3])
        requires
            old(self).vertices@.len() + 3 <= u32::MAX,
        ensures
            final(self).vertices@ == old(self).vertices@ + seq![v[0], v[1], v[2]],
            final(self).indices@ == old(self).indices@ + seq![
                old(self).vertices@.len() as u32,
                (old(self).vertices@.len() + 1) as u32,
                (old(self).vertices@.len() + 2) as u32,
            ],
    {
        let index = self.vertices.len() as u32;
        self.vertices.push(v[0]);
        self.indices.push(index);
        self.vertices.push(v[1]);
        self.indices.push(index + 1);
        self.vertices.push(v[2]);
        self.indices.push(index + 2);
        proof {
            assert(self.vertices@ =~= old(self).vertices@ + seq![v[0], v[1], v[2]]);
            assert(self.indices@ =~= old(self).indices@ + seq![
                old(self).vertices@.len() as u32,
                (old(self).vertices@.len() + 1) as u32,
                (old(self).vertices@.len() + 2) as u32,
            ]);
        }
    }

    /// Add a square to the batch specifying the center, width and height. The
    /// four corner vertices come in the order bottom-left, bottom-right,
    /// top-left, top-right, and the six new indices cut the square into two
    /// triangles; they name the four new corners, starting at the number of
    /// vertices already queued.
    pub fn add_square(&mut self, c: Vertex, w: i64, h: i64)
        requires
            0 <= w,
            0 <= h,
            i64::MIN <= c.x - w / 2,
            c.x + w / 2 <= i64::MAX,
            i64::MIN <= c.y - h / 2,
            c.y + h / 2 <= i64::MAX,
            old(self).vertices@.len() + 4 <= u32::MAX,
        ensures
            final(self).vertices@ == old(self).vertices@ + seq![
                (Vertex { x: (c.x - w / 2) as i64, y: (c.y - h / 2) as i64 }),
                (Vertex { x: (c.x + w / 2) as i64, y: (c.y - h / 2) as i64 }),
                (Vertex { x: (c.x - w / 2) as i64, y: (c.y + h / 2) as i64 }),
                (Vertex { x: (c.x + w / 2) as i64, y: (c.y + h / 2) as i64 }),
            ],
            final(self).indices@ == old(self).indices@ + seq![
                old(self).vertices@.len() as u32,
                (old(self).vertices@.len() + 1) as u32,
                (old(self).vertices@.len() + 2) as u32,
                (old(self).vertices@.len() + 2) as u32,
                (old(self).vertices@.len() + 1) as u32,
                (old(self).vertices@.len() + 3) as u32,
            ],
    {
        // Adding vertices
        let index = self.vertices.len() as u32;
        let hw: i64 = w / 2;
        let hh: i64 = h / 2;
        self.vertices.push(Vertex { x: c.x - hw, y: c.y - hh });
        self.vertices.push(Vertex { x: c.x + hw, y: c.y - hh });
        self.vertices.push(Vertex { x: c.x - hw, y: c.y + hh });
        self.vertices.push(Vertex { x: c.x + hw, y: c.y + hh });

        // Adding indices
        self.indices.push(index);
        self.indices.push(index + 1);
        self.indices.push(index + 2);
        self.indices.push(index + 2);
        self.indices.push(index + 1);
        self.indices.push(index + 3);
        proof {
            assert(self.vertices@ =~= old(self).vertices@ + seq![
                (Vertex { x: (c.x - w / 2) as i64, y: (c.y - h / 2) as i64 }),
                (Vertex { x: (c.x + w / 2) as i64, y: (c.y - h / 2) as i64 }),
                (Vertex { x: (c.x - w / 2) as i64, y: (c.y + h / 2) as i64 }),
                (Vertex { x: (c.x + w / 2) as i64, y: (c.y + h / 2) as i64 }),
            ]);
            assert(self.indices@ =~= old(self).indices@ + seq![
                old(self).vertices@.len() as u32,
                (old(self).vertices@.len() + 1) as u32,
                (old(self).vertices@.len() + 2) as u32,
                (old(self).vertices@.len() + 2) as u32,
                (old(self).vertices@.len() + 1) as u32,
                (old(self).vertices@.len() + 3) as u32,
            ]);
        }
    }
}

} // verus!
