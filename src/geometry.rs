use vstd::prelude::*;

verus! {

/// A globally unique identifier in the platform's field layout.
#[derive(Debug, PartialEq, Eq)]
pub struct GUID {
    pub data1: u32,
    pub data2: u16,
    pub data3: u16,
    pub data4: [u8; 8],
}

impl GUID {
    /// Splits a 128-bit identifier into its fields; `data4` holds the low
    /// eight bytes, most significant first.
    pub fn from_u128(uuid: u128) -> (r: GUID)
        ensures
            r.data1 == uuid / 0x1_0000_0000_0000_0000_0000_0000,
            r.data2 == (uuid / 0x1_0000_0000_0000_0000_0000) % 0x1_0000,
            r.data3 == (uuid / 0x1_0000_0000_0000_0000) % 0x1_0000,
            r.data4@ == seq![
                (uuid >> 56u128) as u8,
                (uuid >> 48u128) as u8,
                (uuid >> 40u128) as u8,
                (uuid >> 32u128) as u8,
                (uuid >> 24u128) as u8,
                (uuid >> 16u128) as u8,
                (uuid >> 8u128) as u8,
                uuid as u8,
            ],
    {
        let data1 = (uuid >> 96u128) as u32;
        let data2 = ((uuid >> 80u128) & 0xffff) as u16;
        let data3 = ((uuid >> 64u128) & 0xffff) as u16;
        assert(data1 == uuid / 0x1_0000_0000_0000_0000_0000_0000) by (bit_vector)
            requires
                data1 == (uuid >> 96u128) as u32,
        ;
        assert(data2 == (uuid / 0x1_0000_0000_0000_0000_0000) % 0x1_0000) by (bit_vector)
            requires
                data2 == ((uuid >> 80u128) & 0xffff) as u16,
        ;
        assert(data3 == (uuid / 0x1_0000_0000_0000_0000) % 0x1_0000) by (bit_vector)
            requires
                data3 == ((uuid >> 64u128) & 0xffff) as u16,
        ;
        let data4: [u8; 8] = [
            (uuid >> 56u128) as u8,
            (uuid >> 48u128) as u8,
            (uuid >> 40u128) as u8,
            (uuid >> 32u128) as u8,
            (uuid >> 24u128) as u8,
            (uuid >> 16u128) as u8,
            (uuid >> 8u128) as u8,
            uuid as u8,
        ];
        GUID { data1, data2, data3, data4 }
    }
}

/// A point in screen or client coordinates.
#[derive(Debug, Default, Clone, Copy, PartialEq, Eq)]
pub struct POINT {
    pub x: i32,
    pub y: i32,
}

/// A rectangle given by its edges, as the platform reports client and
/// window areas. Coordinates may be negative.
#[derive(Debug, Default, Clone, Copy, PartialEq, Eq)]
pub struct RECT {
    pub left: i32,
    pub top: i32,
    pub right: i32,
    pub bottom: i32,
}

impl RECT {
    pub fn new(left: i32, top: i32, right: i32, bottom: i32) -> (r: RECT)
        ensures
            r == (RECT { left, top, right, bottom }),
    {
        RECT { left, top, right, bottom }
    }

    /// Horizontal extent, `right - left`.
    pub fn width(&self) -> (r: i32)
        requires
            i32::MIN <= self.right - self.left <= i32::MAX,
        ensures
            r == self.right - self.left,
    {
        self.right - self.left
    }

    /// Vertical extent, `bottom - top`.
    pub fn height(&self) -> (r: i32)
        requires
            i32::MIN <= self.bottom - self.top <= i32::MAX,
        ensures
            r == self.bottom - self.top,
    {
        self.bottom - self.top
    }
}

/// A window's areas, styles and borders as the platform reports them.
#[derive(Debug, Default, Clone, Copy)]
pub struct WindowInfo {
    pub size: u32,
    pub window: RECT,
    pub client: RECT,
    pub style: u32,
    pub ex_style: u32,
    pub window_status: u32,
    pub window_borders_x: u32,
    pub window_borders_y: u32,
    pub window_type: u16,
    pub creator_version: u16,
}

/// An axis-aligned rectangle with non-negative origin and size.
#[derive(Debug, Copy, Clone, PartialEq, Eq)]
pub struct Rect {
    pub x: usize,
    pub y: usize,
    pub width: usize,
    pub height: usize,
}

impl Rect {
    pub fn default() -> (r: Rect)
        ensures
            r == (Rect { x: 0, y: 0, width: 0, height: 0 }),
    {
        Rect { x: 0, y: 0, width: 0, height: 0 }
    }

    pub fn new(x: usize, y: usize, width: usize, height: usize) -> (r: Rect)
        ensures
            r == (Rect { x, y, width, height }),
    {
        Rect { x, y, width, height }
    }

    pub fn right(&self) -> (r: usize)
        requires
            self.x + self.width <= usize::MAX,
        ensures
            r == self.x + self.width,
    {
        self.x + self.width
    }

    pub fn bottom(&self) -> (r: usize)
        requires
            self.y + self.height <= usize::MAX,
        ensures
            r == self.y + self.height,
    {
        self.y + self.height
    }

    /// Whether the two rectangles share interior area.
    pub fn intersects(&self, other: Rect) -> (r: bool)
        requires
            self.x + self.width <= usize::MAX,
            self.y + self.height <= usize::MAX,
            other.x + other.width <= usize::MAX,
            other.y + other.height <= usize::MAX,
        ensures
            r == (self.x < other.x + other.width && other.x < self.x + self.width && self.y
                < other.y + other.height && other.y < self.y + self.height),
    {
        self.x < other.x + other.width && self.x + self.width > other.x && self.y < other.y
            + other.height && self.y + self.height > other.y
    }

    /// The rectangle shrunk by `w` on the left and right and by `h` on the
    /// top and bottom.
    pub fn inner(&self, w: usize, h: usize) -> (r: Rect)
        requires
            self.x + w <= usize::MAX,
            self.y + h <= usize::MAX,
            2 * w <= self.width,
            2 * h <= self.height,
        ensures
            r == (Rect {
                x: (self.x + w) as usize,
                y: (self.y + h) as usize,
                width: (self.width - 2 * w) as usize,
                height: (self.height - 2 * h) as usize,
            }),
    {
        Rect { x: self.x + w, y: self.y + h, width: self.width - 2 * w, height: self.height - 2 * h }
    }

    /// The size of a platform rectangle, placed at the origin. A negative
    /// extent wraps as the cast to `usize` does.
    pub fn from_windows(rect: RECT) -> (r: Rect)
        requires
            i32::MIN <= rect.right - rect.left <= i32::MAX,
            i32::MIN <= rect.bottom - rect.top <= i32::MAX,
        ensures
            r.x == 0,
            r.y == 0,
            r.width == (rect.right - rect.left) as usize,
            r.height == (rect.bottom - rect.top) as usize,
    {
        Rect {
            x: 0,
            y: 0,
            width: (rect.right - rect.left) as usize,
            height: (rect.bottom - rect.top) as usize,
        }
    }
}

/// The low 16 bits of a 32-bit value.
pub fn LOWORD(l: u32) -> (r: u16)
    ensures
        r == l % 0x1_0000,
{
    let r = (l & 0xffff) as u16;
    assert(r == l % 0x1_0000) by (bit_vector)
        requires
            r == (l & 0xffff) as u16,
    ;
    r
}

/// The high 16 bits of a 32-bit value.
pub fn HIWORD(l: u32) -> (r: u16)
    ensures
        r == l / 0x1_0000,
{
    let r = ((l >> 16u32) & 0xffff) as u16;
    assert(r == l / 0x1_0000) by (bit_vector)
        requires
            r == ((l >> 16u32) & 0xffff) as u16,
    ;
    r
}

} // verus!
