use crate::geometry::POINT;
use vstd::prelude::*;

verus! {

pub const WM_CREATE: u32 = 0x0001;
pub const WM_DESTROY: u32 = 0x0002;
pub const WM_CLOSE: u32 = 0x0010;
pub const WM_DPICHANGED: u32 = 0x02E0;
pub const WM_USER: u32 = 0x0400;

pub const WM_LBUTTONDOWN: u32 = 0x0201;
pub const WM_LBUTTONUP: u32 = 0x0202;
pub const WM_LBUTTONDBLCLK: u32 = 0x0203;
pub const WM_RBUTTONDOWN: u32 = 0x0204;
pub const WM_RBUTTONUP: u32 = 0x0205;
pub const WM_RBUTTONDBLCLK: u32 = 0x0206;
pub const WM_MBUTTONDOWN: u32 = 0x0207;
pub const WM_MBUTTONUP: u32 = 0x0208;
pub const WM_MBUTTONDBLCLK: u32 = 0x0209;
pub const WM_MOUSEWHEEL: u32 = 0x020A;
pub const WM_XBUTTONDOWN: u32 = 0x020B;
pub const WM_XBUTTONUP: u32 = 0x020C;
pub const WM_XBUTTONDBLCLK: u32 = 0x020D;

pub const PM_REMOVE: u32 = 0x0001;

pub const SWP_NOSIZE: u32 = 0x0001;
pub const SWP_NOMOVE: u32 = 0x0002;
pub const SWP_NOZORDER: u32 = 0x0004;
pub const SWP_NOACTIVATE: u32 = 0x0010;
pub const SWP_FRAMECHANGED: u32 = 0x0020;

/// A message taken from a thread's message queue.
#[derive(Debug, Default, Clone, Copy)]
pub struct MSG {
    pub hwnd: isize,
    pub message: u32,
    pub w_param: usize,
    pub l_param: isize,
    pub time: u32,
    pub pt: POINT,
}

/// Bits 16 to 31 of a parameter word.
pub open spec fn word_above_16(v: int) -> int {
    (v / 0x1_0000) % 0x1_0000
}

/// Bits 0 to 15 of a parameter word.
pub open spec fn word_below_16(v: int) -> int {
    v % 0x1_0000
}

impl MSG {
    /// Bits 16 to 31 of `l_param`.
    #[inline]
    pub fn low_order_l(&self) -> (r: isize)
        ensures
            r == word_above_16(self.l_param as int),
    {
        let l = self.l_param;
        let r = (l >> 16isize) & 0xFFFF;
        assert(r == (l / 0x1_0000) % 0x1_0000) by (bit_vector)
            requires
                r == (l >> 16isize) & 0xFFFF,
        ;
        r
    }

    /// Bits 0 to 15 of `l_param`.
    #[inline]
    pub fn high_order_l(&self) -> (r: isize)
        ensures
            r == word_below_16(self.l_param as int),
    {
        let l = self.l_param;
        let r = l & 0xFFFF;
        assert(r == l % 0x1_0000) by (bit_vector)
            requires
                r == l & 0xFFFF,
        ;
        r
    }

    /// Bits 16 to 31 of `w_param`.
    #[inline]
    pub fn low_order_w(&self) -> (r: usize)
        ensures
            r == word_above_16(self.w_param as int),
    {
        let w = self.w_param;
        let r = (w >> 16usize) & 0xFFFF;
        assert(r == (w / 0x1_0000) % 0x1_0000) by (bit_vector)
            requires
                r == (w >> 16usize) & 0xFFFF,
        ;
        r
    }

    /// Bits 0 to 15 of `w_param`.
    #[inline]
    pub fn high_order_w(&self) -> (r: usize)
        ensures
            r == word_below_16(self.w_param as int),
    {
        let w = self.w_param;
        let r = w & 0xFFFF;
        assert(r == w % 0x1_0000) by (bit_vector)
            requires
                r == w & 0xFFFF,
        ;
        r
    }

    /// An empty message: every field zero.
    pub fn new() -> (r: MSG)
        ensures
            r == (MSG {
                hwnd: 0,
                message: 0,
                w_param: 0,
                l_param: 0,
                time: 0,
                pt: POINT { x: 0, y: 0 },
            }),
    {
        MSG { hwnd: 0, message: 0, w_param: 0, l_param: 0, time: 0, pt: POINT { x: 0, y: 0 } }
    }
}

} // verus!
