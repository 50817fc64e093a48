use crate::event::Event;
use crate::geometry::RECT;
use crate::message::{
    SWP_FRAMECHANGED, SWP_NOACTIVATE, SWP_NOZORDER, WM_CLOSE, WM_DESTROY, WM_DPICHANGED,
};
use crossbeam_queue::SegQueue;
use vstd::arithmetic::div_mod::lemma_fundamental_div_mod_converse;
use vstd::prelude::*;

verus! {

#[verifier::external_type_specification]
#[verifier::external_body]
#[verifier::reject_recursive_types(T)]
pub struct ExSegQueue<T>(SegQueue<T>);

/// The events held by a queue, oldest first.
pub uninterp spec fn queued(q: SegQueue<Event>) -> Seq<Event>;

/// Relies on crossbeam_queue::SegQueue::new: a new queue is empty.
#[verifier::external_body]
fn new_queue() -> (q: SegQueue<Event>)
    ensures
        queued(q) == Seq::<Event>::empty(),
{
    SegQueue::new()
}

/// Relies on crossbeam_queue::SegQueue::push: the event joins the tail.
#[verifier::external_body]
fn push_event(q: &mut SegQueue<Event>, e: Event)
    ensures
        queued(*final(q)) == queued(*old(q)).push(e),
{
    q.push(e)
}

/// Relies on crossbeam_queue::SegQueue::pop: the head leaves the queue, and
/// an empty queue gives `None`.
#[verifier::external_body]
fn pop_event(q: &mut SegQueue<Event>) -> (r: Option<Event>)
    ensures
        queued(*old(q)).len() == 0 ==> r is None && queued(*final(q)) == queued(*old(q)),
        queued(*old(q)).len() > 0 ==> r == Some(queued(*old(q))[0]) && queued(*final(q))
            == queued(*old(q)).drop_first(),
{
    q.pop()
}

/// The DPI at which one logical pixel is one physical pixel.
pub const DEFAULT_DPI: u32 = 96;

/// A native window. Its display scale is `dpi / 96`.
pub struct Window {
    pub hwnd: isize,
    pub screen_mouse_pos: (i32, i32),
    pub dpi: u32,
    pub queue: SegQueue<Event>,
}

/// Where and how to place a window with `SetWindowPos`.
#[derive(Debug, Clone, Copy, PartialEq, Eq, Structural)]
pub struct WindowPos {
    pub x: i32,
    pub y: i32,
    pub width: i32,
    pub height: i32,
    pub flags: u32,
}

/// What the window procedure does with a message for a registered window.
#[derive(Debug, Clone, Copy, PartialEq, Eq, Structural)]
pub enum ProcAction {
    /// The message was handled: return 0 without default processing.
    Handled,
    /// The DPI changed: read the suggested rectangle and the client area,
    /// hand them to `Window::on_dpi_changed`, then return 0.
    Rescale,
    /// Leave the message to the default window procedure.
    Default,
}

/// Whether a message asks the window to close.
pub open spec fn is_close(msg: u32) -> bool {
    msg == WM_CLOSE || msg == WM_DESTROY
}

/// The queue after the window procedure has seen `msg`.
pub open spec fn queue_after(q: Seq<Event>, msg: u32) -> Seq<Event> {
    if is_close(msg) {
        q.push(Event::Quit)
    } else {
        q
    }
}

/// The queue after the window procedure has seen each of `msgs` in turn.
pub open spec fn queue_after_all(q: Seq<Event>, msgs: Seq<u32>) -> Seq<Event>
    decreases msgs.len(),
{
    if msgs.len() == 0 {
        q
    } else {
        queue_after_all(queue_after(q, msgs[0]), msgs.drop_first())
    }
}

/// `n / d` rounded to the nearest integer, halves away from zero.
pub open spec fn round_div(n: int, d: int) -> int
    recommends
        d > 0,
{
    if n >= 0 {
        (2 * n + d) / (2 * d)
    } else {
        -((d - 2 * n) / (2 * d))
    }
}

/// `n / d` rounded toward zero.
pub open spec fn trunc_div(n: int, d: int) -> int
    recommends
        d > 0,
{
    if n >= 0 {
        n / d
    } else {
        -((-n) / d)
    }
}

/// `v` clamped to the range of `i32`.
pub open spec fn saturate(v: int) -> i32 {
    if v > i32::MAX {
        i32::MAX
    } else if v < i32::MIN {
        i32::MIN
    } else {
        v as i32
    }
}

/// A client extent measured at `old_dpi`, brought to `new_dpi`: the
/// logical size `size / (old_dpi / 96)` times the new scale `new_dpi / 96`,
/// rounded to the nearest integer. At a new scale of 1 this is the logical
/// size itself.
pub open spec fn dpi_rescaled(size: int, old_dpi: int, new_dpi: int) -> i32 {
    saturate(round_div(size * new_dpi, old_dpi))
}

/// An extent at scale 1 brought to `dpi`, with the fraction cut off.
pub open spec fn dpi_scaled(size: int, dpi: int) -> i32 {
    saturate(trunc_div(size * dpi, DEFAULT_DPI as int))
}

/// The DPI carried in the high word of a DPI-change notification's `w_param`.
pub open spec fn notified_dpi(w_param: usize) -> int {
    (w_param as int / 0x1_0000) % 0x1_0000
}

/// `n / d` rounded to the nearest integer, halves away from zero.
fn round_div_exec(n: i128, d: i128) -> (r: i128)
    requires
        0 < d < 0x1_0000_0000_0000_0000,
        -0x10_0000_0000_0000_0000_0000_0000 < n < 0x10_0000_0000_0000_0000_0000_0000,
    ensures
        r == round_div(n as int, d as int),
{
    if n >= 0 {
        (2 * n + d) / (2 * d)
    } else {
        let m = d - 2 * n;
        -(m / (2 * d))
    }
}

/// `n / d` rounded toward zero.
fn trunc_div_exec(n: i128, d: i128) -> (r: i128)
    requires
        d > 0,
        -0x10_0000_0000_0000_0000_0000_0000 < n < 0x10_0000_0000_0000_0000_0000_0000,
    ensures
        r == trunc_div(n as int, d as int),
{
    if n >= 0 {
        n / d
    } else {
        let m = -n;
        -(m / d)
    }
}

fn saturate_exec(v: i128) -> (r: i32)
    ensures
        r == saturate(v as int),
{
    if v > i32::MAX as i128 {
        i32::MAX
    } else if v < i32::MIN as i128 {
        i32::MIN
    } else {
        v as i32
    }
}

/// An extent given by two edges, widened so that it cannot overflow.
fn extent(low: i32, high: i32) -> (r: i64)
    ensures
        r == high - low,
{
    high as i64 - low as i64
}

proof fn lemma_product_bound(size: int, dpi: int)
    requires
        i64::MIN <= size <= i64::MAX,
        0 <= dpi <= u32::MAX,
    ensures
        -0x10_0000_0000_0000_0000_0000_0000 < size * dpi < 0x10_0000_0000_0000_0000_0000_0000,
{
    assert(-0x8000_0000_0000_0000 * 0x1_0000_0000 <= size * dpi <= 0x8000_0000_0000_0000
        * 0x1_0000_0000) by (nonlinear_arith)
        requires
            i64::MIN <= size <= i64::MAX,
            0 <= dpi <= u32::MAX,
    ;
}

/// A client extent measured at `old_dpi`, brought to `new_dpi`.
pub fn rescale_extent(size: i64, old_dpi: u32, new_dpi: u32) -> (r: i32)
    requires
        old_dpi > 0,
    ensures
        r == dpi_rescaled(size as int, old_dpi as int, new_dpi as int),
{
    proof {
        lemma_product_bound(size as int, new_dpi as int);
    }
    let n = (size as i128) * (new_dpi as i128);
    saturate_exec(round_div_exec(n, old_dpi as i128))
}

/// An extent at scale 1 brought to `dpi`, with the fraction cut off.
pub fn scale_extent(size: i64, dpi: u32) -> (r: i32)
    ensures
        r == dpi_scaled(size as int, dpi as int),
{
    proof {
        lemma_product_bound(size as int, dpi as int);
    }
    let n = (size as i128) * (dpi as i128);
    saturate_exec(trunc_div_exec(n, DEFAULT_DPI as i128))
}

impl Window {
    /// The events waiting in the window's queue, oldest first.
    pub open spec fn queued_events(&self) -> Seq<Event> {
        queued(self.queue)
    }

    pub open spec fn wf(&self) -> bool {
        self.dpi > 0
    }

    /// A window with an empty queue for the native window `hwnd`, shown at
    /// `dpi`.
    pub fn new(hwnd: isize, dpi: u32) -> (r: Window)
        requires
            dpi > 0,
        ensures
            r.hwnd == hwnd,
            r.dpi == dpi,
            r.screen_mouse_pos == (0i32, 0i32),
            r.queued_events() == Seq::<Event>::empty(),
            r.wf(),
    {
        Window { hwnd, screen_mouse_pos: (0, 0), dpi, queue: new_queue() }
    }

    /// The oldest event that the window procedure queued, taken off the
    /// queue. Queued events come before any message still waiting in the
    /// platform's queue: `None` means the caller goes on to retrieve one.
    pub fn event(&mut self) -> (r: Option<Event>)
        ensures
            old(self).queued_events().len() > 0 ==> r == Some(old(self).queued_events()[0])
                && final(self).queued_events() == old(self).queued_events().drop_first(),
            old(self).queued_events().len() == 0 ==> r is None && final(self).queued_events()
                == old(self).queued_events(),
            final(self).hwnd == old(self).hwnd,
            final(self).dpi == old(self).dpi,
            final(self).screen_mouse_pos == old(self).screen_mouse_pos,
    {
        pop_event(&mut self.queue)
    }

    /// The window procedure's decision for a message addressed to this
    /// window. A close or destroy request queues `Quit` and suppresses the
    /// default teardown.
    pub fn handle_message(&mut self, msg: u32) -> (r: ProcAction)
        ensures
            final(self).queued_events() == queue_after(old(self).queued_events(), msg),
            r == (if is_close(msg) {
                ProcAction::Handled
            } else if msg == WM_DPICHANGED {
                ProcAction::Rescale
            } else {
                ProcAction::Default
            }),
            final(self).hwnd == old(self).hwnd,
            final(self).dpi == old(self).dpi,
            final(self).screen_mouse_pos == old(self).screen_mouse_pos,
    {
        if msg == WM_DESTROY || msg == WM_CLOSE {
            push_event(&mut self.queue, Event::Quit);
            ProcAction::Handled
        } else if msg == WM_DPICHANGED {
            ProcAction::Rescale
        } else {
            ProcAction::Default
        }
    }

    /// Handles a DPI-change notification. The logical size is the current
    /// client size divided by the old scale, since the notification comes
    /// before the platform resizes the window; the target is that size at
    /// the new scale, placed at the suggested position without changing
    /// z-order or activation. The new DPI is then the window's. A
    /// notification of DPI 0 carries no scale and is ignored.
    pub fn on_dpi_changed(&mut self, w_param: usize, suggested: &RECT, client: &RECT) -> (r:
        Option<WindowPos>)
        requires
            old(self).wf(),
        ensures
            final(self).wf(),
            final(self).queued_events() == old(self).queued_events(),
            final(self).hwnd == old(self).hwnd,
            final(self).screen_mouse_pos == old(self).screen_mouse_pos,
            notified_dpi(w_param) == 0 ==> r is None && final(self).dpi == old(self).dpi,
            notified_dpi(w_param) != 0 ==> final(self).dpi == notified_dpi(w_param) && r == Some(
                WindowPos {
                    x: suggested.left,
                    y: suggested.top,
                    width: dpi_rescaled(
                        client.right - client.left,
                        old(self).dpi as int,
                        notified_dpi(w_param),
                    ),
                    height: dpi_rescaled(
                        client.bottom - client.top,
                        old(self).dpi as int,
                        notified_dpi(w_param),
                    ),
                    flags: SWP_NOZORDER | SWP_NOACTIVATE,
                },
            ),
    {
        let dpi = (w_param >> 16usize) & 0xffff;
        assert(dpi == (w_param / 0x1_0000) % 0x1_0000 && dpi <= 0xffff) by (bit_vector)
            requires
                dpi == (w_param >> 16usize) & 0xffff,
        ;
        if dpi == 0 {
            return None;
        }
        let dpi = dpi as u32;
        let width = rescale_extent(extent(client.left, client.right), self.dpi, dpi);
        let height = rescale_extent(extent(client.top, client.bottom), self.dpi, dpi);
        self.dpi = dpi;
        Some(
            WindowPos {
                x: suggested.left,
                y: suggested.top,
                width,
                height,
                flags: SWP_NOZORDER | SWP_NOACTIVATE,
            },
        )
    }

    /// Brings a client area measured at scale 1 to the window's scale,
    /// keeping its position and refreshing the frame.
    pub fn rescale_window(&self, area: &RECT) -> (r: WindowPos)
        ensures
            r == (WindowPos {
                x: area.left,
                y: area.top,
                width: dpi_scaled(area.right - area.left, self.dpi as int),
                height: dpi_scaled(area.bottom - area.top, self.dpi as int),
                flags: SWP_FRAMECHANGED,
            }),
    {
        WindowPos {
            x: area.left,
            y: area.top,
            width: scale_extent(extent(area.left, area.right), self.dpi),
            height: scale_extent(extent(area.top, area.bottom), self.dpi),
            flags: SWP_FRAMECHANGED,
        }
    }

    /// The placement that brings a newly created window to its monitor's
    /// scale; none where the scale is 1.
    pub fn initial_placement(&self, area: &RECT) -> (r: Option<WindowPos>)
        ensures
            self.dpi == DEFAULT_DPI ==> r is None,
            self.dpi != DEFAULT_DPI ==> r == Some(
                WindowPos {
                    x: area.left,
                    y: area.top,
                    width: dpi_scaled(area.right - area.left, self.dpi as int),
                    height: dpi_scaled(area.bottom - area.top, self.dpi as int),
                    flags: SWP_FRAMECHANGED,
                },
            ),
    {
        if self.dpi == DEFAULT_DPI {
            None
        } else {
            Some(self.rescale_window(area))
        }
    }
}

/// Each close or destroy request that reaches the window procedure queues
/// exactly one `Quit`, behind what was queued before and in the order the
/// requests came.
pub proof fn lemma_quit_per_close(q: Seq<Event>, msgs: Seq<u32>)
    requires
        forall|i: int| 0 <= i < msgs.len() ==> is_close(#[trigger] msgs[i]),
    ensures
        queue_after_all(q, msgs) == q + Seq::new(msgs.len(), |i: int| Event::Quit),
    decreases msgs.len(),
{
    if msgs.len() == 0 {
        assert(q + Seq::new(0, |i: int| Event::Quit) =~= q);
    } else {
        let rest = msgs.drop_first();
        assert(is_close(msgs[0]));
        assert forall|i: int| 0 <= i < rest.len() implies is_close(#[trigger] rest[i]) by {
            assert(rest[i] == msgs[i + 1]);
        }
        lemma_quit_per_close(q.push(Event::Quit), rest);
        assert(q.push(Event::Quit) + Seq::new(rest.len(), |i: int| Event::Quit) =~= q + Seq::new(
            msgs.len(),
            |i: int| Event::Quit,
        ));
    }
}

/// A DPI-change notification to the DPI that the window already has leaves
/// its client size as it is, so applying it twice changes nothing either.
/// A change to scale 1 targets the logical size, the current size divided
/// by the old scale, rounded.
pub proof fn lemma_rescale_same_dpi(size: int, dpi: int)
    requires
        dpi > 0,
        i32::MIN <= size <= i32::MAX,
    ensures
        dpi_rescaled(size, dpi, dpi) == size,
        dpi_rescaled(dpi_rescaled(size, dpi, dpi) as int, dpi, dpi) == size,
        dpi_rescaled(size, dpi, DEFAULT_DPI as int) == saturate(
            round_div(size * DEFAULT_DPI as int, dpi),
        ),
{
    let n = size * dpi;
    if size >= 0 {
        assert(n >= 0) by (nonlinear_arith)
            requires
                size >= 0,
                dpi > 0,
                n == size * dpi,
        ;
        assert(2 * n + dpi == size * (2 * dpi) + dpi) by (nonlinear_arith)
            requires
                n == size * dpi,
        ;
        lemma_fundamental_div_mod_converse(2 * n + dpi, 2 * dpi, size, dpi);
    } else {
        assert(n < 0) by (nonlinear_arith)
            requires
                size < 0,
                dpi > 0,
                n == size * dpi,
        ;
        assert(dpi - 2 * n == (-size) * (2 * dpi) + dpi) by (nonlinear_arith)
            requires
                n == size * dpi,
        ;
        lemma_fundamental_div_mod_converse(dpi - 2 * n, 2 * dpi, -size, dpi);
    }
}

pub const WS_POPUP: u32 = 0x8000_0000;
pub const WS_VISIBLE: u32 = 0x1000_0000;
pub const WS_CAPTION: u32 = 0x00C0_0000;
pub const WS_SYSMENU: u32 = 0x0008_0000;
pub const WS_THICKFRAME: u32 = 0x0004_0000;
pub const WS_MINIMIZEBOX: u32 = 0x0002_0000;
pub const WS_MAXIMIZEBOX: u32 = 0x0001_0000;

/// The style of an ordinary, visible, resizable window with a title bar.
pub const DEFAULT_STYLE: u32 = WS_CAPTION | WS_SYSMENU | WS_THICKFRAME | WS_MINIMIZEBOX
    | WS_MAXIMIZEBOX | WS_VISIBLE;

/// The style of a visible window without border or title bar.
pub const BORDERLESS_STYLE: u32 = WS_POPUP | WS_VISIBLE;

/// Style and extended style flags for creating a window.
#[derive(Debug, Clone, Copy, PartialEq, Eq, Structural)]
pub struct WindowStyle {
    pub style: u32,
    pub exstyle: u32,
}

impl WindowStyle {
    /// A visible window without border or title bar.
    pub fn borderless() -> (r: WindowStyle)
        ensures
            r == (WindowStyle { style: BORDERLESS_STYLE, exstyle: 0 }),
    {
        WindowStyle { style: BORDERLESS_STYLE, exstyle: 0 }
    }

    /// These flags added to the extended style.
    pub fn ex_style(self, flags: u32) -> (r: WindowStyle)
        ensures
            r == (WindowStyle { exstyle: self.exstyle | flags, ..self }),
    {
        let mut s = self;
        s.exstyle = s.exstyle | flags;
        s
    }

    /// These flags added to the style.
    pub fn style(self, flags: u32) -> (r: WindowStyle)
        ensures
            r == (WindowStyle { style: self.style | flags, ..self }),
    {
        let mut s = self;
        s.style = s.style | flags;
        s
    }
}

impl Default for WindowStyle {
    /// An ordinary, visible, resizable window with a title bar.
    fn default() -> (r: WindowStyle)
        ensures
            r == (WindowStyle { style: DEFAULT_STYLE, exstyle: 0 }),
    {
        WindowStyle { style: DEFAULT_STYLE, exstyle: 0 }
    }
}

} // verus!
