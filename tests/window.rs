use window::message::{
    SWP_FRAMECHANGED, SWP_NOACTIVATE, SWP_NOZORDER, WM_CLOSE, WM_DESTROY, WM_DPICHANGED,
    WM_MOUSEWHEEL,
};
use window::window::{rescale_extent, scale_extent, BORDERLESS_STYLE, DEFAULT_STYLE};
use window::{Event, ProcAction, Window, WindowPos, WindowStyle, RECT};

fn dpi_param(dpi: usize) -> usize {
    dpi << 16
}

#[test]
fn new_window_has_empty_queue() {
    let mut w = Window::new(7, 96);
    assert_eq!(w.hwnd, 7);
    assert_eq!(w.dpi, 96);
    assert_eq!(w.event(), None);
}

#[test]
fn each_close_queues_one_quit_in_order() {
    let mut w = Window::new(1, 96);
    assert_eq!(w.handle_message(WM_CLOSE), ProcAction::Handled);
    assert_eq!(w.handle_message(WM_MOUSEWHEEL), ProcAction::Default);
    assert_eq!(w.handle_message(WM_DESTROY), ProcAction::Handled);
    assert_eq!(w.handle_message(WM_CLOSE), ProcAction::Handled);
    assert_eq!(w.event(), Some(Event::Quit));
    assert_eq!(w.event(), Some(Event::Quit));
    assert_eq!(w.event(), Some(Event::Quit));
    assert_eq!(w.event(), None);
}

#[test]
fn queued_event_comes_first() {
    let mut w = Window::new(1, 96);
    w.handle_message(WM_CLOSE);
    assert_eq!(w.event(), Some(Event::Quit));
    assert_eq!(w.event(), None);
}

#[test]
fn dpi_change_asks_for_rescale() {
    let mut w = Window::new(1, 96);
    assert_eq!(w.handle_message(WM_DPICHANGED), ProcAction::Rescale);
    assert_eq!(w.event(), None);
}

#[test]
fn dpi_change_scales_from_logical_size() {
    let mut w = Window::new(1, 96);
    let pos = w.on_dpi_changed(dpi_param(144), &RECT::new(50, 60, 0, 0), &RECT::new(0, 0, 800, 600));
    assert_eq!(
        pos,
        Some(WindowPos { x: 50, y: 60, width: 1200, height: 900, flags: SWP_NOZORDER | SWP_NOACTIVATE })
    );
    assert_eq!(w.dpi, 144);
    let back = w.on_dpi_changed(dpi_param(96), &RECT::new(0, 0, 0, 0), &RECT::new(0, 0, 1200, 900));
    assert_eq!(back.map(|p| (p.width, p.height)), Some((800, 600)));
    assert_eq!(w.dpi, 96);
}

#[test]
fn dpi_change_rounds_to_nearest() {
    let mut w = Window::new(1, 96);
    let pos = w.on_dpi_changed(dpi_param(144), &RECT::new(0, 0, 0, 0), &RECT::new(0, 0, 101, 33));
    assert_eq!(pos.map(|p| (p.width, p.height)), Some((152, 50)));
    assert_eq!(rescale_extent(101, 96, 144), 152);
    assert_eq!(rescale_extent(-101, 96, 144), -152);
    assert_eq!(rescale_extent(100, 120, 96), 80);
    assert_eq!(rescale_extent(101, 120, 96), 81);
}

#[test]
fn same_dpi_twice_keeps_size() {
    let mut w = Window::new(1, 120);
    let client = RECT::new(0, 0, 333, 777);
    let once = w.on_dpi_changed(dpi_param(120), &RECT::new(0, 0, 0, 0), &client).unwrap();
    assert_eq!((once.width, once.height), (333, 777));
    let again = w
        .on_dpi_changed(dpi_param(120), &RECT::new(0, 0, 0, 0), &RECT::new(0, 0, once.width, once.height))
        .unwrap();
    assert_eq!((again.width, again.height), (333, 777));
}

#[test]
fn dpi_zero_is_ignored() {
    let mut w = Window::new(1, 120);
    assert_eq!(w.on_dpi_changed(0x0000_ffff, &RECT::new(0, 0, 0, 0), &RECT::new(0, 0, 10, 10)), None);
    assert_eq!(w.dpi, 120);
}

#[test]
fn rescale_window_truncates() {
    let w = Window::new(1, 120);
    let pos = w.rescale_window(&RECT::new(3, 4, 103, 54));
    assert_eq!(pos, WindowPos { x: 3, y: 4, width: 125, height: 62, flags: SWP_FRAMECHANGED });
    let unit = Window::new(1, 96);
    assert_eq!(unit.rescale_window(&RECT::new(0, 0, 10, 20)).width, 10);
    assert_eq!(scale_extent(-5, 144), -7);
}

#[test]
fn initial_placement_only_off_scale_one() {
    let w = Window::new(1, 96);
    assert_eq!(w.initial_placement(&RECT::new(0, 0, 640, 480)), None);
    let hi = Window::new(1, 192);
    assert_eq!(
        hi.initial_placement(&RECT::new(0, 0, 640, 480)),
        Some(WindowPos { x: 0, y: 0, width: 1280, height: 960, flags: SWP_FRAMECHANGED })
    );
}

#[test]
fn huge_sizes_saturate() {
    assert_eq!(rescale_extent(i32::MAX as i64, 96, 0xffff), i32::MAX);
    assert_eq!(scale_extent(i32::MIN as i64, 0xffff), i32::MIN);
}

#[test]
fn window_styles() {
    let d = WindowStyle::default();
    assert_eq!(d.style, DEFAULT_STYLE);
    assert_eq!(d.exstyle, 0);
    assert_eq!(DEFAULT_STYLE, 0x10cf_0000);
    let b = WindowStyle::borderless();
    assert_eq!(b.style, BORDERLESS_STYLE);
    assert_eq!(BORDERLESS_STYLE, 0x9000_0000);
    let s = b.style(0x1).ex_style(0x8).ex_style(0x20);
    assert_eq!(s, WindowStyle { style: 0x9000_0001, exstyle: 0x28 });
}
