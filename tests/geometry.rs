use window::{Rect, GUID, HIWORD, LOWORD, MSG, RECT};

#[test]
fn guid_from_u128_splits_fields() {
    let g = GUID::from_u128(0x0123_4567_89ab_cdef_fedc_ba98_7654_3210);
    assert_eq!(g.data1, 0x0123_4567);
    assert_eq!(g.data2, 0x89ab);
    assert_eq!(g.data3, 0xcdef);
    assert_eq!(g.data4, [0xfe, 0xdc, 0xba, 0x98, 0x76, 0x54, 0x32, 0x10]);
}

#[test]
fn rect_default_and_new() {
    assert_eq!(Rect::default(), Rect::new(0, 0, 0, 0));
    let r = Rect::new(1, 2, 3, 4);
    assert_eq!((r.x, r.y, r.width, r.height), (1, 2, 3, 4));
}

#[test]
fn rect_right_and_bottom() {
    let r = Rect::new(10, 20, 30, 40);
    assert_eq!(r.right(), 40);
    assert_eq!(r.bottom(), 60);
}

#[test]
fn rect_intersects() {
    let a = Rect::new(0, 0, 10, 10);
    assert!(a.intersects(Rect::new(5, 5, 10, 10)));
    assert!(!a.intersects(Rect::new(10, 0, 5, 5)));
    assert!(!a.intersects(Rect::new(0, 10, 5, 5)));
    assert!(a.intersects(Rect::new(9, 9, 1, 1)));
}

#[test]
fn rect_inner_shrinks_each_side() {
    let r = Rect::new(10, 20, 100, 50).inner(5, 10);
    assert_eq!(r, Rect::new(15, 30, 90, 30));
}

#[test]
fn rect_from_windows_takes_size() {
    let r = Rect::from_windows(RECT::new(-10, 5, 90, 65));
    assert_eq!(r, Rect::new(0, 0, 100, 60));
}

#[test]
fn platform_rect_extent() {
    let r = RECT::new(-10, 5, 90, 65);
    assert_eq!(r.width(), 100);
    assert_eq!(r.height(), 60);
}

#[test]
fn words_of_u32() {
    assert_eq!(LOWORD(0x1234_5678), 0x5678);
    assert_eq!(HIWORD(0x1234_5678), 0x1234);
    assert_eq!(HIWORD(0xffff_0000), 0xffff);
}

#[test]
fn message_parameter_words() {
    let mut m = MSG::new();
    assert_eq!(m.message, 0);
    assert_eq!(m.l_param, 0);
    m.l_param = 0x1234_5678;
    m.w_param = 0x00a0_0078;
    assert_eq!(m.low_order_l(), 0x1234);
    assert_eq!(m.high_order_l(), 0x5678);
    assert_eq!(m.low_order_w(), 0x00a0);
    assert_eq!(m.high_order_w(), 0x0078);
    m.l_param = -1;
    assert_eq!(m.low_order_l(), 0xffff);
    assert_eq!(m.high_order_l(), 0xffff);
}
