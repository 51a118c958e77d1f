use webterm::framebuffer::{pack_rgb, Display, DISPLAY_HEIGHT, DISPLAY_WIDTH};
use webterm::pacer::{frame_interval_ms, pacer_tick, DirtyFlag, TickAction};

#[test]
fn pack_rgb_layout() {
    assert_eq!(pack_rgb((0x12, 0x34, 0x56)), 0x0012_3456);
    assert_eq!(pack_rgb((0xff, 0xff, 0xff)), 0x00ff_ffff);
    assert_eq!(pack_rgb((0, 0, 0)), 0);
    assert_eq!(pack_rgb((1, 0, 0)), 0x1_0000);
}

#[test]
fn default_display_is_black_1024_by_768() {
    let d = Display::default();
    assert_eq!(d.size(), (1024, 768));
    assert_eq!((DISPLAY_WIDTH, DISPLAY_HEIGHT), (1024, 768));
    assert_eq!(d.pixel(0, 0), 0);
    assert_eq!(d.pixel(1023, 767), 0);
}

#[test]
fn draw_pixel_sets_one_pixel() {
    let mut d = Display::new(4, 3);
    d.draw_pixel(2, 1, (0xaa, 0xbb, 0xcc));
    assert_eq!(d.pixel(2, 1), 0x00aa_bbcc);
    assert_eq!(d.pixel(1, 2), 0);
    let mut surface = vec![7u32; 12];
    d.copy_frame(&mut surface);
    let mut expected = vec![0u32; 12];
    expected[1 * 4 + 2] = 0x00aa_bbcc;
    assert_eq!(surface, expected);
}

#[test]
fn frame_interval_from_refresh_rate() {
    assert_eq!(frame_interval_ms(None), 16);
    assert_eq!(frame_interval_ms(Some(60000)), 16);
    assert_eq!(frame_interval_ms(Some(144000)), 6);
    assert_eq!(frame_interval_ms(Some(30000)), 33);
}

#[test]
fn many_marks_coalesce_into_one_frame() {
    let mut flag = DirtyFlag::new(false);
    for _ in 0..5 {
        flag.mark();
    }
    assert_eq!(pacer_tick(&mut flag), TickAction::Present);
    assert_eq!(pacer_tick(&mut flag), TickAction::Idle);
}

#[test]
fn mark_between_ticks_is_never_lost() {
    let mut flag = DirtyFlag::new(true);
    assert_eq!(pacer_tick(&mut flag), TickAction::Present);
    flag.mark();
    assert!(flag.get());
    assert_eq!(pacer_tick(&mut flag), TickAction::Present);
}

#[test]
fn tick_on_clear_flag_is_idle() {
    let mut flag = DirtyFlag::new(false);
    assert_eq!(pacer_tick(&mut flag), TickAction::Idle);
    assert!(!flag.get());
    assert!(!flag.test_and_clear());
}
