use embedded_graphics::framebuffer::Framebuffer;
use embedded_graphics::geometry::{Point, Size};
use embedded_graphics::image::GetPixel;
use embedded_graphics::mono_font::ascii::{FONT_6X13, FONT_9X18};
use embedded_graphics::mono_font::{MonoFont, MonoTextStyle};
use embedded_graphics::pixelcolor::raw::{BigEndian, RawU1};
use embedded_graphics::pixelcolor::BinaryColor;
use embedded_graphics::primitives::{Primitive, PrimitiveStyle, Rectangle};
use embedded_graphics::text::Text;
use embedded_graphics::{Drawable, Pixel};
use keypoint::connection::BleState;
use keypoint::lpm009m360a::{Lpm009m360a, PanelRot, FRAMEBUFFER_LEN};
use keypoint::renderers::{
    blit, capy_frame, draw_battery, fill_rect, make_snap, number_label, render_ui, shown_battery, txt,
    BatteryFilter, BatteryStatus, CapyClock, LeftScreen, RenderContext, RightScreen, UiSnap,
    UiState, BT_ICON, CAPY_INTERVAL_MS, LEFT_SALT, RIGHT_SALT,
};

type Canvas = Framebuffer<BinaryColor, RawU1, BigEndian, 72, 144, 1296>;

const ON: PrimitiveStyle<BinaryColor> = PrimitiveStyle::with_fill(BinaryColor::On);
const OFF: PrimitiveStyle<BinaryColor> = PrimitiveStyle::with_fill(BinaryColor::Off);

fn canvas() -> Canvas {
    Framebuffer::new()
}

fn write(c: &mut Canvas, s: &str, x: i32, y: i32, font: &'static MonoFont<'static>) {
    Text::new(s, Point::new(x, y), MonoTextStyle::new(font, BinaryColor::On)).draw(c).unwrap();
}

fn rect(c: &mut Canvas, x: i32, y: i32, w: u32, h: u32, style: PrimitiveStyle<BinaryColor>) {
    Rectangle::new(Point::new(x, y), Size::new(w, h)).into_styled(style).draw(c).unwrap();
}

fn stamp(c: &mut Canvas, bits: &[u8], w: i32, h: i32, stride: usize, x0: i32, y0: i32) {
    for row in 0..h {
        for col in 0..w {
            let b = bits[row as usize * stride + col as usize / 8];
            if b & (0x80 >> (col as usize % 8)) != 0 {
                Pixel(Point::new(x0 + col, y0 + row), BinaryColor::On).draw(c).unwrap();
            }
        }
    }
}

fn panel() -> Lpm009m360a {
    Lpm009m360a::new([0xFF; FRAMEBUFFER_LEN], PanelRot::R270)
}

fn same(panel: &Lpm009m360a, c: &Canvas) -> bool {
    for y in 0..144 {
        for x in 0..72 {
            let want = c.pixel(Point::new(x, y)) == Some(BinaryColor::On);
            if panel.is_lit(x, y) != want {
                println!("differs at {} {}", x, y);
                return false;
            }
        }
    }
    true
}

/// The first clock reading at which `ms` milliseconds have passed.
fn at(ms: u64) -> u64 {
    (ms * 32768 + 999) / 1000
}

fn frames() -> [[u8; 1080]; 9] {
    let mut f = [[0u8; 1080]; 9];
    for (i, frame) in f.iter_mut().enumerate() {
        for (j, b) in frame.iter_mut().enumerate() {
            *b = ((i * 31 + j * 7) % 251) as u8;
        }
    }
    f
}

fn context() -> RenderContext {
    RenderContext {
        central_connected: true,
        ble_state: BleState::Connected,
        profile: 2,
        battery: BatteryStatus::Available { level: Some(68) },
        layer: 1,
    }
}

fn lit(panel: &Lpm009m360a) -> usize {
    (0..144).map(|y| (0..72).filter(|x| panel.is_lit(*x, y)).count()).sum()
}

#[test]
fn rectangles_are_filled_and_cleared() {
    let mut p = panel();
    fill_rect(&mut p, 3, 4, 5, 6, true);
    assert_eq!(lit(&p), 30);
    fill_rect(&mut p, 4, 5, 3, 4, false);
    assert_eq!(lit(&p), 18);
    let mut c = canvas();
    rect(&mut c, 3, 4, 5, 6, ON);
    rect(&mut c, 4, 5, 3, 4, OFF);
    assert!(same(&p, &c));
    fill_rect(&mut p, -3, 140, 100, 100, true);
    rect(&mut c, -3, 140, 100, 100, ON);
    assert!(same(&p, &c));
}

#[test]
fn bitmaps_are_stamped() {
    let mut p = panel();
    blit(&mut p, &BT_ICON, 9, 14, 2, 1, 2, 2);
    let mut c = canvas();
    stamp(&mut c, &BT_ICON, 9, 14, 2, 2, 2);
    assert!(same(&p, &c));
    assert_eq!(lit(&p), BT_ICON.iter().map(|b| b.count_ones() as usize).sum::<usize>());
}

#[test]
fn bitmaps_are_enlarged() {
    let mut p = panel();
    blit(&mut p, &[0b1010_0000, 0b0100_0000], 3, 2, 1, 4, 10, 20);
    let mut c = canvas();
    rect(&mut c, 10, 20, 4, 4, ON);
    rect(&mut c, 18, 20, 4, 4, ON);
    rect(&mut c, 14, 24, 4, 4, ON);
    assert!(same(&p, &c));
    let mut none = panel();
    blit(&mut none, &[0xFF], 8, 1, 1, 0, 10, 20);
    blit(&mut none, &[0xFF], -8, 1, 1, 4, 10, 20);
    blit(&mut none, &[], 8, -1, 1, 4, 10, 20);
    assert_eq!(lit(&none), 0);
}

#[test]
fn text_is_drawn_in_both_fonts() {
    let mut p = panel();
    txt(&mut p, "68", 58, 12, false);
    txt(&mut p, "RAISE", 13, 134, true);
    let mut c = canvas();
    write(&mut c, "68", 58, 12, &FONT_6X13);
    write(&mut c, "RAISE", 13, 134, &FONT_9X18);
    assert!(same(&p, &c));
    assert!(lit(&p) > 50);
    let mut empty = panel();
    txt(&mut empty, "", 13, 12, false);
    assert_eq!(lit(&empty), 0);
}

#[test]
fn labels_are_decimal() {
    assert_eq!(number_label(Some(0)).as_str(), "0");
    assert_eq!(number_label(Some(68)).as_str(), "68");
    assert_eq!(number_label(Some(255)).as_str(), "255");
    assert_eq!(number_label(None).as_str(), "--");
}

#[test]
fn badges_tell_the_link() {
    let mut ctx = context();
    assert_eq!(ctx.badge_label().as_str(), "2");
    ctx.profile = 127;
    assert_eq!(ctx.badge_label().as_str(), "127");
    ctx.ble_state = BleState::Advertising;
    assert_eq!(ctx.badge_label().as_str(), "");
    ctx.ble_state = BleState::Inactive;
    assert_eq!(ctx.badge_label().as_str(), "");
    ctx.central_connected = false;
    assert_eq!(ctx.badge_label().as_str(), "-");
}

#[test]
fn layers_have_names() {
    let mut ctx = context();
    for (layer, name) in ["BASE", "RAISE", "LOWER", "FUNC", "MOUSE", "?"].iter().enumerate() {
        ctx.layer = layer as u8;
        assert_eq!(ctx.layer_name(), *name);
    }
    ctx.layer = 255;
    assert_eq!(ctx.layer_name(), "?");
}

fn expected(ctx: &RenderContext, bits: &[u8], badge: &str, number: &str, fill: u32, name: &str) -> Canvas {
    let mut c = canvas();
    stamp(&mut c, bits, 70, 120, 9, 1, 11);
    stamp(&mut c, &BT_ICON, 9, 14, 2, 2, 2);
    write(&mut c, badge, 13, 12, &FONT_6X13);
    let num_x = 70 - 6 * number.len() as i32;
    let bar_x = num_x - 25;
    rect(&mut c, bar_x, 3, 22, 11, ON);
    rect(&mut c, bar_x + 1, 4, 20, 9, OFF);
    if ctx.battery != BatteryStatus::Unavailable {
        rect(&mut c, bar_x + 2, 5, fill, 7, ON);
    }
    rect(&mut c, bar_x + 22, 6, 2, 5, ON);
    write(&mut c, number, num_x, 12, &FONT_6X13);
    write(&mut c, name, (72 - 9 * name.len() as i32) / 2, 134, &FONT_9X18);
    c
}

#[test]
fn the_whole_screen() {
    let f = frames();
    let ctx = context();
    let mut p = panel();
    p.fill_all(true);
    let mut filter = BatteryFilter::new();
    render_ui(&mut p, &mut filter, &ctx, &f, 3, 1000);
    assert!(same(&p, &expected(&ctx, &f[3], "2", "68", 12, "RAISE")));
    assert_eq!(filter.shown, 68);
}

#[test]
fn the_screen_without_link_and_battery() {
    let f = frames();
    let mut ctx = context();
    ctx.central_connected = false;
    ctx.battery = BatteryStatus::Unavailable;
    ctx.layer = 9;
    let mut p = panel();
    let mut filter = BatteryFilter::new();
    render_ui(&mut p, &mut filter, &ctx, &f, 8, 1000);
    assert!(same(&p, &expected(&ctx, &f[8], "-", "--", 0, "?")));
}

#[test]
fn the_bar_is_never_empty_nor_too_wide() {
    for (level, fill, number) in [(0u8, 1u32, "0"), (5, 1, "5"), (50, 9, "50"), (100, 18, "100"), (255, 18, "255")] {
        let mut p = panel();
        draw_battery(&mut p, Some(level));
        let mut c = canvas();
        let num_x = 70 - 6 * number.len() as i32;
        rect(&mut c, num_x - 25, 3, 22, 11, ON);
        rect(&mut c, num_x - 24, 4, 20, 9, OFF);
        rect(&mut c, num_x - 23, 5, fill, 7, ON);
        rect(&mut c, num_x - 3, 6, 2, 5, ON);
        write(&mut c, number, num_x, 12, &FONT_6X13);
        assert!(same(&p, &c));
    }
}

#[test]
fn animation_starts_from_the_chip_and_the_half() {
    let ids = [0xdead_beef, 1];
    assert_eq!(capy_frame(&mut CapyClock::new(), ids, LEFT_SALT, 0), 6);
    assert_eq!(capy_frame(&mut CapyClock::new(), ids, RIGHT_SALT, 0), 2);
    assert_eq!(capy_frame(&mut CapyClock::new(), [0, 0], LEFT_SALT, 7), 1);
    assert_eq!(capy_frame(&mut CapyClock::new(), [0x1234_5678, 0x9abc_def0], RIGHT_SALT, 7), 5);
}

#[test]
fn animation_moves_one_frame_per_interval() {
    let ids = [0, 0];
    let mut clock = CapyClock::new();
    assert_eq!(capy_frame(&mut clock, ids, LEFT_SALT, 5), 1);
    assert_eq!(capy_frame(&mut clock, ids, LEFT_SALT, 5 + 599_999), 1);
    assert_eq!(capy_frame(&mut clock, ids, LEFT_SALT, 5 + 600_000), 2);
    let mut now = 600_005u64;
    for k in 0..9 {
        now += CAPY_INTERVAL_MS as u64;
        assert_eq!(capy_frame(&mut clock, ids, LEFT_SALT, now), (3 + k) % 9);
    }
    assert_eq!(capy_frame(&mut clock, ids, LEFT_SALT, now), 2);
}

#[test]
fn animation_survives_the_clock_wrap() {
    let mut clock = CapyClock { frame: 8, since: u32::MAX - 10 };
    let wrapped = 0x1_0000_0000u64 + 600_000 - 11;
    assert_eq!(capy_frame(&mut clock, [0, 0], LEFT_SALT, wrapped - 1), 8);
    assert_eq!(capy_frame(&mut clock, [0, 0], LEFT_SALT, wrapped), 0);
}

#[test]
fn first_sample_is_shown() {
    let mut f = BatteryFilter::new();
    assert_eq!(shown_battery(&mut f, None, 0), None);
    assert_eq!(f, BatteryFilter::new());
    assert_eq!(shown_battery(&mut f, Some(50), 0), Some(50));
    assert_eq!(shown_battery(&mut f, None, 10), None);
    assert_eq!(f.shown, 50);
}

#[test]
fn jumps_are_immediate() {
    let mut f = BatteryFilter::new();
    shown_battery(&mut f, Some(50), 0);
    assert_eq!(shown_battery(&mut f, Some(55), 1), Some(55));
    assert_eq!(shown_battery(&mut f, Some(40), 2), Some(40));
    assert_eq!(f.last_upd_ms, 0);
}

#[test]
fn small_changes_wait_for_the_gap() {
    let mut f = BatteryFilter::new();
    shown_battery(&mut f, Some(50), 0);
    assert_eq!(shown_battery(&mut f, Some(52), 119_999), Some(50));
    assert_eq!(shown_battery(&mut f, Some(53), 120_000), Some(53));
    assert_eq!(shown_battery(&mut f, Some(51), 239_999), Some(53));
    assert_eq!(shown_battery(&mut f, Some(50), 240_000), Some(50));
}

#[test]
fn single_steps_need_a_second_one() {
    let mut f = BatteryFilter::new();
    shown_battery(&mut f, Some(50), 0);
    assert_eq!(shown_battery(&mut f, Some(51), 200_000), Some(50));
    assert_eq!(f.trend, 1);
    assert_eq!(shown_battery(&mut f, Some(50), 210_000), Some(50));
    assert_eq!(f.trend, 2);
    assert_eq!(shown_battery(&mut f, Some(49), 220_000), Some(49));
    assert_eq!(f.trend, 0);
}

#[test]
fn a_larger_move_forgets_the_direction() {
    let mut f = BatteryFilter::new();
    shown_battery(&mut f, Some(50), 0);
    assert_eq!(shown_battery(&mut f, Some(51), 200_000), Some(50));
    assert_eq!(shown_battery(&mut f, Some(56), 210_000), Some(56));
    assert_eq!(f.trend, 0);
    assert_eq!(shown_battery(&mut f, Some(57), 400_000), Some(56));
    assert_eq!(shown_battery(&mut f, Some(58), 410_000), Some(58));
}

#[test]
fn rereading_a_sample_changes_nothing() {
    let mut f = BatteryFilter::new();
    shown_battery(&mut f, Some(50), 0);
    shown_battery(&mut f, Some(51), 200_000);
    let before = f;
    assert_eq!(shown_battery(&mut f, Some(51), 900_000), Some(50));
    assert_eq!(f, before);
}

#[test]
fn snapshots_hold_what_is_drawn() {
    let mut state = UiState::new();
    let ctx = context();
    let snap = make_snap(&mut state, &ctx, [0, 0], LEFT_SALT, 0);
    assert_eq!(
        snap,
        UiSnap { frame: 1, link_up: true, ble_state: 2, profile: 2, level: Some(68), layer: 1 }
    );
    assert_eq!(state.capy.frame, 1);
    assert_eq!(state.battery.shown, 68);
    let mut other = ctx;
    other.ble_state = BleState::Advertising;
    assert_eq!(make_snap(&mut state, &other, [0, 0], LEFT_SALT, 0).ble_state, 1);
    other.ble_state = BleState::Inactive;
    assert_eq!(make_snap(&mut state, &other, [0, 0], LEFT_SALT, 0).ble_state, 0);
}

#[test]
fn an_unchanged_screen_is_not_drawn_again() {
    let f = frames();
    let ctx = context();
    let mut state = UiState::new();
    let mut screen = LeftScreen { snap: None };
    let mut p = panel();
    assert!(screen.render(&mut state, &ctx, [0, 0], &f, &mut p, at(0)));
    assert!(same(&p, &expected(&ctx, &f[1], "2", "68", 12, "RAISE")));
    let drawn = p.fb;
    p.fill_all(true);
    assert!(!screen.render(&mut state, &ctx, [0, 0], &f, &mut p, at(1000)));
    assert!(p.fb.iter().all(|b| *b == 0));
    let mut next = ctx;
    next.layer = 2;
    assert!(screen.render(&mut state, &next, [0, 0], &f, &mut p, at(2000)));
    assert_ne!(p.fb, drawn);
    assert!(screen.render(&mut state, &ctx, [0, 0], &f, &mut p, at(3000)));
    assert_eq!(p.fb, drawn);
}

#[test]
fn the_halves_animate_out_of_step() {
    let f = frames();
    let ctx = context();
    let ids = [0xdead_beef, 1];
    let (mut left_state, mut right_state) = (UiState::new(), UiState::new());
    let (mut left, mut right) = (LeftScreen { snap: None }, RightScreen { snap: None });
    let (mut lp, mut rp) = (panel(), panel());
    assert!(left.render(&mut left_state, &ctx, ids, &f, &mut lp, at(0)));
    assert!(right.render(&mut right_state, &ctx, ids, &f, &mut rp, at(0)));
    assert_eq!(left.snap.unwrap().frame, 6);
    assert_eq!(right.snap.unwrap().frame, 2);
    assert!(same(&rp, &expected(&ctx, &f[2], "2", "68", 12, "RAISE")));
    assert!(!right.render(&mut right_state, &ctx, ids, &f, &mut rp, at(599_999)));
    assert!(right.render(&mut right_state, &ctx, ids, &f, &mut rp, at(600_000)));
    assert_eq!(right.snap.unwrap().frame, 3);
}
