use keypoint::lpm009m360a::{
    frame_hash, Lpm009m360a, PanelRot, Pixel, Size, CMD_ALL_CLEAR, CMD_NO_UPDATE, CMD_UPDATE,
    FRAMEBUFFER_LEN, HEIGHT, WIDTH,
};

fn blank(rot: PanelRot) -> Lpm009m360a {
    Lpm009m360a::new([0xFF; FRAMEBUFFER_LEN], rot)
}

#[test]
fn canvas_sizes() {
    assert_eq!(PanelRot::R0.logical_size(), Size { width: 144, height: 72 });
    assert_eq!(PanelRot::R90.logical_size(), Size { width: 72, height: 144 });
    assert_eq!(PanelRot::R180.logical_size(), Size { width: 144, height: 72 });
    assert_eq!(PanelRot::R270.logical_size(), Size { width: 72, height: 144 });
    assert_eq!(blank(PanelRot::R270).size(), Size { width: 72, height: 144 });
}

#[test]
fn corners_map_to_the_panel() {
    assert_eq!(PanelRot::R0.to_native(0, 0), Some((0, 0)));
    assert_eq!(PanelRot::R90.to_native(0, 0), Some((143, 0)));
    assert_eq!(PanelRot::R180.to_native(0, 0), Some((143, 71)));
    assert_eq!(PanelRot::R270.to_native(0, 0), Some((0, 71)));
    assert_eq!(PanelRot::R270.to_native(71, 143), Some((143, 0)));
    assert_eq!(PanelRot::R0.to_native(144, 0), None);
    assert_eq!(PanelRot::R0.to_native(0, 72), None);
    assert_eq!(PanelRot::R90.to_native(72, 0), None);
}

#[test]
fn mapping_is_a_bijection() {
    for rot in [PanelRot::R0, PanelRot::R90, PanelRot::R180, PanelRot::R270] {
        let mut seen = vec![false; WIDTH * HEIGHT];
        let size = rot.logical_size();
        for y in 0..size.height as usize {
            for x in 0..size.width as usize {
                let (nx, ny) = rot.to_native(x, y).unwrap();
                assert!(!seen[ny * WIDTH + nx]);
                seen[ny * WIDTH + nx] = true;
            }
        }
        assert!(seen.iter().all(|s| *s));
    }
}

#[test]
fn pixels_land_in_the_native_layout() {
    let mut panel = blank(PanelRot::R0);
    panel.set_pixel(0, 0, true);
    assert_eq!(panel.fb[143 * 9], 0x7F);
    panel.set_pixel(143, 71, true);
    assert_eq!(panel.fb[8], 0xFE);
    assert!(panel.is_lit(0, 0));
    assert!(!panel.is_lit(1, 0));
    panel.set_pixel(0, 0, false);
    assert_eq!(panel.fb[143 * 9], 0xFF);
}

#[test]
fn points_outside_are_skipped() {
    let mut panel = blank(PanelRot::R90);
    let before = panel.fb;
    panel.draw_iter(&[
        Pixel { x: -1, y: 0, on: true },
        Pixel { x: 0, y: -1, on: true },
        Pixel { x: 72, y: 0, on: true },
        Pixel { x: 0, y: 144, on: true },
        Pixel { x: i32::MAX, y: i32::MIN, on: true },
    ]);
    assert_eq!(panel.fb, before);
    assert!(!panel.is_lit(-1, 0));
    assert!(!panel.is_lit(72, 0));
}

#[test]
fn the_last_write_counts() {
    let mut panel = blank(PanelRot::R270);
    panel.draw_iter(&[
        Pixel { x: 5, y: 6, on: true },
        Pixel { x: 7, y: 8, on: true },
        Pixel { x: 5, y: 6, on: false },
    ]);
    assert!(!panel.is_lit(5, 6));
    assert!(panel.is_lit(7, 8));
}

#[test]
fn fill_lights_and_blanks() {
    let mut panel = blank(PanelRot::R0);
    panel.fill_all(true);
    assert!(panel.fb.iter().all(|b| *b == 0x00));
    assert!(panel.is_lit(100, 50));
    panel.fill_all(false);
    assert!(panel.fb.iter().all(|b| *b == 0xFF));
    assert!(!panel.is_lit(100, 50));
}

#[test]
fn hashes_are_fnv1a() {
    assert_eq!(frame_hash(&[0x00; FRAMEBUFFER_LEN]), 0x02ac1d05);
    assert_eq!(frame_hash(&[0xFF; FRAMEBUFFER_LEN]), 0x1c8b1af5);
}

#[test]
fn flush_sends_every_line_once() {
    let mut panel = blank(PanelRot::R0);
    panel.set_pixel(0, 0, true);
    let flush = panel.flush_native().unwrap();
    assert_eq!(flush.frames.len(), 146);
    let mut sent: Vec<u8> = Vec::new();
    for (i, frame) in flush.frames.iter().enumerate().take(144) {
        assert_eq!(frame.cmd, CMD_UPDATE);
        assert_eq!(frame.arg as usize, i + 1);
        sent.extend(frame.data.unwrap());
    }
    assert_eq!(sent, panel.fb.to_vec());
    for frame in &flush.frames[144..] {
        assert_eq!((frame.cmd, frame.arg, frame.data), (CMD_NO_UPDATE, 0, None));
    }
}

#[test]
fn an_unchanged_frame_is_not_sent_again() {
    let mut panel = blank(PanelRot::R0);
    let flush = panel.flush_native().unwrap();
    assert_eq!(flush.hash, frame_hash(&panel.fb));
    panel.mark_sent(flush.hash);
    assert!(panel.flush_native().is_none());
    panel.set_pixel(3, 3, true);
    assert!(panel.flush_native().is_some());
    panel.set_pixel(3, 3, false);
    assert!(panel.flush_native().is_none());
}

#[test]
fn all_clear_has_no_data() {
    let frame = Lpm009m360a::all_clear();
    assert_eq!((frame.cmd, frame.arg, frame.data), (CMD_ALL_CLEAR, 0, None));
}
