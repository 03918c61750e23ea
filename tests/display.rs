use ssd1306::command::VcomhLevel;
use ssd1306::{
    AddrMode, Brightness, Builder, Command, DirtyRegion, DisplayProperties, DisplayRotation, DisplaySize, Error,
    FrameBuffer, GraphicsMode, I2CDIBuilder, RecordingError, RecordingInterface, Transfer,
};

const ROTATIONS: [DisplayRotation; 4] = [
    DisplayRotation::Rotate0,
    DisplayRotation::Rotate90,
    DisplayRotation::Rotate180,
    DisplayRotation::Rotate270,
];

fn graphics(size: DisplaySize, rotation: DisplayRotation) -> GraphicsMode<RecordingInterface> {
    GraphicsMode::new(DisplayProperties::new(RecordingInterface::new(), size, rotation))
}

fn props(size: DisplaySize, rotation: DisplayRotation) -> DisplayProperties<RecordingInterface> {
    DisplayProperties::new(RecordingInterface::new(), size, rotation)
}

fn sent(p: &DisplayProperties<RecordingInterface>) -> Vec<Transfer> {
    p.interface().transfers().clone()
}

fn commands(bytes: &[u8]) -> Vec<Transfer> {
    bytes.iter().map(|b| Transfer::Command(*b)).collect()
}

/// Replays transfers against a model of the controller's memory in horizontal mode.
fn replay(mem: &mut [u8], width: usize, log: &[Transfer]) {
    let mut window = (0usize, width - 1, 0usize, 7usize);
    let mut pos = (0usize, 0usize);
    let mut pending: Vec<u8> = Vec::new();
    for t in log {
        match t {
            Transfer::Command(c) => {
                pending.push(*c);
                if pending.len() == 3 && pending[0] == 0x21 {
                    window.0 = pending[1] as usize;
                    window.1 = pending[2] as usize;
                    pos.0 = window.0;
                    pending.clear();
                } else if pending.len() == 3 && pending[0] == 0x22 {
                    window.2 = pending[1] as usize;
                    window.3 = pending[2] as usize;
                    pos.1 = window.2;
                    pending.clear();
                } else if pending[0] != 0x21 && pending[0] != 0x22 {
                    pending.clear();
                }
            }
            Transfer::Data(d) => {
                for b in d {
                    mem[pos.1 * width + pos.0] = *b;
                    pos.0 += 1;
                    if pos.0 > window.1 {
                        pos.0 = window.0;
                        pos.1 += 1;
                        if pos.1 > window.3 {
                            pos.1 = window.2;
                        }
                    }
                }
            }
        }
    }
}

#[test]
fn pixel_round_trip_every_rotation() {
    for rotation in ROTATIONS {
        let mut d = graphics(DisplaySize::Display128x64, rotation);
        let (w, h) = d.get_dimensions();
        for (x, y) in [(0u32, 0u32), (1, 7), (5, 8), (w as u32 - 1, h as u32 - 1), (17, 33), (63, 9)] {
            d.set_pixel(x, y, 1);
            assert!(d.get_pixel(x, y), "{:?} {} {}", rotation, x, y);
            d.set_pixel(x, y, 0);
            assert!(!d.get_pixel(x, y), "{:?} {} {}", rotation, x, y);
        }
    }
}

#[test]
fn pixel_mapping_straight_and_quarter() {
    let mut d = graphics(DisplaySize::Display128x64, DisplayRotation::Rotate0);
    d.set_pixel(10, 19, 1);
    assert_eq!(d.framebuffer().as_slice()[2 * 128 + 10], 1 << 3);
    let mut q = graphics(DisplaySize::Display128x64, DisplayRotation::Rotate90);
    q.set_pixel(3, 10, 1);
    assert_eq!(q.framebuffer().as_slice()[10], 1 << 3);
    q.set_pixel(12, 100, 255);
    assert_eq!(q.framebuffer().as_slice()[128 + 100], 1 << 4);
}

#[test]
fn out_of_range_pixel_is_ignored() {
    let mut d = graphics(DisplaySize::Display128x32, DisplayRotation::Rotate0);
    d.set_pixel(128, 0, 1);
    d.set_pixel(0, 32, 1);
    assert!(d.framebuffer().as_slice().iter().all(|b| *b == 0));
    assert!(d.dirty_region().is_empty());
    let mut q = graphics(DisplaySize::Display128x32, DisplayRotation::Rotate270);
    q.set_pixel(32, 0, 1);
    q.set_pixel(0, 128, 1);
    assert!(q.framebuffer().as_slice().iter().all(|b| *b == 0));
    assert!(!q.get_pixel(32, 0));
}

#[test]
fn clear_zeroes_and_marks_whole_frame() {
    let mut d = graphics(DisplaySize::Display96x16, DisplayRotation::Rotate90);
    for x in 0..16u32 {
        for y in 0..96u32 {
            d.set_pixel(x, y, 1);
        }
    }
    d.clear();
    assert!(d.framebuffer().as_slice().iter().all(|b| *b == 0));
    assert_eq!(d.dirty_region().bounds(), (0, 15, 0, 95));
}

#[test]
fn framebuffer_clear_zeroes_everything() {
    let mut fb = FrameBuffer::new();
    for i in 0..64u32 {
        fb.set_pixel(DisplaySize::Display128x64, DisplayRotation::Rotate0, i * 2, i, true);
    }
    assert!(fb.as_slice().iter().any(|b| *b != 0));
    fb.clear();
    assert_eq!(fb.as_slice().len(), 1024);
    assert!(fb.as_slice().iter().all(|b| *b == 0));
}

#[test]
fn dirty_region_widens() {
    let mut r = DirtyRegion::new();
    assert!(r.is_empty());
    r.widen(5, 5);
    assert!(!r.is_empty());
    assert_eq!(r.bounds(), (5, 5, 5, 5));
    r.widen(2, 9);
    assert_eq!(r.bounds(), (2, 5, 5, 9));
    r.reset();
    assert!(r.is_empty());
    r.widen(200, 1);
    assert_eq!(r.bounds(), (200, 200, 1, 1));
}

#[test]
fn window_commands_need_matching_mode() {
    let mut p = props(DisplaySize::Display128x64, DisplayRotation::Rotate0);
    assert_eq!(p.set_draw_area((0, 0), (128, 64)), Err(Error::InvalidMode));
    assert_eq!(p.set_column(3), Ok(()));
    assert_eq!(p.set_row(17), Ok(()));
    assert_eq!(sent(&p), commands(&[0x03, 0x10, 0xb2]));
    for mode in [AddrMode::Horizontal, AddrMode::Vertical] {
        let mut p = props(DisplaySize::Display128x64, DisplayRotation::Rotate0);
        p.change_mode(mode).unwrap();
        let before = sent(&p).len();
        assert_eq!(p.set_column(0), Err(Error::InvalidMode));
        assert_eq!(p.set_row(0), Err(Error::InvalidMode));
        assert_eq!(sent(&p).len(), before);
        assert_eq!(p.set_draw_area((0, 0), (128, 64)), Ok(()));
    }
}

#[test]
fn draw_area_out_of_range() {
    let mut p = props(DisplaySize::Display128x32, DisplayRotation::Rotate0);
    p.change_mode(AddrMode::Horizontal).unwrap();
    assert_eq!(sent(&p), commands(&[0x20, 0x00]));
    assert_eq!(p.set_draw_area((0, 0), (129, 32)), Err(Error::OutOfRange));
    assert_eq!(p.set_draw_area((0, 0), (128, 33)), Err(Error::OutOfRange));
    assert_eq!(p.set_draw_area((5, 0), (5, 8)), Err(Error::OutOfRange));
    assert_eq!(sent(&p).len(), 2);
    assert_eq!(p.set_draw_area((8, 8), (16, 32)), Ok(()));
    assert_eq!(sent(&p)[2..].to_vec(), commands(&[0x21, 8, 15, 0x22, 1, 3]));
}

#[test]
fn draw_area_programs_given_columns() {
    let mut p = props(DisplaySize::Display72x40, DisplayRotation::Rotate0);
    p.change_mode(AddrMode::Horizontal).unwrap();
    p.set_draw_area((0, 0), (72, 40)).unwrap();
    assert_eq!(sent(&p)[2..].to_vec(), commands(&[0x21, 0, 71, 0x22, 0, 4]));
}

#[test]
fn page_mode_positioning_takes_any_value() {
    let mut p = props(DisplaySize::Display128x32, DisplayRotation::Rotate0);
    p.set_column(200).unwrap();
    p.set_row(100).unwrap();
    p.set_column(0x7f).unwrap();
    assert_eq!(sent(&p), commands(&[0x08, 0x1c, 0xb4, 0x0f, 0x17]));
    let mut q = props(DisplaySize::Display72x40, DisplayRotation::Rotate0);
    q.set_column(4).unwrap();
    q.set_column(250).unwrap();
    assert_eq!(sent(&q), commands(&[0x04, 0x10, 0x0a, 0x1f]));
}

#[test]
fn rotation_command_bits() {
    let expected = [
        (DisplayRotation::Rotate0, [0xa1, 0xc8]),
        (DisplayRotation::Rotate90, [0xa0, 0xc8]),
        (DisplayRotation::Rotate180, [0xa0, 0xc0]),
        (DisplayRotation::Rotate270, [0xa1, 0xc0]),
    ];
    for (rotation, bytes) in expected {
        let mut p = props(DisplaySize::Display128x64, DisplayRotation::Rotate0);
        p.set_rotation(rotation).unwrap();
        assert_eq!(p.get_rotation(), rotation);
        assert_eq!(sent(&p), commands(&bytes));
    }
}

#[test]
fn dimensions_follow_rotation() {
    let p = props(DisplaySize::Display128x64, DisplayRotation::Rotate0);
    assert_eq!(p.get_dimensions(), (128, 64));
    let p = props(DisplaySize::Display128x64, DisplayRotation::Rotate90);
    assert_eq!(p.get_dimensions(), (64, 128));
    let p = props(DisplaySize::Display72x40, DisplayRotation::Rotate270);
    assert_eq!(p.get_dimensions(), (40, 72));
    assert_eq!(p.get_size(), DisplaySize::Display72x40);
    let d = graphics(DisplaySize::Display64x48, DisplayRotation::Rotate180);
    assert_eq!(d.get_dimensions(), (64, 48));
}

#[test]
fn brightness_precharge_bounds() {
    for bad in [0u8, 16, 255] {
        let mut p = props(DisplaySize::Display128x64, DisplayRotation::Rotate0);
        assert_eq!(p.change_brightness(Brightness::custom(bad, 0x10)), Err(Error::OutOfRange));
        assert!(sent(&p).is_empty());
    }
    let mut p = props(DisplaySize::Display128x64, DisplayRotation::Rotate0);
    p.change_brightness(Brightness::custom(15, 0x42)).unwrap();
    assert_eq!(sent(&p), commands(&[0xd9, 0xf1, 0x81, 0x42]));
    let mut p = props(DisplaySize::Display128x64, DisplayRotation::Rotate0);
    p.change_brightness(Brightness::custom(1, 0)).unwrap();
    assert_eq!(sent(&p), commands(&[0xd9, 0x11, 0x81, 0x00]));
}

#[test]
fn init_sequence_128x64() {
    let mut d = graphics(DisplaySize::Display128x64, DisplayRotation::Rotate0);
    d.init().unwrap();
    assert_eq!(
        sent(d.properties()),
        commands(&[
            0xae, 0xd5, 0x80, 0xa8, 0x3f, 0xd3, 0x00, 0x40, 0x8d, 0x14, 0x20, 0x00, 0xa1, 0xc8, 0xda, 0x12,
            0xd9, 0x21, 0x81, 0x5f, 0xdb, 0x40, 0xa4, 0xa6, 0x2e, 0xaf,
        ])
    );
}

#[test]
fn init_sequence_128x32_rotated_vertical() {
    let mut p = props(DisplaySize::Display128x32, DisplayRotation::Rotate180);
    p.init_with_mode(AddrMode::Vertical).unwrap();
    assert_eq!(
        sent(&p),
        commands(&[
            0xae, 0xd5, 0x80, 0xa8, 0x1f, 0xd3, 0x00, 0x40, 0x8d, 0x14, 0x20, 0x01, 0xa0, 0xc0, 0xda, 0x02,
            0xd9, 0x21, 0x81, 0x5f, 0xdb, 0x40, 0xa4, 0xa6, 0x2e, 0xaf,
        ])
    );
    assert_eq!(p.set_column(0), Err(Error::InvalidMode));
}

#[test]
fn failed_mode_change_keeps_mode() {
    let mut p = DisplayProperties::new(
        RecordingInterface::with_capacity(1),
        DisplaySize::Display128x64,
        DisplayRotation::Rotate0,
    );
    assert_eq!(p.change_mode(AddrMode::Horizontal), Err(Error::Transport(RecordingError::Full)));
    assert_eq!(sent(&p), commands(&[0x20]));
    assert_eq!(p.set_draw_area((0, 0), (128, 64)), Err(Error::InvalidMode));
}

#[test]
fn flush_needs_window_mode() {
    let mut d = graphics(DisplaySize::Display128x64, DisplayRotation::Rotate0);
    d.set_pixel(1, 1, 1);
    assert_eq!(d.flush(), Err(Error::InvalidMode));
    assert_eq!(d.fast_flush(), Err(Error::InvalidMode));
    assert!(sent(d.properties()).is_empty());
    assert_eq!(d.dirty_region().bounds(), (1, 1, 1, 1));
}

#[test]
fn full_flush_sends_active_slice() {
    let mut d = graphics(DisplaySize::Display128x32, DisplayRotation::Rotate0);
    d.init().unwrap();
    d.set_pixel(127, 31, 1);
    let before = sent(d.properties()).len();
    d.flush().unwrap();
    let log = sent(d.properties())[before..].to_vec();
    assert_eq!(log[..6].to_vec(), commands(&[0x21, 0, 127, 0x22, 0, 3]));
    assert_eq!(log.len(), 7);
    match &log[6] {
        Transfer::Data(data) => {
            assert_eq!(data.len(), 512);
            assert_eq!(data[511], 0x80);
            assert!(data[..511].iter().all(|b| *b == 0));
        }
        other => panic!("expected data, got {:?}", other),
    }
    assert!(d.dirty_region().is_empty());
}

#[test]
fn fast_flush_with_nothing_dirty_is_full_flush() {
    let mut d = graphics(DisplaySize::Display96x16, DisplayRotation::Rotate0);
    d.init().unwrap();
    let before = sent(d.properties()).len();
    d.fast_flush().unwrap();
    let log = sent(d.properties())[before..].to_vec();
    assert_eq!(log[..6].to_vec(), commands(&[0x21, 0, 95, 0x22, 0, 1]));
    assert_eq!(log[6], Transfer::Data(vec![0; 192]));
}

#[test]
fn bounded_flush_two_corner_pixels() {
    let mut d = graphics(DisplaySize::Display128x64, DisplayRotation::Rotate0);
    d.init().unwrap();
    d.set_pixel(0, 0, 1);
    d.set_pixel(127, 63, 1);
    let before = sent(d.properties()).len();
    d.fast_flush().unwrap();
    let log = sent(d.properties())[before..].to_vec();
    assert_eq!(log[..6].to_vec(), commands(&[0x21, 0, 127, 0x22, 0, 7]));
    assert_eq!(log.len(), 6 + 8);
    for (k, t) in log[6..].iter().enumerate() {
        match t {
            Transfer::Data(band) => {
                assert_eq!(band.len(), 128);
                let mut expected = vec![0u8; 128];
                if k == 0 {
                    expected[0] = 0x01;
                }
                if k == 7 {
                    expected[127] = 0x80;
                }
                assert_eq!(band, &expected);
            }
            other => panic!("expected data, got {:?}", other),
        }
    }
    assert!(d.dirty_region().is_empty());
}

#[test]
fn bounded_flush_each_corner_in_its_own_band() {
    let mut d = graphics(DisplaySize::Display128x64, DisplayRotation::Rotate0);
    d.init().unwrap();
    let start = sent(d.properties()).len();
    d.set_pixel(0, 0, 1);
    d.fast_flush().unwrap();
    d.set_pixel(127, 63, 1);
    d.fast_flush().unwrap();
    let log = sent(d.properties())[start..].to_vec();
    let mut expected = commands(&[0x21, 0, 0, 0x22, 0, 0]);
    expected.push(Transfer::Data(vec![0x01]));
    expected.extend(commands(&[0x21, 127, 127, 0x22, 7, 7]));
    expected.push(Transfer::Data(vec![0x80]));
    assert_eq!(log, expected);
}

#[test]
fn bounded_flush_rotated_uses_physical_window() {
    let mut d = graphics(DisplaySize::Display128x64, DisplayRotation::Rotate90);
    d.init().unwrap();
    let start = sent(d.properties()).len();
    d.set_pixel(10, 100, 1);
    d.fast_flush().unwrap();
    let log = sent(d.properties())[start..].to_vec();
    let mut expected = commands(&[0x21, 100, 100, 0x22, 1, 1]);
    expected.push(Transfer::Data(vec![1 << 2]));
    assert_eq!(log, expected);
}

#[test]
fn bounded_flushes_match_full_flush_memory() {
    for rotation in ROTATIONS {
        let mut d = graphics(DisplaySize::Display128x64, rotation);
        d.init().unwrap();
        d.flush().unwrap();
        let (w, h) = d.get_dimensions();
        let mut seed: u32 = 7;
        for _round in 0..6 {
            for _ in 0..5 {
                seed = seed.wrapping_mul(1103515245).wrapping_add(12345);
                let x = (seed >> 8) % (w as u32);
                let y = (seed >> 16) % (h as u32);
                d.set_pixel(x, y, (seed & 1) as u8);
            }
            d.fast_flush().unwrap();
        }
        let mut mem = vec![0xaau8; 1024];
        replay(&mut mem, 128, &sent(d.properties()));
        assert_eq!(&mem[..], &d.framebuffer().as_slice()[..1024], "{:?}", rotation);
        let mut full = vec![0x55u8; 1024];
        d.flush().unwrap();
        let log = sent(d.properties());
        replay(&mut full, 128, &log[log.len() - 7..]);
        assert_eq!(mem, full);
    }
}

#[test]
fn display_on_and_off() {
    let mut d = graphics(DisplaySize::Display128x64, DisplayRotation::Rotate0);
    d.display_on(true).unwrap();
    d.display_on(false).unwrap();
    assert_eq!(sent(d.properties()), commands(&[0xaf, 0xae]));
}

#[test]
fn graphics_set_rotation_sends_bits() {
    let mut d = graphics(DisplaySize::Display128x64, DisplayRotation::Rotate0);
    d.set_rotation(DisplayRotation::Rotate270).unwrap();
    assert_eq!(d.get_dimensions(), (64, 128));
    assert_eq!(sent(d.properties()), commands(&[0xa1, 0xc0]));
}

#[test]
fn bounded_draw_sends_bands() {
    let mut p = props(DisplaySize::Display128x64, DisplayRotation::Rotate0);
    let buffer: Vec<u8> = (0..64u32).map(|i| i as u8).collect();
    p.bounded_draw(&buffer, 16, (2, 8), (5, 24)).unwrap();
    assert_eq!(
        sent(&p),
        vec![
            Transfer::Data(vec![18, 19, 20]),
            Transfer::Data(vec![34, 35, 36]),
            Transfer::Data(vec![50, 51, 52]),
        ]
    );
    p.draw(&[1, 2]).unwrap();
    assert_eq!(sent(&p)[3], Transfer::Data(vec![1, 2]));
    let mut q = props(DisplaySize::Display128x64, DisplayRotation::Rotate0);
    q.bounded_draw(&[7, 8], 1, (0, 0), (1, 8)).unwrap();
    assert_eq!(sent(&q), vec![Transfer::Data(vec![7]), Transfer::Data(vec![8])]);
    let mut e = props(DisplaySize::Display128x64, DisplayRotation::Rotate0);
    e.bounded_draw(&[7], 1, (0, 0), (0, 0)).unwrap();
    assert_eq!(sent(&e), vec![Transfer::Data(vec![])]);
    let mut short = props(DisplaySize::Display128x64, DisplayRotation::Rotate0);
    let two_pages: Vec<u8> = (0..32u32).map(|i| i as u8).collect();
    short.bounded_draw(&two_pages, 16, (0, 0), (1, 40)).unwrap();
    assert_eq!(sent(&short), vec![Transfer::Data(vec![0]), Transfer::Data(vec![16])]);
    let mut past = props(DisplaySize::Display128x64, DisplayRotation::Rotate0);
    past.bounded_draw(&two_pages, 16, (0, 24), (1, 40)).unwrap();
    assert!(sent(&past).is_empty());
}

#[test]
fn builders() {
    let b = Builder::new();
    assert_eq!(b.display_size, DisplaySize::Display128x64);
    assert_eq!(b.rotation, DisplayRotation::Rotate0);
    let b = b.with_rotation(DisplayRotation::Rotate180).size(DisplaySize::Display72x40);
    assert_eq!(b.display_size, DisplaySize::Display72x40);
    assert_eq!(b.rotation, DisplayRotation::Rotate180);
    let b = b.with_fixed_rotation(DisplayRotation::Rotate90);
    let p = b.connect(RecordingInterface::new());
    assert_eq!(p.get_dimensions(), (40, 72));
    assert!(p.release().transfers().is_empty());
    assert_eq!(I2CDIBuilder::new().i2c_addr, 0x3c);
    assert_eq!(I2CDIBuilder::new().with_i2c_addr(0x3d).i2c_addr, 0x3d);
}

#[test]
fn recording_interface_capacity() {
    let mut d = graphics(DisplaySize::Display128x64, DisplayRotation::Rotate0);
    d.init().unwrap();
    let released = d.release().release();
    assert_eq!(released.transfers().len(), 26);
    let mut p = DisplayProperties::new(
        RecordingInterface::with_capacity(3),
        DisplaySize::Display128x64,
        DisplayRotation::Rotate0,
    );
    assert_eq!(p.init_column_mode(), Err(Error::Transport(RecordingError::Full)));
    assert_eq!(sent(&p), commands(&[0xae, 0xd5, 0x80]));
    assert_eq!(p.set_draw_area((0, 0), (1, 1)), Err(Error::InvalidMode));
}

#[test]
fn command_encodings() {
    let cases: Vec<(Command, Vec<u8>)> = vec![
        (Command::Contrast(0x7f), vec![0x81, 0x7f]),
        (Command::AllOn(true), vec![0xa5]),
        (Command::Invert(true), vec![0xa7]),
        (Command::DisplayOn(true), vec![0xaf]),
        (Command::ColumnAddress(3, 90), vec![0x21, 3, 90]),
        (Command::PageAddress(1, 6), vec![0x22, 1, 6]),
        (Command::PageStart(5), vec![0xb5]),
        (Command::StartLine(0x41), vec![0x41]),
        (Command::SegmentRemap(false), vec![0xa0]),
        (Command::Multiplex(0x1f), vec![0xa8, 0x1f]),
        (Command::ReverseComDir(true), vec![0xc8]),
        (Command::DisplayOffset(4), vec![0xd3, 4]),
        (Command::ComPinConfig(true, true), vec![0xda, 0x32]),
        (Command::DisplayClockDiv(0x8, 0x0), vec![0xd5, 0x80]),
        (Command::PreChargePeriod(1, 2), vec![0xd9, 0x21]),
        (Command::VcomhDeselect(VcomhLevel::V077), vec![0xdb, 0x20]),
        (Command::VcomhDeselect(VcomhLevel::Auto), vec![0xdb, 0x40]),
        (Command::ChargePump(false), vec![0x8d, 0x10]),
        (Command::AddressMode(AddrMode::Page), vec![0x20, 0x02]),
        (Command::ColStart(0x5a), vec![0x0a, 0x15]),
        (Command::EnableScroll(true), vec![0x2f]),
    ];
    for (command, bytes) in cases {
        let mut out = vec![0xee];
        command.append_to(&mut out);
        assert_eq!(out[0], 0xee);
        assert_eq!(out[1..].to_vec(), bytes, "{:?}", command);
    }
}

#[test]
fn builder_defaults() {
    assert_eq!(Builder::default(), Builder::new());
    assert_eq!(I2CDIBuilder::default().i2c_addr, 0x3c);
}

#[test]
fn set_pixel_widens_dirty_region() {
    let mut d = graphics(DisplaySize::Display128x64, DisplayRotation::Rotate0);
    d.set_pixel(5, 5, 1);
    assert_eq!(d.dirty_region().bounds(), (5, 5, 5, 5));
    d.set_pixel(2, 9, 0);
    assert_eq!(d.dirty_region().bounds(), (2, 5, 5, 9));
    d.set_pixel(500, 9, 1);
    assert_eq!(d.dirty_region().bounds(), (2, 5, 5, 9));
}

#[test]
fn driver_name_is_the_properties_type() {
    let mut d: ssd1306::Ssd1306<RecordingInterface> =
        ssd1306::Ssd1306::new(RecordingInterface::new(), DisplaySize::Display128x64, DisplayRotation::Rotate90);
    assert_eq!(d.get_dimensions(), (64, 128));
    d.init_with_mode(AddrMode::Horizontal).unwrap();
    assert_eq!(d.set_column(0), Err(Error::InvalidMode));
}

#[test]
fn init_with_addr_mode_configures_panel_before_rotation() {
    let mut p = props(DisplaySize::Display128x32, DisplayRotation::Rotate90);
    p.init_with_addr_mode(AddrMode::Horizontal).unwrap();
    assert_eq!(
        sent(&p),
        commands(&[
            0xae, 0xd5, 0x80, 0xa8, 0x1f, 0xd3, 0x00, 0x40, 0x8d, 0x14, 0x20, 0x00, 0xda, 0x02, 0xa0, 0xc8,
            0xd9, 0x21, 0x81, 0x5f, 0xdb, 0x40, 0xa4, 0xa6, 0x2e, 0xaf,
        ])
    );
    assert_eq!(p.set_column(0), Err(Error::InvalidMode));
}

#[test]
fn driver_style_accessors() {
    let mut p = props(DisplaySize::Display64x48, DisplayRotation::Rotate270);
    assert_eq!(p.dimensions(), (48, 64));
    assert_eq!(p.rotation(), DisplayRotation::Rotate270);
    p.change_addr_mode(AddrMode::Vertical).unwrap();
    assert_eq!(p.set_brightness(Brightness::custom(16, 1)), Err(Error::OutOfRange));
    p.set_brightness(Brightness::normal()).unwrap();
    assert_eq!(sent(&p), commands(&[0x20, 0x01, 0xd9, 0x21, 0x81, 0x5f]));
    assert_eq!(p.set_row(0), Err(Error::InvalidMode));
}

#[test]
fn failed_flush_passes_channel_error() {
    let mut d = GraphicsMode::new(DisplayProperties::new(
        RecordingInterface::with_capacity(28),
        DisplaySize::Display128x64,
        DisplayRotation::Rotate0,
    ));
    d.init().unwrap();
    d.set_pixel(4, 4, 1);
    assert_eq!(d.fast_flush(), Err(Error::Transport(RecordingError::Full)));
    assert_eq!(sent(d.properties()).len(), 28);
    assert_eq!(d.dirty_region().bounds(), (4, 4, 4, 4));
}
