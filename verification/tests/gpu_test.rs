use crab_gb::gpu::GPU;

fn lcd_on_gpu() -> GPU {
    let mut gpu = GPU::new();
    gpu.lcd_control = 0x80;
    gpu.lcd_status = 0x02; // start of a frame: mode 2
    gpu
}

#[test]
fn frame_has_exactly_one_vblank_and_returns_to_start() {
    let mut gpu = lcd_on_gpu();
    let mut vblanks: u32 = 0;
    for _ in 0..17556 {
        let (vb, _) = gpu.update(1);
        if vb {
            vblanks += 1;
        }
    }
    assert_eq!(vblanks, 1);
    assert_eq!(gpu.lcd_status & 3, 2);
    assert_eq!(gpu.ly, 0);
    assert_eq!(gpu.scanline_counter, 0);
}

#[test]
fn mode_sequence_over_one_scanline() {
    let mut gpu = lcd_on_gpu();
    let mut modes: Vec<u8> = Vec::new();
    for _ in 0..114 {
        gpu.update(1);
        modes.push(gpu.lcd_status & 3);
    }
    // 80 ticks of OAM scan, 172 of drawing, 204 of HBLANK, in 4-tick steps
    for (t, &m) in modes.iter().enumerate() {
        let ticks = 4 * (t + 1);
        let expect = if ticks < 80 {
            2
        } else if ticks < 252 {
            3
        } else if ticks < 456 {
            0
        } else {
            2 // next line begins
        };
        assert_eq!(m, expect, "at tick {}", ticks);
    }
    assert_eq!(gpu.ly, 1);
}

#[test]
fn vblank_lasts_ten_lines() {
    let mut gpu = lcd_on_gpu();
    let mut vblank_steps: u32 = 0;
    for _ in 0..17556 {
        gpu.update(1);
        if gpu.lcd_status & 3 == 1 {
            vblank_steps += 1;
        }
    }
    assert_eq!(vblank_steps, 10 * 114);
}

#[test]
fn lcd_off_parks_in_mode_one_at_line_zero() {
    let mut gpu = lcd_on_gpu();
    for _ in 0..300 {
        gpu.update(1);
    }
    gpu.lcd_control = 0x00;
    let (vb, lcd) = gpu.update(1);
    assert!(!vb && !lcd);
    assert_eq!(gpu.ly, 0);
    assert_eq!(gpu.lcd_status & 3, 1);
    assert_eq!(gpu.scanline_counter, 0);
}

#[test]
fn lyc_match_sets_stat_bit_and_requests_once() {
    let mut gpu = lcd_on_gpu();
    gpu.lyc = 1;
    gpu.lcd_status |= 0x40; // LYC interrupt select
    let mut requests: u32 = 0;
    for _ in 0..228 {
        // two scanlines
        let (_, lcd) = gpu.update(1);
        if lcd {
            requests += 1;
        }
    }
    assert_eq!(gpu.ly, 2);
    assert_eq!(requests, 1); // only the fresh match on entering line 1
    assert_eq!(gpu.lcd_status & 4, 0); // comparison bit dropped again at line 2
}

#[test]
fn stat_writes_keep_low_bits() {
    let mut gpu = lcd_on_gpu();
    gpu.write_lcd_status(0xFF);
    assert_eq!(gpu.lcd_status, 0xF8 | 0x02);
    assert_eq!(gpu.read_lcd_status() & 3, 2);
}

#[test]
fn oam_dma_replaces_all_of_oam() {
    let mut gpu = GPU::new();
    let data: Vec<u8> = (0u16..160).map(|i| i as u8).collect();
    gpu.oam_dma(0xC1, &data);
    assert_eq!(gpu.dma, 0xC1);
    for i in 0..160u16 {
        // reads of OAM through the unit
        assert_eq!(gpu.oam[i as usize], i as u8);
    }
}

#[test]
fn window_supplies_pixels_right_of_its_edge() {
    let mut gpu = GPU::new();
    // LCD on, window from map 0x9C00, window on, unsigned tiles,
    // background from map 0x9800, background on
    gpu.lcd_control = 0xF1;
    gpu.bgp = 0xE4;
    gpu.wy = 0;
    gpu.wx = 87; // window starts at pixel 80
    gpu.ly = 0;
    gpu.lcd_status = 0x03;
    // tile 1 is solid color id 3
    gpu.write_vram(16, 0xFF);
    gpu.write_vram(17, 0xFF);
    // the window map names tile 1 across its first row of tiles
    for t in 0..10u16 {
        gpu.write_vram(0x1C00 + t, 1);
    }
    gpu.update(43);
    let fb = &gpu.framebuffer;
    // left of the window edge: background, tile 0, white
    assert_eq!(&fb[79 * 4..79 * 4 + 4], &[0xFF, 0xFF, 0xFF, 0xFF]);
    // at and right of the edge: window, tile 1, black
    assert_eq!(&fb[80 * 4..80 * 4 + 4], &[0x00, 0x00, 0x00, 0xFF]);
    assert_eq!(&fb[159 * 4..159 * 4 + 4], &[0x00, 0x00, 0x00, 0xFF]);
}

#[test]
fn background_disabled_leaves_framebuffer_alone() {
    let mut gpu = GPU::new();
    gpu.lcd_control = 0x80; // LCD on, background off
    gpu.lcd_status = 0x03;
    gpu.ly = 0;
    gpu.update(43);
    assert_eq!(gpu.lcd_status & 3, 0);
    assert!(gpu.framebuffer.iter().all(|&b| b == 0xFF));
}

#[test]
fn scenario_tile_render_first_row() {
    let mut gpu = GPU::new();
    // LCD on, unsigned tiles at 0x8000, map at 0x9800, background on
    gpu.lcd_control = 0x91;
    gpu.bgp = 0xE4;
    gpu.ly = 0;
    gpu.lcd_status = 0x03; // drawing; leaving it renders the line
    gpu.write_vram(0x0000, 0x3C);
    gpu.write_vram(0x0001, 0x7E);
    // map entry (0,0) is already tile 0
    gpu.update(43); // 172 ticks: mode 3 completes and the scanline lands
    assert_eq!(gpu.lcd_status & 3, 0);
    let fb = &gpu.framebuffer;
    // pixel (0,0): color id 0 -> white
    assert_eq!(&fb[0..4], &[0xFF, 0xFF, 0xFF, 0xFF]);
    // pixel (2,0): color id 3 -> black
    assert_eq!(&fb[8..12], &[0x00, 0x00, 0x00, 0xFF]);
    // pixel (1,0): low plane 0, high plane 1 -> id 2 -> shade 3 of 0xE4? no:
    // BGP 0xE4 maps id 2 to bits 5..4 = 2 -> grey 0x77
    assert_eq!(&fb[4..8], &[0x77, 0x77, 0x77, 0xFF]);
}
