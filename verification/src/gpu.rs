use vstd::prelude::*;

verus! {

/// Bytes in the RGBA framebuffer: 160 x 144 pixels, four bytes each.
pub const FRAMEBUFFER_BYTES: usize = 92160;

/// Bytes in one framebuffer row: 160 pixels, four bytes each.
pub const ROW_BYTES: usize = 640;

/// One bit of an 8-bit register, as a boolean.
pub open spec fn bit8(v: u8, i: u8) -> bool {
    (v >> i) & 1 == 1
}

/// The pixel unit's state machine position, cycle counters and registers
/// advanced by the given clock ticks: the resulting STAT mode, scanline
/// counter, LY, and whether the step entered VBLANK (requesting its
/// interrupt). Mode 2 (OAM scan) lasts 80 ticks, mode 3 (drawing) 172,
/// mode 0 (HBLANK) 204; mode 1 (VBLANK) covers ten 456-tick lines.
pub open spec fn fsm_step(mode: int, counter: int, ly: int, ticks: int) -> (int, int, int, bool) {
    let c = counter + ticks;
    if mode == 0 {
        if c >= 204 {
            if ly + 1 >= 144 {
                (1, c % 204, ly + 1, true)
            } else {
                (2, c % 204, ly + 1, false)
            }
        } else {
            (0, c, ly, false)
        }
    } else if mode == 1 {
        if c >= 456 {
            if ly + 1 == 154 {
                (2, c % 456, 0, false)
            } else {
                (1, c % 456, ly + 1, false)
            }
        } else {
            (1, c, ly, false)
        }
    } else if mode == 2 {
        if c >= 80 {
            (3, c % 80, ly, false)
        } else {
            (2, c, ly, false)
        }
    } else {
        if c >= 172 {
            (0, c % 172, ly, false)
        } else {
            (3, c, ly, false)
        }
    }
}

/// The STAT byte rebuilt after a step: interrupt-select bits 3..7 kept,
/// bit 2 showing the LY==LYC comparison, bits 1..0 the mode.
pub open spec fn stat_rebuild(s: u8, mode: u8, coin: bool) -> u8 {
    (s & 0xF8) | (if coin {
        4u8
    } else {
        0u8
    }) | mode
}

/// The two-bit shade the BGP palette maps a color id to.
pub open spec fn palette_shade(bgp: u8, cid: u8) -> u8 {
    if cid == 0 {
        bgp & 3
    } else if cid == 1 {
        (bgp >> 2) & 3
    } else if cid == 2 {
        (bgp >> 4) & 3
    } else {
        (bgp >> 6) & 3
    }
}

/// The grey level of a shade; red, green and blue channels are all equal.
pub open spec fn shade_channel(shade: u8) -> u8 {
    if shade == 0 {
        0xFF
    } else if shade == 1 {
        0xCC
    } else if shade == 2 {
        0x77
    } else {
        0x00
    }
}

/// The pixel graphics unit: the framebuffer, video RAM, object memory, the
/// LCD control and status registers, and the scanline machinery.
pub struct GPU {
    pub framebuffer: Vec<u8>,
    pub vram: Vec<u8>,
    pub oam: Vec<u8>,
    pub scanline_counter: u16,
    pub lcd_control: u8,
    pub lcd_status: u8,
    pub scy: u8,
    pub scx: u8,
    pub ly: u8,
    pub lyc: u8,
    pub dma: u8,
    pub bgp: u8,
    pub obp0: u8,
    pub obp1: u8,
    pub wy: u8,
    pub wx: u8,
}

impl GPU {
    /// The STAT mode bits.
    pub open spec fn spec_mode(self) -> u8 {
        self.lcd_status & 3
    }

    /// Buffer sizes are fixed, the scanline counter stays within one line,
    /// and LY is on screen except during VBLANK.
    pub open spec fn wf(self) -> bool {
        &&& self.framebuffer@.len() == FRAMEBUFFER_BYTES
        &&& self.vram@.len() == 0x2000
        &&& self.oam@.len() == 160
        &&& self.scanline_counter < 456
        &&& self.ly < 154
        &&& (self.spec_mode() != 1 ==> self.ly < 144)
    }

    /// LCDC bit 7: whether the LCD runs at all.
    pub open spec fn spec_lcd_on(self) -> bool {
        self.lcd_control >> 7 == 1
    }

    /// LCDC bit 0: whether the background and window are drawn.
    pub open spec fn spec_bg_enabled(self) -> bool {
        self.lcd_control & 1 == 1
    }

    /// Whether this update call requests the VBlank interrupt: the step
    /// just carried LY into the VBLANK region.
    pub open spec fn spec_vblank_request(self, cycles: u8) -> bool {
        self.spec_lcd_on() && fsm_step(
            self.spec_mode() as int,
            self.scanline_counter as int,
            self.ly as int,
            4 * cycles,
        ).3
    }

    /// Whether this update call requests the LCD-STAT interrupt, from a
    /// mode change or a fresh LY==LYC match.
    pub open spec fn spec_lcd_irq_request(self, cycles: u8) -> bool {
        self.spec_lcd_on() && {
            let st = fsm_step(
                self.spec_mode() as int,
                self.scanline_counter as int,
                self.ly as int,
                4 * cycles,
            );
            spec_mode_request(self.lcd_status, self.spec_mode() as int, st.0) || spec_coin_request(
                self.lcd_status,
                st.2,
                self.lyc,
            )
        }
    }

    /// The window covers this scanline when LCDC bit 5 is set and the
    /// window's top line has been reached.
    pub open spec fn spec_win_active(self) -> bool {
        bit8(self.lcd_control, 5) && self.wy <= self.ly
    }

    /// The window supplies this pixel when it covers the line and the pixel
    /// lies at or right of the window's left edge WX-7.
    pub open spec fn spec_use_window(self, p: int) -> bool {
        self.spec_win_active() && p + 7 >= self.wx
    }

    /// The source column in the selected map, window-relative or scrolled.
    pub open spec fn spec_src_x(self, p: int) -> int {
        if self.spec_use_window(p) {
            p + 7 - self.wx
        } else {
            (p + self.scx) % 256
        }
    }

    /// The source row in the selected map, window-relative or scrolled.
    pub open spec fn spec_src_y(self, p: int) -> int {
        if self.spec_use_window(p) {
            self.ly - self.wy
        } else {
            (self.ly + self.scy) % 256
        }
    }

    /// The VRAM-relative index of the map byte naming this pixel's tile.
    pub open spec fn spec_map_index(self, p: int) -> int {
        (if self.spec_use_window(p) {
            if bit8(self.lcd_control, 6) {
                0x1C00int
            } else {
                0x1800int
            }
        } else {
            if bit8(self.lcd_control, 3) {
                0x1C00int
            } else {
                0x1800int
            }
        }) + (self.spec_src_y(p) / 8) * 32 + self.spec_src_x(p) / 8
    }

    /// The VRAM-relative base of the named tile's 16 bytes. LCDC bit 4
    /// selects unsigned ids from 0x8000 or signed ids around 0x9000.
    pub open spec fn spec_tile_base(self, p: int) -> int {
        let id = self.vram@[self.spec_map_index(p)];
        if bit8(self.lcd_control, 4) {
            id * 16
        } else if id >= 128 {
            0x800 + (id - 128) * 16
        } else {
            0x1000 + id * 16
        }
    }

    /// The pixel's 2-bit color id, combined from the row's two bitplanes.
    pub open spec fn spec_color_id(self, p: int) -> u8 {
        let row = self.spec_tile_base(p) + (self.spec_src_y(p) % 8) * 2;
        let b = (7 - self.spec_src_x(p) % 8) as u8;
        let lo_bit = (self.vram@[row] >> b) & 1;
        let hi_bit = (self.vram@[row + 1] >> b) & 1;
        if hi_bit == 1 {
            if lo_bit == 1 {
                3
            } else {
                2
            }
        } else {
            if lo_bit == 1 {
                1
            } else {
                0
            }
        }
    }

    /// One byte of the rendered pixel: the grey level in the three color
    /// channels, full opacity in the fourth.
    pub open spec fn spec_pixel_byte(self, p: int, k: int) -> u8 {
        if k == 3 {
            0xFF
        } else {
            shade_channel(palette_shade(self.bgp, self.spec_color_id(p)))
        }
    }

    /// The framebuffer after the current scanline is drawn: row LY filled
    /// from the background and window, every other byte kept. With the
    /// background disabled nothing is drawn.
    pub open spec fn spec_rendered(self) -> Seq<u8> {
        if !self.spec_bg_enabled() {
            self.framebuffer@
        } else {
            let row0 = self.ly * (ROW_BYTES as int);
            Seq::new(
                FRAMEBUFFER_BYTES as nat,
                |i: int|
                    if row0 <= i < row0 + ROW_BYTES {
                        self.spec_pixel_byte((i - row0) / 4, i % 4)
                    } else {
                        self.framebuffer@[i]
                    },
            )
        }
    }

    pub fn new() -> (r: GPU)
        ensures
            r.wf(),
            r.lcd_control == 0 && r.lcd_status == 0 && r.scy == 0 && r.scx == 0 && r.ly == 0
                && r.lyc == 0 && r.dma == 0 && r.bgp == 0 && r.obp0 == 0 && r.obp1 == 0 && r.wy == 0
                && r.wx == 0,
            r.scanline_counter == 0,
            forall|i: int| 0 <= i < FRAMEBUFFER_BYTES ==> r.framebuffer@[i] == 0xFF,
            forall|i: int| 0 <= i < 0x2000 ==> r.vram@[i] == 0,
            forall|i: int| 0 <= i < 160 ==> r.oam@[i] == 0,
    {
        GPU {
            framebuffer: vec![0xFF;FRAMEBUFFER_BYTES],
            vram: vec![0;0x2000],
            oam: vec![0;160],
            scanline_counter: 0,
            lcd_control: 0,
            lcd_status: 0,
            scy: 0,
            scx: 0,
            ly: 0,
            lyc: 0,
            dma: 0,
            bgp: 0,
            obp0: 0,
            obp1: 0,
            wy: 0,
            wx: 0,
        }
    }

    pub fn read_lcd_control(&self) -> (r: u8)
        ensures
            r == self.lcd_control,
    {
        self.lcd_control
    }

    pub fn write_lcd_control(&mut self, data: u8)
        ensures
            *final(self) == (GPU { lcd_control: data, ..*old(self) }),
    {
        self.lcd_control = data;
    }

    pub fn read_scy(&self) -> (r: u8)
        ensures
            r == self.scy,
    {
        self.scy
    }

    pub fn write_scy(&mut self, data: u8)
        ensures
            *final(self) == (GPU { scy: data, ..*old(self) }),
    {
        self.scy = data;
    }

    pub fn read_scx(&self) -> (r: u8)
        ensures
            r == self.scx,
    {
        self.scx
    }

    pub fn write_scx(&mut self, data: u8)
        ensures
            *final(self) == (GPU { scx: data, ..*old(self) }),
    {
        self.scx = data;
    }

    pub fn write_obp0(&mut self, data: u8)
        ensures
            *final(self) == (GPU { obp0: data, ..*old(self) }),
    {
        self.obp0 = data;
    }

    pub fn write_obp1(&mut self, data: u8)
        ensures
            *final(self) == (GPU { obp1: data, ..*old(self) }),
    {
        self.obp1 = data;
    }

    pub fn write_bgp(&mut self, data: u8)
        ensures
            *final(self) == (GPU { bgp: data, ..*old(self) }),
    {
        self.bgp = data;
    }

    pub fn read_ly(&self) -> (r: u8)
        ensures
            r == self.ly,
    {
        self.ly
    }

    pub fn read_lyc(&self) -> (r: u8)
        ensures
            r == self.lyc,
    {
        self.lyc
    }

    pub fn write_lyc(&mut self, data: u8)
        ensures
            *final(self) == (GPU { lyc: data, ..*old(self) }),
    {
        self.lyc = data;
    }

    pub fn read_lcd_status(&self) -> (r: u8)
        ensures
            r == self.lcd_status,
    {
        self.lcd_status
    }

    /// CPU writes to STAT keep the read-only low three bits (the mode and
    /// the LY==LYC comparison).
    pub fn write_lcd_status(&mut self, data: u8)
        ensures
            *final(self) == (GPU {
                lcd_status: (data & !7u8) | (old(self).lcd_status & 7),
                ..*old(self)
            }),
            final(self).spec_mode() == old(self).spec_mode(),
    {
        let s = self.lcd_status;
        self.lcd_status = (data & !7u8) | (s & 7);
        proof {
            let d = data;
            assert(((d & !7u8) | (s & 7)) & 3 == s & 3) by (bit_vector);
        }
    }

    pub fn read_bgp(&self) -> (r: u8)
        ensures
            r == self.bgp,
    {
        self.bgp
    }

    pub fn read_vram(&self, address: u16) -> (r: u8)
        requires
            self.wf(),
            address < 0x2000,
        ensures
            r == self.vram@[address as int],
    {
        self.vram[address as usize]
    }

    pub fn write_vram(&mut self, address: u16, data: u8)
        requires
            old(self).wf(),
            address < 0x2000,
        ensures
            *final(self) == (GPU { vram: final(self).vram, ..*old(self) }),
            final(self).vram@ == old(self).vram@.update(address as int, data),
            final(self).wf(),
    {
        self.vram.set(address as usize, data);
    }

    pub fn read_oam(&self, address: u16) -> (r: u8)
        requires
            self.wf(),
            address < 160,
        ensures
            r == self.oam@[address as int],
    {
        self.oam[address as usize]
    }

    pub fn write_oam(&mut self, address: u16, data: u8)
        requires
            old(self).wf(),
            address < 160,
        ensures
            *final(self) == (GPU { oam: final(self).oam, ..*old(self) }),
            final(self).oam@ == old(self).oam@.update(address as int, data),
            final(self).wf(),
    {
        self.oam.set(address as usize, data);
    }

    pub fn write_wy(&mut self, data: u8)
        ensures
            *final(self) == (GPU { wy: data, ..*old(self) }),
    {
        self.wy = data;
    }

    pub fn write_wx(&mut self, data: u8)
        ensures
            *final(self) == (GPU { wx: data, ..*old(self) }),
    {
        self.wx = data;
    }

    pub fn read_dma(&self) -> (r: u8)
        ensures
            r == self.dma,
    {
        self.dma
    }

    /// Replaces the whole of OAM with the first 160 bytes handed in by the
    /// bus's DMA copy, and records the source page.
    pub fn oam_dma(&mut self, source: u8, data: &Vec<u8>)
        requires
            old(self).wf(),
            data@.len() >= 160,
        ensures
            *final(self) == (GPU { oam: final(self).oam, dma: source, ..*old(self) }),
            final(self).oam@ == data@.subrange(0, 160),
            final(self).wf(),
    {
        self.dma = source;
        let mut i: usize = 0;
        while i < 160
            invariant
                old(self).wf(),
                data@.len() >= 160,
                i <= 160,
                *self == (GPU { oam: self.oam, dma: source, ..*old(self) }),
                self.oam@.len() == 160,
                forall|j: int| 0 <= j < i ==> self.oam@[j] == data@[j],
                forall|j: int| i <= j < 160 ==> self.oam@[j] == old(self).oam@[j],
            decreases 160 - i,
        {
            self.oam.set(i, data[i]);
            i = i + 1;
        }
        assert(self.oam@ =~= data@.subrange(0, 160));
    }
}

/// A byte index decomposes over four-byte pixels: offset `4p + k` with
/// `k < 4` lies in pixel `p` at channel `k`.
proof fn lemma_pixel_index(p: int, k: int)
    requires
        0 <= k < 4,
    ensures
        (4 * p + k) / 4 == p,
        (4 * p + k) % 4 == k,
{
    vstd::arithmetic::div_mod::lemma_fundamental_div_mod_converse(4 * p + k, 4, p, k);
}

/// A STAT IRQ is requested on a mode change, per the enable bit of the
/// mode being entered: bit 4 for VBLANK, bit 5 for OAM scan, bit 3 for
/// HBLANK.
pub open spec fn spec_mode_request(s: u8, old_mode: int, new_mode: int) -> bool {
    new_mode != old_mode && ((new_mode == 1 && bit8(s, 4)) || (new_mode == 2 && bit8(s, 5)) || (
    new_mode == 0 && bit8(s, 3)))
}

/// A STAT IRQ is requested when LY newly equals LYC and bit 6 enables it.
pub open spec fn spec_coin_request(s: u8, new_ly: int, lyc: u8) -> bool {
    new_ly == lyc && !bit8(s, 2) && bit8(s, 6)
}

/// How one `update` call moves the pixel unit from `g` to `n`. With the
/// LCD off the unit idles at LY 0 in mode 1 with the counter cleared;
/// otherwise the mode machine advances by `fsm_step`, STAT is rebuilt
/// around the new mode and the LY==LYC comparison, a step out of mode 3
/// renders the scanline, and everything else is untouched.
pub open spec fn spec_stepped(g: GPU, n: GPU, cycles: u8) -> bool {
    if !g.spec_lcd_on() {
        n == (GPU {
            scanline_counter: 0,
            ly: 0,
            lcd_status: (g.lcd_status & !3u8) | 1,
            ..g
        })
    } else {
        let st = fsm_step(g.spec_mode() as int, g.scanline_counter as int, g.ly as int, 4 * cycles);
        &&& n.scanline_counter == st.1
        &&& n.ly == st.2
        &&& n.lcd_status == stat_rebuild(g.lcd_status, st.0 as u8, st.2 == g.lyc)
        &&& (if g.spec_mode() == 3 && g.scanline_counter + 4 * cycles >= 172 {
            n.framebuffer@ == g.spec_rendered()
        } else {
            n.framebuffer@ == g.framebuffer@
        })
        &&& n.vram@ == g.vram@
        &&& n.oam@ == g.oam@
        &&& n.lcd_control == g.lcd_control
        &&& n.scy == g.scy && n.scx == g.scx
        &&& n.lyc == g.lyc && n.dma == g.dma
        &&& n.bgp == g.bgp && n.obp0 == g.obp0 && n.obp1 == g.obp1
        &&& n.wy == g.wy && n.wx == g.wx
    }
}

/// The mode machine iterated from the top of a frame (mode 2, counter 0,
/// LY 0), one machine cycle of four ticks at a time.
pub open spec fn fsm_iter(t: nat) -> (int, int, int, bool)
    decreases t,
{
    if t == 0 {
        (2, 0, 0, false)
    } else {
        let prev = fsm_iter((t - 1) as nat);
        fsm_step(prev.0, prev.1, prev.2, 4)
    }
}

/// Where the mode machine stands `t` machine cycles into a frame: per
/// visible line, 80 ticks of mode 2, then 172 of mode 3, then 204 of
/// mode 0; after 144 such lines, ten 456-tick lines of mode 1; then the
/// next frame begins.
pub open spec fn frame_state(t: nat) -> (int, int, int) {
    let ticks = 4 * (t as int);
    let line = ticks / 456;
    let off = ticks % 456;
    if line >= 154 {
        (2, 0, 0)
    } else if line >= 144 {
        (1, off, line)
    } else if off < 80 {
        (2, off, line)
    } else if off < 252 {
        (3, off - 80, line)
    } else {
        (0, off - 252, line)
    }
}

/// Stepped one machine cycle at a time over one frame from the top of the
/// visible field, the mode machine follows exactly the schedule of
/// `frame_state` - the sequence (2, 3, 0) for each of the 144 visible
/// lines with the specified durations, then mode 1 for the ten VBLANK
/// lines - and it reports the VBlank entry exactly once, at the step that
/// carries LY to 144.
pub proof fn lemma_frame_schedule(t: nat)
    requires
        t <= 17556,
    ensures
        ({
            let st = fsm_iter(t);
            let fs = frame_state(t);
            &&& st.0 == fs.0
            &&& st.1 == fs.1
            &&& st.2 == fs.2
            &&& (st.3 <==> t == 16416)
        }),
    decreases t,
{
    if t == 0 {
        vstd::arithmetic::div_mod::lemma_fundamental_div_mod_converse(0int, 456, 0, 0);
    } else {
        lemma_frame_schedule((t - 1) as nat);
        let o = (4 * (t - 1) as int) % 456;
        let l = (4 * (t - 1) as int) / 456;
        vstd::arithmetic::div_mod::lemma_fundamental_div_mod(4 * (t - 1) as int, 456);
        if o + 4 < 456 {
            vstd::arithmetic::div_mod::lemma_fundamental_div_mod_converse(4 * t as int, 456, l, o + 4);
        } else {
            vstd::arithmetic::div_mod::lemma_fundamental_div_mod_converse(4 * t as int, 456, l + 1, 0);
        }
    }
}

/// A run of pixel-unit states stepped one machine cycle at a time with the
/// LCD on, starting at the top of a frame, keeps exactly to the frame
/// schedule: its STAT mode, scanline counter and LY at step `t` are those
/// of `frame_state(t)`.
pub proof fn lemma_gpu_trace_schedule(trace: Seq<GPU>, t: int)
    requires
        0 <= t < trace.len(),
        t <= 17556,
        trace[0].spec_mode() == 2,
        trace[0].scanline_counter == 0,
        trace[0].ly == 0,
        forall|i: int|
            0 <= i < trace.len() - 1 ==> #[trigger] spec_stepped(trace[i], trace[i + 1], 1),
        forall|i: int| 0 <= i < trace.len() ==> (#[trigger] trace[i]).spec_lcd_on(),
    ensures
        trace[t].spec_mode() == frame_state(t as nat).0,
        trace[t].scanline_counter == frame_state(t as nat).1,
        trace[t].ly == frame_state(t as nat).2,
    decreases t,
{
    lemma_frame_schedule(t as nat);
    if t > 0 {
        lemma_gpu_trace_schedule(trace, t - 1);
        lemma_frame_schedule((t - 1) as nat);
        let g = trace[t - 1];
        assert(spec_stepped(trace[t - 1], trace[t - 1 + 1], 1));
        assert(trace[t - 1 + 1] == trace[t]);
        assert(g.spec_lcd_on());
        let st = fsm_step(g.spec_mode() as int, g.scanline_counter as int, g.ly as int, 4);
        let m = st.0 as u8;
        let s = g.lcd_status;
        let cb: u8 = if st.2 == g.lyc {
            4
        } else {
            0
        };
        assert(((s & 0xF8) | cb | m) & 3 == m) by (bit_vector)
            requires
                m < 4,
                cb == 0 || cb == 4,
        ;
    }
}

impl GPU {
    /// Draws the current scanline into the framebuffer: for each of the 160
    /// pixels, pick window or background source coordinates, look the tile
    /// up in the selected map, combine the two bitplanes into a color id,
    /// map it through BGP and store the grey RGBA bytes.
    #[verifier::rlimit(60)]
    fn scan_line(&mut self)
        requires
            old(self).wf(),
            old(self).ly < 144,
        ensures
            *final(self) == (GPU { framebuffer: final(self).framebuffer, ..*old(self) }),
            final(self).framebuffer@ == old(self).spec_rendered(),
            final(self).wf(),
    {
        if self.lcd_control & 1 == 0 {
            proof {
                assert(self.spec_rendered() =~= self.framebuffer@);
            }
            return ;
        }
        proof {
            let x = self.lcd_control;
            assert(x & 1 == 0 || x & 1 == 1) by (bit_vector);
        }
        let ly: usize = self.ly as usize;
        let row0: usize = ly * ROW_BYTES;
        let ghost row0i = row0 as int;

        let mut p: usize = 0;
        while p < 160
            invariant
                old(self).wf(),
                old(self).ly < 144,
                old(self).spec_bg_enabled(),
                ly == old(self).ly as int,
                row0i == row0,
                row0 == ly * ROW_BYTES,
                p <= 160,
                *self == (GPU { framebuffer: self.framebuffer, ..*old(self) }),
                self.framebuffer@.len() == FRAMEBUFFER_BYTES,
                forall|i: int|
                    0 <= i < FRAMEBUFFER_BYTES && !(row0i <= i < row0i + 4 * p) ==> self.framebuffer@[i]
                        == old(self).framebuffer@[i],
                forall|i: int|
                    row0i <= i < row0i + 4 * p ==> self.framebuffer@[i] == old(
                        self,
                    ).spec_rendered()[i],
            decreases 160 - p,
        {
            let win_line = (self.lcd_control >> 5) & 1 == 1 && self.wy <= self.ly;
            let use_win = win_line && p + 7 >= self.wx as usize;
            let sx: usize = if use_win {
                p + 7 - self.wx as usize
            } else {
                (p + self.scx as usize) % 256
            };
            let sy: usize = if use_win {
                (self.ly - self.wy) as usize
            } else {
                (self.ly as usize + self.scy as usize) % 256
            };
            let map_base: usize = if use_win {
                if (self.lcd_control >> 6) & 1 == 1 {
                    0x1C00
                } else {
                    0x1800
                }
            } else {
                if (self.lcd_control >> 3) & 1 == 1 {
                    0x1C00
                } else {
                    0x1800
                }
            };
            let map_idx: usize = map_base + (sy / 8) * 32 + sx / 8;
            assert(use_win == old(self).spec_use_window(p as int));
            assert(sx == old(self).spec_src_x(p as int));
            assert(sy == old(self).spec_src_y(p as int));
            assert(sy <= 255 && sx <= 255);
            assert(map_idx == old(self).spec_map_index(p as int));
            assert(map_idx < 0x2000);
            let tile_id = self.vram[map_idx];
            let tile_base: usize = if (self.lcd_control >> 4) & 1 == 1 {
                tile_id as usize * 16
            } else if tile_id >= 128 {
                0x800 + (tile_id as usize - 128) * 16
            } else {
                0x1000 + tile_id as usize * 16
            };
            assert(tile_base == old(self).spec_tile_base(p as int));
            let row: usize = tile_base + (sy % 8) * 2;
            assert(row + 1 < 0x2000);
            let lo = self.vram[row];
            let hi = self.vram[row + 1];
            let b: u8 = (7 - (sx % 8)) as u8;
            let lo_bit = (lo >> b) & 1;
            let hi_bit = (hi >> b) & 1;
            let cid: u8 = if hi_bit == 1 {
                if lo_bit == 1 {
                    3
                } else {
                    2
                }
            } else {
                if lo_bit == 1 {
                    1
                } else {
                    0
                }
            };
            assert(cid == old(self).spec_color_id(p as int));
            let shade: u8 = if cid == 0 {
                self.bgp & 3
            } else if cid == 1 {
                (self.bgp >> 2) & 3
            } else if cid == 2 {
                (self.bgp >> 4) & 3
            } else {
                (self.bgp >> 6) & 3
            };
            let channel: u8 = if shade == 0 {
                0xFF
            } else if shade == 1 {
                0xCC
            } else if shade == 2 {
                0x77
            } else {
                0x00
            };
            let base: usize = row0 + p * 4;
            self.framebuffer.set(base, channel);
            self.framebuffer.set(base + 1, channel);
            self.framebuffer.set(base + 2, channel);
            self.framebuffer.set(base + 3, 0xFF);
            proof {
                let pi = p as int;
                let g = *old(self);
                assert forall|k: int| 0 <= k < 4 implies g.spec_rendered()[row0i + 4 * pi + k]
                    == g.spec_pixel_byte(pi, k) by {
                    lemma_pixel_index(160 * g.ly + pi, k);
                    lemma_pixel_index(pi, k);
                    assert(row0i + 4 * pi + k == 4 * (160 * g.ly + pi) + k);
                    assert((row0i + 4 * pi + k - row0i) / 4 == pi);
                }
                assert(channel == g.spec_pixel_byte(pi, 0));
                assert(channel == g.spec_pixel_byte(pi, 1));
                assert(channel == g.spec_pixel_byte(pi, 2));
                assert(0xFF == g.spec_pixel_byte(pi, 3));
            }
            p = p + 1;
        }
        assert(self.framebuffer@ =~= old(self).spec_rendered());
    }

    /// Advances the pixel unit by the given machine cycles (four ticks
    /// each). With the LCD off the unit idles at LY 0 in mode 1. Otherwise
    /// the mode machine steps as `fsm_step` says, leaving mode 3 renders
    /// the scanline, and the returned pair asks for the VBlank and LCD-STAT
    /// interrupts.
    pub fn update(&mut self, cycles: u8) -> (r: (bool, bool))
        requires
            old(self).wf(),
        ensures
            final(self).wf(),
            spec_stepped(*old(self), *final(self), cycles),
            r.0 == old(self).spec_vblank_request(cycles),
            r.1 == old(self).spec_lcd_irq_request(cycles),
    {
        proof {
            let x = self.lcd_control;
            assert(x >> 7 == 0 || x >> 7 == 1) by (bit_vector);
        }
        if self.lcd_control >> 7 == 0 {
            self.scanline_counter = 0;
            self.ly = 0;
            self.lcd_status = (self.lcd_status & !3u8) | 1;
            proof {
                let s = old(self).lcd_status;
                assert(((s & !3u8) | 1) & 3 == 1) by (bit_vector);
            }
            return (false, false);
        }
        let s = self.lcd_status;
        let mut request_vblank = false;
        let mut request_lcd = false;
        let c: u16 = self.scanline_counter + 4 * (cycles as u16);
        let mode = s & 3;
        let mut new_mode: u8 = mode;
        proof {
            assert(s & 3 < 4) by (bit_vector);
        }
        if mode == 0 {
            if c >= 204 {
                self.scanline_counter = c % 204;
                self.ly = self.ly + 1;
                if self.ly >= 144 {
                    new_mode = 1;
                    request_vblank = true;
                    if (s >> 4) & 1 == 1 {
                        request_lcd = true;
                    }
                } else {
                    new_mode = 2;
                    if (s >> 5) & 1 == 1 {
                        request_lcd = true;
                    }
                }
            } else {
                self.scanline_counter = c;
            }
        } else if mode == 1 {
            if c >= 456 {
                self.scanline_counter = c % 456;
                self.ly = self.ly + 1;
                if self.ly == 154 {
                    self.ly = 0;
                    new_mode = 2;
                    if (s >> 5) & 1 == 1 {
                        request_lcd = true;
                    }
                }
            } else {
                self.scanline_counter = c;
            }
        } else if mode == 2 {
            if c >= 80 {
                self.scanline_counter = c % 80;
                new_mode = 3;
            } else {
                self.scanline_counter = c;
            }
        } else {
            if c >= 172 {
                self.scan_line();
                self.scanline_counter = c % 172;
                new_mode = 0;
                if (s >> 3) & 1 == 1 {
                    request_lcd = true;
                }
            } else {
                self.scanline_counter = c;
            }
        }
        let coin = self.ly == self.lyc;
        if coin && (s >> 2) & 1 != 1 && (s >> 6) & 1 == 1 {
            request_lcd = true;
        }
        let coin_bit: u8 = if coin {
            4
        } else {
            0
        };
        self.lcd_status = (s & 0xF8) | coin_bit | new_mode;
        proof {
            let m = new_mode;
            let cb = coin_bit;
            assert(((s & 0xF8) | cb | m) & 3 == m) by (bit_vector)
                requires
                    m < 4,
                    cb == 0 || cb == 4,
            ;
        }
        (request_vblank, request_lcd)
    }
}

} // verus!
