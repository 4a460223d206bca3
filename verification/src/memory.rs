use vstd::prelude::*;

use crate::err::EmuError;
use crate::gpu::{spec_stepped, GPU};
use crate::interrupt::{Interrupt, InterruptHandler};
use crate::joypad::{Button, Column, Joypad};
use crate::register::Register;
use crate::timer::{tick_tima, Timer};

verus! {

/// The boot ROM slot: a 256-byte image and the latch that keeps it mapped
/// over the cartridge's first page until it is disarmed through 0xFF50.
pub struct Bootrom {
    pub code: Vec<u8>,
    pub enabled: bool,
}

impl Bootrom {
    pub open spec fn wf(self) -> bool {
        self.code@.len() == 0x100
    }

    /// Accepts exactly a 256-byte image and arms the latch.
    pub fn new(code: Vec<u8>) -> (r: Result<Bootrom, EmuError>)
        ensures
            r is Ok <==> code@.len() == 0x100,
            r is Ok ==> r->Ok_0.code@ == code@ && r->Ok_0.enabled,
            r is Err ==> r == Err::<Bootrom, EmuError>(EmuError::BootromSize),
    {
        if code.len() != 0x100 {
            return Err(EmuError::BootromSize);
        }
        Ok(Bootrom { code, enabled: true })
    }

    pub fn read(&self, address: u16) -> (r: u8)
        requires
            self.wf(),
            address < 0x100,
        ensures
            r == self.code@[address as int],
    {
        self.code[address as usize]
    }

    pub fn is_enabled(&self) -> (r: bool)
        ensures
            r == self.enabled,
    {
        self.enabled
    }

    pub fn set_disable(&mut self)
        ensures
            *final(self) == (Bootrom { enabled: false, ..*old(self) }),
    {
        self.enabled = false;
    }
}

/// Whether a read of this I/O address is defined: the joypad, the timer,
/// the interrupt flags, the always-0xFF audio ranges, and the pixel unit's
/// registers.
pub open spec fn io_read_ok(a: u16) -> bool {
    ||| a == 0xFF00
    ||| (0xFF04 <= a <= 0xFF07)
    ||| a == 0xFF0F
    ||| (0xFF10 <= a <= 0xFF26)
    ||| (0xFF30 <= a <= 0xFF3F)
    ||| (0xFF40 <= a <= 0xFF4B)
}

/// Whether any read of this bus address is defined: everything but the
/// undefined I/O registers.
pub open spec fn spec_read_ok(a: u16) -> bool {
    if 0xFF00 <= a < 0xFF80 {
        io_read_ok(a)
    } else {
        true
    }
}

/// Whether a write to this bus address with this byte is defined. Writes
/// to the cartridge region and the forbidden region are accepted and
/// ignored; a joypad write must drive one select line, and a DMA write
/// from page 0xFF would read undefined I/O registers.
pub open spec fn spec_write_ok(a: u16, d: u8) -> bool {
    if 0xFF00 <= a < 0xFF80 {
        ||| (a == 0xFF00 && (d >> 4) & 3 != 0)
        ||| a == 0xFF01
        ||| a == 0xFF02
        ||| (0xFF04 <= a <= 0xFF07)
        ||| a == 0xFF0F
        ||| (0xFF10 <= a <= 0xFF26)
        ||| (0xFF30 <= a <= 0xFF3F)
        ||| (0xFF40 <= a <= 0xFF45)
        ||| (a == 0xFF46 && d != 0xFF)
        ||| (0xFF47 <= a <= 0xFF4B)
        ||| a == 0xFF50
        ||| a == 0xFF7F
    } else {
        true
    }
}

/// The error a refused write surfaces.
pub open spec fn spec_write_err(a: u16, d: u8) -> EmuError {
    if a == 0xFF00 {
        EmuError::JoypadSelect(d)
    } else if a == 0xFF46 {
        EmuError::UnknownIoRead(0xFF01)
    } else {
        EmuError::UnknownIoWrite(a)
    }
}

/// The memory bus: the boot ROM slot, the unbanked 32 KiB cartridge,
/// external and work RAM, high RAM, and the timer, interrupt controller,
/// pixel unit and joypad it dispatches I/O registers to.
pub struct Memory {
    pub bootrom: Bootrom,
    pub rom_bank_0: Vec<u8>,
    pub rom_bank_n: Vec<u8>,
    pub external_ram: Vec<u8>,
    pub work_ram: Vec<u8>,
    pub high_ram: Vec<u8>,
    pub timer: Timer,
    pub interrupt: Interrupt,
    pub gpu: GPU,
    pub joypad: Joypad,
}

/// How one accepted write moves the bus from `m` to `n`.
pub open spec fn spec_written(m: Memory, n: Memory, a: u16, d: u8) -> bool {
    if a < 0x8000 {
        n == m
    } else if a < 0xA000 {
        &&& n == (Memory { gpu: n.gpu, ..m })
        &&& n.gpu == (GPU { vram: n.gpu.vram, ..m.gpu })
        &&& n.gpu.vram@ == m.gpu.vram@.update(a - 0x8000, d)
    } else if a < 0xC000 {
        &&& n == (Memory { external_ram: n.external_ram, ..m })
        &&& n.external_ram@ == m.external_ram@.update(a - 0xA000, d)
    } else if a < 0xE000 {
        &&& n == (Memory { work_ram: n.work_ram, ..m })
        &&& n.work_ram@ == m.work_ram@.update(a - 0xC000, d)
    } else if a < 0xFE00 {
        &&& n == (Memory { work_ram: n.work_ram, ..m })
        &&& n.work_ram@ == m.work_ram@.update(a - 0xE000, d)
    } else if a < 0xFEA0 {
        &&& n == (Memory { gpu: n.gpu, ..m })
        &&& n.gpu == (GPU { oam: n.gpu.oam, ..m.gpu })
        &&& n.gpu.oam@ == m.gpu.oam@.update(a - 0xFE00, d)
    } else if a < 0xFF00 {
        n == m
    } else if a < 0xFF80 {
        spec_io_written(m, n, a, d)
    } else if a < 0xFFFF {
        &&& n == (Memory { high_ram: n.high_ram, ..m })
        &&& n.high_ram@ == m.high_ram@.update(a - 0xFF80, d)
    } else {
        n == (Memory {
            interrupt: Interrupt {
                interrupt_enable: Register(d),
                interrupt_flag: m.interrupt.interrupt_flag,
            },
            ..m
        })
    }
}

/// The 160 bytes an OAM DMA from the given source page copies.
pub open spec fn spec_dma_bytes(m: Memory, page: u8) -> Seq<u8> {
    Seq::new(160, |i: int| spec_read_val(m, (page * 256 + i) as u16))
}

/// How one accepted I/O-register write moves the bus from `m` to `n`.
pub open spec fn spec_io_written(m: Memory, n: Memory, a: u16, d: u8) -> bool {
    if a == 0xFF00 {
        &&& n == (Memory { joypad: n.joypad, ..m })
        &&& n.joypad.buttons == m.joypad.buttons
        &&& n.joypad.column == (if (d >> 4) & 3 == 1 {
            Column::BUTTONS
        } else if (d >> 4) & 3 == 2 {
            Column::DPAD
        } else {
            Column::NONE
        })
    } else if a == 0xFF04 {
        n == (Memory { timer: Timer { div_counter: 0, ..m.timer }, ..m })
    } else if a == 0xFF05 {
        n == (Memory { timer: Timer { tima: d, ..m.timer }, ..m })
    } else if a == 0xFF06 {
        n == (Memory { timer: Timer { tma: d, ..m.timer }, ..m })
    } else if a == 0xFF07 {
        n == (Memory { timer: Timer { tac: d, ..m.timer }, ..m })
    } else if a == 0xFF0F {
        n == (Memory {
            interrupt: Interrupt {
                interrupt_enable: m.interrupt.interrupt_enable,
                interrupt_flag: Register(d),
            },
            ..m
        })
    } else if a == 0xFF40 {
        n == (Memory { gpu: GPU { lcd_control: d, ..m.gpu }, ..m })
    } else if a == 0xFF41 {
        n == (Memory {
            gpu: GPU { lcd_status: (d & !7u8) | (m.gpu.lcd_status & 7), ..m.gpu },
            ..m
        })
    } else if a == 0xFF42 {
        n == (Memory { gpu: GPU { scy: d, ..m.gpu }, ..m })
    } else if a == 0xFF43 {
        n == (Memory { gpu: GPU { scx: d, ..m.gpu }, ..m })
    } else if a == 0xFF45 {
        n == (Memory { gpu: GPU { lyc: d, ..m.gpu }, ..m })
    } else if a == 0xFF46 {
        &&& n == (Memory { gpu: n.gpu, ..m })
        &&& n.gpu == (GPU { oam: n.gpu.oam, dma: d, ..m.gpu })
        &&& n.gpu.oam@ == spec_dma_bytes(m, d)
    } else if a == 0xFF47 {
        n == (Memory { gpu: GPU { bgp: d, ..m.gpu }, ..m })
    } else if a == 0xFF48 {
        n == (Memory { gpu: GPU { obp0: d, ..m.gpu }, ..m })
    } else if a == 0xFF49 {
        n == (Memory { gpu: GPU { obp1: d, ..m.gpu }, ..m })
    } else if a == 0xFF4A {
        n == (Memory { gpu: GPU { wy: d, ..m.gpu }, ..m })
    } else if a == 0xFF4B {
        n == (Memory { gpu: GPU { wx: d, ..m.gpu }, ..m })
    } else if a == 0xFF50 {
        &&& n == (Memory { bootrom: n.bootrom, ..m })
        &&& n.bootrom.code@ == m.bootrom.code@
        &&& n.bootrom.enabled == (m.bootrom.enabled && d == 0)
    } else {
        // serial, audio, wave RAM, the read-only LY, and 0xFF7F: accepted
        // and discarded
        n == m
    }
}

/// The byte a defined read of this bus address returns.
pub open spec fn spec_read_val(m: Memory, a: u16) -> u8 {
    if a < 0x100 && m.bootrom.enabled {
        m.bootrom.code@[a as int]
    } else if a < 0x4000 {
        m.rom_bank_0@[a as int]
    } else if a < 0x8000 {
        m.rom_bank_n@[a - 0x4000]
    } else if a < 0xA000 {
        m.gpu.vram@[a - 0x8000]
    } else if a < 0xC000 {
        m.external_ram@[a - 0xA000]
    } else if a < 0xE000 {
        m.work_ram@[a - 0xC000]
    } else if a < 0xFE00 {
        m.work_ram@[a - 0xE000]
    } else if a < 0xFEA0 {
        m.gpu.oam@[a - 0xFE00]
    } else if a < 0xFF00 {
        0xFF
    } else if a < 0xFF80 {
        spec_io_read_val(m, a)
    } else if a < 0xFFFF {
        m.high_ram@[a - 0xFF80]
    } else {
        m.interrupt.interrupt_enable.0
    }
}

/// The byte a defined I/O-register read returns.
pub open spec fn spec_io_read_val(m: Memory, a: u16) -> u8 {
    if a == 0xFF00 {
        m.joypad.spec_register()
    } else if a == 0xFF04 {
        (m.timer.div_counter >> 8) as u8
    } else if a == 0xFF05 {
        m.timer.tima
    } else if a == 0xFF06 {
        m.timer.tma
    } else if a == 0xFF07 {
        m.timer.tac
    } else if a == 0xFF0F {
        m.interrupt.interrupt_flag.0
    } else if 0xFF10 <= a <= 0xFF26 || 0xFF30 <= a <= 0xFF3F {
        0xFF
    } else if a == 0xFF40 {
        m.gpu.lcd_control
    } else if a == 0xFF41 {
        m.gpu.lcd_status
    } else if a == 0xFF42 {
        m.gpu.scy
    } else if a == 0xFF43 {
        m.gpu.scx
    } else if a == 0xFF44 {
        m.gpu.ly
    } else if a == 0xFF45 {
        m.gpu.lyc
    } else if a == 0xFF46 {
        m.gpu.dma
    } else if a == 0xFF47 {
        m.gpu.bgp
    } else if a == 0xFF48 {
        m.gpu.obp0
    } else if a == 0xFF49 {
        m.gpu.obp1
    } else if a == 0xFF4A {
        m.gpu.wy
    } else {
        m.gpu.wx
    }
}


/// How `update_timer` moves the bus: the timer advances by the cycles
/// (DIV always, TIMA while enabled per `tick_tima`), the Timer interrupt
/// flag is raised exactly on overflow, and nothing else is touched.
pub open spec fn spec_timer_ticked(m: Memory, n: Memory, cycles: u8) -> bool {
    &&& n == (Memory { timer: n.timer, interrupt: n.interrupt, ..m })
    &&& n.timer.div_counter == vstd::wrapping::u16_specs::wrapping_add(
        m.timer.div_counter,
        (4 * cycles as u16) as u16,
    )
    &&& n.timer.tma == m.timer.tma
    &&& n.timer.tac == m.timer.tac
    &&& n.interrupt.interrupt_enable == m.interrupt.interrupt_enable
    &&& (!m.timer.spec_enabled() ==> n.timer.tima == m.timer.tima && n.timer.timer_counter
        == m.timer.timer_counter && n.interrupt == m.interrupt)
    &&& (m.timer.spec_enabled() ==> ({
        let stepped = tick_tima(
            m.timer.timer_counter + 4 * cycles as u16,
            m.timer.spec_period() as int,
            m.timer.tima as int,
            m.timer.tma as int,
        );
        &&& n.timer.timer_counter == stepped.0
        &&& n.timer.tima == stepped.1
        &&& n.interrupt.interrupt_flag.0 == (if stepped.2 {
            m.interrupt.interrupt_flag.0 | (1u8 << 2)
        } else {
            m.interrupt.interrupt_flag.0
        })
    }))
}

/// How `update_gpu` moves the bus: the pixel unit advances by the cycles
/// per `spec_stepped`, the VBlank and LCD interrupt flags are raised
/// exactly as it requests, and nothing else is touched.
pub open spec fn spec_gpu_ticked(m: Memory, n: Memory, cycles: u8) -> bool {
    &&& n == (Memory { gpu: n.gpu, interrupt: n.interrupt, ..m })
    &&& spec_stepped(m.gpu, n.gpu, cycles)
    &&& n.interrupt.interrupt_enable == m.interrupt.interrupt_enable
    &&& n.interrupt.interrupt_flag.0 == ({
        let f0 = m.interrupt.interrupt_flag.0;
        let f1 = if m.gpu.spec_vblank_request(cycles) {
            f0 | (1u8 << 0)
        } else {
            f0
        };
        if m.gpu.spec_lcd_irq_request(cycles) {
            f1 | (1u8 << 1)
        } else {
            f1
        }
    })
}

impl Memory {
    pub open spec fn wf(self) -> bool {
        &&& self.bootrom.wf()
        &&& self.rom_bank_0@.len() == 0x4000
        &&& self.rom_bank_n@.len() == 0x4000
        &&& self.external_ram@.len() == 0x2000
        &&& self.work_ram@.len() == 0x2000
        &&& self.high_ram@.len() == 0x7F
        &&& self.gpu.wf()
        &&& self.timer.wf()
    }

    /// Builds the bus around a 256-byte boot ROM image, everything else
    /// cleared.
    pub fn new(bootrom: Vec<u8>) -> (r: Result<Memory, EmuError>)
        ensures
            r is Ok <==> bootrom@.len() == 0x100,
            r is Err ==> r == Err::<Memory, EmuError>(EmuError::BootromSize),
            r is Ok ==> ({
                let m = r->Ok_0;
                &&& m.wf()
                &&& m.bootrom.enabled
                &&& m.bootrom.code@ == bootrom@
                &&& (forall|i: int| 0 <= i < 0x4000 ==> m.rom_bank_0@[i] == 0 && m.rom_bank_n@[i] == 0)
                &&& (forall|i: int|
                    0 <= i < 0x2000 ==> m.external_ram@[i] == 0 && m.work_ram@[i] == 0)
                &&& (forall|i: int| 0 <= i < 0x7F ==> m.high_ram@[i] == 0)
                &&& m.timer == (Timer {
                    div_counter: 0,
                    timer_counter: 0,
                    tima: 0,
                    tma: 0,
                    tac: 4,
                })
                &&& m.interrupt.interrupt_enable.0 == 0 && m.interrupt.interrupt_flag.0 == 0
                &&& m.gpu.lcd_control == 0 && m.gpu.lcd_status == 0 && m.gpu.ly == 0
                    && m.gpu.scanline_counter == 0 && m.gpu.lyc == 0
                &&& m.gpu.scy == 0 && m.gpu.scx == 0 && m.gpu.dma == 0 && m.gpu.bgp == 0
                    && m.gpu.obp0 == 0 && m.gpu.obp1 == 0 && m.gpu.wy == 0 && m.gpu.wx == 0
                &&& (forall|i: int| 0 <= i < 0x2000 ==> m.gpu.vram@[i] == 0)
                &&& (forall|i: int| 0 <= i < 160 ==> m.gpu.oam@[i] == 0)
                &&& (forall|i: int|
                    0 <= i < crate::gpu::FRAMEBUFFER_BYTES ==> m.gpu.framebuffer@[i] == 0xFF)
                &&& m.joypad.buttons.0 == 0xFF && m.joypad.column == Column::NONE
            }),
    {
        let boot = match Bootrom::new(bootrom) {
            Ok(b) => b,
            Err(e) => {
                return Err(e);
            },
        };
        Ok(
            Memory {
                bootrom: boot,
                rom_bank_0: vec![0;0x4000],
                rom_bank_n: vec![0;0x4000],
                external_ram: vec![0;0x2000],
                work_ram: vec![0;0x2000],
                high_ram: vec![0;0x7F],
                timer: Timer::new(),
                interrupt: Interrupt::new(),
                gpu: GPU::new(),
                joypad: Joypad::new(),
            },
        )
    }

    /// Loads an exactly 32 KiB cartridge image: the first half fills bank
    /// 0, the second half bank 1. Anything else is refused untouched.
    pub fn load_rom(&mut self, data: Vec<u8>) -> (r: Result<(), EmuError>)
        requires
            old(self).wf(),
        ensures
            final(self).wf(),
            r is Ok <==> data@.len() == 0x8000,
            r is Err ==> *final(self) == *old(self) && r == Err::<(), EmuError>(
                EmuError::CartridgeSize,
            ),
            r is Ok ==> ({
                &&& *final(self) == (Memory {
                    rom_bank_0: final(self).rom_bank_0,
                    rom_bank_n: final(self).rom_bank_n,
                    ..*old(self)
                })
                &&& final(self).rom_bank_0@ == data@.subrange(0, 0x4000)
                &&& final(self).rom_bank_n@ == data@.subrange(0x4000, 0x8000)
            }),
    {
        if data.len() != 0x8000 {
            return Err(EmuError::CartridgeSize);
        }
        let mut i: usize = 0;
        while i < 0x4000
            invariant
                old(self).wf(),
                data@.len() == 0x8000,
                i <= 0x4000,
                *self == (Memory { rom_bank_0: self.rom_bank_0, ..*old(self) }),
                self.rom_bank_0@.len() == 0x4000,
                forall|j: int| 0 <= j < i ==> self.rom_bank_0@[j] == data@[j],
            decreases 0x4000 - i,
        {
            self.rom_bank_0.set(i, data[i]);
            i = i + 1;
        }
        let mut i: usize = 0;
        while i < 0x4000
            invariant
                old(self).wf(),
                data@.len() == 0x8000,
                i <= 0x4000,
                *self == (Memory {
                    rom_bank_0: self.rom_bank_0,
                    rom_bank_n: self.rom_bank_n,
                    ..*old(self)
                }),
                self.rom_bank_0@.len() == 0x4000,
                forall|j: int| 0 <= j < 0x4000 ==> self.rom_bank_0@[j] == data@[j],
                self.rom_bank_n@.len() == 0x4000,
                forall|j: int| 0 <= j < i ==> self.rom_bank_n@[j] == data@[0x4000 + j],
            decreases 0x4000 - i,
        {
            self.rom_bank_n.set(i, data[0x4000 + i]);
            i = i + 1;
        }
        assert(self.rom_bank_0@ =~= data@.subrange(0, 0x4000));
        assert(self.rom_bank_n@ =~= data@.subrange(0x4000, 0x8000));
        Ok(())
    }

    /// Reads one byte from the bus: boot ROM or cartridge, RAM regions,
    /// the echo region, OAM, 0xFF for the forbidden gap, the I/O registers,
    /// high RAM, or IE. A read of an undefined I/O register is refused.
    pub fn read(&self, address: u16) -> (r: Result<u8, EmuError>)
        requires
            self.wf(),
        ensures
            r is Ok <==> spec_read_ok(address),
            r is Ok ==> r->Ok_0 == spec_read_val(*self, address),
            r is Err ==> r == Err::<u8, EmuError>(EmuError::UnknownIoRead(address)),
    {
        if address < 0x100 && self.bootrom.is_enabled() {
            Ok(self.bootrom.read(address))
        } else if address < 0x4000 {
            Ok(self.rom_bank_0[address as usize])
        } else if address < 0x8000 {
            Ok(self.rom_bank_n[(address - 0x4000) as usize])
        } else if address < 0xA000 {
            Ok(self.gpu.read_vram(address - 0x8000))
        } else if address < 0xC000 {
            Ok(self.external_ram[(address - 0xA000) as usize])
        } else if address < 0xE000 {
            Ok(self.work_ram[(address - 0xC000) as usize])
        } else if address < 0xFE00 {
            Ok(self.work_ram[(address - 0xE000) as usize])
        } else if address < 0xFEA0 {
            Ok(self.gpu.read_oam(address - 0xFE00))
        } else if address < 0xFF00 {
            Ok(0xFF)
        } else if address < 0xFF80 {
            self.handle_read_io_register(address)
        } else if address < 0xFFFF {
            Ok(self.high_ram[(address - 0xFF80) as usize])
        } else {
            Ok(self.interrupt.read_interrupt_enable())
        }
    }

    /// Reads one I/O register, dispatching to the owning unit.
    fn handle_read_io_register(&self, address: u16) -> (r: Result<u8, EmuError>)
        requires
            self.wf(),
            0xFF00 <= address < 0xFF80,
        ensures
            r is Ok <==> io_read_ok(address),
            r is Ok ==> r->Ok_0 == spec_io_read_val(*self, address),
            r is Err ==> r == Err::<u8, EmuError>(EmuError::UnknownIoRead(address)),
    {
        if address == 0xFF00 {
            Ok(self.joypad.read_register())
        } else if address == 0xFF04 {
            Ok(self.timer.read_div())
        } else if address == 0xFF05 {
            Ok(self.timer.tima)
        } else if address == 0xFF06 {
            Ok(self.timer.tma)
        } else if address == 0xFF07 {
            Ok(self.timer.tac)
        } else if address == 0xFF0F {
            Ok(self.interrupt.read_interrupt_flag())
        } else if 0xFF10 <= address && address <= 0xFF26 {
            Ok(0xFF)
        } else if 0xFF30 <= address && address <= 0xFF3F {
            Ok(0xFF)
        } else if address == 0xFF40 {
            Ok(self.gpu.read_lcd_control())
        } else if address == 0xFF41 {
            Ok(self.gpu.read_lcd_status())
        } else if address == 0xFF42 {
            Ok(self.gpu.read_scy())
        } else if address == 0xFF43 {
            Ok(self.gpu.read_scx())
        } else if address == 0xFF44 {
            Ok(self.gpu.read_ly())
        } else if address == 0xFF45 {
            Ok(self.gpu.read_lyc())
        } else if address == 0xFF46 {
            Ok(self.gpu.read_dma())
        } else if address == 0xFF47 {
            Ok(self.gpu.read_bgp())
        } else if address == 0xFF48 {
            Ok(self.gpu.obp0)
        } else if address == 0xFF49 {
            Ok(self.gpu.obp1)
        } else if address == 0xFF4A {
            Ok(self.gpu.wy)
        } else if address == 0xFF4B {
            Ok(self.gpu.wx)
        } else {
            Err(EmuError::UnknownIoRead(address))
        }
    }

    /// Writes one byte to the bus. Cartridge and forbidden-region writes
    /// are ignored; I/O writes dispatch to the owning unit; a write to an
    /// undefined register, a joypad write driving both select lines, or a
    /// DMA from page 0xFF is refused and leaves the machine untouched.
    pub fn write(&mut self, address: u16, data: u8) -> (r: Result<(), EmuError>)
        requires
            old(self).wf(),
        ensures
            final(self).wf(),
            r is Ok <==> spec_write_ok(address, data),
            r is Err ==> *final(self) == *old(self) && r == Err::<(), EmuError>(
                spec_write_err(address, data),
            ),
            r is Ok ==> spec_written(*old(self), *final(self), address, data),
            !old(self).bootrom.enabled ==> !final(self).bootrom.enabled,
            final(self).bootrom.code@ == old(self).bootrom.code@,
    {
        if address < 0x8000 {
            Ok(())
        } else if address < 0xA000 {
            self.gpu.write_vram(address - 0x8000, data);
            Ok(())
        } else if address < 0xC000 {
            self.external_ram.set((address - 0xA000) as usize, data);
            Ok(())
        } else if address < 0xE000 {
            self.work_ram.set((address - 0xC000) as usize, data);
            Ok(())
        } else if address < 0xFE00 {
            self.work_ram.set((address - 0xE000) as usize, data);
            Ok(())
        } else if address < 0xFEA0 {
            self.gpu.write_oam(address - 0xFE00, data);
            Ok(())
        } else if address < 0xFF00 {
            Ok(())
        } else if address < 0xFF80 {
            self.handle_write_io_register(address, data)
        } else if address < 0xFFFF {
            self.high_ram.set((address - 0xFF80) as usize, data);
            Ok(())
        } else {
            self.interrupt.write_interrupt_enable(data);
            Ok(())
        }
    }

    /// Writes one I/O register, dispatching to the owning unit. A write to
    /// 0xFF46 performs the OAM DMA copy of 160 bytes from the named page.
    fn handle_write_io_register(&mut self, address: u16, data: u8) -> (r: Result<(), EmuError>)
        requires
            old(self).wf(),
            0xFF00 <= address < 0xFF80,
        ensures
            final(self).wf(),
            r is Ok <==> spec_write_ok(address, data),
            r is Err ==> *final(self) == *old(self) && r == Err::<(), EmuError>(
                spec_write_err(address, data),
            ),
            r is Ok ==> spec_io_written(*old(self), *final(self), address, data),
            !old(self).bootrom.enabled ==> !final(self).bootrom.enabled,
            final(self).bootrom.code@ == old(self).bootrom.code@,
    {
        if address == 0xFF00 {
            match self.joypad.write_register(data) {
                Ok(()) => Ok(()),
                Err(e) => Err(e),
            }
        } else if address == 0xFF01 || address == 0xFF02 {
            Ok(())
        } else if address == 0xFF04 {
            self.timer.reset_div();
            Ok(())
        } else if address == 0xFF05 {
            self.timer.write_tima(data);
            Ok(())
        } else if address == 0xFF06 {
            self.timer.write_tma(data);
            Ok(())
        } else if address == 0xFF07 {
            self.timer.write_tac(data);
            Ok(())
        } else if address == 0xFF0F {
            self.interrupt.write_interrupt_flag(data);
            Ok(())
        } else if 0xFF10 <= address && address <= 0xFF26 {
            Ok(())
        } else if 0xFF30 <= address && address <= 0xFF3F {
            Ok(())
        } else if address == 0xFF40 {
            self.gpu.write_lcd_control(data);
            Ok(())
        } else if address == 0xFF41 {
            self.gpu.write_lcd_status(data);
            Ok(())
        } else if address == 0xFF42 {
            self.gpu.write_scy(data);
            Ok(())
        } else if address == 0xFF43 {
            self.gpu.write_scx(data);
            Ok(())
        } else if address == 0xFF44 {
            Ok(())
        } else if address == 0xFF45 {
            self.gpu.write_lyc(data);
            Ok(())
        } else if address == 0xFF46 {
            self.oam_dma_copy(data)
        } else if address == 0xFF47 {
            self.gpu.write_bgp(data);
            Ok(())
        } else if address == 0xFF48 {
            self.gpu.write_obp0(data);
            Ok(())
        } else if address == 0xFF49 {
            self.gpu.write_obp1(data);
            Ok(())
        } else if address == 0xFF4A {
            self.gpu.write_wy(data);
            Ok(())
        } else if address == 0xFF4B {
            self.gpu.write_wx(data);
            Ok(())
        } else if address == 0xFF50 {
            if data != 0 {
                self.bootrom.set_disable();
            }
            Ok(())
        } else if address == 0xFF7F {
            Ok(())
        } else {
            Err(EmuError::UnknownIoWrite(address))
        }
    }

    /// Copies 160 bytes from page `data` into OAM through ordinary bus
    /// reads; a source page whose reads are undefined is refused untouched.
    fn oam_dma_copy(&mut self, data: u8) -> (r: Result<(), EmuError>)
        requires
            old(self).wf(),
        ensures
            final(self).wf(),
            r is Ok <==> data != 0xFF,
            r is Err ==> *final(self) == *old(self) && r == Err::<(), EmuError>(
                EmuError::UnknownIoRead(0xFF01),
            ),
            r is Ok ==> ({
                &&& *final(self) == (Memory { gpu: final(self).gpu, ..*old(self) })
                &&& final(self).gpu == (GPU { oam: final(self).gpu.oam, dma: data, ..old(self).gpu })
                &&& final(self).gpu.oam@ == spec_dma_bytes(*old(self), data)
            }),
    {
        let source: u16 = data as u16 * 256;
        let mut buf: Vec<u8> = Vec::new();
        let mut i: u16 = 0;
        while i < 160
            invariant
                self.wf(),
                *self == *old(self),
                source == data as u16 * 256,
                i <= 160,
                buf@.len() == i,
                forall|j: int| 0 <= j < i ==> buf@[j] == spec_read_val(*self, (source + j) as u16),
                forall|j: int| 0 <= j < i ==> #[trigger] spec_read_ok((source + j) as u16),
            decreases 160 - i,
        {
            let b = match self.read(source + i) {
                Ok(b) => b,
                Err(e) => {
                    proof {
                        assert(!spec_read_ok((source + i) as u16));
                        assert(spec_read_ok(0xFF00u16));
                        if i != 1 {
                            assert(spec_read_ok((source + 1) as u16));
                        }
                        assert(source + i == 0xFF01);
                    }
                    return Err(e);
                },
            };
            buf.push(b);
            i = i + 1;
        }
        proof {
            if data == 0xFF {
                assert(spec_read_ok((source + 1) as u16));
                assert(false);
            }
        }
        self.gpu.oam_dma(data, &buf);
        proof {
            assert(final(self).gpu.oam@ =~= spec_dma_bytes(*old(self), data));
        }
        Ok(())
    }

    /// Advances the timer and raises the Timer interrupt flag on overflow.
    pub fn update_timer(&mut self, cycles: u8)
        requires
            old(self).wf(),
        ensures
            final(self).wf(),
            spec_timer_ticked(*old(self), *final(self), cycles),
    {
        let fired = self.timer.update(cycles);
        if fired {
            self.interrupt.set_if_bit(InterruptHandler::Timer);
        }
    }

    /// Advances the pixel unit and raises the VBlank and LCD interrupt
    /// flags it requests.
    pub fn update_gpu(&mut self, cycles: u8)
        requires
            old(self).wf(),
        ensures
            final(self).wf(),
            spec_gpu_ticked(*old(self), *final(self), cycles),
    {
        let (vblank, lcd) = self.gpu.update(cycles);
        if vblank {
            self.interrupt.set_if_bit(InterruptHandler::VBlank);
        }
        if lcd {
            self.interrupt.set_if_bit(InterruptHandler::LCD);
        }
    }

    /// Applies a button press and raises the Joypad interrupt when the
    /// press is new and its column is selected.
    pub fn set_button(&mut self, button: Button)
        ensures
            *final(self) == (Memory {
                joypad: final(self).joypad,
                interrupt: final(self).interrupt,
                ..*old(self)
            }),
            final(self).joypad.buttons.0 == old(self).joypad.buttons.0 & !(1u8
                << button.spec_index()),
            final(self).joypad.column == old(self).joypad.column,
            final(self).interrupt.interrupt_enable == old(self).interrupt.interrupt_enable,
            final(self).interrupt.interrupt_flag.0 == (if old(self).joypad.buttons.0 & (1u8
                << button.spec_index()) != 0 && old(self).joypad.column_selects(button) {
                old(self).interrupt.interrupt_flag.0 | (1u8 << 4)
            } else {
                old(self).interrupt.interrupt_flag.0
            }),
    {
        let request_joypad = self.joypad.set_button(button);
        if request_joypad {
            self.interrupt.set_if_bit(InterruptHandler::Joypad);
        }
    }

    /// Applies a button release.
    pub fn unset_button(&mut self, button: Button)
        ensures
            *final(self) == (Memory { joypad: final(self).joypad, ..*old(self) }),
            final(self).joypad.buttons.0 == old(self).joypad.buttons.0 | (1u8
                << button.spec_index()),
            final(self).joypad.column == old(self).joypad.column,
    {
        self.joypad.unset_button(button);
    }

    pub fn get_interrupts(&mut self) -> (r: &mut Interrupt)
        ensures
            *r == old(self).interrupt,
            *final(self) == (Memory { interrupt: *final(r), ..*old(self) }),
    {
        &mut self.interrupt
    }

    pub fn get_gpu(&self) -> (r: &GPU)
        ensures
            r == self.gpu,
    {
        &self.gpu
    }
}

/// While the boot ROM latch is armed, a read below 0x100 returns the boot
/// ROM byte; once it is disarmed, the same read returns the cartridge byte.
pub proof fn lemma_boot_latch(m: Memory, a: u16)
    requires
        a < 0x100,
    ensures
        m.bootrom.enabled ==> spec_read_val(m, a) == m.bootrom.code@[a as int],
        !m.bootrom.enabled ==> spec_read_val(m, a) == m.rom_bank_0@[a as int],
{
}

} // verus!
