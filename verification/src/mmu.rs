//! The memory-management unit: every bus access is dispatched by address
//! range to work RAM, high RAM, the cartridge, the pixel processing unit,
//! the DMA engine, the timer or the interrupt registers.
//!
//! The unit also fans elapsed machine cycles out to the peripherals in the
//! order DMA, timer, PPU and harvests their raised interrupts into IF.

use vstd::prelude::*;
use crate::cartridge::{Cartridge, CartridgeError, CartridgeView, Model};
use crate::cpu::{word16, word_wrap};
use crate::dma::{Dma, DmaMode, DmaView};
use crate::mem::zero_vec;
use crate::ppu::{ly_of, mode_of, Ppu, PpuView};
use crate::timer::{Timer, TimerView};

verus! {

/// CPU clock rate: CGB double speed or the normal rate.
#[derive(Clone, Copy, PartialEq, Eq, Structural)]
pub enum Speed {
    FAST,
    SLOW,
}

/// Ghost image of the whole bus.
#[verifier::ext_equal]
pub struct MmuView {
    pub zram: Seq<u8>,
    pub wram: Seq<u8>,
    pub wram_bank: usize,
    pub switch_speed: bool,
    pub speed: Speed,
    pub interrupt_enable: u8,
    pub interrupt_flag: u8,
    pub ppu: PpuView,
    pub cartridge: Option<CartridgeView>,
    pub dma: DmaView,
    pub timer: TimerView,
}

/// The bus state after one byte of an OAM DMA block copy: byte `k - 1` has
/// just moved from `src + k - 1` into OAM.
pub open spec fn oam_copy_step(m: MmuView, src: u16, k: nat) -> MmuView
    decreases k,
{
    if k == 0 {
        m
    } else {
        let p = oam_copy_step(m, src, (k - 1) as nat);
        MmuView {
            ppu: p.ppu.write((0xFE00 + k - 1) as u16, p.read((src + k - 1) as u16)),
            ..p
        }
    }
}

/// The bus state after one byte of an HDMA block copy: byte `k - 1` has just
/// moved from `src + k - 1` into VRAM at `dst + k - 1`, wrapped to the
/// VRAM window.
pub open spec fn vram_copy_step(m: MmuView, src: u16, dst: u16, k: nat) -> MmuView
    decreases k,
{
    if k == 0 {
        m
    } else {
        let p = vram_copy_step(m, src, dst, (k - 1) as nat);
        MmuView {
            ppu: p.ppu.write(
                (0x8000 + ((dst + k - 1) % 0x2000)) as u16,
                p.read(word_wrap(src + k - 1)),
            ),
            ..p
        }
    }
}

/// An HDMA copy touches only the pixel unit's state.
pub proof fn lemma_vram_copy_frame(m: MmuView, src: u16, dst: u16, k: nat)
    ensures
        vram_copy_step(m, src, dst, k) == (MmuView {
            ppu: vram_copy_step(m, src, dst, k).ppu,
            ..m
        }),
    decreases k,
{
    if k > 0 {
        lemma_vram_copy_frame(m, src, dst, (k - 1) as nat);
    }
}

impl MmuView {
    /// Address-range dispatch for reads.
    pub open spec fn read(self, address: u16) -> u8 {
        if address < 0x8000 || (0xA000 <= address && address < 0xC000) {
            match self.cartridge {
                Some(c) => c.mbc.read(address),
                None => 0,
            }
        } else if address < 0xA000 {
            self.ppu.read(address)
        } else if address < 0xD000 {
            self.wram[address as int % 0x1000]
        } else if address < 0xE000 {
            self.wram[self.wram_bank as int * 0x1000 + (address as int % 0x1000)]
        } else if address < 0xF000 {
            self.wram[address as int % 0x1000]
        } else if address < 0xFE00 {
            self.wram[self.wram_bank as int * 0x1000 + (address as int % 0x1000)]
        } else if address < 0xFEA0 {
            self.ppu.read(address)
        } else if address < 0xFF00 {
            0xFF
        } else if address <= 0xFF03 {
            0
        } else if address <= 0xFF07 {
            self.timer.read(address)
        } else if address == 0xFF0F {
            self.interrupt_flag
        } else if 0xFF10 <= address && address <= 0xFF3F {
            0
        } else if address == 0xFF46 {
            self.dma.src_high
        } else if address == 0xFF4D {
            (if self.speed is FAST { 0x80u8 } else { 0u8 }) | (if self.switch_speed { 1u8 } else {
                0u8 })
        } else if (0xFF40 <= address && address <= 0xFF4B) || address == 0xFF4F {
            self.ppu.read(address)
        } else if 0xFF51 <= address && address <= 0xFF55 {
            self.dma.read(address)
        } else if 0xFF68 <= address && address <= 0xFF6B {
            self.ppu.read(address)
        } else if address == 0xFF70 {
            self.wram_bank as u8
        } else if 0xFF80 <= address && address <= 0xFFFE {
            self.zram[address as int - 0xFF80]
        } else if address == 0xFFFF {
            self.interrupt_enable
        } else {
            0
        }
    }

    /// Address-range dispatch for writes, without the OAM DMA trigger: a
    /// write to FF46 only records the source page here.
    pub open spec fn poke(self, address: u16, value: u8) -> MmuView {
        if address < 0x8000 || (0xA000 <= address && address < 0xC000) {
            match self.cartridge {
                Some(c) => MmuView {
                    cartridge: Some(
                        CartridgeView { model: c.model, mbc: c.mbc.write(address, value) },
                    ),
                    ..self
                },
                None => self,
            }
        } else if address < 0xA000 {
            MmuView { ppu: self.ppu.write(address, value), ..self }
        } else if address < 0xD000 {
            MmuView { wram: self.wram.update(address as int % 0x1000, value), ..self }
        } else if address < 0xE000 {
            MmuView {
                wram: self.wram.update(self.wram_bank as int * 0x1000 + (address as int % 0x1000), value),
                ..self
            }
        } else if address < 0xF000 {
            MmuView { wram: self.wram.update(address as int % 0x1000, value), ..self }
        } else if address < 0xFE00 {
            MmuView {
                wram: self.wram.update(self.wram_bank as int * 0x1000 + (address as int % 0x1000), value),
                ..self
            }
        } else if address < 0xFEA0 {
            MmuView { ppu: self.ppu.write(address, value), ..self }
        } else if address < 0xFF04 {
            self
        } else if address <= 0xFF07 {
            MmuView { timer: self.timer.write(address, value), ..self }
        } else if address == 0xFF0F {
            MmuView { interrupt_flag: value, ..self }
        } else if 0xFF10 <= address && address <= 0xFF3F {
            self
        } else if address == 0xFF46 {
            MmuView { dma: DmaView { src_high: value, ..self.dma }, ..self }
        } else if address == 0xFF4D {
            if value & 0x01 == 0x01 {
                MmuView { switch_speed: true, ..self }
            } else {
                self
            }
        } else if (0xFF40 <= address && address <= 0xFF4B) || address == 0xFF4F {
            MmuView { ppu: self.ppu.write(address, value), ..self }
        } else if 0xFF51 <= address && address <= 0xFF55 {
            MmuView { dma: self.dma.write(address, value), ..self }
        } else if 0xFF68 <= address && address <= 0xFF6B {
            MmuView { ppu: self.ppu.write(address, value), ..self }
        } else if address == 0xFF70 {
            MmuView {
                wram_bank: if value & 0x07 == 0 { 1 } else { (value & 0x07) as usize },
                ..self
            }
        } else if 0xFF80 <= address && address <= 0xFFFE {
            MmuView { zram: self.zram.update(address as int - 0xFF80, value), ..self }
        } else if address == 0xFFFF {
            MmuView { interrupt_enable: value, ..self }
        } else {
            self
        }
    }

    /// An OAM DMA: record the source page, charge 640 stolen T-cycles, and
    /// copy the 160-byte page into OAM.
    pub open spec fn odma_apply(self, value: u8) -> MmuView {
        oam_copy_step(
            MmuView { dma: DmaView { src_high: value, pending: 640, ..self.dma }, ..self },
            (value * 0x100) as u16,
            160,
        )
    }

    /// A bus write: FF46 triggers the OAM DMA, everything else dispatches
    /// by address range.
    pub open spec fn write(self, address: u16, value: u8) -> MmuView {
        if address == 0xFF46 {
            self.odma_apply(value)
        } else {
            self.poke(address, value)
        }
    }

    /// One DMA engine turn: drain the stolen-cycle account, run a pending
    /// general-purpose transfer whole, or move one 16-byte block on a fresh
    /// H-blank line; returns the bus state and the stolen T-cycles.
    pub open spec fn dma_step(self) -> (MmuView, u32) {
        let stolen = self.dma.pending;
        let m0 = MmuView { dma: DmaView { pending: 0, ..self.dma }, ..self };
        let src0 = (self.dma.hdma_src & 0xFFF0) as u16;
        let dst0 = (self.dma.hdma_dst & 0x1FF0) as u16;
        if self.dma.mode is General {
            let blocks = self.dma.hdma_len + 1;
            let m1 = vram_copy_step(m0, src0, dst0, (blocks * 16) as nat);
            (
                MmuView {
                    dma: DmaView {
                        pending: 0,
                        mode: DmaMode::Idle,
                        hdma_len: 0x7F,
                        ..self.dma
                    },
                    ..m1
                },
                (stolen + blocks * 32) as u32,
            )
        } else if self.dma.mode is HBlank && mode_of(self.ppu.dots) == 0 && ly_of(self.ppu.dots)
            != self.dma.hdma_line {
            let m1 = vram_copy_step(m0, src0, dst0, 16);
            (
                MmuView {
                    dma: DmaView {
                        pending: 0,
                        hdma_src: word_wrap(src0 + 16),
                        hdma_dst: word_wrap(dst0 + 16),
                        hdma_len: if self.dma.hdma_len == 0 { 0xFFu8 } else {
                            (self.dma.hdma_len - 1) as u8 },
                        mode: if self.dma.hdma_len == 0 { DmaMode::Idle } else { DmaMode::HBlank },
                        hdma_line: ly_of(self.ppu.dots),
                        ..self.dma
                    },
                    ..m1
                },
                (stolen + 32) as u32,
            )
        } else {
            (m0, stolen)
        }
    }

    /// Cycle fan-out for one instruction: the DMA turn first, then the timer
    /// by the instruction plus speed-scaled stolen cycles, then the PPU by
    /// the speed-divided instruction plus stolen cycles; finally both raised
    /// interrupt masks move into IF.
    pub open spec fn ticks_step(self, ticks: u32) -> MmuView {
        let divider: u32 = if self.speed is FAST { 2 } else { 1 };
        let step = self.dma_step();
        let m1 = step.0;
        let stolen = step.1;
        let timer2 = m1.timer.step((ticks + stolen * divider) as u32);
        let ppu2 = m1.ppu.step((ticks / divider + stolen) as u32);
        MmuView {
            interrupt_flag: (m1.interrupt_flag | timer2.interrupt | ppu2.interrupt) as u8,
            timer: TimerView { interrupt: 0, ..timer2 },
            ppu: PpuView { interrupt: 0, ..ppu2 },
            ..m1
        }
    }

    /// KEY1 speed switch: toggle when armed, and disarm.
    pub open spec fn toggle_spec(self) -> MmuView {
        MmuView {
            speed: if self.switch_speed {
                if self.speed is FAST { Speed::SLOW } else { Speed::FAST }
            } else {
                self.speed
            },
            switch_speed: false,
            ..self
        }
    }

    /// The canonical post-boot I/O snapshot: peripheral state machines
    /// return to power-on, then the boot-ROM register values are written.
    pub open spec fn reset_spec(self) -> MmuView {
        let m = MmuView {
            timer: TimerView {
                div_counter: 0,
                tima: 0,
                tma: 0,
                tac: 0,
                tima_acc: 0,
                interrupt: 0,
            },
            ppu: PpuView {
                lcdc: 0,
                stat: 0,
                scy: 0,
                scx: 0,
                lyc: 0,
                bgp: 0,
                obp0: 0,
                obp1: 0,
                wy: 0,
                wx: 0,
                vram_bank: 0,
                bcps: 0,
                ocps: 0,
                interrupt: 0,
                dots: 0,
                ..self.ppu
            },
            dma: DmaView {
                src_high: 0,
                pending: 0,
                hdma_src: 0,
                hdma_dst: 0,
                hdma_len: 0,
                mode: DmaMode::Idle,
                hdma_line: 0,
            },
            ..self
        };
        m.poke(0xFF05, 0x00).poke(0xFF06, 0x00).poke(0xFF07, 0x00).poke(0xFF10, 0x80)
            .poke(0xFF11, 0xBF).poke(0xFF12, 0xF3).poke(0xFF14, 0xBF).poke(0xFF16, 0x3F)
            .poke(0xFF17, 0x00).poke(0xFF19, 0xBF).poke(0xFF1A, 0x7F).poke(0xFF1B, 0xFF)
            .poke(0xFF1C, 0x9F).poke(0xFF1E, 0xFF).poke(0xFF20, 0xFF).poke(0xFF21, 0x00)
            .poke(0xFF22, 0x00).poke(0xFF23, 0xBF).poke(0xFF24, 0x77).poke(0xFF25, 0xF3)
            .poke(0xFF26, 0xF1).poke(0xFF40, 0x91).poke(0xFF42, 0x00).poke(0xFF43, 0x00)
            .poke(0xFF45, 0x00).poke(0xFF47, 0xFC).poke(0xFF48, 0xFF).poke(0xFF49, 0xFF)
            .poke(0xFF4A, 0x00).poke(0xFF4B, 0x00)
    }
}

/// The memory-management unit and every device it owns.
pub struct Mmu {
    pub zram: Vec<u8>,
    pub wram: Vec<u8>,
    pub wram_bank: usize,
    pub switch_speed: bool,
    pub speed: Speed,
    pub interrupt_enable: u8,
    pub interrupt_flag: u8,
    pub ppu: Ppu,
    pub cartridge: Option<Cartridge>,
    pub dma: Dma,
    pub timer: Timer,
}

impl View for Mmu {
    type V = MmuView;

    open spec fn view(&self) -> MmuView {
        MmuView {
            zram: self.zram@,
            wram: self.wram@,
            wram_bank: self.wram_bank,
            switch_speed: self.switch_speed,
            speed: self.speed,
            interrupt_enable: self.interrupt_enable,
            interrupt_flag: self.interrupt_flag,
            ppu: self.ppu@,
            cartridge: match &self.cartridge {
                Some(c) => Some(c@),
                None => None,
            },
            dma: self.dma@,
            timer: self.timer@,
        }
    }
}

impl Mmu {
    /// Buffer sizes hold, the selected work-RAM bank is in 1..=7, and every
    /// owned device is well formed.
    pub open spec fn wf(self) -> bool {
        self.wram@.len() == 0x8000 && self.zram@.len() == 0x7F && 1 <= self.wram_bank
            && self.wram_bank <= 7 && self.ppu.wf() && self.timer.wf() && self.dma.wf()
    }

    pub fn new() -> (r: Mmu)
        ensures
            r.wf(),
            r@.wram == Seq::new(0x8000, |i: int| 0u8),
            r@.zram == Seq::new(0x7F, |i: int| 0u8),
            r@.wram_bank == 1,
            r@.switch_speed == false,
            r@.speed == Speed::SLOW,
            r@.interrupt_enable == 0,
            r@.interrupt_flag == 0,
            r@.cartridge is None,
            r@.ppu == crate::ppu::initial_ppu(),
            r@.dma == (DmaView {
                src_high: 0u8,
                pending: 0u32,
                hdma_src: 0u16,
                hdma_dst: 0u16,
                hdma_len: 0u8,
                mode: DmaMode::Idle,
                hdma_line: 0u8,
            }),
            r@.timer == (TimerView {
                div_counter: 0u16,
                tima: 0u8,
                tma: 0u8,
                tac: 0u8,
                tima_acc: 0u32,
                interrupt: 0u8,
            }),
    {
        Mmu {
            cartridge: None,
            wram: zero_vec(0x8000),
            wram_bank: 1,
            zram: zero_vec(0x7F),
            speed: Speed::SLOW,
            switch_speed: false,
            interrupt_flag: 0,
            interrupt_enable: 0,
            ppu: Ppu::new(),
            dma: Dma::new(),
            timer: Timer::new(),
        }
    }

    /// Decode and install a cartridge image; on success the PPU takes the
    /// hardware model the header asks for.
    pub fn load_cartridge(&mut self, rom: Vec<u8>) -> (r: Result<(), CartridgeError>)
        requires
            old(self).wf(),
        ensures
            final(self).wf(),
            r is Ok <==> (rom@.len() >= 0x150 && crate::cartridge::known_mbc_type(rom@[0x147])
                && crate::cartridge::header_checksum(rom@, 0x14D) == rom@[0x14D]),
            r is Err ==> final(self)@ == old(self)@,
            rom@.len() < 0x150 ==> r == Result::<(), CartridgeError>::Err(CartridgeError::TooShort),
            rom@.len() >= 0x150 && !crate::cartridge::known_mbc_type(rom@[0x147]) ==> r
                == Result::<(), CartridgeError>::Err(CartridgeError::UnknownMbcType),
            rom@.len() >= 0x150 && crate::cartridge::known_mbc_type(rom@[0x147])
                && crate::cartridge::header_checksum(rom@, 0x14D) != rom@[0x14D] ==> r
                == Result::<(), CartridgeError>::Err(CartridgeError::BadChecksum),
            r is Ok ==> final(self)@ == (MmuView {
                cartridge: Some(
                    CartridgeView {
                        model: if rom@[0x143] & 0x80 != 0 { Model::Cgb } else { Model::Dmg },
                        mbc: crate::cartridge::initial_mbc(rom@),
                    },
                ),
                ppu: PpuView {
                    model: if rom@[0x143] & 0x80 != 0 { Model::Cgb } else { Model::Dmg },
                    ..old(self)@.ppu
                },
                ..old(self)@
            }),
    {
        match Cartridge::from_bytes(rom) {
            Ok(c) => {
                let model = c.get_model();
                self.cartridge = Some(c);
                self.ppu.set_model(model);
                Ok(())
            },
            Err(e) => Err(e),
        }
    }

    /// Read one byte from the bus.
    pub fn read_byte(&self, address: u16) -> (r: u8)
        requires
            self.wf(),
        ensures
            r == self@.read(address),
    {
        if address < 0x8000 || (0xA000 <= address && address < 0xC000) {
            match &self.cartridge {
                Some(c) => c.read_byte(address),
                None => 0,
            }
        } else if address < 0xA000 {
            self.ppu.read_byte(address)
        } else if address < 0xD000 {
            self.wram[address as usize % 0x1000]
        } else if address < 0xE000 {
            self.wram[self.wram_bank * 0x1000 + (address as usize % 0x1000)]
        } else if address < 0xF000 {
            self.wram[address as usize % 0x1000]
        } else if address < 0xFE00 {
            self.wram[self.wram_bank * 0x1000 + (address as usize % 0x1000)]
        } else if address < 0xFEA0 {
            self.ppu.read_byte(address)
        } else if address < 0xFF00 {
            0xFF
        } else if address <= 0xFF03 {
            0
        } else if address <= 0xFF07 {
            self.timer.read_byte(address)
        } else if address == 0xFF0F {
            self.interrupt_flag
        } else if 0xFF10 <= address && address <= 0xFF3F {
            0
        } else if address == 0xFF46 {
            self.dma.src_high
        } else if address == 0xFF4D {
            (if matches!(self.speed, Speed::FAST) { 0x80 } else { 0 }) | (if self.switch_speed {
                1
            } else {
                0
            })
        } else if (0xFF40 <= address && address <= 0xFF4B) || address == 0xFF4F {
            self.ppu.read_byte(address)
        } else if 0xFF51 <= address && address <= 0xFF55 {
            self.dma.read_byte(address)
        } else if 0xFF68 <= address && address <= 0xFF6B {
            self.ppu.read_byte(address)
        } else if address == 0xFF70 {
            self.wram_bank as u8
        } else if 0xFF80 <= address && address <= 0xFFFE {
            self.zram[address as usize - 0xFF80]
        } else if address == 0xFFFF {
            self.interrupt_enable
        } else {
            0
        }
    }

    /// Write one byte to the bus; a write to FF46 performs the OAM DMA.
    pub fn write_byte(&mut self, address: u16, value: u8)
        requires
            old(self).wf(),
        ensures
            final(self)@ == old(self)@.write(address, value),
            final(self).wf(),
    {
        if address == 0xFF46 {
            crate::dma::execute_odma(self, value);
            return;
        }
        if address < 0x8000 || (0xA000 <= address && address < 0xC000) {
            match &mut self.cartridge {
                Some(c) => c.write_byte(address, value),
                None => {},
            }
        } else if address < 0xA000 {
            self.ppu.write_byte(address, value);
        } else if address < 0xD000 {
            self.wram.set(address as usize % 0x1000, value);
        } else if address < 0xE000 {
            self.wram.set(self.wram_bank * 0x1000 + (address as usize % 0x1000), value);
        } else if address < 0xF000 {
            self.wram.set(address as usize % 0x1000, value);
        } else if address < 0xFE00 {
            self.wram.set(self.wram_bank * 0x1000 + (address as usize % 0x1000), value);
        } else if address < 0xFEA0 {
            self.ppu.write_byte(address, value);
        } else if address < 0xFF04 {
        } else if address <= 0xFF07 {
            self.timer.write_byte(address, value);
        } else if address == 0xFF0F {
            self.interrupt_flag = value;
        } else if 0xFF10 <= address && address <= 0xFF3F {
        } else if address == 0xFF4D {
            if value & 0x01 == 0x01 {
                self.switch_speed = true;
            }
        } else if (0xFF40 <= address && address <= 0xFF4B) || address == 0xFF4F {
            self.ppu.write_byte(address, value);
        } else if 0xFF51 <= address && address <= 0xFF55 {
            self.dma.write_byte(address, value);
        } else if 0xFF68 <= address && address <= 0xFF6B {
            self.ppu.write_byte(address, value);
        } else if address == 0xFF70 {
            proof {
                crate::cpu::lemma_mask_le(value, 0x07);
            }
            self.wram_bank = if value & 0x07 == 0 { 1 } else { (value & 0x07) as usize };
        } else if 0xFF80 <= address && address <= 0xFFFE {
            self.zram.set(address as usize - 0xFF80, value);
        } else if address == 0xFFFF {
            self.interrupt_enable = value;
        }
        proof {
            assert(self@ =~~= old(self)@.write(address, value));
        }
    }

    /// Little-endian 16-bit read.
    pub fn read_word(&self, address: u16) -> (r: u16)
        requires
            self.wf(),
            address < 0xFFFF,
        ensures
            r == word16(self@.read((address + 1) as u16), self@.read(address)),
    {
        let low = self.read_byte(address) as u16;
        let high = self.read_byte(address + 1) as u16;
        proof {
            crate::cpu::lemma_compose16(self@.read((address + 1) as u16), self@.read(address));
        }
        (high << 8) | low
    }

    /// Little-endian 16-bit write: low byte first.
    pub fn write_word(&mut self, address: u16, value: u16)
        requires
            old(self).wf(),
            address < 0xFFFF,
        ensures
            final(self)@ == old(self)@.write(address, (value & 0xFF) as u8).write(
                (address + 1) as u16,
                (value >> 8) as u8,
            ),
            final(self).wf(),
    {
        let low = (value & 0xFF) as u8;
        let high = (value >> 8) as u8;
        self.write_byte(address, low);
        self.write_byte(address + 1, high);
    }

    /// Perform the KEY1 switch if it is armed, and disarm it.
    pub fn toggle_speed(&mut self)
        ensures
            final(self)@ == old(self)@.toggle_spec(),
            old(self).wf() ==> final(self).wf(),
    {
        if self.switch_speed {
            self.speed = if matches!(self.speed, Speed::FAST) {
                Speed::SLOW
            } else {
                Speed::FAST
            };
        }
        self.switch_speed = false;
    }

    /// Distribute `ticks` elapsed T-cycles: one DMA turn, then the timer and
    /// the PPU, then harvest raised interrupts into IF.
    pub fn execute_ticks(&mut self, ticks: u32)
        requires
            old(self).wf(),
            ticks <= 40000,
        ensures
            final(self)@ == old(self)@.ticks_step(ticks),
            final(self).wf(),
    {
        let divider: u32 = match self.speed {
            Speed::SLOW => 1,
            Speed::FAST => 2,
        };
        let stolen = crate::dma::dma_tick(self);
        let timer_ticks = ticks + stolen * divider;
        let gpu_ticks = ticks / divider + stolen;
        self.timer.execute_ticks(timer_ticks);
        self.ppu.execute_ticks(gpu_ticks);
        self.interrupt_flag = self.interrupt_flag | self.timer.interrupt;
        self.timer.interrupt = 0;
        self.interrupt_flag = self.interrupt_flag | self.ppu.interrupt;
        self.ppu.interrupt = 0;
        proof {
            assert(self@ =~~= old(self)@.ticks_step(ticks));
        }
    }

    /// Return the bus to the canonical post-boot state.
    #[verifier::rlimit(100)]
    pub fn reset(&mut self)
        requires
            old(self).wf(),
        ensures
            final(self)@ == old(self)@.reset_spec(),
            final(self).wf(),
    {
        self.timer.reset();
        self.ppu.reset();
        self.dma.reset();
        self.write_byte(0xFF05, 0);
        self.write_byte(0xFF06, 0);
        self.write_byte(0xFF07, 0);
        self.write_byte(0xFF10, 0x80);
        self.write_byte(0xFF11, 0xBF);
        self.write_byte(0xFF12, 0xF3);
        self.write_byte(0xFF14, 0xBF);
        self.write_byte(0xFF16, 0x3F);
        self.write_byte(0xFF17, 0);
        self.write_byte(0xFF19, 0xBF);
        self.write_byte(0xFF1A, 0x7F);
        self.write_byte(0xFF1B, 0xFF);
        self.write_byte(0xFF1C, 0x9F);
        self.write_byte(0xFF1E, 0xFF);
        self.write_byte(0xFF20, 0xFF);
        self.write_byte(0xFF21, 0);
        self.write_byte(0xFF22, 0);
        self.write_byte(0xFF23, 0xBF);
        self.write_byte(0xFF24, 0x77);
        self.write_byte(0xFF25, 0xF3);
        self.write_byte(0xFF26, 0xF1);
        self.write_byte(0xFF40, 0x91);
        self.write_byte(0xFF42, 0);
        self.write_byte(0xFF43, 0);
        self.write_byte(0xFF45, 0);
        self.write_byte(0xFF47, 0xFC);
        self.write_byte(0xFF48, 0xFF);
        self.write_byte(0xFF49, 0xFF);
        self.write_byte(0xFF4A, 0);
        self.write_byte(0xFF4B, 0);
    }
}

/// Echo RAM: every read of 0xE000..=0xFDFF returns the byte at the address
/// 0x2000 below.
pub proof fn lemma_echo_ram(m: MmuView, address: u16)
    requires
        0xE000 <= address <= 0xFDFF,
    ensures
        m.read(address) == m.read((address - 0x2000) as u16),
{
}

/// A work-RAM bank select write never leaves bank 0 selected: the value's
/// low three bits are stored, and zero maps to one.
pub proof fn lemma_wram_bank_never_zero(m: MmuView, value: u8)
    ensures
        m.write(0xFF70, value).wram_bank != 0,
        m.write(0xFF70, value).wram_bank == (if value & 0x07 == 0 { 1usize } else {
            (value & 0x07) as usize }),
{
}

/// Round trip of the stack discipline: pushing a word (high byte at SP-1,
/// low byte at SP-2) and popping it back returns the word with SP restored,
/// whenever both stack cells lie in work RAM or high RAM.
pub proof fn lemma_push_pop_round_trip(m: MmuView, sp: u16, value: u16)
    requires
        m.wram.len() == 0x8000,
        m.zram.len() == 0x7F,
        1 <= m.wram_bank <= 7,
        (0xC002 <= sp && sp <= 0xE000) || (0xFF82 <= sp && sp <= 0xFFFF),
    ensures
        ({
            let m2 = m.write(word_wrap(sp - 1), (value >> 8) as u8).write(
                word_wrap(sp - 2),
                (value & 0xFF) as u8,
            );
            let sp2 = word_wrap(sp - 2);
            word16(m2.read(word_wrap(sp2 + 1)), m2.read(sp2)) == value && word_wrap(sp2 + 2) == sp
        }),
{
    crate::cpu::lemma_pair_round_trip(value);
}

/// Word round trip through work RAM or high RAM: after `write_word`'s two
/// byte stores, reading the two bytes back composes to the stored value.
pub proof fn lemma_word_round_trip(m: MmuView, address: u16, value: u16)
    requires
        m.wram.len() == 0x8000,
        m.zram.len() == 0x7F,
        1 <= m.wram_bank <= 7,
        (0xC000 <= address && address + 1 <= 0xDFFF) || (0xFF80 <= address && address + 1
            <= 0xFFFE),
    ensures
        ({
            let m2 = m.write(address, (value & 0xFF) as u8).write(
                (address + 1) as u16,
                (value >> 8) as u8,
            );
            word16(m2.read((address + 1) as u16), m2.read(address)) == value
        }),
{
    crate::cpu::lemma_pair_round_trip(value);
}

} // verus!
