//! The DMA engine: OAM DMA (FF46) and CGB HDMA/GDMA (FF51..=FF55).
//!
//! An OAM DMA is modelled as an immediate 160-byte copy whose 640 stolen
//! T-cycles are handed to the bus on the next tick. A general-purpose HDMA
//! transfers its whole payload on the next tick; an H-blank HDMA moves 16
//! bytes per H-blank entry until its length runs out or bit 7 of FF55 is
//! written back as zero.

use vstd::prelude::*;
use crate::mmu::Mmu;

verus! {

/// What the HDMA channel is doing.
#[derive(Clone, Copy, PartialEq, Eq, Structural)]
pub enum DmaMode {
    Idle,
    General,
    HBlank,
}

/// Ghost image of the DMA engine.
#[verifier::ext_equal]
pub struct DmaView {
    /// Last value written to FF46: the OAM DMA source page.
    pub src_high: u8,
    /// T-cycles already stolen from the bus, drained on the next tick.
    pub pending: u32,
    pub hdma_src: u16,
    pub hdma_dst: u16,
    /// Remaining 16-byte blocks, minus one.
    pub hdma_len: u8,
    pub mode: DmaMode,
    /// Scanline already served by the H-blank channel.
    pub hdma_line: u8,
}

impl DmaView {
    /// HDMA register file as the bus reads it: FF55 reports the remaining
    /// length and reads 0xFF once the channel is idle.
    pub open spec fn read(self, address: u16) -> u8 {
        if address == 0xFF51 {
            (self.hdma_src >> 8) as u8
        } else if address == 0xFF52 {
            (self.hdma_src & 0xFF) as u8
        } else if address == 0xFF53 {
            (self.hdma_dst >> 8) as u8
        } else if address == 0xFF54 {
            (self.hdma_dst & 0xFF) as u8
        } else if self.mode is Idle {
            0xFF
        } else {
            self.hdma_len
        }
    }

    /// HDMA register write; FF55 starts a transfer or, with bit 7 clear
    /// during an active H-blank transfer, aborts it.
    pub open spec fn write(self, address: u16, value: u8) -> DmaView {
        if address == 0xFF51 {
            DmaView { hdma_src: (value * 0x100 + (self.hdma_src & 0xFF)) as u16, ..self }
        } else if address == 0xFF52 {
            DmaView { hdma_src: ((self.hdma_src & 0xFF00) + value) as u16, ..self }
        } else if address == 0xFF53 {
            DmaView { hdma_dst: (value * 0x100 + (self.hdma_dst & 0xFF)) as u16, ..self }
        } else if address == 0xFF54 {
            DmaView { hdma_dst: ((self.hdma_dst & 0xFF00) + value) as u16, ..self }
        } else if value & 0x80 == 0 && self.mode is HBlank {
            DmaView { mode: DmaMode::Idle, hdma_len: value & 0x7F, ..self }
        } else {
            DmaView {
                mode: if value & 0x80 != 0 {
                    DmaMode::HBlank
                } else {
                    DmaMode::General
                },
                hdma_len: value & 0x7F,
                hdma_line: 0xFF,
                ..self
            }
        }
    }
}

/// The DMA engine.
pub struct Dma {
    pub src_high: u8,
    pub pending: u32,
    pub hdma_src: u16,
    pub hdma_dst: u16,
    pub hdma_len: u8,
    pub mode: DmaMode,
    pub hdma_line: u8,
}

impl View for Dma {
    type V = DmaView;

    open spec fn view(&self) -> DmaView {
        DmaView {
            src_high: self.src_high,
            pending: self.pending,
            hdma_src: self.hdma_src,
            hdma_dst: self.hdma_dst,
            hdma_len: self.hdma_len,
            mode: self.mode,
            hdma_line: self.hdma_line,
        }
    }
}

impl Dma {
    /// The stolen-cycle account never exceeds one OAM DMA, and an active
    /// HDMA channel has at most 128 blocks left.
    pub open spec fn wf(self) -> bool {
        self.pending <= 640 && (self.mode is Idle || self.hdma_len <= 0x7F)
    }

    pub fn new() -> (r: Dma)
        ensures
            r@ == (DmaView {
                src_high: 0u8,
                pending: 0u32,
                hdma_src: 0u16,
                hdma_dst: 0u16,
                hdma_len: 0u8,
                mode: DmaMode::Idle,
                hdma_line: 0u8,
            }),
            r.wf(),
    {
        Dma {
            src_high: 0,
            pending: 0,
            hdma_src: 0,
            hdma_dst: 0,
            hdma_len: 0,
            mode: DmaMode::Idle,
            hdma_line: 0,
        }
    }

    pub fn reset(&mut self)
        ensures
            final(self)@ == (DmaView {
                src_high: 0u8,
                pending: 0u32,
                hdma_src: 0u16,
                hdma_dst: 0u16,
                hdma_len: 0u8,
                mode: DmaMode::Idle,
                hdma_line: 0u8,
            }),
            final(self).wf(),
    {
        self.src_high = 0;
        self.pending = 0;
        self.hdma_src = 0;
        self.hdma_dst = 0;
        self.hdma_len = 0;
        self.mode = DmaMode::Idle;
        self.hdma_line = 0;
    }

    pub fn read_byte(&self, address: u16) -> (r: u8)
        ensures
            r == self@.read(address),
    {
        if address == 0xFF51 {
            (self.hdma_src >> 8) as u8
        } else if address == 0xFF52 {
            (self.hdma_src & 0xFF) as u8
        } else if address == 0xFF53 {
            (self.hdma_dst >> 8) as u8
        } else if address == 0xFF54 {
            (self.hdma_dst & 0xFF) as u8
        } else if matches!(self.mode, DmaMode::Idle) {
            0xFF
        } else {
            self.hdma_len
        }
    }

    pub fn write_byte(&mut self, address: u16, value: u8)
        ensures
            final(self)@ == old(self)@.write(address, value),
            old(self).wf() ==> final(self).wf(),
    {
        proof {
            crate::cpu::lemma_mask16_le(old(self)@.hdma_src, 0xFF);
            crate::cpu::lemma_mask16_le(old(self)@.hdma_src, 0xFF00);
            crate::cpu::lemma_mask16_le(old(self)@.hdma_dst, 0xFF);
            crate::cpu::lemma_mask16_le(old(self)@.hdma_dst, 0xFF00);
            crate::cpu::lemma_mask_le(value, 0x7F);
        }
        if address == 0xFF51 {
            self.hdma_src = (value as u16) * 0x100 + (self.hdma_src & 0xFF);
        } else if address == 0xFF52 {
            self.hdma_src = (self.hdma_src & 0xFF00) + value as u16;
        } else if address == 0xFF53 {
            self.hdma_dst = (value as u16) * 0x100 + (self.hdma_dst & 0xFF);
        } else if address == 0xFF54 {
            self.hdma_dst = (self.hdma_dst & 0xFF00) + value as u16;
        } else if value & 0x80 == 0 && matches!(self.mode, DmaMode::HBlank) {
            self.mode = DmaMode::Idle;
            self.hdma_len = value & 0x7F;
        } else {
            self.mode = if value & 0x80 != 0 {
                DmaMode::HBlank
            } else {
                DmaMode::General
            };
            self.hdma_len = value & 0x7F;
            self.hdma_line = 0xFF;
        }
    }
}

/// The OAM DMA triggered by a write of `value` to FF46: record the source
/// page, charge 640 stolen T-cycles, and copy 160 bytes from `value << 8`
/// into OAM.
pub fn execute_odma(m: &mut Mmu, value: u8)
    requires
        old(m).wf(),
    ensures
        final(m)@ == old(m)@.odma_apply(value),
        final(m).wf(),
{
    m.dma.src_high = value;
    m.dma.pending = 640;
    let src: u16 = value as u16 * 0x100;
    let ghost m0 = m@;
    let mut i: u16 = 0;
    while i < 160
        invariant
            i <= 160,
            src == value * 0x100,
            m@ == crate::mmu::oam_copy_step(m0, src, i as nat),
            m.wf(),
        decreases 160 - i,
    {
        let b = m.read_byte(src + i);
        m.ppu.write_byte(0xFE00 + i, b);
        i = i + 1;
        proof {
            assert(m@ =~~= crate::mmu::oam_copy_step(m0, src, i as nat));
        }
    }
}

/// One HDMA block copy of `count` bytes from `src0` into the VRAM window at
/// `dst0`, byte by byte through the bus's read dispatch.
fn copy_to_vram(m: &mut Mmu, src0: u16, dst0: u16, count: u16)
    requires
        old(m).wf(),
        dst0 <= 0x1FF0,
        count <= 2048,
    ensures
        final(m)@ == crate::mmu::vram_copy_step(old(m)@, src0, dst0, count as nat),
        final(m).wf(),
{
    let ghost m0 = m@;
    let mut i: u16 = 0;
    while i < count
        invariant
            i <= count,
            count <= 2048,
            dst0 <= 0x1FF0,
            m@ == crate::mmu::vram_copy_step(m0, src0, dst0, i as nat),
            m.wf(),
        decreases count - i,
    {
        let b = m.read_byte(src0.wrapping_add(i));
        let dst: u16 = 0x8000 + ((dst0 + i) % 0x2000);
        m.ppu.write_byte(dst, b);
        i = i + 1;
        proof {
            assert(m@ =~~= crate::mmu::vram_copy_step(m0, src0, dst0, i as nat));
        }
    }
}

/// One DMA engine turn, as the bus takes it at the head of each tick: drain
/// the stolen-cycle account, run a pending general-purpose transfer whole,
/// or move one 16-byte block when the H-blank channel sees a fresh H-blank
/// line. Returns the T-cycles the engine stole from the bus.
pub fn dma_tick(m: &mut Mmu) -> (stolen: u32)
    requires
        old(m).wf(),
    ensures
        final(m)@ == old(m)@.dma_step().0,
        stolen == old(m)@.dma_step().1,
        stolen <= 4768,
        final(m).wf(),
{
    let stolen0 = m.dma.pending;
    m.dma.pending = 0;
    proof {
        crate::cpu::lemma_mask16_le(old(m)@.dma.hdma_dst, 0x1FF0);
    }
    match m.dma.mode {
        DmaMode::Idle => stolen0,
        DmaMode::General => {
            let src0 = m.dma.hdma_src & 0xFFF0;
            let dst0 = m.dma.hdma_dst & 0x1FF0;
            let blocks: u32 = m.dma.hdma_len as u32 + 1;
            let ghost m0 = m@;
            copy_to_vram(m, src0, dst0, (blocks * 16) as u16);
            m.dma.mode = DmaMode::Idle;
            m.dma.hdma_len = 0x7F;
            proof {
                crate::mmu::lemma_vram_copy_frame(m0, src0, dst0, (blocks * 16) as nat);
                assert(m@ =~~= old(m)@.dma_step().0);
            }
            stolen0 + blocks * 32
        },
        DmaMode::HBlank => {
            let in_hblank = m.ppu.mode() == 0;
            let line = m.ppu.line();
            if in_hblank && line != m.dma.hdma_line {
                let src0 = m.dma.hdma_src & 0xFFF0;
                let dst0 = m.dma.hdma_dst & 0x1FF0;
                let ghost m0 = m@;
                copy_to_vram(m, src0, dst0, 16);
                proof {
                    crate::mmu::lemma_vram_copy_frame(m0, src0, dst0, 16);
                }
                m.dma.hdma_src = src0.wrapping_add(16);
                m.dma.hdma_dst = dst0.wrapping_add(16);
                if m.dma.hdma_len == 0 {
                    m.dma.hdma_len = 0xFF;
                    m.dma.mode = DmaMode::Idle;
                } else {
                    m.dma.hdma_len = m.dma.hdma_len - 1;
                }
                m.dma.hdma_line = line;
                proof {
                    assert(m@ =~~= old(m)@.dma_step().0);
                }
                stolen0 + 32
            } else {
                proof {
                    assert(m@ =~~= old(m)@.dma_step().0);
                }
                stolen0
            }
        },
    }
}

} // verus!
