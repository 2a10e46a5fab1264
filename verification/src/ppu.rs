//! The pixel processing unit: VRAM, OAM, the LCD register file and the
//! mode state machine.
//!
//! A scanline lasts 456 dots: OAM scan (mode 2, 80 dots), draw (mode 3,
//! modelled at its 172-dot floor), then H-blank (mode 0). Lines 144..=153
//! are V-blank (mode 1); a full frame is 70224 dots. The unit raises the
//! V-blank interrupt on entering line 144 and the STAT interrupt on a rising
//! edge of the enabled STAT sources.

use vstd::prelude::*;
use crate::cartridge::Model;
use crate::mem::zero_vec;

verus! {

/// Dots in a full frame.
pub open spec fn frame_dots() -> u32 {
    70224
}

/// Dot at which V-blank (line 144) begins.
pub open spec fn vblank_start() -> u32 {
    65664
}

/// Current scanline for a dot position inside the frame.
pub open spec fn ly_of(dots: u32) -> u8 {
    (dots / 456) as u8
}

/// Current mode for a dot position inside the frame.
pub open spec fn mode_of(dots: u32) -> u8 {
    if dots >= 65664 {
        1
    } else if dots % 456 < 80 {
        2
    } else if dots % 456 < 252 {
        3
    } else {
        0
    }
}

/// Shade a 2-bit colour index through a DMG palette register.
pub open spec fn palette_shade(pal: u8, idx: u8) -> u8 {
    (pal >> ((idx * 2) as u8)) & 0x03
}

/// Raw 2-bit colour of the tile layer at pixel column `px`, row `py`: the
/// selected 32x32 map in VRAM bank 0 names a tile, whose row bit planes are
/// fetched with the LCDC addressing mode.
pub open spec fn tile_colour(p: PpuView, map_high: bool, px: u8, py: u8) -> u8 {
    let map_base: int = if map_high {
        0x1C00
    } else {
        0x1800
    };
    let tile_id = p.vram[map_base + (py / 8) * 32 + (px / 8)];
    let tile_addr: int = if p.lcdc & 0x10 != 0 {
        tile_id * 16
    } else if tile_id < 0x80 {
        0x1000 + tile_id * 16
    } else {
        0x800 + (tile_id - 0x80) * 16
    };
    let lo = p.vram[tile_addr + (py % 8) * 2];
    let hi = p.vram[tile_addr + (py % 8) * 2 + 1];
    let bit = (7 - (px % 8)) as u8;
    (((lo >> bit) & 1) + 2 * ((hi >> bit) & 1)) as u8
}

/// Whether the window covers pixel (`x`, `line`).
pub open spec fn win_hits(p: PpuView, line: u8, x: u8) -> bool {
    p.lcdc & 0x20 != 0 && p.wy <= line && p.wx <= x + 7
}

/// Raw 2-bit colour of the combined background and window layers: the
/// window where it covers the pixel, the scrolled background where LCDC
/// bit 0 enables it, colour 0 otherwise.
pub open spec fn bgwin_index(p: PpuView, line: u8, x: u8) -> u8 {
    if win_hits(p, line, x) {
        tile_colour(p, p.lcdc & 0x40 != 0, (x + 7 - p.wx) as u8, (line - p.wy) as u8)
    } else if p.lcdc & 0x01 != 0 {
        tile_colour(
            p,
            p.lcdc & 0x08 != 0,
            crate::cpu::byte_wrap(x + p.scx),
            crate::cpu::byte_wrap(line + p.scy),
        )
    } else {
        0
    }
}

/// Sprite height: 8, or 16 when LCDC bit 2 selects tall sprites.
pub open spec fn sprite_height(p: PpuView) -> int {
    if p.lcdc & 0x04 != 0 {
        16
    } else {
        8
    }
}

/// Whether OAM entry `s` covers pixel (`x`, `line`).
pub open spec fn sprite_covers(p: PpuView, s: int, line: u8, x: u8) -> bool {
    let sy = p.oam[4 * s];
    let sx = p.oam[4 * s + 1];
    sy <= line + 16 && line + 16 < sy + sprite_height(p) && sx <= x + 8 && x + 8 < sx + 8
}

/// Raw 2-bit colour of OAM entry `s` at a pixel it covers, honouring the
/// entry's X and Y flips and the tall-sprite tile pairing.
pub open spec fn sprite_colour(p: PpuView, s: int, line: u8, x: u8) -> u8 {
    let sy = p.oam[4 * s];
    let tile = p.oam[4 * s + 2];
    let attrs = p.oam[4 * s + 3];
    let row0 = line + 16 - sy;
    let row = if attrs & 0x40 != 0 {
        sprite_height(p) - 1 - row0
    } else {
        row0
    };
    let col0 = x + 8 - p.oam[4 * s + 1];
    let col = if attrs & 0x20 != 0 {
        7 - col0
    } else {
        col0
    };
    let t: int = if sprite_height(p) == 16 {
        if row >= 8 {
            (tile | 0x01) as int
        } else {
            (tile & 0xFE) as int
        }
    } else {
        tile as int
    };
    let lo = p.vram[t * 16 + (row % 8) * 2];
    let hi = p.vram[t * 16 + (row % 8) * 2 + 1];
    let bit = (7 - col) as u8;
    (((lo >> bit) & 1) + 2 * ((hi >> bit) & 1)) as u8
}

/// Index of the first OAM entry from `s` on that covers the pixel with a
/// non-transparent colour, or 40 when none does.
pub open spec fn first_sprite(p: PpuView, line: u8, x: u8, s: int) -> int
    decreases 40 - s,
{
    if s < 0 || s >= 40 {
        40
    } else if sprite_covers(p, s, line, x) && sprite_colour(p, s, line, x) != 0 {
        s
    } else {
        first_sprite(p, line, x, s + 1)
    }
}

/// Shade of pixel `i` of a whole frame, row after row: the winning sprite
/// pixel through its OBP palette unless its behind-background attribute
/// yields to a non-zero background colour; otherwise the background and
/// window colour through BGP.
pub open spec fn frame_pixel(p: PpuView, i: int) -> u8 {
    let line = (i / 160) as u8;
    let x = (i % 160) as u8;
    let bgi = bgwin_index(p, line, x);
    let s = if p.lcdc & 0x02 != 0 {
        first_sprite(p, line, x, 0)
    } else {
        40
    };
    if s < 40 {
        let attrs = p.oam[4 * s + 3];
        if attrs & 0x80 != 0 && bgi != 0 {
            palette_shade(p.bgp, bgi)
        } else {
            palette_shade(
                if attrs & 0x10 != 0 { p.obp1 } else { p.obp0 },
                sprite_colour(p, s, line, x),
            )
        }
    } else {
        palette_shade(p.bgp, bgi)
    }
}

/// Ghost image of the pixel processing unit.
#[verifier::ext_equal]
pub struct PpuView {
    pub vram: Seq<u8>,
    pub oam: Seq<u8>,
    pub lcdc: u8,
    /// Enable bits of STAT (bits 3..=6); the low bits are derived.
    pub stat: u8,
    pub scy: u8,
    pub scx: u8,
    pub lyc: u8,
    pub bgp: u8,
    pub obp0: u8,
    pub obp1: u8,
    pub wy: u8,
    pub wx: u8,
    pub vram_bank: u8,
    pub bgpal: Seq<u8>,
    pub objpal: Seq<u8>,
    pub bcps: u8,
    pub ocps: u8,
    pub model: Model,
    pub interrupt: u8,
    pub dots: u32,
    /// One 2-bit shade per pixel, 160 by 144, row after row.
    pub framebuffer: Seq<u8>,
}

impl PpuView {
    /// The composite STAT interrupt condition at dot position `d`.
    pub open spec fn stat_line_at(self, d: u32) -> bool {
        (self.stat & 0x08 != 0 && mode_of(d) == 0) || (self.stat & 0x10 != 0 && mode_of(d) == 1)
            || (self.stat & 0x20 != 0 && mode_of(d) == 2) || (self.stat & 0x40 != 0 && ly_of(d)
            == self.lyc)
    }

    /// The unit after `t` dots: the position advances modulo the frame, the
    /// V-blank interrupt is raised exactly when the line-144 boundary was
    /// crossed, and the STAT interrupt on a rising edge of its condition.
    pub open spec fn step(self, t: u32) -> PpuView {
        let total = self.dots + t;
        let dots2 = (total % 70224) as u32;
        let vblank = (self.dots < 65664 && total >= 65664) || total >= 70224 + 65664;
        let rise = !self.stat_line_at(self.dots) && PpuView { dots: dots2, ..self }.stat_line_at(
            dots2,
        );
        PpuView {
            dots: dots2,
            interrupt: self.interrupt | (if vblank { 0x01u8 } else { 0u8 }) | (if rise { 0x02u8 }
                else { 0u8 }),
            ..self
        }
    }

    /// Register, VRAM and OAM reads as the bus sees them.
    pub open spec fn read(self, address: u16) -> u8 {
        if 0x8000 <= address && address < 0xA000 {
            self.vram[self.vram_bank * 0x2000 + (address - 0x8000)]
        } else if 0xFE00 <= address && address < 0xFEA0 {
            self.oam[address - 0xFE00]
        } else if address == 0xFF40 {
            self.lcdc
        } else if address == 0xFF41 {
            (self.stat & 0x78) | (if ly_of(self.dots) == self.lyc { 0x04u8 } else { 0u8 }) | mode_of(
                self.dots,
            )
        } else if address == 0xFF42 {
            self.scy
        } else if address == 0xFF43 {
            self.scx
        } else if address == 0xFF44 {
            ly_of(self.dots)
        } else if address == 0xFF45 {
            self.lyc
        } else if address == 0xFF47 {
            self.bgp
        } else if address == 0xFF48 {
            self.obp0
        } else if address == 0xFF49 {
            self.obp1
        } else if address == 0xFF4A {
            self.wy
        } else if address == 0xFF4B {
            self.wx
        } else if address == 0xFF4F {
            self.vram_bank | 0xFE
        } else if address == 0xFF68 {
            self.bcps
        } else if address == 0xFF69 {
            self.bgpal[(self.bcps & 0x3F) as int]
        } else if address == 0xFF6A {
            self.ocps
        } else if address == 0xFF6B {
            self.objpal[(self.ocps & 0x3F) as int]
        } else {
            0xFF
        }
    }

    /// Register, VRAM and OAM writes; LY is read-only, STAT keeps only its
    /// enable bits, and palette-data writes auto-increment their index when
    /// the index register's top bit asks for it.
    pub open spec fn write(self, address: u16, value: u8) -> PpuView {
        if 0x8000 <= address && address < 0xA000 {
            PpuView {
                vram: self.vram.update(self.vram_bank * 0x2000 + (address - 0x8000), value),
                ..self
            }
        } else if 0xFE00 <= address && address < 0xFEA0 {
            PpuView { oam: self.oam.update(address - 0xFE00, value), ..self }
        } else if address == 0xFF40 {
            PpuView { lcdc: value, ..self }
        } else if address == 0xFF41 {
            PpuView { stat: value & 0x78, ..self }
        } else if address == 0xFF42 {
            PpuView { scy: value, ..self }
        } else if address == 0xFF43 {
            PpuView { scx: value, ..self }
        } else if address == 0xFF45 {
            PpuView { lyc: value, ..self }
        } else if address == 0xFF47 {
            PpuView { bgp: value, ..self }
        } else if address == 0xFF48 {
            PpuView { obp0: value, ..self }
        } else if address == 0xFF49 {
            PpuView { obp1: value, ..self }
        } else if address == 0xFF4A {
            PpuView { wy: value, ..self }
        } else if address == 0xFF4B {
            PpuView { wx: value, ..self }
        } else if address == 0xFF4F {
            PpuView { vram_bank: value & 0x01, ..self }
        } else if address == 0xFF68 {
            PpuView { bcps: value, ..self }
        } else if address == 0xFF69 {
            PpuView {
                bgpal: self.bgpal.update((self.bcps & 0x3F) as int, value),
                bcps: if self.bcps & 0x80 != 0 {
                    (self.bcps & 0x80) | (((self.bcps & 0x3F) + 1) as u8 & 0x3F)
                } else {
                    self.bcps
                },
                ..self
            }
        } else if address == 0xFF6A {
            PpuView { ocps: value, ..self }
        } else if address == 0xFF6B {
            PpuView {
                objpal: self.objpal.update((self.ocps & 0x3F) as int, value),
                ocps: if self.ocps & 0x80 != 0 {
                    (self.ocps & 0x80) | (((self.ocps & 0x3F) + 1) as u8 & 0x3F)
                } else {
                    self.ocps
                },
                ..self
            }
        } else {
            self
        }
    }
}

/// The power-on state of the unit.
pub open spec fn initial_ppu() -> PpuView {
    PpuView {
        vram: Seq::new(0x4000, |i: int| 0u8),
        oam: Seq::new(0xA0, |i: int| 0u8),
        lcdc: 0,
        stat: 0,
        scy: 0,
        scx: 0,
        lyc: 0,
        bgp: 0,
        obp0: 0,
        obp1: 0,
        wy: 0,
        wx: 0,
        vram_bank: 0,
        bgpal: Seq::new(64, |i: int| 0u8),
        objpal: Seq::new(64, |i: int| 0u8),
        bcps: 0,
        ocps: 0,
        model: Model::Dmg,
        interrupt: 0,
        dots: 0,
        framebuffer: Seq::new(23040, |i: int| 0u8),
    }
}

/// Shade a 2-bit colour index through a DMG palette register.
fn shade(pal: u8, idx: u8) -> (r: u8)
    requires
        idx <= 3,
    ensures
        r == palette_shade(pal, idx),
{
    (pal >> (idx * 2)) & 0x03
}

/// The pixel processing unit device.
pub struct Ppu {
    pub vram: Vec<u8>,
    pub oam: Vec<u8>,
    pub lcdc: u8,
    pub stat: u8,
    pub scy: u8,
    pub scx: u8,
    pub lyc: u8,
    pub bgp: u8,
    pub obp0: u8,
    pub obp1: u8,
    pub wy: u8,
    pub wx: u8,
    pub vram_bank: u8,
    pub bgpal: Vec<u8>,
    pub objpal: Vec<u8>,
    pub bcps: u8,
    pub ocps: u8,
    pub model: Model,
    pub interrupt: u8,
    pub dots: u32,
    pub framebuffer: Vec<u8>,
}

impl View for Ppu {
    type V = PpuView;

    open spec fn view(&self) -> PpuView {
        PpuView {
            vram: self.vram@,
            oam: self.oam@,
            lcdc: self.lcdc,
            stat: self.stat,
            scy: self.scy,
            scx: self.scx,
            lyc: self.lyc,
            bgp: self.bgp,
            obp0: self.obp0,
            obp1: self.obp1,
            wy: self.wy,
            wx: self.wx,
            vram_bank: self.vram_bank,
            bgpal: self.bgpal@,
            objpal: self.objpal@,
            bcps: self.bcps,
            ocps: self.ocps,
            model: self.model,
            interrupt: self.interrupt,
            dots: self.dots,
            framebuffer: self.framebuffer@,
        }
    }
}

impl Ppu {
    /// Buffer sizes, bank range and frame position stay in range.
    pub open spec fn wf(self) -> bool {
        self.vram@.len() == 0x4000 && self.oam@.len() == 0xA0 && self.bgpal@.len() == 64
            && self.objpal@.len() == 64 && self.framebuffer@.len() == 23040 && self.vram_bank <= 1
            && self.dots < 70224
    }

    pub fn new() -> (r: Ppu)
        ensures
            r.wf(),
            r@ == initial_ppu(),
    {
        let p = Ppu {
            vram: zero_vec(0x4000),
            oam: zero_vec(0xA0),
            lcdc: 0,
            stat: 0,
            scy: 0,
            scx: 0,
            lyc: 0,
            bgp: 0,
            obp0: 0,
            obp1: 0,
            wy: 0,
            wx: 0,
            vram_bank: 0,
            bgpal: zero_vec(64),
            objpal: zero_vec(64),
            bcps: 0,
            ocps: 0,
            model: Model::Dmg,
            interrupt: 0,
            dots: 0,
            framebuffer: zero_vec(23040),
        };
        proof {
            assert(p@ =~~= initial_ppu());
        }
        p
    }

    pub fn set_model(&mut self, model: Model)
        ensures
            final(self)@ == (PpuView { model, ..old(self)@ }),
            old(self).wf() ==> final(self).wf(),
    {
        self.model = model;
    }

    /// Return the registers, counters and raised interrupts to their
    /// power-on values; memory contents are kept.
    pub fn reset(&mut self)
        ensures
            final(self)@ == (PpuView {
                lcdc: 0u8,
                stat: 0u8,
                scy: 0u8,
                scx: 0u8,
                lyc: 0u8,
                bgp: 0u8,
                obp0: 0u8,
                obp1: 0u8,
                wy: 0u8,
                wx: 0u8,
                vram_bank: 0u8,
                bcps: 0u8,
                ocps: 0u8,
                interrupt: 0u8,
                dots: 0u32,
                ..old(self)@
            }),
            old(self).wf() ==> final(self).wf(),
    {
        self.lcdc = 0;
        self.stat = 0;
        self.scy = 0;
        self.scx = 0;
        self.lyc = 0;
        self.bgp = 0;
        self.obp0 = 0;
        self.obp1 = 0;
        self.wy = 0;
        self.wx = 0;
        self.vram_bank = 0;
        self.bcps = 0;
        self.ocps = 0;
        self.interrupt = 0;
        self.dots = 0;
    }

    pub fn read_byte(&self, address: u16) -> (r: u8)
        requires
            self.wf(),
        ensures
            r == self@.read(address),
    {
        if 0x8000 <= address && address < 0xA000 {
            self.vram[self.vram_bank as usize * 0x2000 + (address as usize - 0x8000)]
        } else if 0xFE00 <= address && address < 0xFEA0 {
            self.oam[address as usize - 0xFE00]
        } else if address == 0xFF40 {
            self.lcdc
        } else if address == 0xFF41 {
            let coincidence: u8 = if self.dots / 456 == self.lyc as u32 { 0x04 } else { 0 };
            proof {
                assert(self@.dots / 456 < 256) by (nonlinear_arith)
                    requires self@.dots < 70224;
            }
            (self.stat & 0x78) | coincidence | self.mode()
        } else if address == 0xFF42 {
            self.scy
        } else if address == 0xFF43 {
            self.scx
        } else if address == 0xFF44 {
            proof {
                assert(self@.dots / 456 < 256) by (nonlinear_arith)
                    requires self@.dots < 70224;
            }
            (self.dots / 456) as u8
        } else if address == 0xFF45 {
            self.lyc
        } else if address == 0xFF47 {
            self.bgp
        } else if address == 0xFF48 {
            self.obp0
        } else if address == 0xFF49 {
            self.obp1
        } else if address == 0xFF4A {
            self.wy
        } else if address == 0xFF4B {
            self.wx
        } else if address == 0xFF4F {
            self.vram_bank | 0xFE
        } else if address == 0xFF68 {
            self.bcps
        } else if address == 0xFF69 {
            proof {
                crate::cpu::lemma_mask_le(self@.bcps, 0x3F);
            }
            self.bgpal[(self.bcps & 0x3F) as usize]
        } else if address == 0xFF6A {
            self.ocps
        } else if address == 0xFF6B {
            proof {
                crate::cpu::lemma_mask_le(self@.ocps, 0x3F);
            }
            self.objpal[(self.ocps & 0x3F) as usize]
        } else {
            0xFF
        }
    }

    pub fn write_byte(&mut self, address: u16, value: u8)
        requires
            old(self).wf(),
        ensures
            final(self)@ == old(self)@.write(address, value),
            final(self).wf(),
    {
        if 0x8000 <= address && address < 0xA000 {
            let idx: usize = self.vram_bank as usize * 0x2000 + (address as usize - 0x8000);
            self.vram.set(idx, value);
        } else if 0xFE00 <= address && address < 0xFEA0 {
            self.oam.set(address as usize - 0xFE00, value);
        } else if address == 0xFF40 {
            self.lcdc = value;
        } else if address == 0xFF41 {
            self.stat = value & 0x78;
        } else if address == 0xFF42 {
            self.scy = value;
        } else if address == 0xFF43 {
            self.scx = value;
        } else if address == 0xFF45 {
            self.lyc = value;
        } else if address == 0xFF47 {
            self.bgp = value;
        } else if address == 0xFF48 {
            self.obp0 = value;
        } else if address == 0xFF49 {
            self.obp1 = value;
        } else if address == 0xFF4A {
            self.wy = value;
        } else if address == 0xFF4B {
            self.wx = value;
        } else if address == 0xFF4F {
            proof {
                crate::cpu::lemma_mask_le(value, 0x01);
            }
            self.vram_bank = value & 0x01;
        } else if address == 0xFF68 {
            self.bcps = value;
        } else if address == 0xFF69 {
            proof {
                crate::cpu::lemma_mask_le(old(self)@.bcps, 0x3F);
            }
            self.bgpal.set((self.bcps & 0x3F) as usize, value);
            if self.bcps & 0x80 != 0 {
                self.bcps = (self.bcps & 0x80) | (((self.bcps & 0x3F) + 1) & 0x3F);
            }
        } else if address == 0xFF6A {
            self.ocps = value;
        } else if address == 0xFF6B {
            proof {
                crate::cpu::lemma_mask_le(old(self)@.ocps, 0x3F);
            }
            self.objpal.set((self.ocps & 0x3F) as usize, value);
            if self.ocps & 0x80 != 0 {
                self.ocps = (self.ocps & 0x80) | (((self.ocps & 0x3F) + 1) & 0x3F);
            }
        }
        proof {
            assert(self@ =~= old(self)@.write(address, value));
        }
    }

    /// The current scanline.
    pub fn line(&self) -> (r: u8)
        requires
            self.wf(),
        ensures
            r == ly_of(self@.dots),
    {
        proof {
            assert(self@.dots / 456 < 256) by (nonlinear_arith)
                requires self@.dots < 70224;
        }
        (self.dots / 456) as u8
    }

    /// The current mode number.
    pub fn mode(&self) -> (r: u8)
        requires
            self.wf(),
        ensures
            r == mode_of(self@.dots),
    {
        if self.dots >= 65664 {
            1
        } else if self.dots % 456 < 80 {
            2
        } else if self.dots % 456 < 252 {
            3
        } else {
            0
        }
    }

    /// Whether the composite STAT condition holds right now.
    fn stat_line(&self) -> (r: bool)
        requires
            self.wf(),
        ensures
            r == self@.stat_line_at(self@.dots),
    {
        let m = self.mode();
        proof {
            assert(self@.dots / 456 < 256) by (nonlinear_arith)
                requires self@.dots < 70224;
        }
        (self.stat & 0x08 != 0 && m == 0) || (self.stat & 0x10 != 0 && m == 1) || (self.stat
            & 0x20 != 0 && m == 2) || (self.stat & 0x40 != 0 && (self.dots / 456) as u8
            == self.lyc)
    }

    /// Advance the unit by `t` dots.
    pub fn execute_ticks(&mut self, t: u32)
        requires
            old(self).wf(),
            t <= 70224,
        ensures
            final(self)@ == old(self)@.step(t),
            final(self).wf(),
    {
        let line_before = self.stat_line();
        let total: u32 = self.dots + t;
        let vblank: bool = (self.dots < 65664 && total >= 65664) || total >= 70224 + 65664;
        self.dots = total % 70224;
        let line_after = self.stat_line();
        let rise = !line_before && line_after;
        self.interrupt = self.interrupt | (if vblank { 0x01 } else { 0 }) | (if rise { 0x02 } else {
            0 });
    }

    /// Raw tile-layer colour at pixel column `px`, row `py`.
    fn tile_colour_at(&self, map_high: bool, px: u8, py: u8) -> (r: u8)
        requires
            self.wf(),
        ensures
            r == tile_colour(self@, map_high, px, py),
            r <= 3,
    {
        let map_base: usize = if map_high {
            0x1C00
        } else {
            0x1800
        };
        let tile_id = self.vram[map_base + (py as usize / 8) * 32 + (px as usize / 8)];
        let tile_addr: usize = if self.lcdc & 0x10 != 0 {
            tile_id as usize * 16
        } else if tile_id < 0x80 {
            0x1000 + tile_id as usize * 16
        } else {
            0x800 + (tile_id as usize - 0x80) * 16
        };
        let row = py as usize % 8;
        let lo = self.vram[tile_addr + row * 2];
        let hi = self.vram[tile_addr + row * 2 + 1];
        let bit = 7 - (px % 8);
        proof {
            crate::cpu::lemma_mask_le(lo >> bit, 1);
            crate::cpu::lemma_mask_le(hi >> bit, 1);
        }
        ((lo >> bit) & 1) + 2 * ((hi >> bit) & 1)
    }

    /// Raw combined background and window colour at a screen pixel.
    fn bgwin_index_at(&self, line: u8, x: u8) -> (r: u8)
        requires
            self.wf(),
            line < 144,
            x < 160,
        ensures
            r == bgwin_index(self@, line, x),
            r <= 3,
    {
        if self.lcdc & 0x20 != 0 && self.wy <= line && self.wx <= x + 7 {
            self.tile_colour_at(self.lcdc & 0x40 != 0, x + 7 - self.wx, line - self.wy)
        } else if self.lcdc & 0x01 != 0 {
            self.tile_colour_at(
                self.lcdc & 0x08 != 0,
                x.wrapping_add(self.scx),
                line.wrapping_add(self.scy),
            )
        } else {
            0
        }
    }

    /// Raw colour of OAM entry `s` at a pixel it covers.
    fn sprite_colour_at(&self, s: usize, line: u8, x: u8) -> (r: u8)
        requires
            self.wf(),
            s < 40,
            line < 144,
            x < 160,
            sprite_covers(self@, s as int, line, x),
        ensures
            r == sprite_colour(self@, s as int, line, x),
            r <= 3,
    {
        let height: u16 = if self.lcdc & 0x04 != 0 {
            16
        } else {
            8
        };
        let sy = self.oam[4 * s];
        let sx = self.oam[4 * s + 1];
        let tile = self.oam[4 * s + 2];
        let attrs = self.oam[4 * s + 3];
        let row0: u16 = line as u16 + 16 - sy as u16;
        let row: u16 = if attrs & 0x40 != 0 {
            height - 1 - row0
        } else {
            row0
        };
        let col0: u16 = x as u16 + 8 - sx as u16;
        let col: u16 = if attrs & 0x20 != 0 {
            7 - col0
        } else {
            col0
        };
        let t: usize = if height == 16 {
            if row >= 8 {
                (tile | 0x01) as usize
            } else {
                (tile & 0xFE) as usize
            }
        } else {
            tile as usize
        };
        proof {
            crate::cpu::lemma_mask_le(tile, 0xFE);
        }
        let lo = self.vram[t * 16 + (row as usize % 8) * 2];
        let hi = self.vram[t * 16 + (row as usize % 8) * 2 + 1];
        let bit = (7 - col) as u8;
        proof {
            crate::cpu::lemma_mask_le(lo >> bit, 1);
            crate::cpu::lemma_mask_le(hi >> bit, 1);
        }
        ((lo >> bit) & 1) + 2 * ((hi >> bit) & 1)
    }

    /// The first OAM entry covering the pixel with a non-transparent
    /// colour, with that colour; 40 when no sprite shows here.
    fn first_sprite_at(&self, line: u8, x: u8) -> (r: (usize, u8))
        requires
            self.wf(),
            line < 144,
            x < 160,
        ensures
            r.0 == first_sprite(self@, line, x, 0),
            r.0 <= 40,
            r.0 < 40 ==> r.1 == sprite_colour(self@, r.0 as int, line, x) && r.1 <= 3,
    {
        let height: u16 = if self.lcdc & 0x04 != 0 {
            16
        } else {
            8
        };
        let mut s: usize = 0;
        while s < 40
            invariant
                self.wf(),
                line < 144,
                x < 160,
                s <= 40,
                height == sprite_height(self@),
                first_sprite(self@, line, x, 0) == first_sprite(self@, line, x, s as int),
            decreases 40 - s,
        {
            let sy = self.oam[4 * s] as u16;
            let sx = self.oam[4 * s + 1] as u16;
            let covers = sy <= line as u16 + 16 && (line as u16 + 16) < sy + height && sx <= x
                as u16 + 8 && (x as u16 + 8) < sx + 8;
            if covers {
                let c = self.sprite_colour_at(s, line, x);
                if c != 0 {
                    return (s, c);
                }
            }
            s = s + 1;
        }
        (40, 0)
    }

    /// Render one whole frame    /// Render one whole frame of the background layer from the current VRAM
    /// and registers into the framebuffer; the host takes the frame at each
    /// V-blank entry.
    pub fn render_frame(&mut self)
        requires
            old(self).wf(),
        ensures
            final(self)@ == (PpuView {
                framebuffer: Seq::new(23040, |i: int| frame_pixel(old(self)@, i)),
                ..old(self)@
            }),
            final(self).wf(),
    {
        let mut fb: Vec<u8> = Vec::new();
        let mut k: usize = 0;
        while k < 23040
            invariant
                self.wf(),
                *self == *old(self),
                k <= 23040,
                fb@.len() == k,
                forall|i: int| 0 <= i < k ==> fb@[i] == frame_pixel(self@, i),
            decreases 23040 - k,
        {
            let line = (k / 160) as u8;
            let x = (k % 160) as u8;
            let bgi = self.bgwin_index_at(line, x);
            let found = if self.lcdc & 0x02 != 0 {
                self.first_sprite_at(line, x)
            } else {
                (40, 0)
            };
            let px = if found.0 < 40 {
                let attrs = self.oam[4 * found.0 + 3];
                if attrs & 0x80 != 0 && bgi != 0 {
                    shade(self.bgp, bgi)
                } else {
                    shade(
                        if attrs & 0x10 != 0 { self.obp1 } else { self.obp0 },
                        found.1,
                    )
                }
            } else {
                shade(self.bgp, bgi)
            };
            fb.push(px);
            k = k + 1;
        }
        self.framebuffer = fb;
        proof {
            assert(self@.framebuffer =~= Seq::new(23040, |i: int| frame_pixel(old(self)@, i)));
            assert(self@ =~~= (PpuView {
                framebuffer: Seq::new(23040, |i: int| frame_pixel(old(self)@, i)),
                ..old(self)@
            }));
        }
    }
}

} // verus!
