//! The console: the CPU and the bus stepped in lockstep.
//!
//! Each tick lets the CPU retire one instruction boundary and then hands the
//! elapsed T-cycles to the bus, which fans them out to the DMA engine, the
//! timer and the pixel processing unit.

use vstd::prelude::*;
use crate::cartridge::{CartridgeError, CartridgeView, Model};
use crate::cpu::{tick_post, Cpu};
use crate::mmu::{Mmu, MmuView};
use crate::ppu::PpuView;

verus! {

/// One console boundary `(c0, m0) -> (c1, m1)` costing `k` T-cycles: the
/// CPU takes one `tick_post` step against the bus, and the bus then
/// distributes exactly those cycles to the peripherals.
pub open spec fn console_tick_post(c0: Cpu, m0: MmuView, c1: Cpu, m1: MmuView, k: u8) -> bool {
    exists|mm: MmuView|
        #[trigger] tick_post(c0, m0, c1, mm, k) && m1 == mm.ticks_step(k as u32)
}

/// The machine `(c1, m1)` lies `steps` console boundaries after `(c0, m0)`,
/// with `consumed` T-cycles consumed in all.
pub open spec fn console_runs(
    c0: Cpu,
    m0: MmuView,
    c1: Cpu,
    m1: MmuView,
    steps: nat,
    consumed: int,
) -> bool
    decreases steps,
{
    if steps == 0 {
        c1 == c0 && m1 == m0 && consumed == 0
    } else {
        exists|cm: Cpu, mm: MmuView, k: u8|
            #[trigger] console_tick_post(c0, m0, cm, mm, k) && console_runs(
                cm,
                mm,
                c1,
                m1,
                (steps - 1) as nat,
                consumed - k,
            )
    }
}

/// A run extends by one boundary at its end.
proof fn lemma_console_runs_extend(
    c0: Cpu,
    m0: MmuView,
    c1: Cpu,
    m1: MmuView,
    c2: Cpu,
    m2: MmuView,
    steps: nat,
    consumed: int,
    k: u8,
)
    requires
        console_runs(c0, m0, c1, m1, steps, consumed),
        console_tick_post(c1, m1, c2, m2, k),
    ensures
        console_runs(c0, m0, c2, m2, steps + 1, consumed + k),
    decreases steps,
{
    if steps == 0 {
        assert(console_runs(c2, m2, c2, m2, 0, (consumed + k) - k));
        assert(console_tick_post(c0, m0, c2, m2, k));
    } else {
        let (cm, mm, kk) = choose|cm: Cpu, mm: MmuView, kk: u8|
            #[trigger] console_tick_post(c0, m0, cm, mm, kk) && console_runs(
                cm,
                mm,
                c1,
                m1,
                (steps - 1) as nat,
                consumed - kk,
            );
        lemma_console_runs_extend(cm, mm, c1, m1, c2, m2, (steps - 1) as nat, consumed - kk, k);
        assert(console_runs(cm, mm, c2, m2, steps, (consumed + k) - kk));
    }
}

/// A whole machine.
pub struct Console {
    pub cpu: Cpu,
    pub mmu: Mmu,
}

impl Console {
    pub open spec fn wf(self) -> bool {
        self.cpu.wf() && self.mmu.wf()
    }

    pub fn new() -> (r: Console)
        ensures
            r.wf(),
    {
        Console { cpu: Cpu::new(), mmu: Mmu::new() }
    }

    /// Install a cartridge image; a rejected image leaves the machine as it
    /// was, with the same error taxonomy as the cartridge decoder, and an
    /// accepted one installs the decoded cartridge and hands the PPU the
    /// hardware model the header asks for.
    pub fn load(&mut self, rom: Vec<u8>) -> (r: Result<(), CartridgeError>)
        requires
            old(self).wf(),
        ensures
            final(self).wf(),
            final(self).cpu == old(self).cpu,
            r is Ok <==> (rom@.len() >= 0x150 && crate::cartridge::known_mbc_type(rom@[0x147])
                && crate::cartridge::header_checksum(rom@, 0x14D) == rom@[0x14D]),
            r is Err ==> final(self).mmu@ == old(self).mmu@,
            r is Ok ==> final(self).mmu@ == (MmuView {
                cartridge: Some(
                    CartridgeView {
                        model: if rom@[0x143] & 0x80 != 0 { Model::Cgb } else { Model::Dmg },
                        mbc: crate::cartridge::initial_mbc(rom@),
                    },
                ),
                ppu: PpuView {
                    model: if rom@[0x143] & 0x80 != 0 { Model::Cgb } else { Model::Dmg },
                    ..old(self).mmu@.ppu
                },
                ..old(self).mmu@
            }),
    {
        self.mmu.load_cartridge(rom)
    }

    /// The canonical post-boot state: the DMG register file and the I/O
    /// register snapshot.
    pub fn reset(&mut self)
        requires
            old(self).wf(),
        ensures
            final(self).wf(),
            final(self).mmu@ == old(self).mmu@.reset_spec(),
            final(self).cpu.pc == 0x0100,
            final(self).cpu.sp == 0xFFFE,
            final(self).cpu.a == 0x01 && final(self).cpu.f == 0xB0,
            final(self).cpu.b == 0x00 && final(self).cpu.c == 0x13,
            final(self).cpu.d == 0x00 && final(self).cpu.e == 0xD8,
            final(self).cpu.h == 0x01 && final(self).cpu.l == 0x4D,
    {
        proof {
            assert((0x01B0u16 >> 8) as u8 == 0x01 && (0x01B0u16 & 0xF0) as u8 == 0xB0
                && (0x0013u16 >> 8) as u8 == 0x00 && (0x0013u16 & 0xFF) as u8 == 0x13
                && (0x00D8u16 >> 8) as u8 == 0x00 && (0x00D8u16 & 0xFF) as u8 == 0xD8
                && (0x014Du16 >> 8) as u8 == 0x01 && (0x014Du16 & 0xFF) as u8 == 0x4D)
                by (bit_vector);
        }
        self.mmu.reset();
        self.cpu.set_af(0x01B0);
        self.cpu.set_bc(0x0013);
        self.cpu.set_de(0x00D8);
        self.cpu.set_hl(0x014D);
        self.cpu.sp = 0xFFFE;
        self.cpu.pc = 0x0100;
    }

    /// One instruction boundary: step the CPU, then post the elapsed
    /// T-cycles to the bus. The cost and the whole CPU effect are fixed by
    /// `tick_post`, and the bus advances by exactly that cost.
    pub fn tick(&mut self) -> (c: u8)
        requires
            old(self).wf(),
        ensures
            final(self).wf(),
            4 <= c <= 24,
            console_tick_post(old(self).cpu, old(self).mmu@, final(self).cpu, final(self).mmu@, c),
            final(self).cpu.cycles == crate::cpu::qword_wrap(old(self).cpu.cycles + c),
    {
        let c = self.cpu.tick(&mut self.mmu);
        let ghost mm = self.mmu@;
        self.mmu.execute_ticks(c as u32);
        proof {
            assert(tick_post(old(self).cpu, old(self).mmu@, self.cpu, mm, c) && self.mmu@
                == mm.ticks_step(c as u32));
        }
        c
    }

    /// Advance emulation until at least `n` T-cycles have elapsed: the final
    /// machine lies some number of console boundaries after the initial one,
    /// with at least `n` T-cycles consumed along them; the cycle counter
    /// moves (modulo its width) by that total.
    pub fn execute_ticks(&mut self, n: u64)
        requires
            old(self).wf(),
        ensures
            final(self).wf(),
            exists|steps: nat, consumed: int|
                n <= consumed && #[trigger] console_runs(
                    old(self).cpu,
                    old(self).mmu@,
                    final(self).cpu,
                    final(self).mmu@,
                    steps,
                    consumed,
                ),
            exists|k: int|
                n <= k && final(self).cpu.cycles == #[trigger] crate::cpu::cycle_wrap(
                    old(self).cpu.cycles + k,
                ),
    {
        let mut elapsed: u64 = 0;
        let ghost mut total: int = 0;
        let ghost mut steps: nat = 0;
        proof {
            vstd::arithmetic::div_mod::lemma_small_mod(
                old(self).cpu.cycles as nat,
                0x1_0000_0000_0000_0000,
            );
        }
        while elapsed < n
            invariant
                self.wf(),
                elapsed <= n,
                elapsed <= total,
                self.cpu.cycles == crate::cpu::cycle_wrap(old(self).cpu.cycles + total),
                console_runs(old(self).cpu, old(self).mmu@, self.cpu, self.mmu@, steps, total),
            decreases n - elapsed,
        {
            let ghost pre_cpu = self.cpu;
            let ghost pre_mmu = self.mmu@;
            let c = self.tick();
            let step = c as u64;
            elapsed = if n - elapsed < step {
                n
            } else {
                elapsed + step
            };
            proof {
                crate::cpu::lemma_cycle_wrap_step(old(self).cpu.cycles as int, total, c as int);
                lemma_console_runs_extend(
                    old(self).cpu,
                    old(self).mmu@,
                    pre_cpu,
                    pre_mmu,
                    self.cpu,
                    self.mmu@,
                    steps,
                    total,
                    c,
                );
                total = total + c;
                steps = steps + 1;
            }
        }
    }
}

} // verus!
