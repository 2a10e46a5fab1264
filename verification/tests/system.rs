//! Co-stepped behaviour: timer cadence, V-blank cadence, DMA transfers,
//! interrupt dispatch, and instruction execution through the whole machine.

use gbcore::console::Console;
use gbcore::cpu::Cpu;
use gbcore::mmu::Mmu;

/// A machine with `program` placed in work RAM and PC pointing at it.
fn machine_with(program: &[u8]) -> (Cpu, Mmu) {
    let mut cpu = Cpu::new();
    let mut m = Mmu::new();
    for (i, b) in program.iter().enumerate() {
        m.write_byte(0xC000 + i as u16, *b);
    }
    cpu.pc = 0xC000;
    cpu.sp = 0xD800;
    (cpu, m)
}

#[test]
fn timer_increments_every_sixteen_cycles() {
    let mut m = Mmu::new();
    m.write_byte(0xFF07, 0x05);
    m.execute_ticks(16);
    assert_eq!(m.read_byte(0xFF05), 1);
    m.execute_ticks(16 * 10);
    assert_eq!(m.read_byte(0xFF05), 11);
}

#[test]
fn timer_overflow_reloads_tma_and_raises_irq() {
    let mut m = Mmu::new();
    m.write_byte(0xFF06, 0x23);
    m.write_byte(0xFF07, 0x05);
    m.execute_ticks(16 * 256);
    assert_eq!(m.read_byte(0xFF05), 0x23);
    assert_eq!(m.read_byte(0xFF0F) & 0x04, 0x04);
}

#[test]
fn div_counts_and_resets_on_write() {
    let mut m = Mmu::new();
    m.execute_ticks(512);
    assert_eq!(m.read_byte(0xFF04), 2);
    m.write_byte(0xFF04, 0x77);
    assert_eq!(m.read_byte(0xFF04), 0);
}

#[test]
fn vblank_rises_every_frame() {
    let mut m = Mmu::new();
    let mut elapsed: u64 = 0;
    let mut rises: Vec<u64> = Vec::new();
    while rises.len() < 2 {
        m.execute_ticks(456);
        elapsed += 456;
        if m.read_byte(0xFF0F) & 0x01 != 0 {
            rises.push(elapsed);
            let f = m.read_byte(0xFF0F);
            m.write_byte(0xFF0F, f & 0xFE);
        }
    }
    assert_eq!(rises[1] - rises[0], 70224);
}

#[test]
fn ppu_line_counter_tracks_dots() {
    let mut m = Mmu::new();
    assert_eq!(m.read_byte(0xFF44), 0);
    m.execute_ticks(456 * 10);
    assert_eq!(m.read_byte(0xFF44), 10);
    m.execute_ticks(456 * 134);
    // Line 144 is the first V-blank line.
    assert_eq!(m.read_byte(0xFF44), 144);
    assert_eq!(m.read_byte(0xFF41) & 0x03, 1);
}

#[test]
fn oam_dma_copies_one_page() {
    let mut m = Mmu::new();
    for i in 0..160u16 {
        m.write_byte(0xC000 + i, (i as u8).wrapping_mul(3).wrapping_add(7));
    }
    m.write_byte(0xFF46, 0xC0);
    for i in 0..160u16 {
        assert_eq!(m.read_byte(0xFE00 + i), (i as u8).wrapping_mul(3).wrapping_add(7));
    }
    assert_eq!(m.read_byte(0xFF46), 0xC0);
}

#[test]
fn gdma_copies_into_vram() {
    let mut m = Mmu::new();
    for i in 0..32u16 {
        m.write_byte(0xC100 + i, 0x40 + i as u8);
    }
    m.write_byte(0xFF51, 0xC1);
    m.write_byte(0xFF52, 0x00);
    m.write_byte(0xFF53, 0x00);
    m.write_byte(0xFF54, 0x10);
    // Length 1 means two 16-byte blocks; bit 7 clear starts a general DMA.
    m.write_byte(0xFF55, 0x01);
    m.execute_ticks(4);
    for i in 0..32u16 {
        assert_eq!(m.read_byte(0x8010 + i), 0x40 + i as u8);
    }
    assert_eq!(m.read_byte(0xFF55), 0xFF);
}

#[test]
fn hblank_hdma_moves_one_block_per_line() {
    let mut m = Mmu::new();
    for i in 0..16u16 {
        m.write_byte(0xC200 + i, 0x60 + i as u8);
    }
    m.write_byte(0xFF51, 0xC2);
    m.write_byte(0xFF52, 0x00);
    m.write_byte(0xFF53, 0x00);
    m.write_byte(0xFF54, 0x00);
    // Bit 7 set arms the H-blank channel with one block.
    m.write_byte(0xFF55, 0x80);
    assert_eq!(m.read_byte(0xFF55), 0x00);
    // Advance into H-blank of line 0; the block moves on the next tick.
    m.execute_ticks(252);
    m.execute_ticks(4);
    for i in 0..16u16 {
        assert_eq!(m.read_byte(0x8000 + i), 0x60 + i as u8);
    }
    assert_eq!(m.read_byte(0xFF55), 0xFF);
}

#[test]
fn hblank_hdma_abort() {
    let mut m = Mmu::new();
    m.write_byte(0xFF55, 0x85);
    assert_eq!(m.read_byte(0xFF55), 0x05);
    // Writing bit 7 clear while the channel is armed aborts it.
    m.write_byte(0xFF55, 0x00);
    assert_eq!(m.read_byte(0xFF55), 0xFF);
}

#[test]
fn interrupt_priority_serves_vblank_first() {
    let (mut cpu, mut m) = machine_with(&[0x00]);
    cpu.ime = true;
    m.write_byte(0xFFFF, 0x05);
    m.write_byte(0xFF0F, 0x05);
    let c = cpu.tick(&mut m);
    assert_eq!(c, 20);
    assert_eq!(cpu.pc, 0x40);
    assert_eq!(m.read_byte(0xFF0F), 0x04);
    assert!(!cpu.ime);
}

#[test]
fn halt_idles_until_interrupt() {
    let (mut cpu, mut m) = machine_with(&[0x76, 0x00]);
    let c = cpu.tick(&mut m);
    assert_eq!(c, 4);
    assert!(cpu.halted);
    let pc_halted = cpu.pc;
    let c = cpu.tick(&mut m);
    assert_eq!(c, 4);
    assert_eq!(cpu.pc, pc_halted);
    // A pending enabled interrupt wakes the CPU even with IME off.
    m.write_byte(0xFFFF, 0x04);
    m.write_byte(0xFF0F, 0x04);
    cpu.tick(&mut m);
    assert!(!cpu.halted);
}

#[test]
fn nop_costs_four_cycles() {
    let (mut cpu, mut m) = machine_with(&[0x00]);
    let before = cpu.cycles;
    let c = cpu.tick(&mut m);
    assert_eq!(c, 4);
    assert_eq!(cpu.cycles, before + 4);
    assert_eq!(cpu.pc, 0xC001);
}

#[test]
fn taken_branch_costs_four_more() {
    // JR NZ,+2 with Z clear: taken, 12 cycles.
    let (mut cpu, mut m) = machine_with(&[0x20, 0x02]);
    let c = cpu.tick(&mut m);
    assert_eq!(c, 12);
    assert_eq!(cpu.pc, 0xC004);
    // JR NZ with Z set: not taken, 8 cycles.
    let (mut cpu, mut m) = machine_with(&[0x20, 0x02]);
    cpu.set_f_zero(true);
    let c = cpu.tick(&mut m);
    assert_eq!(c, 8);
    assert_eq!(cpu.pc, 0xC002);
}

#[test]
fn add_hl_hl_boundary() {
    // ADD HL,HL with HL = 0x8000: C set, H clear.
    let (mut cpu, mut m) = machine_with(&[0x29]);
    cpu.set_hl(0x8000);
    let c = cpu.tick(&mut m);
    assert_eq!(c, 8);
    assert_eq!(cpu.get_hl(), 0x0000);
    assert!(cpu.get_f_carry());
    assert!(!cpu.get_f_half_carry());
}

#[test]
fn ld_hl_sp_plus_e() {
    // LD HL,SP+2 with SP = 0xFFF8.
    let (mut cpu, mut m) = machine_with(&[0xF8, 0x02]);
    cpu.sp = 0xFFF8;
    let c = cpu.tick(&mut m);
    assert_eq!(c, 12);
    assert_eq!(cpu.get_hl(), 0xFFFA);
    assert!(!cpu.get_f_half_carry());
    assert!(!cpu.get_f_carry());
    assert!(!cpu.get_f_zero());
}

#[test]
fn push_pop_through_instructions() {
    // LD BC,0xBEEF; PUSH BC; POP DE.
    let (mut cpu, mut m) = machine_with(&[0x01, 0xEF, 0xBE, 0xC5, 0xD1]);
    let sp0 = cpu.sp;
    cpu.tick(&mut m);
    cpu.tick(&mut m);
    cpu.tick(&mut m);
    assert_eq!(cpu.get_de(), 0xBEEF);
    assert_eq!(cpu.sp, sp0);
}

#[test]
fn cb_page_costs_and_effects() {
    // RLC B with B = 0x80, then BIT 0,B.
    let (mut cpu, mut m) = machine_with(&[0xCB, 0x00, 0xCB, 0x40]);
    cpu.b = 0x80;
    let c = cpu.tick(&mut m);
    assert_eq!(c, 8);
    assert_eq!(cpu.b, 0x01);
    assert!(cpu.get_f_carry());
    let c = cpu.tick(&mut m);
    assert_eq!(c, 8);
    assert!(!cpu.get_f_zero());
    assert!(cpu.get_f_half_carry());
}

#[test]
fn cb_on_hl_costs_sixteen() {
    // SET 7,(HL) at 0xC800.
    let (mut cpu, mut m) = machine_with(&[0xCB, 0xFE]);
    cpu.set_hl(0xC800);
    let c = cpu.tick(&mut m);
    assert_eq!(c, 16);
    assert_eq!(m.read_byte(0xC800), 0x80);
}

#[test]
fn illegal_opcode_is_fatal() {
    let (mut cpu, mut m) = machine_with(&[0xD3, 0x00]);
    let c = cpu.tick(&mut m);
    assert_eq!(c, 4);
    assert!(cpu.fatal);
    let pc = cpu.pc;
    cpu.tick(&mut m);
    assert_eq!(cpu.pc, pc);
}

#[test]
fn ei_enables_after_one_instruction() {
    let (mut cpu, mut m) = machine_with(&[0xFB, 0x00, 0x00]);
    cpu.interrupt_enable = false;
    cpu.ime = false;
    cpu.tick(&mut m);
    assert!(!cpu.ime);
    cpu.tick(&mut m);
    assert!(cpu.ime);
}

#[test]
fn daa_adjusts_bcd_sum() {
    // LD A,0x15; ADD A,0x27; DAA gives the BCD sum 0x42.
    let (mut cpu, mut m) = machine_with(&[0x3E, 0x15, 0xC6, 0x27, 0x27]);
    cpu.tick(&mut m);
    cpu.tick(&mut m);
    cpu.tick(&mut m);
    assert_eq!(cpu.a, 0x42);
    assert!(!cpu.get_f_carry());
}

#[test]
fn background_renderer_reads_tiles_through_bgp() {
    let mut m = Mmu::new();
    // LCD on, tile data at 0x8000, background enabled.
    m.write_byte(0xFF40, 0x91);
    // Identity palette: colour i maps to shade i.
    m.write_byte(0xFF47, 0xE4);
    // Tile 1, row 0: low plane all ones, high plane zero -> colour 1.
    m.write_byte(0x8010, 0xFF);
    m.write_byte(0x8011, 0x00);
    // Map cell (0,0) of the 0x9800 map selects tile 1.
    m.write_byte(0x9800, 0x01);
    m.ppu.render_frame();
    for x in 0..8usize {
        assert_eq!(m.ppu.framebuffer[x], 1);
    }
    // The neighbouring tile is tile 0, all colour 0.
    assert_eq!(m.ppu.framebuffer[8], 0);
    // Row 1 of tile 1 is empty.
    assert_eq!(m.ppu.framebuffer[160], 0);
}

#[test]
fn renderer_window_overlays_background() {
    let mut m = Mmu::new();
    // LCD on, window on with its own map at 0x9C00, tile data at 0x8000,
    // background on; window corner at the screen origin.
    m.write_byte(0xFF40, 0xF1);
    m.write_byte(0xFF47, 0xE4);
    m.write_byte(0xFF4A, 0x00);
    m.write_byte(0xFF4B, 0x07);
    // Tile 1, row 0: colour 1 everywhere; the window map names tile 1, the
    // background map stays on the blank tile 0.
    m.write_byte(0x8010, 0xFF);
    m.write_byte(0x8011, 0x00);
    m.write_byte(0x9C00, 0x01);
    m.ppu.render_frame();
    assert_eq!(m.ppu.framebuffer[0], 1);
}

#[test]
fn renderer_sprite_over_background() {
    let mut m = Mmu::new();
    // LCD on, sprites on, background on, tile data at 0x8000.
    m.write_byte(0xFF40, 0x93);
    m.write_byte(0xFF47, 0xE4);
    m.write_byte(0xFF48, 0xE4);
    // Tile 1, row 0, pixel 0: colour 3.
    m.write_byte(0x8010, 0x80);
    m.write_byte(0x8011, 0x80);
    // OAM entry 0: a sprite with its top-left at the screen origin.
    m.write_byte(0xFE00, 16);
    m.write_byte(0xFE01, 8);
    m.write_byte(0xFE02, 0x01);
    m.write_byte(0xFE03, 0x00);
    m.ppu.render_frame();
    assert_eq!(m.ppu.framebuffer[0], 3);
    // The sprite's transparent pixels leave the background shade.
    assert_eq!(m.ppu.framebuffer[1], 0);
}

#[test]
fn renderer_behind_flag_yields_to_background() {
    let mut m = Mmu::new();
    m.write_byte(0xFF40, 0x93);
    // BGP maps colour 1 to shade 2 so the layers are told apart.
    m.write_byte(0xFF47, 0x08);
    m.write_byte(0xFF48, 0xE4);
    // Background tile 1: colour 1 everywhere; sprite tile 2: colour 3.
    m.write_byte(0x8010, 0xFF);
    m.write_byte(0x8011, 0x00);
    m.write_byte(0x8020, 0x80);
    m.write_byte(0x8021, 0x80);
    m.write_byte(0x9800, 0x01);
    m.write_byte(0xFE00, 16);
    m.write_byte(0xFE01, 8);
    m.write_byte(0xFE02, 0x02);
    // Behind-background attribute: the non-zero background wins.
    m.write_byte(0xFE03, 0x80);
    m.ppu.render_frame();
    assert_eq!(m.ppu.framebuffer[0], 2);
}

#[test]
fn renderer_with_background_disabled_is_blank() {
    let mut m = Mmu::new();
    m.write_byte(0xFF40, 0x90);
    m.write_byte(0x8010, 0xFF);
    m.write_byte(0x9800, 0x01);
    m.ppu.render_frame();
    assert_eq!(m.ppu.framebuffer[0], 0);
    assert_eq!(m.ppu.framebuffer.len(), 23040);
}

#[test]
fn console_runs_a_loop() {
    let mut console = Console::new();
    console.reset();
    assert_eq!(console.cpu.pc, 0x0100);
    assert_eq!(console.cpu.sp, 0xFFFE);
    assert_eq!(console.cpu.get_af(), 0x01B0);
    // An infinite JR -2 loop placed at 0x100 needs a cartridge; instead run
    // from work RAM.
    console.cpu.pc = 0xC000;
    console.mmu.write_byte(0xC000, 0x18);
    console.mmu.write_byte(0xC001, 0xFE);
    console.execute_ticks(1200);
    assert!(console.cpu.cycles >= 1200);
    assert_eq!(console.cpu.pc, 0xC000);
}
