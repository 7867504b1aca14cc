use gbmu::cpu::{handl_int, Cpu, Emu};
use gbmu::input::{Inputs, KEY_A, KEY_DOWN, KEY_LEFT, KEY_RIGHT, KEY_UP};
use gbmu::mbc::Cart;
use gbmu::mem::Mem;
use gbmu::ops::Ops;
use gbmu::ops_impl::{pop_rr_arr, push_arr_rr};
use gbmu::ppu::{Display, State};
use gbmu::reg::{gf, gr, grr, sr, srr, Reg, Regs, CY, D, H, IE, IF, LCDC, LY, N, P1, STAT, TAC, TIMA, TMA, U, Z};
use gbmu::timer::Timer;

fn rom_with(kind: u8, size_code: u8, banks: usize) -> Vec<u8> {
    let mut rom = vec![0u8; banks * 0x4000];
    for b in 0..banks {
        rom[b * 0x4000] = 0xa0 + b as u8;
    }
    rom[0x147] = kind;
    rom[0x148] = size_code;
    rom[0x149] = 0;
    rom
}

fn bus_with(rom: Vec<u8>) -> Mem {
    let mut mem = Mem::new();
    mem.insert(Cart::new(rom, None), &Vec::new());
    mem
}

#[test]
fn reg_halves_rebuild_word() {
    let mut r = Reg::new();
    for v in [0u16, 0x00ff, 0xff00, 0x1234, 0xc3a5, 0xffff] {
        srr(&mut r, v);
        let w = ((gr((&r, U)) as u16) << 8) | gr((&r, D)) as u16;
        assert_eq!(w, v);
        sr((&mut r, U), 0x5a);
        assert_eq!(gr((&r, U)), 0x5a);
        assert_eq!(gr((&r, D)), (v & 0xff) as u8);
        let l = gr((&r, D));
        sr((&mut r, D), l);
        assert_eq!(grr(&r), 0x5a00 | (v & 0xff));
    }
}

#[test]
fn table_entries_in_bounds() {
    let ops = Ops::new();
    let mut n = 0;
    for i in 0..0x200 {
        if let Some(op) = ops.get(i) {
            n += 1;
            assert!(op.len() >= 1 && op.len() <= 3);
            assert_eq!(op.cycles.0 % 4, 0);
            assert!(op.cycles.0 >= 4 && op.cycles.0 <= 24);
            assert!(op.cycles.1 == 0 || op.cycles.1 < op.cycles.0);
        }
    }
    assert_eq!(n, 500);
    assert!(ops.get(0x200).is_none());
}

#[test]
fn supervisor_write_reads_back() {
    let mut mem = Mem::new();
    let mut v: u8 = 7;
    for a in 0..=0xffffu32 {
        let a = a as u16;
        v = v.wrapping_mul(31).wrapping_add(3);
        mem.su_set(a, v);
        assert_eq!(mem.su_get(a), v);
    }
}

#[test]
fn bus_gating_of_plain_writes() {
    let mut mem = Mem::new();
    mem.su_set(0xff04, 0x55);
    mem.nu_set(0xff04, 0x99);
    assert_eq!(mem.su_get(0xff04), 0);
    mem.su_set(0xc000, 0x12);
    mem.su_set(0xc09f, 0x34);
    mem.nu_set(0xff46, 0xc0);
    assert_eq!(mem.su_get(0xfe00), 0x12);
    assert_eq!(mem.su_get(0xfe9f), 0x34);
    mem.su_set(STAT, 0x02);
    mem.nu_set(0xfe10, 0x77);
    assert_eq!(mem.su_get(0xfe10), 0);
    assert_eq!(mem.nu_get(0xfe00), 0xff);
    mem.su_set(STAT, 0x00);
    mem.nu_set(0xfe10, 0x77);
    assert_eq!(mem.nu_get(0xfe10), 0x77);
}

#[test]
fn div_every_256_cycles() {
    let mut mem = Mem::new();
    let mut t = Timer::new(&mem);
    for k in 1..=4u8 {
        for _ in 0..255 {
            t.update(&mut mem, 1);
        }
        assert_eq!(mem.su_get(0xff04), k - 1);
        t.update(&mut mem, 1);
        assert_eq!(mem.su_get(0xff04), k);
    }
    t.update(&mut mem, 256 * 3);
    assert_eq!(mem.su_get(0xff04), 7);
}

#[test]
fn tima_sixteen_overflows() {
    let mut mem = Mem::new();
    mem.su_set(TAC, 0x05);
    mem.su_set(TMA, 0xc0);
    mem.su_set(TIMA, 0xc0);
    let mut t = Timer::new(&mem);
    for _ in 0..3 {
        t.update(&mut mem, 4);
    }
    assert_eq!(mem.su_get(TIMA), 0xc0);
    t.update(&mut mem, 4);
    assert_eq!(mem.su_get(TIMA), 0xc1);
    let mut fired = 0;
    let total = (0x100 - 0xc0) * 16 * 16 - 16;
    let mut done = 0;
    while done < total {
        t.update(&mut mem, 4);
        done += 4;
        if mem.su_get(IF) & 0x4 != 0 {
            fired += 1;
            mem.su_set(IF, 0);
        }
    }
    assert_eq!(fired, 16);
    assert_eq!(mem.su_get(TIMA), 0xc0);
}

#[test]
fn frame_is_70224_cycles() {
    let mut mem = Mem::new();
    mem.su_set(LCDC, 0x91);
    let mut d = Display::new();
    let mut frames = 0;
    let mut total = 0;
    let mut last = false;
    while total < 70224 {
        last = d.update(&mut mem, 4);
        if last {
            frames += 1;
        }
        total += 4;
    }
    assert_eq!(frames, 1);
    assert!(last);
    assert_eq!(mem.su_get(LY), 0);
    assert_eq!(d.state, State::Oam);
    assert_eq!(mem.su_get(STAT) & 0x3, 2);
}

#[test]
fn lcd_off_refreshes_every_frame() {
    let mut mem = Mem::new();
    mem.su_set(LCDC, 0x11);
    let mut d = Display::new();
    assert!(!d.update(&mut mem, 70220));
    assert!(d.update(&mut mem, 4));
    assert_eq!(d.state, State::Oam);
}

#[test]
fn rom_bank_zero_write() {
    for kind in [0x01u8, 0x05, 0x11] {
        let mut mem = bus_with(rom_with(kind, 1, 4));
        let reg = if kind == 0x05 { 0x2100 } else { 0x2000 };
        mem.nu_set(reg, 0x00);
        assert_eq!(mem.nu_get(0x4000), 0xa1);
        mem.nu_set(reg, 0x02);
        assert_eq!(mem.nu_get(0x4000), 0xa2);
    }
    let mut mem = bus_with(rom_with(0x19, 1, 4));
    mem.nu_set(0x2000, 0x00);
    assert_eq!(mem.nu_get(0x4000), 0xa0);
    mem.nu_set(0x2000, 0x03);
    assert_eq!(mem.nu_get(0x4000), 0xa3);
}

#[test]
fn rom_bank_width_mask() {
    let mut mem = bus_with(rom_with(0x01, 1, 4));
    mem.nu_set(0x2000, 0x07);
    assert_eq!(mem.nu_get(0x4000), 0xa3);
    mem.nu_set(0x2000, 0x04);
    assert_eq!(mem.nu_get(0x4000), 0xa1);
    let mut mem = bus_with(rom_with(0x05, 1, 4));
    mem.nu_set(0x2100, 0x13);
    assert_eq!(mem.nu_get(0x4000), 0xa3);
}

#[test]
fn mbc_ram_enable_code() {
    let mut rom = rom_with(0x03, 1, 4);
    rom[0x149] = 2;
    let mut mem = bus_with(rom);
    mem.nu_set(0xa000, 0x42);
    assert_eq!(mem.nu_get(0xa000), 0);
    mem.nu_set(0x0000, 0x1a);
    mem.nu_set(0xa000, 0x42);
    assert_eq!(mem.nu_get(0xa000), 0x42);
    mem.nu_set(0x0000, 0x00);
    assert_eq!(mem.nu_get(0xa000), 0);
}

#[test]
fn mbc3_clock_latch() {
    let mut mem = bus_with(rom_with(0x0f, 1, 4));
    mem.nu_set(0x0000, 0x0a);
    mem.nu_set(0x6000, 0x00);
    mem.nu_set(0x6000, 0x01);
    mem.nu_set(0x4000, 0x08);
    assert!(mem.nu_get(0xa000) < 60);
    mem.nu_set(0x4000, 0x09);
    assert!(mem.nu_get(0xa000) < 60);
    mem.nu_set(0x4000, 0x0a);
    assert!(mem.nu_get(0xa000) < 24);
    mem.nu_set(0x4000, 0x0c);
    assert!(mem.nu_get(0xa000) <= 1);
}

#[test]
fn bit_keeps_source_and_res_set_pairs() {
    let ops = Ops::new();
    let mut r = Regs::new();
    let mut m = Mem::new();
    srr(&mut r.bc, 0x80f1);
    srr(&mut r.af, 0x1200);
    for code in 0x140..0x180usize {
        let op = ops.get(code).unwrap();
        op.exec(&mut r, &mut m, 0);
        assert_eq!(grr(&r.bc), 0x80f1);
        assert_eq!(gr((&r.af, U)), 0x12);
    }
    let op = ops.get(0x178).unwrap();
    op.exec(&mut r, &mut m, 0);
    assert!(!gf((&r.af, Z)));
    assert!(gf((&r.af, H)));
    assert!(!gf((&r.af, N)));
    ops.get(0x1b8).unwrap().exec(&mut r, &mut m, 0);
    assert_eq!(grr(&r.bc), 0x00f1);
    ops.get(0x1b8).unwrap().exec(&mut r, &mut m, 0);
    assert_eq!(grr(&r.bc), 0x00f1);
    ops.get(0x1f8).unwrap().exec(&mut r, &mut m, 0);
    assert_eq!(grr(&r.bc), 0x80f1);
    ops.get(0x1f8).unwrap().exec(&mut r, &mut m, 0);
    assert_eq!(grr(&r.bc), 0x80f1);
    ops.get(0x40).unwrap().exec(&mut r, &mut m, 0);
    assert_eq!(grr(&r.bc), 0x80f1);
}

#[test]
fn push_pop_round_trip() {
    let mut mem = Mem::new();
    let mut sp = Reg::new();
    let mut v = Reg::new();
    let mut out = Reg::new();
    for (s, x) in [(0xfffeu16, 0x12f7u16), (0xd000, 0xabcd), (0xff90, 0x000f)] {
        srr(&mut sp, s);
        srr(&mut v, x);
        push_arr_rr(&mut mem, &mut sp, &v);
        assert_eq!(grr(&sp), s - 2);
        pop_rr_arr(&mem, &mut out, &mut sp);
        assert_eq!(grr(&out), x);
        assert_eq!(grr(&sp), s);
    }
}

#[test]
fn timer_overflow_interrupt() {
    let mut emu = Emu::new(Mem::new(), false);
    emu.cpu.mem.su_set(TAC, 0x05);
    emu.cpu.mem.su_set(TIMA, 0xff);
    emu.cpu.mem.su_set(TMA, 0xc0);
    emu.cpu.mem.su_set(IE, 0x04);
    srr(&mut emu.cpu.regs.ime, 1);
    let sp0 = grr(&emu.cpu.regs.sp);
    for _ in 0..4 {
        assert_eq!(emu.step(), Ok(false));
    }
    assert_eq!(emu.cpu.mem.su_get(TIMA), 0xc0);
    assert!(emu.cpu.mem.su_get(IF) & 0x4 != 0);
    let pc0 = grr(&emu.cpu.regs.pc);
    assert_eq!(pc0, 0x104);
    emu.step().unwrap();
    assert_eq!(grr(&emu.cpu.regs.pc), 0x0050);
    assert_eq!(grr(&emu.cpu.regs.sp), sp0 - 2);
    assert_eq!(emu.cpu.mem.su_get(sp0 - 1), 0x01);
    assert_eq!(emu.cpu.mem.su_get(sp0 - 2), 0x04);
    assert_eq!(emu.cpu.mem.su_get(IF) & 0x4, 0);
    assert_eq!(grr(&emu.cpu.regs.ime), 0);
}

#[test]
fn interrupt_priority() {
    let mut mem = Mem::new();
    let mut r = Regs::new();
    srr(&mut r.sp, 0xfffe);
    srr(&mut r.pc, 0x1234);
    mem.su_set(IE, 0x1f);
    mem.su_set(IF, 0x14);
    handl_int(&mut mem, &mut r);
    assert_eq!(grr(&r.pc), 0x50);
    assert_eq!(mem.su_get(IF), 0x10);
    handl_int(&mut mem, &mut r);
    assert_eq!(grr(&r.pc), 0x60);
    assert_eq!(mem.su_get(IF), 0x00);
    handl_int(&mut mem, &mut r);
    assert_eq!(grr(&r.pc), 0x60);
}

#[test]
fn daa_after_bcd_add() {
    let ops = Ops::new();
    let mut r = Regs::new();
    let mut m = Mem::new();
    sr((&mut r.af, U), 0x45);
    ops.get(0xc6).unwrap().exec(&mut r, &mut m, 0x38);
    ops.get(0x27).unwrap().exec(&mut r, &mut m, 0);
    assert_eq!(gr((&r.af, U)), 0x83);
    assert!(!gf((&r.af, Z)));
    assert!(!gf((&r.af, N)));
    assert!(!gf((&r.af, H)));
    assert!(!gf((&r.af, CY)));
}

#[test]
fn ld_hl_sp_offset_half_carry() {
    let ops = Ops::new();
    let mut r = Regs::new();
    let mut m = Mem::new();
    srr(&mut r.sp, 0x000f);
    ops.get(0xf8).unwrap().exec(&mut r, &mut m, 0x01);
    assert_eq!(grr(&r.hl), 0x0010);
    assert!(!gf((&r.af, Z)));
    assert!(!gf((&r.af, N)));
    assert!(gf((&r.af, H)));
    assert!(!gf((&r.af, CY)));
}

#[test]
fn mbc1_bank_zero_promotion() {
    let mut rom = rom_with(0x01, 1, 4);
    rom[0x4000] = 0x5b;
    rom[0x0000] = 0x3c;
    let mut mem = bus_with(rom);
    mem.nu_set(0x2000, 0x00);
    assert_eq!(mem.nu_get(0x4000), 0x5b);
    assert_eq!(mem.nu_get(0x0000), 0x3c);
}

#[test]
fn joypad_interrupt_edge() {
    let mut mem = Mem::new();
    mem.su_set(IE, 0x10);
    Inputs::up_keys(&mut mem, 0);
    assert_eq!(mem.su_get(IF) & 0x10, 0);
    Inputs::up_keys(&mut mem, KEY_DOWN);
    assert_eq!(mem.su_get(IF) & 0x10, 0x10);
    mem.su_set(IF, 0);
    Inputs::up_keys(&mut mem, KEY_DOWN);
    assert_eq!(mem.su_get(IF) & 0x10, 0);
}

#[test]
fn p1_matrix() {
    let mut mem = Mem::new();
    Inputs::up_keys(&mut mem, KEY_A | KEY_DOWN);
    mem.su_set(P1, 0x20);
    assert_eq!(mem.nu_get(P1), 0xee);
    mem.su_set(P1, 0x10);
    assert_eq!(mem.nu_get(P1), 0xd7);
    mem.su_set(P1, 0x30);
    assert_eq!(mem.nu_get(P1), 0xff);
    Inputs::up_keys(&mut mem, KEY_LEFT | KEY_RIGHT | KEY_UP);
    mem.su_set(P1, 0x10);
    assert_eq!(mem.nu_get(P1), 0xdb);
}

#[test]
fn ppu_line_modes() {
    let mut mem = Mem::new();
    mem.su_set(LCDC, 0x91);
    mem.su_set(0xff47, 0xfc);
    mem.su_set(0x8000, 0xff);
    mem.su_set(0x8001, 0xff);
    let mut d = Display::new();
    assert_eq!(d.state, State::Oam);
    assert_eq!(mem.su_get(LY), 0);
    d.update(&mut mem, 80);
    assert_eq!(mem.su_get(STAT) & 0x3, 3);
    d.update(&mut mem, 172);
    assert_eq!(mem.su_get(STAT) & 0x3, 0);
    for x in 0..160 {
        assert_eq!(d.buff[x], 0x002902);
    }
    assert_eq!(d.buff[160], 0x8fff94);
    d.update(&mut mem, 204);
    assert_eq!(mem.su_get(LY), 1);
    assert_eq!(mem.su_get(STAT) & 0x3, 2);
}

#[test]
fn unknown_opcode_is_reported() {
    let mut mem = Mem::new();
    mem.su_set(0x100, 0xd3);
    let mut cpu = Cpu::new(mem, false);
    assert!(matches!(cpu.step(), Err(0xd3)));
    assert_eq!(grr(&cpu.regs.pc), 0x100);
}

#[test]
fn prefixed_opcode_runs() {
    let mut mem = Mem::new();
    mem.su_set(0x100, 0xcb);
    mem.su_set(0x101, 0x37);
    let mut cpu = Cpu::new(mem, false);
    sr((&mut cpu.regs.af, U), 0x3c);
    let s = cpu.step().unwrap();
    assert_eq!(s.cycles, 8);
    assert_eq!(gr((&cpu.regs.af, U)), 0xc3);
    assert_eq!(grr(&cpu.regs.pc), 0x102);
}

#[test]
fn ei_delays_one_instruction() {
    let mut mem = Mem::new();
    mem.su_set(0x100, 0xfb);
    mem.su_set(IE, 0x01);
    mem.su_set(IF, 0x01);
    let mut cpu = Cpu::new(mem, false);
    cpu.step().unwrap();
    assert_eq!(grr(&cpu.regs.ime), 2);
    let s = cpu.step().unwrap();
    assert!(!s.int);
    assert_eq!(grr(&cpu.regs.ime), 1);
    let s = cpu.step().unwrap();
    assert!(s.int);
    assert_eq!(grr(&cpu.regs.pc), 0x40);
}

#[test]
fn boot_overlay_restored() {
    let mut rom = rom_with(0x00, 0, 2);
    rom[0x00] = 0x77;
    rom[0x100] = 0x00;
    let boot = vec![0x11u8; 0x100];
    let mut mem = Mem::new();
    mem.insert(Cart::new(rom, None), &boot);
    assert_eq!(mem.su_get(0x00), 0x11);
    let mut cpu = Cpu::new(mem, true);
    srr(&mut cpu.regs.pc, 0x100);
    cpu.step().unwrap();
    assert!(!cpu.boot_rom);
    assert_eq!(cpu.mem.su_get(0x00), 0x77);
}

#[test]
fn small_program_runs() {
    // LD B,3; LD HL,0xC000; loop: INC (HL); DEC B; JR NZ,loop;
    // LD SP,0xFFFE; LD DE,0x1234; PUSH DE; POP BC; CALL 0x0200; ADD HL,BC
    // at 0x0200: LD A,0x7F; ADD A,1; RET
    let prog: [u8; 24] = [
        0x06, 0x03, 0x21, 0x00, 0xc0, 0x34, 0x05, 0x20, 0xfc, 0x31, 0xfe, 0xff, 0x11, 0x34,
        0x12, 0xd5, 0xc1, 0xcd, 0x00, 0x02, 0x09, 0x00, 0x00, 0x00,
    ];
    let sub: [u8; 5] = [0x3e, 0x7f, 0xc6, 0x01, 0xc9];
    let mut mem = Mem::new();
    for (i, b) in prog.iter().enumerate() {
        mem.su_set(0x100 + i as u16, *b);
    }
    for (i, b) in sub.iter().enumerate() {
        mem.su_set(0x200 + i as u16, *b);
    }
    let mut cpu = Cpu::new(mem, false);
    while grr(&cpu.regs.pc) != 0x115 {
        cpu.step().unwrap();
    }
    assert_eq!(cpu.mem.su_get(0xc000), 3);
    assert_eq!(gr((&cpu.regs.bc, U)), 0x12);
    assert_eq!(grr(&cpu.regs.bc), 0x1234);
    assert_eq!(gr((&cpu.regs.af, U)), 0x80);
    assert!(!gf((&cpu.regs.af, H)));
    assert!(!gf((&cpu.regs.af, CY)));
    assert_eq!(grr(&cpu.regs.sp), 0xfffe);
    assert_eq!(grr(&cpu.regs.hl), 0xc000 + 0x1234);
}

#[test]
fn rom_bank_masked_to_declared_size() {
    let mut mem = bus_with(rom_with(0x11, 0, 2));
    mem.nu_set(0x2000, 0x03);
    assert_eq!(mem.nu_get(0x4000), 0xa1);
    mem.nu_set(0x2000, 0x02);
    assert_eq!(mem.nu_get(0x4000), 0xa1);
    let mut mem = bus_with(rom_with(0x19, 0, 2));
    mem.nu_set(0x2000, 0x02);
    assert_eq!(mem.nu_get(0x4000), 0xa0);
    mem.nu_set(0x2000, 0x03);
    assert_eq!(mem.nu_get(0x4000), 0xa1);
    mem.nu_set(0x3000, 0x01);
    assert_eq!(mem.nu_get(0x4000), 0xa1);
}

#[test]
fn oam_blocking_stops_at_fe9f() {
    let mut mem = Mem::new();
    mem.su_set(0xfea0, 0x5c);
    mem.su_set(0xfe9f, 0x6d);
    mem.su_set(STAT, 0x03);
    assert_eq!(mem.nu_get(0xfea0), 0x5c);
    assert_eq!(mem.nu_get(0xfe9f), 0xff);
}

#[test]
fn init_clears_ime() {
    let mut r = Regs::new();
    srr(&mut r.ime, 1);
    r.init(true);
    assert_eq!(grr(&r.ime), 0);
    assert_eq!(grr(&r.pc), 0x100);
    assert_eq!(grr(&r.af), 0x01b0);
}
