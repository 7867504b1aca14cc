use crate::mem::{init_io_addr, lemma_io_write, wrote2, Mem, MemView, MEM_SZ};
use crate::ops::{exec_post, reserved, taken_of, Ops};
use crate::ops_impl::{add16, dec_rr, rst};
use crate::ppu::{color, disp_post, Display, State, LCD_H, LCD_W, OAM_T};
use crate::timer::{timer_post, Timer, DIV_T};
use crate::reg::{grr, hi, lo, srr, Reg, Regs, RegsView, BGP, DIV, IE, IF, LCDC, TAC, TIMA, TMA};
use vstd::prelude::*;

verus! {

/// The interrupts that are both requested and enabled.
pub open spec fn pending(ie: u8, iflag: u8) -> u8 {
    ie & iflag & 0x1f
}

/// Index of the highest-priority pending interrupt (bit 0 first).
pub open spec fn first_int(p: u8) -> nat {
    if p & 0x01 != 0 {
        0
    } else if p & 0x02 != 0 {
        1
    } else if p & 0x04 != 0 {
        2
    } else if p & 0x08 != 0 {
        3
    } else {
        4
    }
}

/// The bit of interrupt `i`.
pub open spec fn int_bit(i: nat) -> u8 {
    if i == 0 {
        1
    } else if i == 1 {
        2
    } else if i == 2 {
        4
    } else if i == 3 {
        8
    } else {
        0x10
    }
}

/// Reads the opcode byte at PC and the byte after it.
pub fn read_opcode(m: &Mem, pc: &Reg) -> (r: (u8, u8))
    requires
        m.wf(),
    ensures
        r.0 == m@.get(pc@, true),
        r.1 == m@.get(add16(pc@ as int, 1), true),
{
    (m.su_get(grr(pc)), m.su_get(grr(pc).wrapping_add(1)))
}

/// The immediate operand of an instruction of `len` bytes at `pc`:
/// the bytes after the opcode, little-endian.
pub open spec fn param_of(m: MemView, pc: u16, len: usize) -> u16 {
    if len <= 1 {
        0
    } else if len == 2 {
        m.get(add16(pc as int, 1), true) as u16
    } else {
        (m.get(add16(pc as int, 1), true) as int + m.get(add16(pc as int, 2), true) as int
            * 256) as u16
    }
}

pub fn read_param(m: &Mem, pc: &Reg, len: usize) -> (r: u16)
    requires
        m.wf(),
        len <= 3,
    ensures
        r == param_of(m@, pc@, len),
{
    if len <= 1 {
        0
    } else if len == 2 {
        m.su_get(grr(pc).wrapping_add(1)) as u16
    } else {
        let l = m.su_get(grr(pc).wrapping_add(1)) as u16;
        let h = m.su_get(grr(pc).wrapping_add(2)) as u16;
        l + h * 256
    }
}

/// Interrupt dispatch: IME cleared; if an interrupt is pending, its IF bit
/// is cleared, PC is pushed and execution goes to its vector
/// (0x40, 0x48, 0x50, 0x58, 0x60).
pub fn handl_int(m: &mut Mem, r: &mut Regs)
    requires
        old(m).wf(),
    ensures
        final(m).wf(),
        final(r).ime@ == 0,
        final(r).af@ == old(r).af@ && final(r).bc@ == old(r).bc@ && final(r).de@ == old(r).de@
            && final(r).hl@ == old(r).hl@,
        ({
            let d = old(m)@.data;
            let p = pending(d[IE as int], d[IF as int]);
            let i = first_int(p);
            &&& p == 0 ==> final(m)@ == old(m)@ && final(r).pc@ == old(r).pc@ && final(r).sp@
                == old(r).sp@
            &&& p != 0 ==> final(r).pc@ == 0x40 + 8 * i && final(r).sp@ == add16(
                old(r).sp@ as int,
                -2,
            ) && wrote2(
                MemView { data: d.update(IF as int, d[IF as int] & !int_bit(i)), ..old(m)@ },
                final(m)@,
                add16(old(r).sp@ as int, -1),
                hi(old(r).pc@),
                add16(old(r).sp@ as int, -2),
                lo(old(r).pc@),
            )
        }),
{
    srr(&mut r.ime, 0);
    proof {
        lemma_io_write(m@, IE, 0);
        lemma_io_write(m@, IF, 0);
    }
    let p = m.su_get(IE) & m.su_get(IF) & 0x1f;
    if p == 0 {
        return ;
    }
    let (bit, vec): (u8, u16) = if p & 0x01 != 0 {
        (1, 0x40)
    } else if p & 0x02 != 0 {
        (2, 0x48)
    } else if p & 0x04 != 0 {
        (4, 0x50)
    } else if p & 0x08 != 0 {
        (8, 0x58)
    } else {
        (0x10, 0x60)
    };
    let v = m.su_get(IF) & !bit;
    proof {
        lemma_io_write(m@, IF, v);
    }
    m.su_set(IF, v);
    rst(m, &mut r.sp, &mut r.pc, vec);
}

/// What one step did.
pub struct Step {
    /// Cycles the step took.
    pub cycles: usize,
    /// Whether an interrupt was dispatched instead of an instruction.
    pub int: bool,
}

/// What one step of `c0` leaves: registers `regs`, bus `mem`, boot flag
/// `boot`, and result `r`. The boot program is unmapped once PC reaches
/// 0x0100. With IME at 1 and an interrupt pending, the interrupt is
/// dispatched (20 cycles): IME cleared, its IF bit cleared, PC pushed, PC at
/// the vector. Otherwise the instruction at PC is fetched (0xCB selects the
/// prefixed half of the table); an opcode with no instruction is the error,
/// with nothing run; else PC moves past the instruction, which then runs as
/// `exec_post` says, costs its taken or not-taken cycles, and an IME above 1
/// counts down.
pub open spec fn step_post(
    c0: &Cpu,
    regs: RegsView,
    mem: MemView,
    boot: bool,
    r: Result<Step, u8>,
) -> bool {
    let m0 = c0.fetch_mem();
    let op0 = m0.get(c0.regs.pc@, true);
    let code = c0.fetch_code();
    let p = pending(m0.data[IE as int], m0.data[IF as int]);
    let i = first_int(p);
    let sp = c0.regs.sp@;
    let pc = c0.regs.pc@;
    let op = c0.ops@[code]->Some_0;
    &&& boot == (c0.boot_rom && pc != 0x100)
    &&& c0.dispatches() ==> {
        &&& r is Ok && r->Ok_0.cycles == 20 && r->Ok_0.int
        &&& regs == RegsView { ime: 0, pc: (0x40 + 8 * i) as u16, sp: add16(sp as int, -2), ..c0.regs@ }
        &&& wrote2(
            MemView { data: m0.data.update(IF as int, m0.data[IF as int] & !int_bit(i)), ..m0 },
            mem,
            add16(sp as int, -1),
            hi(pc),
            add16(sp as int, -2),
            lo(pc),
        )
    }
    &&& !c0.dispatches() && reserved(code as u16) ==> r == Err::<Step, u8>(op0) && regs
        == c0.regs@ && mem == m0
    &&& !c0.dispatches() && !reserved(code as u16) ==> {
        &&& r is Ok && !r->Ok_0.int
        &&& r->Ok_0.cycles == if taken_of(code as u16, c0.regs.af@) {
            op.cycles.0
        } else {
            op.cycles.1
        }
        &&& exists|re: RegsView|
            {
                &&& #[trigger] exec_post(
                    code as u16,
                    c0.fetch_param(),
                    c0.advanced_regs(),
                    m0,
                    re,
                    mem,
                )
                &&& regs == RegsView {
                    ime: if re.ime > 1 {
                        (re.ime - 1) as u16
                    } else {
                        re.ime
                    },
                    ..re
                }
            }
    }
}

/// The CPU with its bus and instruction table.
pub struct Cpu {
    pub regs: Regs,
    pub mem: Mem,
    pub ops: Ops,
    /// Whether the boot program still covers 0x0000..0x0100.
    pub boot_rom: bool,
}

impl Cpu {
    pub open spec fn wf(&self) -> bool {
        self.mem.wf() && self.ops.wf()
    }

    /// A CPU on bus `mem`; with `boot_rom` the boot program is mapped and
    /// execution starts at 0, else the registers are in the state the boot
    /// program hands over and execution starts at 0x0100.
    pub fn new(mem: Mem, boot_rom: bool) -> (c: Cpu)
        requires
            mem.wf(),
        ensures
            c.wf(),
            c.mem@ == mem@,
            c.boot_rom == boot_rom,
            c.regs@ == (RegsView {
                af: 0x01b0,
                bc: 0x0013,
                de: 0x00d8,
                hl: 0x014d,
                pc: if boot_rom {
                    0u16
                } else {
                    0x100u16
                },
                sp: 0xfffe,
                ime: 0,
            }),
    {
        let mut regs = Regs::new();
        regs.init(!boot_rom);
        Cpu { regs, mem, ops: Ops::new(), boot_rom }
    }

    /// The bus as the fetch sees it: with the boot program unmapped once PC
    /// has reached 0x0100.
    pub open spec fn fetch_mem(&self) -> MemView {
        if self.boot_rom && self.regs.pc@ == 0x100 {
            MemView {
                data: Seq::new(
                    0x10000,
                    |i: int|
                        if i < 0x100 && i < self.mem@.cart.rom.len() {
                            self.mem@.cart.rom[i]
                        } else {
                            self.mem@.data[i]
                        },
                ),
                ..self.mem@
            }
        } else {
            self.mem@
        }
    }

    /// Whether the next step dispatches an interrupt.
    pub open spec fn dispatches(&self) -> bool {
        self.regs.ime@ == 1 && pending(
            self.fetch_mem().data[IE as int],
            self.fetch_mem().data[IF as int],
        ) != 0
    }

    /// The table index of the instruction at PC (0x100 and up after 0xCB).
    pub open spec fn fetch_code(&self) -> int {
        let m = self.fetch_mem();
        let op0 = m.get(self.regs.pc@, true);
        if op0 == 0xcb {
            0x100 + m.get(add16(self.regs.pc@ as int, 1), true)
        } else {
            op0 as int
        }
    }

    /// The immediate operand of the instruction at PC.
    pub open spec fn fetch_param(&self) -> u16 {
        param_of(self.fetch_mem(), self.regs.pc@, self.ops@[self.fetch_code()]->Some_0.len)
    }

    /// The registers with PC moved past the instruction at PC.
    pub open spec fn advanced_regs(&self) -> RegsView {
        RegsView {
            pc: add16(self.regs.pc@ as int, self.ops@[self.fetch_code()]->Some_0.len as int),
            ..self.regs@
        }
    }

    /// One step of the interpreter. The boot program is unmapped once PC
    /// reaches 0x0100. With IME at 1 and an interrupt pending, the interrupt
    /// is dispatched (20 cycles). Otherwise the instruction at PC is fetched
    /// (0xCB selects the prefixed half of the table), PC is moved past it,
    /// and it runs; the cost is its taken or not-taken cycles, and an IME
    /// above 1 counts down. An opcode with no instruction is returned as
    /// the error, with nothing run.
    pub fn step(&mut self) -> (r: Result<Step, u8>)
        requires
            old(self).wf(),
        ensures
            final(self).wf(),
            final(self).ops@ == old(self).ops@,
            step_post(
                old(self),
                final(self).regs@,
                final(self).mem@,
                final(self).boot_rom,
                r,
            ),
    {
        if self.boot_rom && grr(&self.regs.pc) == 0x100 {
            self.mem.restore_boot();
            self.boot_rom = false;
        }
        proof {
            lemma_io_write(self.mem@, IE, 0);
            lemma_io_write(self.mem@, IF, 0);
        }
        if grr(&self.regs.ime) == 1 && (self.mem.su_get(IE) & self.mem.su_get(IF) & 0x1f) != 0 {
            handl_int(&mut self.mem, &mut self.regs);
            return Ok(Step { cycles: 20, int: true });
        }
        let opcode = read_opcode(&self.mem, &self.regs.pc);
        let idx: usize = if opcode.0 == 0xcb {
            0x100 + opcode.1 as usize
        } else {
            opcode.0 as usize
        };
        let op = match self.ops.get(idx) {
            Some(op) => op,
            None => return Err(opcode.0),
        };
        let len = op.len();
        let param = read_param(&self.mem, &self.regs.pc, len);
        let tmp = grr(&self.regs.pc).wrapping_add(len as u16);
        srr(&mut self.regs.pc, tmp);
        let ghost r_mid = self.regs@;
        let ghost m_mid = self.mem@;
        let taken = op.exec(&mut self.regs, &mut self.mem, param);
        let ghost re = self.regs@;
        let cycles = if taken || op.cycles.1 == 0 {
            op.cycles.0
        } else {
            op.cycles.1
        };
        if grr(&self.regs.ime) > 1 {
            dec_rr(&mut self.regs.ime);
        }
        assert(m_mid == old(self).fetch_mem());
        assert(idx == old(self).fetch_code());
        assert(r_mid == old(self).advanced_regs());
        assert(param == old(self).fetch_param());
        assert(exec_post(op.code, param, r_mid, m_mid, re, self.mem@));
        Ok(Step { cycles, int: false })
    }
}

/// The emulator core: the CPU and the peripherals it drives in lockstep.
pub struct Emu {
    pub cpu: Cpu,
    pub timer: Timer,
    pub disp: Display,
}

impl Emu {
    pub open spec fn wf(&self) -> bool {
        self.cpu.wf() && self.timer.wf() && self.disp.wf()
    }

    /// The core on bus `mem`, with its power-on I/O register values.
    pub fn new(mem: Mem, boot_rom: bool) -> (e: Emu)
        requires
            mem.wf(),
        ensures
            e.wf(),
            e.cpu.boot_rom == boot_rom,
            e.cpu.regs@ == (RegsView {
                af: 0x01b0,
                bc: 0x0013,
                de: 0x00d8,
                hl: 0x014d,
                pc: if boot_rom {
                    0u16
                } else {
                    0x100u16
                },
                sp: 0xfffe,
                ime: 0,
            }),
            e.cpu.mem@.cart == mem@.cart,
            e.cpu.mem@.keys == mem@.keys,
            e.cpu.mem@.data[DIV as int] == 0 && e.cpu.mem@.data[TIMA as int] == 0
                && e.cpu.mem@.data[TMA as int] == 0 && e.cpu.mem@.data[TAC as int] == 0,
            e.cpu.mem@.data[LCDC as int] == 0x91 && e.cpu.mem@.data[BGP as int] == 0xfc
                && e.cpu.mem@.data[IE as int] == 0,
            forall|a: int|
                0 <= a < MEM_SZ && !init_io_addr(a) ==> #[trigger] e.cpu.mem@.data[a]
                    == mem@.data[a],
            e.timer.div_cy == DIV_T && e.timer.tac_sav == 0 && e.timer.tima_cy == 1024,
            e.disp.state == State::Oam && e.disp.cycles == OAM_T && e.disp.win_y == 0
                && e.disp.off_cy == 0,
            e.disp@.buff == Seq::new((LCD_W * LCD_H) as nat, |i: int| color(0)),
            e.disp@.sprites.len() == 0,
    {
        let mut mem = mem;
        mem.init_spe_reg();
        let timer = Timer::new(&mem);
        Emu { cpu: Cpu::new(mem, boot_rom), timer, disp: Display::new() }
    }

    /// One CPU step, then the timer and the PPU advanced by its cycles. The
    /// result says whether a frame was finished, or is the opcode that has
    /// no instruction (then neither timer nor PPU moved).
    pub fn step(&mut self) -> (r: Result<bool, u8>)
        requires
            old(self).wf(),
        ensures
            final(self).wf(),
            final(self).cpu.ops@ == old(self).cpu.ops@,
            r is Err <==> !old(self).cpu.dispatches() && reserved(
                old(self).cpu.fetch_code() as u16,
            ),
            r matches Err(op) ==> step_post(
                &old(self).cpu,
                final(self).cpu.regs@,
                final(self).cpu.mem@,
                final(self).cpu.boot_rom,
                Err(op),
            ) && final(self).timer == old(self).timer && final(self).disp@ == old(self).disp@
                && final(self).disp.off_cy == old(self).disp.off_cy,
            r matches Ok(frame) ==> exists|s: Step, m1: MemView, m2: MemView|
                {
                    &&& #[trigger] step_post(
                        &old(self).cpu,
                        final(self).cpu.regs@,
                        m1,
                        final(self).cpu.boot_rom,
                        Ok(s),
                    )
                    &&& #[trigger] timer_post(old(self).timer, m1, s.cycles, final(self).timer, m2)
                    &&& disp_post(
                        old(self).disp@,
                        old(self).disp.off_cy,
                        m2,
                        s.cycles,
                        final(self).disp@,
                        final(self).cpu.mem@,
                        frame,
                    )
                },
    {
        let s = match self.cpu.step() {
            Ok(s) => s,
            Err(op) => return Err(op),
        };
        let ghost m1 = self.cpu.mem@;
        self.timer.update(&mut self.cpu.mem, s.cycles);
        let ghost m2 = self.cpu.mem@;
        let frame = self.disp.update(&mut self.cpu.mem, s.cycles);
        assert(step_post(&old(self).cpu, self.cpu.regs@, m1, self.cpu.boot_rom, Ok(s)));
        assert(timer_post(old(self).timer, m1, s.cycles, self.timer, m2));
        assert(disp_post(
            old(self).disp@,
            old(self).disp.off_cy,
            m2,
            s.cycles,
            self.disp@,
            self.cpu.mem@,
            frame,
        ));
        Ok(frame)
    }
}

} // verus!
