use vstd::prelude::*;
use crate::apu::{Apu, ChannelLevels};
use crate::bus::{Bus, BusModel, timing};
use crate::cpu::{Cpu, Machine, machine, lemma_step_frame_neutral, lemma_interrupts_frame_neutral, lemma_step_cycles, INTERRUPT_DISABLE};
use crate::joypad::Joypad;
use crate::ppu::Ppu;

verus! {

/// The whole console: the CPU and the bus with everything on it.
pub struct Console {
    pub cpu: Cpu,
    pub bus: Bus,
}

/// The bus after `n` PPU dots.
pub open spec fn ppu_steps(b: BusModel, n: nat) -> BusModel
    decreases n,
{
    if n == 0 {
        b
    } else {
        ppu_steps(b.step_ppu(), (n - 1) as nat)
    }
}

/// `n` APU cycles: the bus afterwards, `acc` followed by the channel levels after each
/// cycle, and whether every cycle was defined (the APU's cycle count did not overflow).
pub open spec fn apu_run(b: BusModel, n: nat, acc: Seq<ChannelLevels>) -> (BusModel, Seq<ChannelLevels>, bool)
    decreases n,
{
    if n == 0 {
        (b, acc, true)
    } else {
        let b1 = b.step_apu();
        let r = apu_run(b1, (n - 1) as nat, acc.push(b1.apu.levels_spec()));
        (r.0, r.1, b.apu.cycles < u64::MAX && r.2)
    }
}

/// Dots left before the PPU wraps to the next frame.
pub open spec fn frame_distance(b: BusModel) -> int {
    262 * 341 - (b.ppu.scanline * 341 + b.ppu.cycle)
}

/// The PPU position is within the frame.
pub open spec fn timing_ok(b: BusModel) -> bool {
    b.ppu.scanline <= 261 && b.ppu.cycle <= 340
}

/// A pending OAM DMA: the PPU runs three dots per DMA cycle and the CPU's cycle count
/// grows by the DMA cycles.
pub open spec fn dma_phase(m: Machine) -> Machine {
    if m.bus.dma_cycles > 0 {
        let d = m.bus.dma_cycles;
        Machine {
            bus: ppu_steps(BusModel { dma_cycles: 0, ..m.bus }, (d * 3) as nat),
            cpu: Cpu { cycles: (m.cpu.cycles + d) as u64, ..m.cpu },
            ok: m.ok && m.cpu.cycles + d <= u64::MAX,
        }
    } else {
        m
    }
}

/// A pending DMA, one instruction, then three PPU dots per CPU cycle; also gives the
/// instruction's cycles.
pub open spec fn instruction_phase(m: Machine) -> (Machine, u8) {
    let (m2, c) = dma_phase(m).step();
    (Machine { bus: ppu_steps(m2.bus, (c * 3) as nat), ..m2 }, c)
}

/// One APU cycle per CPU cycle, collecting the channel levels.
pub open spec fn apu_phase(m: Machine, c: u8, acc: Seq<ChannelLevels>) -> (Machine, Seq<ChannelLevels>) {
    let (b, acc1, ok) = apu_run(m.bus, c as nat, acc);
    (Machine { bus: b, ok: m.ok && ok, ..m }, acc1)
}

/// A pending NMI from the PPU is taken and delivered.
pub open spec fn nmi_phase(m: Machine) -> Machine {
    if m.bus.ppu.nmi_pending {
        Machine { bus: m.bus.take_nmi(), ..m }.nmi()
    } else {
        m
    }
}

/// A pending IRQ is cleared and delivered.
pub open spec fn irq_phase(m: Machine) -> Machine {
    if m.bus.irq_pending {
        Machine { bus: BusModel { irq_pending: false, ..m.bus }, ..m }.irq()
    } else {
        m
    }
}

/// One pass of the frame loop: pending DMA, one instruction, three PPU dots and one APU
/// cycle per CPU cycle (collecting the channel levels), then a pending NMI and a pending
/// IRQ are delivered.
pub open spec fn frame_pass(m: Machine, acc: Seq<ChannelLevels>) -> (Machine, Seq<ChannelLevels>) {
    let (m3, c) = instruction_phase(m);
    let (m4, acc4) = apu_phase(m3, c, acc);
    (irq_phase(nmi_phase(m4)), acc4)
}

/// Passes until the PPU completes a frame.
pub open spec fn frame_loop(m: Machine, acc: Seq<ChannelLevels>) -> (Machine, Seq<ChannelLevels>)
    decreases frame_distance(m.bus),
{
    let (m1, acc1) = frame_pass(m, acc);
    if !m1.bus.ppu.frame_complete && m1.ok && 0 <= frame_distance(m1.bus) < frame_distance(m.bus) {
        frame_loop(m1, acc1)
    } else {
        (m1, acc1)
    }
}

/// One frame: the frame-complete flag is cleared, then passes run until it is set again.
/// Gives the machine afterwards and the channel levels of every CPU cycle.
pub open spec fn frame(m: Machine) -> (Machine, Seq<ChannelLevels>) {
    frame_loop(Machine { bus: m.bus.clear_frame(), ..m }, seq![])
}

/// The bus after a console reset: the PPU restarts with the cartridge's mirroring, and
/// APU, controllers and pending DMA are reset; RAM and the cartridge keep their state.
pub open spec fn reset_bus(b: BusModel) -> BusModel {
    let b1 = match b.cartridge {
        Some(c) => BusModel { ppu: Ppu::new_model(c.mirroring), ..b },
        None => b,
    };
    BusModel { apu: Apu::initial(), joypad1: Joypad::initial(), joypad2: Joypad::initial(), dma_cycles: 0, ..b1 }
}

proof fn lemma_ppu_steps_complete(b: BusModel, n: nat)
    requires
        timing_ok(b),
        b.ppu.frame_complete,
    ensures
        timing_ok(ppu_steps(b, n)),
        ppu_steps(b, n).ppu.frame_complete,
    decreases n,
{
    if n > 0 {
        lemma_ppu_steps_complete(b.step_ppu(), (n - 1) as nat);
    }
}

/// Each PPU dot moves the frame position on by one until the frame completes.
proof fn lemma_ppu_steps(b: BusModel, n: nat)
    requires
        timing_ok(b),
        !b.ppu.frame_complete,
    ensures
        timing_ok(ppu_steps(b, n)),
        !ppu_steps(b, n).ppu.frame_complete ==> frame_distance(ppu_steps(b, n)) == frame_distance(b) - n,
    decreases n,
{
    if n > 0 {
        let b1 = b.step_ppu();
        if b1.ppu.frame_complete {
            lemma_ppu_steps_complete(b1, (n - 1) as nat);
        } else {
            lemma_ppu_steps(b1, (n - 1) as nat);
        }
    }
}

proof fn lemma_apu_run_timing(b: BusModel, n: nat, acc: Seq<ChannelLevels>)
    ensures
        timing(apu_run(b, n, acc).0) == timing(b),
    decreases n,
{
    if n > 0 {
        let b1 = b.step_apu();
        lemma_apu_run_timing(b1, (n - 1) as nat, acc.push(b1.apu.levels_spec()));
    }
}

/// A pass that does not complete the frame moves the PPU on.
proof fn lemma_pass_progress(m: Machine, acc: Seq<ChannelLevels>)
    requires
        timing_ok(m.bus),
        !m.bus.ppu.frame_complete,
    ensures
        timing_ok(frame_pass(m, acc).0.bus),
        !frame_pass(m, acc).0.bus.ppu.frame_complete ==> 0 <= frame_distance(frame_pass(m, acc).0.bus)
            < frame_distance(m.bus),
{
    let m1 = dma_phase(m);
    if m.bus.dma_cycles > 0 {
        lemma_ppu_steps(BusModel { dma_cycles: 0, ..m.bus }, (m.bus.dma_cycles * 3) as nat);
    }
    let (m2, c) = m1.step();
    lemma_step_frame_neutral(m1);
    lemma_step_cycles(m1);
    let (m3, c3) = instruction_phase(m);
    if m2.bus.ppu.frame_complete {
        lemma_ppu_steps_complete(m2.bus, (c * 3) as nat);
    } else {
        lemma_ppu_steps(m2.bus, (c * 3) as nat);
    }
    let (m4, acc4) = apu_phase(m3, c3, acc);
    lemma_apu_run_timing(m3.bus, c as nat, acc);
    lemma_interrupts_frame_neutral(Machine { bus: m4.bus.take_nmi(), ..m4 });
    let m5 = nmi_phase(m4);
    lemma_interrupts_frame_neutral(Machine { bus: BusModel { irq_pending: false, ..m5.bus }, ..m5 });
}

/// Each phase of a pass is defined when the pass is.
proof fn lemma_pass_ok(m: Machine, acc: Seq<ChannelLevels>)
    ensures
        frame_pass(m, acc).0.ok ==> {
            let (m3, c) = instruction_phase(m);
            let (m4, acc4) = apu_phase(m3, c, acc);
            &&& dma_phase(m).ok
            &&& dma_phase(m).step().0.ok
            &&& apu_run(m3.bus, c as nat, acc).2
            &&& nmi_phase(m4).ok
            &&& m4.ok
        },
{
    let (m3, c) = instruction_phase(m);
    let (m4, acc4) = apu_phase(m3, c, acc);
    lemma_step_frame_neutral(dma_phase(m));
    lemma_interrupts_frame_neutral(Machine { bus: m4.bus.take_nmi(), ..m4 });
    let m5 = nmi_phase(m4);
    lemma_interrupts_frame_neutral(Machine { bus: BusModel { irq_pending: false, ..m5.bus }, ..m5 });
}

proof fn lemma_loop_completes(m: Machine, acc: Seq<ChannelLevels>)
    requires
        timing_ok(m.bus),
        !m.bus.ppu.frame_complete,
        frame_loop(m, acc).0.ok,
    ensures
        frame_loop(m, acc).0.bus.ppu.frame_complete,
    decreases frame_distance(m.bus),
{
    let (m1, acc1) = frame_pass(m, acc);
    lemma_pass_progress(m, acc);
    if !m1.bus.ppu.frame_complete && m1.ok && 0 <= frame_distance(m1.bus) < frame_distance(m.bus) {
        lemma_loop_completes(m1, acc1);
    }
}

/// A frame whose bus accesses are all defined ends with the PPU's frame complete: a
/// frame never stops early.
pub proof fn lemma_frame_completes(m: Machine)
    requires
        m.bus.inv(),
        frame(m).0.ok,
    ensures
        frame(m).0.bus.ppu.frame_complete,
{
    lemma_loop_completes(Machine { bus: m.bus.clear_frame(), ..m }, seq![]);
}

/// The counts of one pass of the frame loop: the cycles of the instruction it runs, the
/// DMA cycles run before it, and the interrupts it delivers (an NMI, and an IRQ that the
/// I flag lets through).
pub open spec fn pass_counts(m: Machine) -> (nat, nat, nat) {
    let (m3, c) = instruction_phase(m);
    let m4 = apu_phase(m3, c, seq![]).0;
    let m5 = nmi_phase(m4);
    let nmi: nat = if m4.bus.ppu.nmi_pending { 1 } else { 0 };
    let irq: nat = if m5.bus.irq_pending && !m5.cpu.flag(INTERRUPT_DISABLE) { 1 } else { 0 };
    (c as nat, m.bus.dma_cycles as nat, nmi + irq)
}

/// The counts of a frame loop's passes summed: instruction cycles, DMA cycles and
/// interrupts taken.
pub open spec fn loop_counts(m: Machine) -> (nat, nat, nat)
    decreases frame_distance(m.bus),
{
    let m1 = frame_pass(m, seq![]).0;
    let (c, d, i) = pass_counts(m);
    if !m1.bus.ppu.frame_complete && m1.ok && 0 <= frame_distance(m1.bus) < frame_distance(m.bus) {
        let (c2, d2, i2) = loop_counts(m1);
        (c + c2, d + d2, i + i2)
    } else {
        (c, d, i)
    }
}

/// The counts of a frame (see `loop_counts`).
pub open spec fn frame_counts(m: Machine) -> (nat, nat, nat) {
    loop_counts(Machine { bus: m.bus.clear_frame(), ..m })
}

proof fn lemma_apu_run_acc(b: BusModel, n: nat, acc: Seq<ChannelLevels>)
    ensures
        apu_run(b, n, acc).0 == apu_run(b, n, seq![]).0,
        apu_run(b, n, acc).2 == apu_run(b, n, seq![]).2,
        apu_run(b, n, acc).1 == acc + apu_run(b, n, seq![]).1,
        apu_run(b, n, acc).1.len() == acc.len() + n,
    decreases n,
{
    if n > 0 {
        let b1 = b.step_apu();
        let x = b1.apu.levels_spec();
        lemma_apu_run_acc(b1, (n - 1) as nat, acc.push(x));
        lemma_apu_run_acc(b1, (n - 1) as nat, seq![x]);
        assert(acc.push(x) + apu_run(b1, (n - 1) as nat, seq![]).1 =~= acc + (seq![x] + apu_run(
            b1,
            (n - 1) as nat,
            seq![],
        ).1));
        assert(seq![].push(x) =~= seq![x]);
    }
}

proof fn lemma_pass_counts(m: Machine, acc: Seq<ChannelLevels>)
    requires
        frame_pass(m, acc).0.ok,
    ensures
        m.ok,
        frame_pass(m, acc).0 == frame_pass(m, seq![]).0,
        frame_pass(m, acc).1.len() == acc.len() + pass_counts(m).0,
        frame_pass(m, acc).0.cpu.cycles == m.cpu.cycles + pass_counts(m).0 + pass_counts(m).1 + 7
            * pass_counts(m).2,
{
    lemma_pass_ok(m, acc);
    let m1 = dma_phase(m);
    let (m2, c) = m1.step();
    lemma_step_cycles(m1);
    lemma_step_frame_neutral(m1);
    let (m3, c3) = instruction_phase(m);
    lemma_apu_run_acc(m3.bus, c as nat, acc);
    let (m4, acc4) = apu_phase(m3, c3, acc);
    assert(m4 == apu_phase(m3, c3, seq![]).0);
    let t = Machine { bus: m4.bus.take_nmi(), ..m4 };
    lemma_interrupts_frame_neutral(t);
    let m5 = nmi_phase(m4);
    let u = Machine { bus: BusModel { irq_pending: false, ..m5.bus }, ..m5 };
    lemma_interrupts_frame_neutral(u);
}

proof fn lemma_loop_counts(m: Machine, acc: Seq<ChannelLevels>)
    requires
        frame_loop(m, acc).0.ok,
    ensures
        m.ok,
        frame_loop(m, acc).0.cpu.cycles == m.cpu.cycles + loop_counts(m).0 + loop_counts(m).1 + 7
            * loop_counts(m).2,
        frame_loop(m, acc).1.len() == acc.len() + loop_counts(m).0,
    decreases frame_distance(m.bus),
{
    let (m1, acc1) = frame_pass(m, acc);
    if !m1.bus.ppu.frame_complete && m1.ok && 0 <= frame_distance(m1.bus) < frame_distance(m.bus) {
        lemma_loop_counts(m1, acc1);
        lemma_pass_counts(m, acc);
    } else {
        lemma_pass_counts(m, acc);
    }
}

/// Counting a defined frame: with `N` the cycles of the instructions run, `D` the DMA
/// cycles and `I` the interrupts taken (`frame_counts`), the CPU's cycle count grows by
/// N + D + 7I and the APU ran once per instruction cycle, one channel-level sample each.
pub proof fn lemma_frame_counts(m: Machine)
    requires
        frame(m).0.ok,
    ensures
        frame(m).0.cpu.cycles == m.cpu.cycles + frame_counts(m).0 + frame_counts(m).1 + 7 * frame_counts(
            m,
        ).2,
        frame(m).1.len() == frame_counts(m).0,
{
    lemma_loop_counts(Machine { bus: m.bus.clear_frame(), ..m }, seq![]);
}

/// Dots in a frame: 262 lines of 341.
pub open spec fn frame_dots() -> int {
    262int * 341
}

/// The PPU's position in its frame, in dots from line 0, dot 0.
pub open spec fn ppu_position(b: BusModel) -> int {
    b.ppu.scanline * 341 + b.ppu.cycle
}

proof fn lemma_ppu_steps_position(b: BusModel, n: nat)
    requires
        timing_ok(b),
    ensures
        timing_ok(ppu_steps(b, n)),
        ppu_position(ppu_steps(b, n)) == (ppu_position(b) + n) % frame_dots(),
    decreases n,
{
    let p = ppu_position(b);
    if n == 0 {
        vstd::arithmetic::div_mod::lemma_small_mod(p as nat, frame_dots() as nat);
    } else {
        let b1 = b.step_ppu();
        assert(ppu_position(b1) == (p + 1) % frame_dots()) by {
            if p + 1 < frame_dots() {
                vstd::arithmetic::div_mod::lemma_small_mod((p + 1) as nat, frame_dots() as nat);
            } else {
                vstd::arithmetic::div_mod::lemma_mod_self_0(frame_dots());
            }
        }
        lemma_ppu_steps_position(b1, (n - 1) as nat);
        vstd::arithmetic::div_mod::lemma_add_mod_noop(p + 1, (n - 1) as int, frame_dots());
        vstd::arithmetic::div_mod::lemma_mod_twice((n - 1) as int, frame_dots());
        vstd::arithmetic::div_mod::lemma_add_mod_noop((p + 1) % frame_dots(), (n - 1) as int, frame_dots());
    }
}

proof fn lemma_pass_dots(m: Machine, acc: Seq<ChannelLevels>)
    requires
        timing_ok(m.bus),
        frame_pass(m, acc).0.ok,
    ensures
        timing_ok(frame_pass(m, acc).0.bus),
        ppu_position(frame_pass(m, acc).0.bus) == (ppu_position(m.bus) + 3 * (pass_counts(m).0
            + pass_counts(m).1)) % frame_dots(),
{
    lemma_pass_ok(m, acc);
    let p = ppu_position(m.bus);
    let d = m.bus.dma_cycles as int;
    let m1 = dma_phase(m);
    lemma_ppu_steps_position(BusModel { dma_cycles: 0, ..m.bus }, (d * 3) as nat);
    assert(ppu_position(m1.bus) == (p + 3 * d) % frame_dots()) by {
        if d == 0 {
            vstd::arithmetic::div_mod::lemma_small_mod(p as nat, frame_dots() as nat);
        }
    }
    let (m2, c) = m1.step();
    lemma_step_frame_neutral(m1);
    let (m3, c3) = instruction_phase(m);
    lemma_ppu_steps_position(m2.bus, (c * 3) as nat);
    lemma_apu_run_timing(m3.bus, c as nat, acc);
    let (m4, acc4) = apu_phase(m3, c3, acc);
    lemma_interrupts_frame_neutral(Machine { bus: m4.bus.take_nmi(), ..m4 });
    let m5 = nmi_phase(m4);
    lemma_interrupts_frame_neutral(Machine { bus: BusModel { irq_pending: false, ..m5.bus }, ..m5 });
    vstd::arithmetic::div_mod::lemma_add_mod_noop(p + 3 * d, 3 * c, frame_dots());
    vstd::arithmetic::div_mod::lemma_mod_twice(3 * c, frame_dots());
    vstd::arithmetic::div_mod::lemma_add_mod_noop((p + 3 * d) % frame_dots(), 3 * c, frame_dots());
    vstd::arithmetic::div_mod::lemma_mod_twice(p + 3 * d, frame_dots());
}

proof fn lemma_loop_dots(m: Machine, acc: Seq<ChannelLevels>)
    requires
        timing_ok(m.bus),
        frame_loop(m, acc).0.ok,
    ensures
        ppu_position(frame_loop(m, acc).0.bus) == (ppu_position(m.bus) + 3 * (loop_counts(m).0
            + loop_counts(m).1)) % frame_dots(),
    decreases frame_distance(m.bus),
{
    let (m1, acc1) = frame_pass(m, acc);
    lemma_pass_counts(m, acc);
    lemma_loop_counts(m, acc);
    let p = ppu_position(m.bus);
    let (c, d, i) = pass_counts(m);
    if !m1.bus.ppu.frame_complete && m1.ok && 0 <= frame_distance(m1.bus) < frame_distance(m.bus) {
        lemma_pass_dots(m, acc);
        lemma_loop_dots(m1, acc1);
        let (c2, d2, i2) = loop_counts(m1);
        let q = ppu_position(m1.bus);
        assert(q == (p + 3 * (c + d)) % frame_dots());
        vstd::arithmetic::div_mod::lemma_add_mod_noop(p + 3 * (c + d), 3 * ((c2 + d2) as int), frame_dots());
        vstd::arithmetic::div_mod::lemma_mod_twice(3 * ((c2 + d2) as int), frame_dots());
        vstd::arithmetic::div_mod::lemma_add_mod_noop(q, 3 * ((c2 + d2) as int), frame_dots());
        vstd::arithmetic::div_mod::lemma_mod_twice(p + 3 * (c + d), frame_dots());
        assert(p + 3 * (c + d) + 3 * ((c2 + d2) as int) == p + 3 * ((c + c2) + (d + d2)));
    } else {
        lemma_pass_dots(m, acc);
    }
}

/// The PPU ran three dots per cycle of the frame: starting from a position inside the
/// frame, it ends 3(N + D) dots further on, counted modulo the frame's 262 x 341 dots,
/// with `N` and `D` the instruction and DMA cycles of `frame_counts`.
pub proof fn lemma_frame_dots(m: Machine)
    requires
        m.bus.inv(),
        frame(m).0.ok,
    ensures
        ppu_position(frame(m).0.bus) == (ppu_position(m.bus) + 3 * (frame_counts(m).0 + frame_counts(
            m,
        ).1)) % frame_dots(),
{
    lemma_loop_dots(Machine { bus: m.bus.clear_frame(), ..m }, seq![]);
}

impl Console {
    /// A console around a bus, with the CPU at power-up.
    pub fn new(bus: Bus) -> (r: Self)
        ensures
            r.cpu == Cpu::power_on(),
            r.bus@ == bus@,
    {
        Self { cpu: Cpu::new(), bus }
    }

    /// Resets the console: the cartridge is reinserted (restarting the PPU), APU,
    /// controllers and pending DMA are reset, and the CPU is reset from power-up state.
    pub fn reset(&mut self)
        requires
            old(self).bus@.inv(),
            machine(Cpu::power_on(), reset_bus(old(self).bus@)).reset().ok,
        ensures
            final(self).bus@.inv(),
            machine(final(self).cpu, final(self).bus@) == machine(Cpu::power_on(), reset_bus(old(self).bus@)).reset(),
    {
        if let Some(cart) = self.bus.cartridge.take() {
            self.bus.load_cartridge(cart);
        }
        self.bus.apu = Apu::new();
        self.bus.joypad1 = Joypad::new();
        self.bus.joypad2 = Joypad::new();
        self.bus.dma_cycles = 0;
        self.cpu = Cpu::new();
        self.cpu.reset(&mut self.bus);
    }

    /// Runs the PPU for `n` dots.
    fn run_ppu(&mut self, n: u16)
        requires
            old(self).bus@.inv(),
        ensures
            final(self).bus@ == ppu_steps(old(self).bus@, n as nat),
            final(self).bus@.inv(),
            final(self).cpu == old(self).cpu,
    {
        let mut i: u16 = 0;
        while i < n
            invariant
                i <= n,
                self.bus@.inv(),
                self.cpu == old(self).cpu,
                ppu_steps(self.bus@, (n - i) as nat) == ppu_steps(old(self).bus@, n as nat),
            decreases n - i,
        {
            self.bus.step_ppu();
            i = i + 1;
        }
    }

    /// Runs the APU for `n` cycles, appending the channel levels after each to `levels`.
    fn run_apu(&mut self, n: u8, levels: &mut Vec<ChannelLevels>)
        requires
            old(self).bus@.inv(),
            apu_run(old(self).bus@, n as nat, old(levels)@).2,
        ensures
            (final(self).bus@, final(levels)@, true) == apu_run(old(self).bus@, n as nat, old(levels)@),
            final(self).bus@.inv(),
            final(self).cpu == old(self).cpu,
    {
        let ghost target = apu_run(self.bus@, n as nat, levels@);
        let mut i: u8 = 0;
        while i < n
            invariant
                i <= n,
                self.bus@.inv(),
                self.cpu == old(self).cpu,
                apu_run(self.bus@, (n - i) as nat, levels@) == target,
                target.2,
            decreases n - i,
        {
            let lv = self.bus.step_apu();
            levels.push(lv);
            i = i + 1;
        }
    }

    /// One pass of the frame loop (see `frame_pass`).
    fn run_pass(&mut self, levels: &mut Vec<ChannelLevels>)
        requires
            old(self).bus@.inv(),
            frame_pass(machine(old(self).cpu, old(self).bus@), old(levels)@).0.ok,
        ensures
            final(self).bus@.inv(),
            (machine(final(self).cpu, final(self).bus@), final(levels)@) == frame_pass(
                machine(old(self).cpu, old(self).bus@),
                old(levels)@,
            ),
    {
        let ghost m = machine(self.cpu, self.bus@);
        let ghost acc = levels@;
        proof {
            lemma_pass_ok(m, acc);
        }
        if self.bus.dma_cycles > 0 {
            let dma = self.bus.dma_cycles;
            self.bus.dma_cycles = 0;
            self.run_ppu(dma * 3);
            self.cpu.cycles = self.cpu.cycles + dma as u64;
        }
        assert(machine(self.cpu, self.bus@) == dma_phase(m));
        let cpu_cycles = self.cpu.step(&mut self.bus);
        self.run_ppu(cpu_cycles as u16 * 3);
        self.run_apu(cpu_cycles, levels);
        if self.bus.poll_nmi() {
            self.cpu.nmi(&mut self.bus);
        }
        if self.bus.irq_pending {
            self.bus.irq_pending = false;
            self.cpu.irq(&mut self.bus);
        }
    }

    /// Runs until the PPU completes a frame (see `frame`) and returns the channel levels
    /// of every CPU cycle run.
    pub fn step_frame(&mut self) -> (r: Vec<ChannelLevels>)
        requires
            old(self).bus@.inv(),
            frame(machine(old(self).cpu, old(self).bus@)).0.ok,
        ensures
            final(self).bus@.inv(),
            machine(final(self).cpu, final(self).bus@) == frame(machine(old(self).cpu, old(self).bus@)).0,
            r@ == frame(machine(old(self).cpu, old(self).bus@)).1,
    {
        let ghost target = frame(machine(self.cpu, self.bus@));
        let mut levels: Vec<ChannelLevels> = Vec::new();
        self.bus.clear_frame_complete();
        loop
            invariant_except_break
                self.bus@.inv(),
                !self.bus@.ppu.frame_complete,
                frame_loop(machine(self.cpu, self.bus@), levels@) == target,
                target.0.ok,
            ensures
                self.bus@.inv(),
                machine(self.cpu, self.bus@) == target.0,
                levels@ == target.1,
            decreases frame_distance(self.bus@),
        {
            let ghost m = machine(self.cpu, self.bus@);
            let ghost acc = levels@;
            proof {
                lemma_pass_progress(m, acc);
            }
            self.run_pass(&mut levels);
            if self.bus.frame_complete() {
                break;
            }
        }
        levels
    }

    /// The PPU's RGBA frame buffer.
    pub fn frame_buffer(&self) -> (r: &[u8])
        ensures
            r@ == self.bus@.ppu.frame_buffer,
    {
        self.bus.frame_buffer()
    }
}

} // verus!
