use vstd::prelude::*;
use crate::cartridge::Mirroring;
use crate::mapper::Mapper;
use crate::mapper::mapper2::blank_chr;

verus! {

/// MMC3 (TxROM): eight bank registers selecting 8 KB PRG and 1-2 KB CHR banks,
/// a scanline interrupt counter, 8 KB of PRG RAM and board-controlled mirroring.
pub struct Mapper4 {
    pub prg_rom: Vec<u8>,
    pub chr_rom: Vec<u8>,
    pub prg_ram: Vec<u8>,
    pub bank_select: u8,
    pub prg_bank_mode: bool,
    pub chr_inversion: bool,
    pub bank_registers: Vec<u8>,
    pub mirroring: Mirroring,
    pub irq_latch: u8,
    pub irq_counter: u8,
    pub irq_reload: bool,
    pub irq_enabled: bool,
    pub irq_pending: bool,
    pub prg_banks: usize,
    pub chr_banks: usize,
}

/// The state of an MMC3 board.
pub ghost struct Mapper4Model {
    pub prg: Seq<u8>,
    pub chr: Seq<u8>,
    pub prg_ram: Seq<u8>,
    pub bank_select: u8,
    pub prg_bank_mode: bool,
    pub chr_inversion: bool,
    pub regs: Seq<u8>,
    pub mirroring: Mirroring,
    pub irq_latch: u8,
    pub irq_counter: u8,
    pub irq_reload: bool,
    pub irq_enabled: bool,
    pub irq_pending: bool,
    pub prg_banks: usize,
    pub chr_banks: usize,
}

impl View for Mapper4 {
    type V = Mapper4Model;

    open spec fn view(&self) -> Mapper4Model {
        Mapper4Model {
            prg: self.prg_rom@,
            chr: self.chr_rom@,
            prg_ram: self.prg_ram@,
            bank_select: self.bank_select,
            prg_bank_mode: self.prg_bank_mode,
            chr_inversion: self.chr_inversion,
            regs: self.bank_registers@,
            mirroring: self.mirroring,
            irq_latch: self.irq_latch,
            irq_counter: self.irq_counter,
            irq_reload: self.irq_reload,
            irq_enabled: self.irq_enabled,
            irq_pending: self.irq_pending,
            prg_banks: self.prg_banks,
            chr_banks: self.chr_banks,
        }
    }
}

/// The unreduced 8 KB PRG bank number for a CPU address in $8000-$FFFF.
pub open spec fn mmc3_prg_bank(v: Mapper4Model, addr: u16) -> int {
    if addr <= 0x9FFF {
        if !v.prg_bank_mode { v.regs[6] as int } else { v.prg_banks - 2 }
    } else if addr <= 0xBFFF {
        v.regs[7] as int
    } else if addr <= 0xDFFF {
        if !v.prg_bank_mode { v.prg_banks - 2 } else { v.regs[6] as int }
    } else {
        v.prg_banks - 1
    }
}

/// Whether the PRG bank for this address is counted back from the last bank.
pub open spec fn mmc3_prg_from_end(v: Mapper4Model, addr: u16) -> bool {
    if addr <= 0x9FFF {
        v.prg_bank_mode
    } else if addr <= 0xBFFF {
        false
    } else if addr <= 0xDFFF {
        !v.prg_bank_mode
    } else {
        true
    }
}

/// Offset into PRG ROM of a CPU address in $8000-$FFFF.
pub open spec fn mmc3_prg_offset(v: Mapper4Model, addr: u16) -> int {
    (mmc3_prg_bank(v, addr) % (v.prg_banks as int)) * 8192 + (addr % 8192)
}

/// The 1 KB CHR bank that holds a PPU address in $0000-$1FFF: with inversion the
/// two halves of pattern space swap; R0 and R1 select 2 KB (even-aligned) banks
/// and R2-R5 select 1 KB banks.
pub open spec fn mmc3_chr_bank(v: Mapper4Model, addr: u16) -> int {
    let slot = addr / 1024;
    let s = if v.chr_inversion { (slot + 4) % 8 } else { slot as int };
    if s < 4 {
        (v.regs[s / 2] - v.regs[s / 2] % 2) + s % 2
    } else {
        v.regs[s - 2] as int
    }
}

/// Offset into CHR ROM of a PPU address in $0000-$1FFF.
pub open spec fn mmc3_chr_offset(v: Mapper4Model, addr: u16) -> int {
    (mmc3_chr_bank(v, addr) % (v.chr_banks as int)) * 1024 + (addr % 1024)
}

proof fn lemma_address_bits()
    by (bit_vector)
    ensures
        forall|a: u16| #[trigger] (a & 1) == a % 2,
        forall|a: u16| a <= 0x1FFF ==> #[trigger] (a & 0x1FFF) == a,
        forall|a: u16| #[trigger] (a >> 10) == a / 1024,
        forall|a: u16| #[trigger] (a & 0x3FF) == a % 1024,
{
}

proof fn lemma_data_bits()
    by (bit_vector)
    ensures
        forall|d: u8| #[trigger] (d & 0x07) == d % 8,
        forall|d: u8| (#[trigger] (d & 0x40) != 0) == ((d / 64) % 2 == 1),
        forall|d: u8| (#[trigger] (d & 0x80) != 0) == (d >= 0x80),
        forall|d: u8| #[trigger] (d & 1) == d % 2,
{
}

impl Mapper4 {
    /// The state of a freshly built board: all banks 0, PRG mode 0, no inversion,
    /// interrupts off, zeroed PRG RAM; an empty CHR ROM becomes 8 KB of CHR RAM (with no
    /// CHR banks).
    pub open spec fn new_model(prg: Seq<u8>, chr: Seq<u8>, mirroring: Mirroring) -> Mapper4Model {
        Mapper4Model {
            prg,
            chr: if chr.len() == 0 { blank_chr() } else { chr },
            prg_ram: blank_chr(),
            bank_select: 0,
            prg_bank_mode: false,
            chr_inversion: false,
            regs: Seq::new(8, |i: int| 0u8),
            mirroring,
            irq_latch: 0,
            irq_counter: 0,
            irq_reload: false,
            irq_enabled: false,
            irq_pending: false,
            prg_banks: (prg.len() / 8192) as usize,
            chr_banks: (chr.len() / 1024) as usize,
        }
    }

    /// An MMC3 board (see `new_model`).
    pub fn new(prg_rom: Vec<u8>, chr_rom: Vec<u8>, mirroring: Mirroring) -> (r: Self)
        ensures
            r@ == Mapper4::new_model(prg_rom@, chr_rom@, mirroring),
            Mapper4::inv_model(r@),
    {
        let prg_banks = prg_rom.len() / 8192;
        let chr_size = chr_rom.len();
        let chr_banks = if chr_size > 0 { chr_size / 1024 } else { 0 };
        let chr = if chr_rom.len() == 0 {
            let v = vec![0u8; 8192];
            assert(v@ =~= blank_chr());
            v
        } else {
            chr_rom
        };
        let prg_ram = vec![0u8; 8192];
        assert(prg_ram@ =~= blank_chr());
        let bank_registers = vec![0u8; 8];
        assert(bank_registers@ =~= Seq::new(8, |i: int| 0u8));
        Self {
            prg_rom,
            chr_rom: chr,
            prg_ram,
            bank_select: 0,
            prg_bank_mode: false,
            chr_inversion: false,
            bank_registers,
            mirroring,
            irq_latch: 0,
            irq_counter: 0,
            irq_reload: false,
            irq_enabled: false,
            irq_pending: false,
            prg_banks,
            chr_banks,
        }
    }

    /// Start of a PRG bank in ROM, the bank number taken modulo the bank count.
    fn prg_bank_offset(&self, bank: usize) -> (r: usize)
        requires
            Mapper4::inv_model(self@),
            self.prg_banks > 0,
        ensures
            r == (bank as int % self.prg_banks as int) * 8192,
            r + 8192 <= self.prg_rom@.len(),
    {
        let b = bank % self.prg_banks;
        proof {
            crate::mapper::lemma_bank_fits(b as int, self.prg_banks as int, 8192);
            assert(self.prg_rom@.len() == self.prg_rom.len());
        }
        b * 8192
    }

    /// Start of a 1 KB CHR bank in ROM (for CHR RAM, the bank scaled by `size`).
    fn chr_bank_offset(&self, bank: usize, size: usize) -> (r: usize)
        requires
            Mapper4::inv_model(self@),
            bank <= 256,
            size <= 1024,
        ensures
            self.chr_banks > 0 ==> r == (bank as int % self.chr_banks as int) * 1024,
            self.chr_banks > 0 ==> r + 1024 <= self.chr_rom@.len(),
            self.chr_banks == 0 ==> r == bank * size,
    {
        if self.chr_banks > 0 {
            let bank_1k = bank % self.chr_banks;
            proof {
                crate::mapper::lemma_bank_fits(bank_1k as int, self.chr_banks as int, 1024);
                assert(self.chr_rom@.len() == self.chr_rom.len());
            }
            bank_1k * 1024
        } else {
            proof {
                vstd::arithmetic::mul::lemma_mul_inequality(bank as int, 256, size as int);
                vstd::arithmetic::mul::lemma_mul_inequality(size as int, 1024, 256);
            }
            bank * size
        }
    }
}

impl Mapper for Mapper4 {
    open spec fn inv_model(v: Mapper4Model) -> bool {
        &&& v.prg_ram.len() == 8192
        &&& v.regs.len() == 8
        &&& v.bank_select < 8
        &&& v.prg_banks * 8192 <= v.prg.len()
        &&& v.chr_banks * 1024 <= v.chr.len()
    }

    open spec fn cpu_read_ok(v: Mapper4Model, addr: u16) -> bool {
        addr >= 0x8000 ==> {
            &&& v.prg_banks > 0
            &&& (mmc3_prg_from_end(v, addr) ==> mmc3_prg_bank(v, addr) >= 0)
        }
    }

    open spec fn cpu_read_model(v: Mapper4Model, addr: u16) -> u8 {
        if 0x6000 <= addr <= 0x7FFF {
            v.prg_ram[addr - 0x6000]
        } else if addr >= 0x8000 {
            v.prg[mmc3_prg_offset(v, addr)]
        } else {
            0
        }
    }

    open spec fn cpu_write_model(v: Mapper4Model, addr: u16, data: u8) -> Mapper4Model {
        if 0x6000 <= addr <= 0x7FFF {
            Mapper4Model { prg_ram: v.prg_ram.update(addr - 0x6000, data), ..v }
        } else if 0x8000 <= addr <= 0x9FFF {
            if addr % 2 == 0 {
                Mapper4Model {
                    bank_select: data % 8,
                    prg_bank_mode: (data / 64) % 2 == 1,
                    chr_inversion: data >= 0x80,
                    ..v
                }
            } else {
                Mapper4Model { regs: v.regs.update(v.bank_select as int, data), ..v }
            }
        } else if 0xA000 <= addr <= 0xBFFF {
            if addr % 2 == 0 && v.mirroring != Mirroring::FourScreen {
                Mapper4Model {
                    mirroring: if data % 2 == 0 { Mirroring::Vertical } else { Mirroring::Horizontal },
                    ..v
                }
            } else {
                v
            }
        } else if 0xC000 <= addr <= 0xDFFF {
            if addr % 2 == 0 {
                Mapper4Model { irq_latch: data, ..v }
            } else {
                Mapper4Model { irq_reload: true, ..v }
            }
        } else if addr >= 0xE000 {
            if addr % 2 == 0 {
                Mapper4Model { irq_enabled: false, irq_pending: false, ..v }
            } else {
                Mapper4Model { irq_enabled: true, ..v }
            }
        } else {
            v
        }
    }

    open spec fn ppu_read_ok(v: Mapper4Model, addr: u16) -> bool {
        addr <= 0x1FFF && v.chr_banks == 0 ==> addr < v.chr.len()
    }

    open spec fn ppu_read_model(v: Mapper4Model, addr: u16) -> u8 {
        if addr > 0x1FFF {
            0
        } else if v.chr_banks == 0 {
            v.chr[addr as int]
        } else if mmc3_chr_offset(v, addr) < v.chr.len() {
            v.chr[mmc3_chr_offset(v, addr)]
        } else {
            0
        }
    }

    open spec fn ppu_write_ok(v: Mapper4Model, addr: u16) -> bool {
        addr <= 0x1FFF && v.chr_banks == 0 ==> addr < v.chr.len()
    }

    open spec fn ppu_write_model(v: Mapper4Model, addr: u16, data: u8) -> Mapper4Model {
        if addr <= 0x1FFF && v.chr_banks == 0 {
            Mapper4Model { chr: v.chr.update(addr as int, data), ..v }
        } else {
            v
        }
    }

    open spec fn scanline_model(v: Mapper4Model) -> Mapper4Model {
        let counter = if v.irq_counter == 0 || v.irq_reload { v.irq_latch } else { (v.irq_counter - 1) as u8 };
        Mapper4Model {
            irq_counter: counter,
            irq_reload: if v.irq_counter == 0 || v.irq_reload { false } else { v.irq_reload },
            irq_pending: if counter == 0 && v.irq_enabled { true } else { v.irq_pending },
            ..v
        }
    }

    open spec fn irq_model(v: Mapper4Model) -> bool {
        v.irq_pending
    }

    open spec fn acknowledge_model(v: Mapper4Model) -> Mapper4Model {
        Mapper4Model { irq_pending: false, ..v }
    }

    open spec fn mirroring_model(v: Mapper4Model) -> Option<Mirroring> {
        Some(v.mirroring)
    }

    fn cpu_read(&self, addr: u16) -> (r: u8) {
        let a = addr;
        if addr >= 0x6000 && addr <= 0x7FFF {
            self.prg_ram[(addr - 0x6000) as usize]
        } else if addr >= 0x8000 && addr <= 0x9FFF {
            let bank = if !self.prg_bank_mode {
                self.bank_registers[6] as usize
            } else {
                self.prg_banks - 2
            };
            assert(a - 0x8000 == a % 8192) by (nonlinear_arith) requires 0x8000 <= a <= 0x9FFF;
            let offset = self.prg_bank_offset(bank) + (addr - 0x8000) as usize;
            self.prg_rom[offset]
        } else if addr >= 0xA000 && addr <= 0xBFFF {
            let bank = self.bank_registers[7] as usize;
            assert(a - 0xA000 == a % 8192) by (nonlinear_arith) requires 0xA000 <= a <= 0xBFFF;
            let offset = self.prg_bank_offset(bank) + (addr - 0xA000) as usize;
            self.prg_rom[offset]
        } else if addr >= 0xC000 && addr <= 0xDFFF {
            let bank = if !self.prg_bank_mode {
                self.prg_banks - 2
            } else {
                self.bank_registers[6] as usize
            };
            assert(a - 0xC000 == a % 8192) by (nonlinear_arith) requires 0xC000 <= a <= 0xDFFF;
            let offset = self.prg_bank_offset(bank) + (addr - 0xC000) as usize;
            self.prg_rom[offset]
        } else if addr >= 0xE000 {
            let bank = self.prg_banks - 1;
            assert(a - 0xE000 == a % 8192) by (nonlinear_arith) requires 0xE000 <= a <= 0xFFFF;
            let offset = self.prg_bank_offset(bank) + (addr - 0xE000) as usize;
            self.prg_rom[offset]
        } else {
            0
        }
    }

    fn cpu_write(&mut self, addr: u16, data: u8) {
        let a = addr;
        proof {
            lemma_address_bits();
            lemma_data_bits();
        }
        assert((a & 1 == 0) == (a % 2 == 0));
        assert(data & 0x07 == data % 8);
        assert((data & 0x40 != 0) == ((data / 64) % 2 == 1));
        assert((data & 0x80 != 0) == (data >= 0x80));
        assert((data & 1 == 0) == (data % 2 == 0));
        if addr >= 0x6000 && addr <= 0x7FFF {
            self.prg_ram[(addr - 0x6000) as usize] = data;
        } else if addr >= 0x8000 && addr <= 0x9FFF {
            if addr & 1 == 0 {
                self.bank_select = data & 0x07;
                self.prg_bank_mode = data & 0x40 != 0;
                self.chr_inversion = data & 0x80 != 0;
            } else {
                let reg = self.bank_select as usize;
                self.bank_registers[reg] = data;
            }
        } else if addr >= 0xA000 && addr <= 0xBFFF {
            if addr & 1 == 0 {
                if self.mirroring != Mirroring::FourScreen {
                    self.mirroring = if data & 1 == 0 {
                        Mirroring::Vertical
                    } else {
                        Mirroring::Horizontal
                    };
                }
            }
        } else if addr >= 0xC000 && addr <= 0xDFFF {
            if addr & 1 == 0 {
                self.irq_latch = data;
            } else {
                self.irq_reload = true;
            }
        } else if addr >= 0xE000 {
            if addr & 1 == 0 {
                self.irq_enabled = false;
                self.irq_pending = false;
            } else {
                self.irq_enabled = true;
            }
        }
    }

    fn ppu_read(&self, addr: u16) -> (r: u8) {
        if addr > 0x1FFF {
            return 0;
        }
        if self.chr_banks == 0 {
            let a = addr;
            proof {
                lemma_address_bits();
            }
            assert(a & 0x1FFF == a);
            return self.chr_rom[(addr & 0x1FFF) as usize];
        }
        let a = addr;
        proof {
            lemma_address_bits();
        }
        assert(a >> 10 == a / 1024);
        assert(a & 0x3FF == a % 1024);
        let slot = (addr >> 10) as usize;
        let s = if self.chr_inversion { (slot + 4) % 8 } else { slot };
        let bank = if s < 4 {
            let r = self.bank_registers[s / 2] as usize;
            assert(r & 0xFE == r - r % 2) by (bit_vector) requires r < 256;
            (r & 0xFE) + s % 2
        } else {
            self.bank_registers[s - 2] as usize
        };
        let offset = self.chr_bank_offset(bank, 1024) + (addr & 0x3FF) as usize;
        if offset < self.chr_rom.len() {
            self.chr_rom[offset]
        } else {
            0
        }
    }

    fn ppu_write(&mut self, addr: u16, data: u8) {
        if addr > 0x1FFF {
            return;
        }
        if self.chr_banks == 0 {
            let a = addr;
            proof {
                lemma_address_bits();
            }
            assert(a & 0x1FFF == a);
            self.chr_rom[(addr & 0x1FFF) as usize] = data;
        }
    }

    fn notify_scanline(&mut self) {
        if self.irq_counter == 0 || self.irq_reload {
            self.irq_counter = self.irq_latch;
            self.irq_reload = false;
        } else {
            self.irq_counter = self.irq_counter - 1;
        }
        if self.irq_counter == 0 && self.irq_enabled {
            self.irq_pending = true;
        }
    }

    fn irq_pending(&self) -> (r: bool) {
        self.irq_pending
    }

    fn irq_acknowledge(&mut self) {
        self.irq_pending = false;
    }

    fn mirroring(&self) -> (r: Option<Mirroring>) {
        Some(self.mirroring)
    }
}

/// The board after `n` scanline clocks.
pub open spec fn mmc3_scanlines(v: Mapper4Model, n: nat) -> Mapper4Model
    decreases n,
{
    if n == 0 {
        v
    } else {
        Mapper4::scanline_model(mmc3_scanlines(v, (n - 1) as nat))
    }
}

proof fn lemma_mmc3_count(v: Mapper4Model, k: nat)
    requires
        v.irq_reload,
        !v.irq_pending,
        v.irq_latch > 0,
        1 <= k <= v.irq_latch,
    ensures
        mmc3_scanlines(v, k).irq_counter == v.irq_latch - (k - 1),
        !mmc3_scanlines(v, k).irq_reload,
        !mmc3_scanlines(v, k).irq_pending,
        mmc3_scanlines(v, k).irq_enabled == v.irq_enabled,
        mmc3_scanlines(v, k).irq_latch == v.irq_latch,
    decreases k,
{
    let prev = mmc3_scanlines(v, (k - 1) as nat);
    assert(mmc3_scanlines(v, k) == Mapper4::scanline_model(prev));
    if k > 1 {
        lemma_mmc3_count(v, (k - 1) as nat);
    } else {
        assert(prev == v);
    }
}

/// Once a reload is requested, an enabled IRQ with a latch of `n` (at least 1) counts
/// `n`, `n - 1`, ... on successive scanlines and is raised on scanline `n + 1`, not before.
pub proof fn lemma_mmc3_irq_countdown(v: Mapper4Model)
    requires
        v.irq_reload,
        v.irq_enabled,
        !v.irq_pending,
        v.irq_latch > 0,
    ensures
        forall|k: nat|
            1 <= k <= v.irq_latch ==> !(#[trigger] mmc3_scanlines(v, k)).irq_pending
                && mmc3_scanlines(v, k).irq_counter == v.irq_latch - (k - 1),
        mmc3_scanlines(v, (v.irq_latch + 1) as nat).irq_pending,
{
    assert forall|k: nat| 1 <= k <= v.irq_latch implies !(#[trigger] mmc3_scanlines(v, k)).irq_pending
        && mmc3_scanlines(v, k).irq_counter == v.irq_latch - (k - 1) by {
        lemma_mmc3_count(v, k);
    }
    lemma_mmc3_count(v, v.irq_latch as nat);
    assert(mmc3_scanlines(v, (v.irq_latch + 1) as nat) == Mapper4::scanline_model(
        mmc3_scanlines(v, v.irq_latch as nat),
    ));
}

/// PRG RAM at $6000-$7FFF gives back what was last written there.
pub proof fn lemma_mmc3_prg_ram_read_after_write(v: Mapper4Model, addr: u16, data: u8)
    requires
        Mapper4::inv_model(v),
        0x6000 <= addr <= 0x7FFF,
    ensures
        Mapper4::cpu_read_model(Mapper4::cpu_write_model(v, addr, data), addr) == data,
{
}

/// MMC3 PRG banking in 8 KB windows: $A000-$BFFF shows bank R7 and $E000-$FFFF the last
/// bank in both modes; in PRG mode 0 $8000-$9FFF shows R6 and $C000-$DFFF the
/// second-last bank, and mode 1 swaps those two windows. Banks are taken modulo the
/// number of banks.
pub proof fn lemma_mmc3_prg_banks(v: Mapper4Model, k: u16)
    requires
        Mapper4::inv_model(v),
        v.prg_banks >= 2,
        k < 8192,
    ensures
        ({
            let n = v.prg_banks as int;
            let r6 = (v.regs[6] as int) % n;
            let r7 = (v.regs[7] as int) % n;
            let read = |a: int| Mapper4::cpu_read_model(v, a as u16);
            &&& read(0xA000 + k) == v.prg[r7 * 8192 + k]
            &&& read(0xE000 + k) == v.prg[(n - 1) * 8192 + k]
            &&& !v.prg_bank_mode ==> read(0x8000 + k) == v.prg[r6 * 8192 + k] && read(0xC000 + k)
                == v.prg[(n - 2) * 8192 + k]
            &&& v.prg_bank_mode ==> read(0x8000 + k) == v.prg[(n - 2) * 8192 + k] && read(0xC000 + k)
                == v.prg[r6 * 8192 + k]
        }),
{
    let n = v.prg_banks as int;
    assert((0x8000 + k) % 8192 == k && (0xA000 + k) % 8192 == k && (0xC000 + k) % 8192 == k
        && (0xE000 + k) % 8192 == k);
    assert((n - 1) % n == n - 1 && (n - 2) % n == n - 2) by {
        vstd::arithmetic::div_mod::lemma_small_mod((n - 1) as nat, n as nat);
        vstd::arithmetic::div_mod::lemma_small_mod((n - 2) as nat, n as nat);
    }
}

/// Selecting a register: a write of `d` to an even address in $8000-$9FFF followed by a
/// write of `x` to an odd one stores `x` in bank register `d % 8` (the others keep their
/// values), and `d` also sets the PRG mode (bit 6) and the CHR inversion (bit 7).
pub proof fn lemma_mmc3_bank_select(v: Mapper4Model, a1: u16, d: u8, a2: u16, x: u8)
    requires
        Mapper4::inv_model(v),
        0x8000 <= a1 <= 0x9FFF,
        a1 % 2 == 0,
        0x8000 <= a2 <= 0x9FFF,
        a2 % 2 == 1,
    ensures
        ({
            let w = Mapper4::cpu_write_model(Mapper4::cpu_write_model(v, a1, d), a2, x);
            &&& w.regs.len() == 8
            &&& w.regs[(d % 8) as int] == x
            &&& forall|i: int| 0 <= i < 8 && i != d % 8 ==> w.regs[i] == v.regs[i]
            &&& w.prg_bank_mode == (d & 0x40 != 0)
            &&& w.chr_inversion == (d & 0x80 != 0)
            &&& w.prg == v.prg && w.chr == v.chr && w.prg_ram == v.prg_ram
        }),
{
    lemma_data_bits();
}

/// MMC3 CHR banking in 1 KB units. Without inversion, $0000-$07FF is the 2 KB bank R0
/// and $0800-$0FFF the 2 KB bank R1 (each with its low bit ignored), and the four 1 KB
/// windows of $1000-$1FFF show R2, R3, R4 and R5. Inversion swaps the two 4 KB halves.
pub proof fn lemma_mmc3_chr_banks(v: Mapper4Model, p: u16)
    requires
        Mapper4::inv_model(v),
        p <= 0x1FFF,
    ensures
        ({
            let w = Mapper4Model { chr_inversion: false, ..v };
            let slot = p / 1024;
            &&& slot < 2 ==> mmc3_chr_bank(w, p) == (v.regs[0] / 2) * 2 + slot
            &&& 2 <= slot < 4 ==> mmc3_chr_bank(w, p) == (v.regs[1] / 2) * 2 + (slot - 2)
            &&& slot >= 4 ==> mmc3_chr_bank(w, p) == v.regs[slot - 2]
            &&& mmc3_chr_bank(Mapper4Model { chr_inversion: true, ..v }, p) == mmc3_chr_bank(
                w,
                ((p + 0x1000) % 0x2000) as u16,
            )
        }),
{
    let slot = p / 1024;
    let q = ((p + 0x1000) % 0x2000) as u16;
    assert(q / 1024 == (slot + 4) % 8);
}

} // verus!
