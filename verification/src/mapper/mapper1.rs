use vstd::prelude::*;
use crate::cartridge::Mirroring;
use crate::mapper::Mapper;
use crate::mapper::mapper2::blank_chr;

verus! {

/// MMC1 (SxROM): a serial shift register that loads four internal registers,
/// PRG and CHR bank switching, 8 KB of PRG RAM and board-controlled mirroring.
pub struct Mapper1 {
    pub prg_rom: Vec<u8>,
    pub chr_rom: Vec<u8>,
    pub prg_ram: Vec<u8>,
    pub chr_is_ram: bool,
    pub shift_register: u8,
    pub write_count: u8,
    pub control: u8,
    pub chr_bank_0: u8,
    pub chr_bank_1: u8,
    pub prg_bank: u8,
    pub prg_banks: usize,
    pub chr_banks: usize,
}

/// The state of an MMC1 board.
pub ghost struct Mapper1Model {
    pub prg: Seq<u8>,
    pub chr: Seq<u8>,
    pub prg_ram: Seq<u8>,
    pub chr_is_ram: bool,
    pub shift_register: u8,
    pub write_count: u8,
    pub control: u8,
    pub chr_bank_0: u8,
    pub chr_bank_1: u8,
    pub prg_bank: u8,
    pub prg_banks: usize,
    pub chr_banks: usize,
}

impl View for Mapper1 {
    type V = Mapper1Model;

    open spec fn view(&self) -> Mapper1Model {
        Mapper1Model {
            prg: self.prg_rom@,
            chr: self.chr_rom@,
            prg_ram: self.prg_ram@,
            chr_is_ram: self.chr_is_ram,
            shift_register: self.shift_register,
            write_count: self.write_count,
            control: self.control,
            chr_bank_0: self.chr_bank_0,
            chr_bank_1: self.chr_bank_1,
            prg_bank: self.prg_bank,
            prg_banks: self.prg_banks,
            chr_banks: self.chr_banks,
        }
    }
}

/// The PRG banking mode: bits 2-3 of the control register.
pub open spec fn mmc1_prg_mode(control: u8) -> u8 {
    (control / 4) % 4
}

/// Whether CHR is switched in two 4 KB banks (control bit 4) rather than one 8 KB bank.
pub open spec fn mmc1_chr_4k(control: u8) -> bool {
    (control / 16) % 2 == 1
}

/// Whether the PRG bank for this address is reduced modulo the number of banks.
pub open spec fn mmc1_prg_uses_banks(v: Mapper1Model, addr: u16) -> bool {
    if addr <= 0xBFFF {
        mmc1_prg_mode(v.control) != 2
    } else {
        true
    }
}

/// The 16 KB PRG bank that holds a CPU address in $8000-$FFFF.
pub open spec fn mmc1_prg_bank(v: Mapper1Model, addr: u16) -> int {
    let mode = mmc1_prg_mode(v.control);
    if addr <= 0xBFFF {
        if mode <= 1 {
            ((v.prg_bank - v.prg_bank % 2) as int) % (v.prg_banks as int)
        } else if mode == 2 {
            0
        } else {
            (v.prg_bank as int) % (v.prg_banks as int)
        }
    } else {
        if mode <= 1 {
            ((v.prg_bank - v.prg_bank % 2) + 1) % (v.prg_banks as int)
        } else if mode == 2 {
            (v.prg_bank as int) % (v.prg_banks as int)
        } else {
            v.prg_banks - 1
        }
    }
}

/// Offset into PRG ROM of a CPU address in $8000-$FFFF.
pub open spec fn mmc1_prg_offset(v: Mapper1Model, addr: u16) -> int {
    mmc1_prg_bank(v, addr) * 16384 + (if addr <= 0xBFFF { addr - 0x8000 } else { addr - 0xC000 })
}

/// Offset into CHR memory of a PPU address in $0000-$1FFF.
pub open spec fn mmc1_chr_offset(v: Mapper1Model, addr: u16) -> int {
    if mmc1_chr_4k(v.control) {
        let reg = if addr < 0x1000 { v.chr_bank_0 } else { v.chr_bank_1 };
        ((reg as int) % (v.chr_banks as int)) * 4096 + (addr % 4096)
    } else {
        let n = if v.chr_banks / 2 > 1 { v.chr_banks / 2 } else { 1 };
        (((v.chr_bank_0 / 2) as int) % (n as int)) * 8192 + addr
    }
}

/// The board after the shift register has delivered `value` for `addr`.
pub open spec fn mmc1_load_register(v: Mapper1Model, addr: u16, value: u8) -> Mapper1Model {
    let reg = (addr / 8192) % 4;
    if reg == 0 {
        Mapper1Model { control: value, ..v }
    } else if reg == 1 {
        Mapper1Model { chr_bank_0: value, ..v }
    } else if reg == 2 {
        Mapper1Model { chr_bank_1: value, ..v }
    } else {
        Mapper1Model { prg_bank: value & 0x0F, ..v }
    }
}

impl Mapper1 {
    /// The state of a freshly built board: PRG mode 3 (last bank fixed), all banks 0, an
    /// empty shift register and zeroed PRG RAM; an empty CHR ROM becomes 8 KB of CHR RAM
    /// in two 4 KB banks.
    pub open spec fn new_model(prg: Seq<u8>, chr: Seq<u8>) -> Mapper1Model {
        Mapper1Model {
            prg,
            chr: if chr.len() == 0 { blank_chr() } else { chr },
            prg_ram: blank_chr(),
            chr_is_ram: chr.len() == 0,
            shift_register: 0,
            write_count: 0,
            control: 0x0C,
            chr_bank_0: 0,
            chr_bank_1: 0,
            prg_bank: 0,
            prg_banks: (prg.len() / 16384) as usize,
            chr_banks: if chr.len() == 0 { 2 } else { (chr.len() / 4096) as usize },
        }
    }

    /// An MMC1 board (see `new_model`).
    pub fn new(prg_rom: Vec<u8>, chr_rom: Vec<u8>) -> (r: Self)
        ensures
            r@ == Mapper1::new_model(prg_rom@, chr_rom@),
            Mapper1::inv_model(r@),
    {
        let prg_banks = prg_rom.len() / 16384;
        let chr_is_ram = chr_rom.len() == 0;
        let chr_banks = if chr_is_ram { 2 } else { chr_rom.len() / 4096 };
        let chr = if chr_is_ram {
            let v = vec![0u8; 8192];
            assert(v@ =~= blank_chr());
            v
        } else {
            chr_rom
        };
        let prg_ram = vec![0u8; 8192];
        assert(prg_ram@ =~= blank_chr());
        Self {
            prg_rom,
            chr_rom: chr,
            prg_ram,
            chr_is_ram,
            shift_register: 0,
            write_count: 0,
            control: 0x0C,
            chr_bank_0: 0,
            chr_bank_1: 0,
            prg_bank: 0,
            prg_banks,
            chr_banks,
        }
    }

    fn write_register(&mut self, addr: u16, value: u8)
        ensures
            final(self)@ == mmc1_load_register(old(self)@, addr, value),
    {
        let register = (addr >> 13) & 0x03;
        assert(register == (addr / 8192) % 4) by (bit_vector)
            requires register == (addr >> 13) & 0x03;
        if register == 0 {
            self.control = value;
        } else if register == 1 {
            self.chr_bank_0 = value;
        } else if register == 2 {
            self.chr_bank_1 = value;
        } else {
            self.prg_bank = value & 0x0F;
        }
    }

    fn prg_mode(&self) -> (r: u8)
        ensures
            r == mmc1_prg_mode(self.control),
    {
        let c = self.control;
        assert((c >> 2) & 0x03 == (c / 4) % 4) by (bit_vector);
        (self.control >> 2) & 0x03
    }

    fn chr_mode(&self) -> (r: bool)
        ensures
            r == mmc1_chr_4k(self.control),
    {
        let c = self.control;
        assert((c & 0x10 != 0) == ((c / 16) % 2 == 1)) by (bit_vector);
        self.control & 0x10 != 0
    }

    /// Offset into CHR memory for a pattern address.
    fn chr_offset(&self, addr: u16) -> (r: usize)
        requires
            Mapper1::inv_model(self@),
            addr <= 0x1FFF,
            mmc1_chr_4k(self.control) ==> self.chr_banks > 0,
        ensures
            r == mmc1_chr_offset(self@, addr),
    {
        if self.chr_mode() {
            let reg = if addr < 0x1000 { self.chr_bank_0 } else { self.chr_bank_1 };
            let bank = reg as usize % self.chr_banks;
            let a = addr;
            assert(a & 0x0FFF == a % 4096) by (bit_vector);
            proof {
                crate::mapper::lemma_bank_fits(bank as int, self.chr_banks as int, 4096);
                assert(self.chr_rom@.len() == self.chr_rom.len());
            }
            bank * 4096 + (addr & 0x0FFF) as usize
        } else {
            let half = self.chr_banks / 2;
            let n = if half > 1 { half } else { 1 };
            let bank = (self.chr_bank_0 >> 1) as usize % n;
            let b0 = self.chr_bank_0;
            assert(b0 >> 1 == b0 / 2) by (bit_vector);
            proof {
                crate::mapper::lemma_bank_fits(bank as int, n as int, 8192);
                if half > 1 {
                    crate::mapper::lemma_bank_fits(n as int, self.chr_banks as int / 2 + 1, 8192);
                }
                assert(self.chr_rom@.len() == self.chr_rom.len());
            }
            bank * 8192 + addr as usize
        }
    }
}

impl Mapper for Mapper1 {
    open spec fn inv_model(v: Mapper1Model) -> bool {
        &&& v.prg_ram.len() == 8192
        &&& v.write_count < 5
        &&& v.prg_banks * 16384 <= v.prg.len()
        &&& v.chr_banks * 4096 <= v.chr.len()
    }

    open spec fn cpu_read_ok(v: Mapper1Model, addr: u16) -> bool {
        addr >= 0x8000 ==> {
            &&& (mmc1_prg_uses_banks(v, addr) ==> v.prg_banks > 0)
            &&& mmc1_prg_offset(v, addr) < v.prg.len()
        }
    }

    open spec fn cpu_read_model(v: Mapper1Model, addr: u16) -> u8 {
        if 0x6000 <= addr <= 0x7FFF {
            v.prg_ram[addr - 0x6000]
        } else if addr >= 0x8000 {
            v.prg[mmc1_prg_offset(v, addr)]
        } else {
            0
        }
    }

    open spec fn cpu_write_model(v: Mapper1Model, addr: u16, data: u8) -> Mapper1Model {
        if 0x6000 <= addr <= 0x7FFF {
            Mapper1Model { prg_ram: v.prg_ram.update(addr - 0x6000, data), ..v }
        } else if addr >= 0x8000 {
            if data >= 0x80 {
                Mapper1Model { shift_register: 0, write_count: 0, control: v.control | 0x0C, ..v }
            } else {
                let shifted = v.shift_register | (((data % 2) as u8) << v.write_count);
                if v.write_count + 1 == 5 {
                    Mapper1Model {
                        shift_register: 0,
                        write_count: 0,
                        ..mmc1_load_register(v, addr, shifted)
                    }
                } else {
                    Mapper1Model { shift_register: shifted, write_count: (v.write_count + 1) as u8, ..v }
                }
            }
        } else {
            v
        }
    }

    open spec fn ppu_read_ok(v: Mapper1Model, addr: u16) -> bool {
        addr <= 0x1FFF && mmc1_chr_4k(v.control) ==> v.chr_banks > 0
    }

    open spec fn ppu_read_model(v: Mapper1Model, addr: u16) -> u8 {
        if addr <= 0x1FFF && mmc1_chr_offset(v, addr) < v.chr.len() {
            v.chr[mmc1_chr_offset(v, addr)]
        } else {
            0
        }
    }

    open spec fn ppu_write_ok(v: Mapper1Model, addr: u16) -> bool {
        addr <= 0x1FFF && v.chr_is_ram && mmc1_chr_4k(v.control) ==> v.chr_banks > 0
    }

    open spec fn ppu_write_model(v: Mapper1Model, addr: u16, data: u8) -> Mapper1Model {
        if addr <= 0x1FFF && v.chr_is_ram && mmc1_chr_offset(v, addr) < v.chr.len() {
            Mapper1Model { chr: v.chr.update(mmc1_chr_offset(v, addr), data), ..v }
        } else {
            v
        }
    }

    open spec fn scanline_model(v: Mapper1Model) -> Mapper1Model {
        v
    }

    open spec fn irq_model(v: Mapper1Model) -> bool {
        false
    }

    open spec fn acknowledge_model(v: Mapper1Model) -> Mapper1Model {
        v
    }

    open spec fn mirroring_model(v: Mapper1Model) -> Option<Mirroring> {
        if v.control % 4 == 2 {
            Some(Mirroring::Vertical)
        } else if v.control % 4 == 3 {
            Some(Mirroring::Horizontal)
        } else {
            None
        }
    }

    fn cpu_read(&self, addr: u16) -> (r: u8) {
        if addr >= 0x6000 && addr <= 0x7FFF {
            self.prg_ram[(addr - 0x6000) as usize]
        } else if addr >= 0x8000 && addr <= 0xBFFF {
            let p = self.prg_bank as usize;
            assert(p & 0xFE == p - p % 2) by (bit_vector) requires p < 256;
            let mode = self.prg_mode();
            let bank = if mode <= 1 {
                (self.prg_bank as usize & 0xFE) % self.prg_banks
            } else if mode == 2 {
                0
            } else {
                self.prg_bank as usize % self.prg_banks
            };
            proof {
                if mode != 2 {
                    crate::mapper::lemma_bank_fits(bank as int, self.prg_banks as int, 16384);
                }
                assert(self.prg_rom@.len() == self.prg_rom.len());
            }
            let offset = bank * 16384 + (addr - 0x8000) as usize;
            self.prg_rom[offset]
        } else if addr >= 0xC000 {
            let p = self.prg_bank as usize;
            assert(p & 0xFE == p - p % 2) by (bit_vector) requires p < 256;
            let mode = self.prg_mode();
            let bank = if mode <= 1 {
                ((self.prg_bank as usize & 0xFE) + 1) % self.prg_banks
            } else if mode == 2 {
                self.prg_bank as usize % self.prg_banks
            } else {
                self.prg_banks - 1
            };
            proof {
                crate::mapper::lemma_bank_fits(bank as int, self.prg_banks as int, 16384);
                assert(self.prg_rom@.len() == self.prg_rom.len());
            }
            let offset = bank * 16384 + (addr - 0xC000) as usize;
            self.prg_rom[offset]
        } else {
            0
        }
    }

    fn cpu_write(&mut self, addr: u16, data: u8) {
        if addr >= 0x6000 && addr <= 0x7FFF {
            self.prg_ram[(addr - 0x6000) as usize] = data;
        } else if addr >= 0x8000 {
            assert((data & 0x80 != 0) == (data >= 0x80)) by (bit_vector);
            assert(data & 1 == data % 2) by (bit_vector);
            if data & 0x80 != 0 {
                self.shift_register = 0;
                self.write_count = 0;
                self.control = self.control | 0x0C;
            } else {
                self.shift_register = self.shift_register | ((data & 1) << self.write_count);
                self.write_count = self.write_count + 1;
                if self.write_count == 5 {
                    let value = self.shift_register;
                    self.write_register(addr, value);
                    self.shift_register = 0;
                    self.write_count = 0;
                }
            }
        }
    }

    fn ppu_read(&self, addr: u16) -> (r: u8) {
        if addr <= 0x1FFF {
            let offset = self.chr_offset(addr);
            if offset < self.chr_rom.len() {
                self.chr_rom[offset]
            } else {
                0
            }
        } else {
            0
        }
    }

    fn ppu_write(&mut self, addr: u16, data: u8) {
        if addr <= 0x1FFF && self.chr_is_ram {
            let offset = self.chr_offset(addr);
            if offset < self.chr_rom.len() {
                self.chr_rom[offset] = data;
            }
        }
    }

    fn notify_scanline(&mut self) {
    }

    fn irq_pending(&self) -> (r: bool) {
        false
    }

    fn irq_acknowledge(&mut self) {
    }

    fn mirroring(&self) -> (r: Option<Mirroring>) {
        let c = self.control;
        assert(c & 0x03 == c % 4) by (bit_vector);
        match self.control & 0x03 {
            2 => Some(Mirroring::Vertical),
            3 => Some(Mirroring::Horizontal),
            _ => None,
        }
    }
}

/// The value five serial writes deliver: bit 0 of each, the first write's bit lowest.
pub open spec fn mmc1_serial_value(d0: u8, d1: u8, d2: u8, d3: u8, d4: u8) -> u8 {
    ((d0 % 2) + 2 * (d1 % 2) + 4 * (d2 % 2) + 8 * (d3 % 2) + 16 * (d4 % 2)) as u8
}

/// Starting from an empty shift register, five writes with bit 7 clear load the register
/// the fifth write's address selects with the five bits they carried, and empty the
/// shift register again; nothing else changes.
pub proof fn lemma_mmc1_five_writes(
    v: Mapper1Model,
    a0: u16,
    a1: u16,
    a2: u16,
    a3: u16,
    a4: u16,
    d0: u8,
    d1: u8,
    d2: u8,
    d3: u8,
    d4: u8,
)
    requires
        v.shift_register == 0,
        v.write_count == 0,
        0x8000 <= a0,
        0x8000 <= a1,
        0x8000 <= a2,
        0x8000 <= a3,
        0x8000 <= a4,
        d0 < 0x80,
        d1 < 0x80,
        d2 < 0x80,
        d3 < 0x80,
        d4 < 0x80,
    ensures
        Mapper1::cpu_write_model(
            Mapper1::cpu_write_model(
                Mapper1::cpu_write_model(
                    Mapper1::cpu_write_model(Mapper1::cpu_write_model(v, a0, d0), a1, d1),
                    a2,
                    d2,
                ),
                a3,
                d3,
            ),
            a4,
            d4,
        ) == mmc1_load_register(v, a4, mmc1_serial_value(d0, d1, d2, d3, d4)),
{
    let s1 = (0u8 | (((d0 % 2) as u8) << 0u8)) as u8;
    let s2 = (s1 | (((d1 % 2) as u8) << 1u8)) as u8;
    let s3 = (s2 | (((d2 % 2) as u8) << 2u8)) as u8;
    let s4 = (s3 | (((d3 % 2) as u8) << 3u8)) as u8;
    let s5 = (s4 | (((d4 % 2) as u8) << 4u8)) as u8;
    assert(s5 == mmc1_serial_value(d0, d1, d2, d3, d4)) by (bit_vector)
        requires
            s1 == (0u8 | (((d0 % 2) as u8) << 0u8)) as u8,
            s2 == (s1 | (((d1 % 2) as u8) << 1u8)) as u8,
            s3 == (s2 | (((d2 % 2) as u8) << 2u8)) as u8,
            s4 == (s3 | (((d3 % 2) as u8) << 3u8)) as u8,
            s5 == (s4 | (((d4 % 2) as u8) << 4u8)) as u8,
    ;
    let w1 = Mapper1::cpu_write_model(v, a0, d0);
    assert(w1 == Mapper1Model { shift_register: s1, write_count: 1, ..v });
    let w2 = Mapper1::cpu_write_model(w1, a1, d1);
    assert(w2 == Mapper1Model { shift_register: s2, write_count: 2, ..v });
    let w3 = Mapper1::cpu_write_model(w2, a2, d2);
    assert(w3 == Mapper1Model { shift_register: s3, write_count: 3, ..v });
    let w4 = Mapper1::cpu_write_model(w3, a3, d3);
    assert(w4 == Mapper1Model { shift_register: s4, write_count: 4, ..v });
}

/// PRG RAM at $6000-$7FFF gives back what was last written there, and CHR RAM gives
/// back what the PPU last wrote at a pattern address.
pub proof fn lemma_mmc1_ram_read_after_write(v: Mapper1Model, addr: u16, paddr: u16, data: u8)
    requires
        Mapper1::inv_model(v),
    ensures
        0x6000 <= addr <= 0x7FFF ==> Mapper1::cpu_read_model(Mapper1::cpu_write_model(v, addr, data), addr) == data,
        paddr <= 0x1FFF && v.chr_is_ram && 0 <= mmc1_chr_offset(v, paddr) < v.chr.len() ==> Mapper1::ppu_read_model(
            Mapper1::ppu_write_model(v, paddr, data),
            paddr,
        ) == data,
{
    let w = Mapper1::ppu_write_model(v, paddr, data);
    assert(mmc1_chr_offset(w, paddr) == mmc1_chr_offset(v, paddr));
}

/// In the 32 KB PRG modes (control bits 2-3 at 0 or 1) the low bit of the PRG bank
/// register is ignored: $8000-$BFFF shows the even 16 KB bank `e` it names and
/// $C000-$FFFF the bank after it, `e + 1`, both taken modulo the number of banks. So the
/// bank at $C000 is the bank at $8000 plus one, and where that bank exists the byte at
/// $C000 + k is the byte 16 KB after the one at $8000 + k.
pub proof fn lemma_mmc1_32k_mode(v: Mapper1Model, a: u16)
    requires
        Mapper1::inv_model(v),
        v.prg_banks > 0,
        (v.control / 4) % 4 <= 1,
        0x8000 <= a <= 0xBFFF,
    ensures
        ({
            let e = (v.prg_bank / 2) * 2;
            let n = v.prg_banks as int;
            let k = a - 0x8000;
            &&& Mapper1::cpu_read_model(v, a) == v.prg[(e % n) * 16384 + k]
            &&& Mapper1::cpu_read_model(v, (a + 0x4000) as u16) == v.prg[((e + 1) % n) * 16384 + k]
            &&& mmc1_prg_bank(v, (a + 0x4000) as u16) == (mmc1_prg_bank(v, a) + 1) % n
            &&& e % n + 1 < n ==> Mapper1::cpu_read_model(v, (a + 0x4000) as u16) == v.prg[
                mmc1_prg_offset(v, a) + 16384]
        }),
{
    let e = (v.prg_bank / 2) * 2;
    let n = v.prg_banks as int;
    assert(v.prg_bank - v.prg_bank % 2 == e);
    vstd::arithmetic::div_mod::lemma_add_mod_noop_right(1, e, n);
    let k = a - 0x8000;
    let b = (a + 0x4000) as u16;
    assert(b > 0xBFFF && b - 0xC000 == k);
    assert(mmc1_prg_bank(v, a) == e % n);
    assert(mmc1_prg_bank(v, b) == (e + 1) % n);
    assert(mmc1_prg_offset(v, a) == (e % n) * 16384 + k);
    assert(mmc1_prg_offset(v, b) == ((e + 1) % n) * 16384 + k);
    assert(0 <= e % n < n);
    if e % n + 1 < n {
        vstd::arithmetic::div_mod::lemma_small_mod((e % n + 1) as nat, n as nat);
        assert((e + 1) % n == e % n + 1);
        assert(((e + 1) % n) * 16384 == (e % n) * 16384 + 16384);
    }
}

/// In PRG mode 2 $8000-$BFFF is fixed to the first 16 KB bank and $C000-$FFFF shows the
/// bank the PRG register names; in mode 3 $8000-$BFFF shows that bank and $C000-$FFFF is
/// fixed to the last bank. Banks are taken modulo the number of banks.
pub proof fn lemma_mmc1_16k_modes(v: Mapper1Model, a: u16)
    requires
        Mapper1::inv_model(v),
        v.prg_banks > 0,
        0x8000 <= a <= 0xBFFF,
    ensures
        ({
            let n = v.prg_banks as int;
            let k = a - 0x8000;
            let b = (a + 0x4000) as u16;
            &&& (v.control / 4) % 4 == 2 ==> Mapper1::cpu_read_model(v, a) == v.prg[k]
                && Mapper1::cpu_read_model(v, b) == v.prg[((v.prg_bank as int) % n) * 16384 + k]
            &&& (v.control / 4) % 4 == 3 ==> Mapper1::cpu_read_model(v, a) == v.prg[((v.prg_bank as int) % n) * 16384 + k]
                && Mapper1::cpu_read_model(v, b) == v.prg[(n - 1) * 16384 + k]
        }),
{
    let b = (a + 0x4000) as u16;
    assert(b > 0xBFFF && b - 0xC000 == a - 0x8000);
}

/// MMC1 CHR banking. With control bit 4 set, $0000-$0FFF and $1000-$1FFF are two
/// independent 4 KB banks, named by the first and the second CHR register. Otherwise one
/// 8 KB bank, named by the first CHR register with its low bit ignored, covers both
/// halves. Banks are taken modulo the number of banks of their size.
pub proof fn lemma_mmc1_chr_banks(v: Mapper1Model, p: u16)
    requires
        Mapper1::inv_model(v),
        v.chr_banks >= 2,
        p <= 0x0FFF,
    ensures
        ({
            let n = v.chr_banks as int;
            let m = n / 2;
            let q = (p + 0x1000) as u16;
            &&& (v.control / 16) % 2 == 1 ==> Mapper1::ppu_read_model(v, p) == v.chr[((v.chr_bank_0 as int)
                % n) * 4096 + p] && Mapper1::ppu_read_model(v, q) == v.chr[((v.chr_bank_1 as int) % n) * 4096
                + p]
            &&& (v.control / 16) % 2 == 0 ==> Mapper1::ppu_read_model(v, p) == v.chr[(((v.chr_bank_0 / 2) as int)
                % m) * 8192 + p] && Mapper1::ppu_read_model(v, q) == v.chr[(((v.chr_bank_0 / 2) as int) % m)
                * 8192 + 4096 + p]
        }),
{
    let n = v.chr_banks as int;
    let m = n / 2;
    let q = (p + 0x1000) as u16;
    assert(p % 4096 == p && q % 4096 == p);
    crate::mapper::lemma_bank_fits((v.chr_bank_0 as int) % n, n, 4096);
    crate::mapper::lemma_bank_fits((v.chr_bank_1 as int) % n, n, 4096);
    crate::mapper::lemma_bank_fits(((v.chr_bank_0 / 2) as int) % m, m, 8192);
    assert(m * 8192 <= n * 4096);
}

} // verus!
