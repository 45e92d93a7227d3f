use vstd::prelude::*;
use crate::apu::{Apu, ChannelLevels};
use crate::cartridge::{Cartridge, CartridgeModel, Mirroring};
use crate::joypad::Joypad;
use crate::mapper::{Board, Mapper};
use crate::mapper::mapper0::Mapper0;
use crate::ppu::{Ppu, PpuModel};

verus! {

/// CPU cycles an OAM DMA transfer takes.
pub const DMA_CYCLES: u16 = 513;

/// The CPU bus: 2 KB of RAM mirrored up to $1FFF, the PPU registers mirrored every
/// eight bytes up to $3FFF, the APU and controller ports at $4000-$4017, and the
/// cartridge from $4020.
pub struct Bus {
    pub ram: Vec<u8>,
    pub ppu: Ppu,
    pub apu: Apu,
    pub cartridge: Option<Cartridge>,
    pub joypad1: Joypad,
    pub joypad2: Joypad,
    pub dma_cycles: u16,
    pub irq_pending: bool,
}

/// The state of the bus and everything on it.
pub ghost struct BusModel {
    pub ram: Seq<u8>,
    pub ppu: PpuModel,
    pub apu: Apu,
    pub cartridge: Option<CartridgeModel>,
    pub joypad1: Joypad,
    pub joypad2: Joypad,
    pub dma_cycles: u16,
    pub irq_pending: bool,
}

impl View for Bus {
    type V = BusModel;

    open spec fn view(&self) -> BusModel {
        BusModel {
            ram: self.ram@,
            ppu: self.ppu@,
            apu: self.apu,
            cartridge: match self.cartridge {
                Some(c) => Some(c@),
                None => None,
            },
            joypad1: self.joypad1,
            joypad2: self.joypad2,
            dma_cycles: self.dma_cycles,
            irq_pending: self.irq_pending,
        }
    }
}

impl BusModel {
    /// Sizes and ranges every bus keeps.
    pub open spec fn inv(self) -> bool {
        &&& self.ram.len() == 2048
        &&& self.ppu.inv()
        &&& self.apu.inv()
        &&& (self.cartridge matches Some(c) ==> Board::inv_model(c.mapper))
        &&& self.dma_cycles <= DMA_CYCLES
    }

    /// The byte the cartridge holds at a pattern-table address (0 with no cartridge).
    pub open spec fn chr_at(self, a: u16) -> u8 {
        match self.cartridge {
            Some(c) => Board::ppu_read_model(c.mapper, a),
            None => 0,
        }
    }

    /// Whether the cartridge can read pattern memory at `a`.
    pub open spec fn chr_read_ok(self, a: u16) -> bool {
        match self.cartridge {
            Some(c) => Board::ppu_read_ok(c.mapper, a),
            None => true,
        }
    }

    /// Whether the cartridge can take a pattern-memory write at `a`.
    pub open spec fn chr_write_ok(self, a: u16) -> bool {
        match self.cartridge {
            Some(c) => Board::ppu_write_ok(c.mapper, a),
            None => true,
        }
    }

    /// Whether a CPU read of `addr` is defined (a cartridge read may fall outside its ROM).
    #[verifier::opaque]
    pub open spec fn read_ok(self, addr: u16) -> bool {
        if addr <= 0x1FFF {
            true
        } else if addr <= 0x3FFF {
            self.ppu.register_read_reaches_chr(addr) ==> self.chr_read_ok(self.ppu.v & 0x3FFF)
        } else if addr < 0x4020 {
            true
        } else {
            match self.cartridge {
                Some(c) => Board::cpu_read_ok(c.mapper, addr),
                None => true,
            }
        }
    }

    /// A CPU read: the bus afterwards (reads of PPU registers and controllers have
    /// effects) and the value read.
    #[verifier::opaque]
    pub open spec fn read(self, addr: u16) -> (BusModel, u8) {
        if addr <= 0x1FFF {
            (self, self.ram[(addr % 2048) as int])
        } else if addr <= 0x3FFF {
            let (p, v) = self.ppu.read_register(addr, self.chr_at(self.ppu.v & 0x3FFF));
            (BusModel { ppu: p, ..self }, v)
        } else if addr == 0x4015 {
            (self, self.apu.read_spec(addr))
        } else if addr == 0x4016 {
            let (j, v) = self.joypad1.read_spec();
            (BusModel { joypad1: j, ..self }, v)
        } else if addr == 0x4017 {
            let (j, v) = self.joypad2.read_spec();
            (BusModel { joypad2: j, ..self }, v)
        } else if addr < 0x4020 {
            (self, 0)
        } else {
            match self.cartridge {
                Some(c) => (self, Board::cpu_read_model(c.mapper, addr)),
                None => (self, 0),
            }
        }
    }

    /// The bus after an OAM write of `data` (through OAMDATA).
    pub open spec fn oam_push(self, data: u8) -> BusModel {
        BusModel { ppu: self.ppu.write_register(0x2004, data), ..self }
    }

    /// Copies bytes `i` to 255 of CPU page `page` into OAM through OAMDATA; also says
    /// whether every read was defined.
    pub open spec fn dma_from(self, page: u8, i: nat) -> (BusModel, bool)
        decreases 256 - i,
    {
        if i >= 256 {
            (self, true)
        } else {
            let addr = (page as int * 256 + i) as u16;
            let (b1, v) = self.read(addr);
            let (b2, ok) = b1.oam_push(v).dma_from(page, i + 1);
            (b2, self.read_ok(addr) && ok)
        }
    }

    /// Whether a CPU write of `data` to `addr` is defined.
    #[verifier::opaque]
    pub open spec fn write_ok(self, addr: u16, data: u8) -> bool {
        if addr <= 0x1FFF {
            true
        } else if addr <= 0x3FFF {
            self.ppu.register_write_reaches_chr(addr) ==> self.chr_write_ok(self.ppu.v & 0x3FFF)
        } else if addr == 0x4014 {
            self.dma_from(data, 0).1
        } else {
            true
        }
    }

    /// The bus after a CPU write of `data` to `addr`. A write to $4014 copies page
    /// `data` into sprite memory and charges the DMA cycles; a write to $4016 sets the
    /// strobe of both controllers.
    #[verifier::opaque]
    pub open spec fn write(self, addr: u16, data: u8) -> BusModel {
        if addr <= 0x1FFF {
            BusModel { ram: self.ram.update((addr % 2048) as int, data), ..self }
        } else if addr <= 0x3FFF {
            let reaches = self.ppu.register_write_reaches_chr(addr);
            let a = self.ppu.v & 0x3FFF;
            BusModel {
                ppu: self.ppu.write_register(addr, data),
                cartridge: match self.cartridge {
                    Some(c) => Some(
                        if reaches {
                            CartridgeModel { mapper: Board::ppu_write_model(c.mapper, a, data), ..c }
                        } else {
                            c
                        },
                    ),
                    None => None,
                },
                ..self
            }
        } else if addr == 0x4014 {
            BusModel { dma_cycles: DMA_CYCLES, ..self.dma_from(data, 0).0 }
        } else if addr == 0x4016 {
            BusModel { joypad1: self.joypad1.write_spec(data), joypad2: self.joypad2.write_spec(data), ..self }
        } else if addr <= 0x4017 {
            BusModel { apu: self.apu.write_spec(addr, data), ..self }
        } else if addr < 0x4020 {
            self
        } else {
            match self.cartridge {
                Some(c) => BusModel {
                    cartridge: Some(CartridgeModel { mapper: Board::cpu_write_model(c.mapper, addr, data), ..c }),
                    ..self
                },
                None => self,
            }
        }
    }

    /// The bus after one PPU dot.
    pub open spec fn step_ppu(self) -> BusModel {
        BusModel { ppu: self.ppu.step(), ..self }
    }

    /// The bus after one APU cycle.
    pub open spec fn step_apu(self) -> BusModel {
        BusModel { apu: self.apu.step_spec(), ..self }
    }

    /// The bus after taking the PPU's pending NMI.
    pub open spec fn take_nmi(self) -> BusModel {
        BusModel { ppu: PpuModel { nmi_pending: false, ..self.ppu }, ..self }
    }

    /// The bus with the PPU's frame-complete flag cleared.
    pub open spec fn clear_frame(self) -> BusModel {
        BusModel { ppu: PpuModel { frame_complete: false, ..self.ppu }, ..self }
    }
}

/// The PPU's frame position: scanline, dot and frame-complete flag.
pub open spec fn timing(b: BusModel) -> (u16, u16, bool) {
    (b.ppu.scanline, b.ppu.cycle, b.ppu.frame_complete)
}

/// CPU reads never move the PPU's frame position.
pub broadcast proof fn lemma_read_keeps_timing(b: BusModel, addr: u16)
    ensures
        #[trigger] timing(b.read(addr).0) == timing(b),
{
    reveal(BusModel::read);
}

proof fn lemma_dma_keeps_timing(b: BusModel, page: u8, i: nat)
    ensures
        timing(b.dma_from(page, i).0) == timing(b),
    decreases 256 - i,
{
    reveal(BusModel::read);
    if i < 256 {
        let addr = (page as int * 256 + i) as u16;
        let (b1, v) = b.read(addr);
        lemma_dma_keeps_timing(b1.oam_push(v), page, i + 1);
    }
}

/// CPU writes never move the PPU's frame position.
pub broadcast proof fn lemma_write_keeps_timing(b: BusModel, addr: u16, v: u8)
    ensures
        #[trigger] timing(b.write(addr, v)) == timing(b),
{
    reveal(BusModel::write);
    if addr == 0x4014 {
        lemma_dma_keeps_timing(b, v, 0);
    }
}

/// RAM accesses are always defined.
pub proof fn lemma_ram_access_ok(b: BusModel, addr: u16, v: u8)
    requires
        addr <= 0x1FFF,
    ensures
        b.read_ok(addr),
        b.write_ok(addr, v),
{
    reveal(BusModel::read_ok);
    reveal(BusModel::write_ok);
}

/// A CPU read of RAM (any of its four mirrors) gives the byte last written to any
/// mirror of the same location.
pub proof fn lemma_ram_read_after_write(b: BusModel, addr: u16, read_addr: u16, v: u8)
    requires
        b.inv(),
        addr <= 0x1FFF,
        read_addr <= 0x1FFF,
        addr % 0x800 == read_addr % 0x800,
    ensures
        b.write(addr, v).read(read_addr) == (b.write(addr, v), v),
{
    reveal(BusModel::read);
    reveal(BusModel::write);
}

/// A RAM write leaves every other RAM location as it was.
pub proof fn lemma_ram_write_keeps_others(b: BusModel, addr: u16, read_addr: u16, v: u8)
    requires
        b.inv(),
        addr <= 0x1FFF,
        read_addr <= 0x1FFF,
        addr % 0x800 != read_addr % 0x800,
    ensures
        b.write(addr, v).read(read_addr).1 == b.read(read_addr).1,
{
    reveal(BusModel::read);
    reveal(BusModel::write);
}

/// A RAM write changes only the addressed byte of RAM (through any mirror).
pub proof fn lemma_ram_write_updates(b: BusModel, addr: u16, v: u8)
    requires
        addr <= 0x1FFF,
    ensures
        b.write(addr, v) == (BusModel { ram: b.ram.update((addr % 0x800) as int, v), ..b }),
{
    reveal(BusModel::write);
}

/// RAM is mirrored: $0000-$1FFF read the 2 KB at their address modulo $800, and
/// reading RAM changes nothing.
pub proof fn lemma_ram_mirrors(b: BusModel, addr: u16)
    requires
        addr <= 0x1FFF,
    ensures
        b.read(addr) == (b, b.ram[(addr % 0x800) as int]),
        b.read(addr) == b.read(addr % 0x800),
{
    reveal(BusModel::read);
}

/// No CPU read changes RAM.
pub proof fn lemma_read_keeps_ram(b: BusModel, addr: u16)
    ensures
        b.read(addr).0.ram == b.ram,
{
    reveal(BusModel::read);
}

/// CPU reads keep the bus's sizes and ranges.
pub proof fn lemma_read_keeps_inv(b: BusModel, addr: u16)
    requires
        b.inv(),
    ensures
        b.read(addr).0.inv(),
{
    reveal(BusModel::read);
}

/// RAM writes keep the bus's sizes and ranges.
pub proof fn lemma_ram_write_keeps_inv(b: BusModel, addr: u16, v: u8)
    requires
        b.inv(),
        addr <= 0x1FFF,
    ensures
        b.write(addr, v).inv(),
{
    reveal(BusModel::write);
}

/// The empty RAM of a freshly powered bus.
pub open spec fn blank_ram() -> Seq<u8> {
    Seq::new(2048, |i: int| 0u8)
}

impl Bus {
    /// A bus with zeroed RAM, fresh PPU, APU and controllers, and no cartridge.
    pub fn new() -> (r: Self)
        ensures
            r@.ram == blank_ram(),
            r@.ppu == Ppu::new_model(Mirroring::Horizontal),
            r@.apu == Apu::initial(),
            r@.cartridge.is_none(),
            r@.joypad1 == Joypad::initial(),
            r@.joypad2 == Joypad::initial(),
            r@.dma_cycles == 0,
            !r@.irq_pending,
            r@.inv(),
    {
        let ram = vec![0u8; 2048];
        assert(ram@ =~= blank_ram());
        Self {
            ram,
            ppu: Ppu::new(Mirroring::Horizontal),
            apu: Apu::new(),
            cartridge: None,
            joypad1: Joypad::new(),
            joypad2: Joypad::new(),
            dma_cycles: 0,
            irq_pending: false,
        }
    }

    /// Inserts a cartridge; the PPU restarts with the cartridge's mirroring.
    pub fn load_cartridge(&mut self, cartridge: Cartridge)
        requires
            old(self)@.inv(),
            Board::inv_model(cartridge.mapper@),
        ensures
            final(self)@ == (BusModel {
                ppu: Ppu::new_model(cartridge.mirroring),
                cartridge: Some(cartridge@),
                ..old(self)@
            }),
            final(self)@.inv(),
    {
        self.ppu = Ppu::new(cartridge.mirroring);
        self.cartridge = Some(cartridge);
    }

    /// Reads a PPU register through the cartridge's pattern memory.
    fn ppu_register_read(&mut self, addr: u16) -> (r: u8)
        requires
            old(self)@.inv(),
            old(self)@.ppu.register_read_reaches_chr(addr) ==> old(self)@.chr_read_ok(old(self)@.ppu.v & 0x3FFF),
        ensures
            final(self)@ == (BusModel {
                ppu: old(self)@.ppu.read_register(addr, old(self)@.chr_at(old(self)@.ppu.v & 0x3FFF)).0,
                ..old(self)@
            }),
            r == old(self)@.ppu.read_register(addr, old(self)@.chr_at(old(self)@.ppu.v & 0x3FFF)).1,
            final(self)@.inv(),
    {
        match &self.cartridge {
            Some(cart) => self.ppu.read_register(addr, &cart.mapper),
            None => {
                let empty = Mapper0::new(Vec::new(), Vec::new());
                self.ppu.read_register(addr, &empty)
            },
        }
    }

    /// Writes a PPU register through the cartridge's pattern memory.
    fn ppu_register_write(&mut self, addr: u16, data: u8)
        requires
            old(self)@.inv(),
            0x2000 <= addr <= 0x3FFF,
            old(self)@.ppu.register_write_reaches_chr(addr) ==> old(self)@.chr_write_ok(old(self)@.ppu.v & 0x3FFF),
        ensures
            final(self)@ == old(self)@.write(addr, data),
            final(self)@.inv(),
    {
        proof {
            reveal(BusModel::write_ok);
            reveal(BusModel::write);
        }
        match &mut self.cartridge {
            Some(cart) => {
                self.ppu.write_register(addr, data, &mut cart.mapper);
            },
            None => {
                let mut empty = Mapper0::new(Vec::new(), Vec::new());
                self.ppu.write_register(addr, data, &mut empty);
            },
        }
    }

    /// A CPU read (see `BusModel::read`).
    pub fn read(&mut self, addr: u16) -> (r: u8)
        requires
            old(self)@.inv(),
            old(self)@.read_ok(addr),
        ensures
            (final(self)@, r) == old(self)@.read(addr),
            final(self)@.inv(),
    {
        proof {
            reveal(BusModel::read_ok);
            reveal(BusModel::read);
        }
        if addr <= 0x1FFF {
            let a = addr;
            assert(a & 0x07FF == a % 2048) by (bit_vector);
            self.ram[(addr & 0x07FF) as usize]
        } else if addr <= 0x3FFF {
            self.ppu_register_read(addr)
        } else if addr == 0x4015 {
            self.apu.read(addr)
        } else if addr == 0x4016 {
            self.joypad1.read()
        } else if addr == 0x4017 {
            self.joypad2.read()
        } else if addr < 0x4020 {
            0
        } else {
            match &self.cartridge {
                Some(cart) => cart.mapper.cpu_read(addr),
                None => 0,
            }
        }
    }

    /// Copies CPU page `page` into sprite memory, 256 bytes through OAMDATA.
    fn oam_dma(&mut self, page: u8)
        requires
            old(self)@.inv(),
            old(self)@.dma_from(page, 0).1,
        ensures
            final(self)@ == old(self)@.dma_from(page, 0).0,
            final(self)@.inv(),
    {
        let ghost target = self@.dma_from(page, 0);
        let base: u16 = (page as u16) * 256;
        let mut i: u16 = 0;
        while i < 256
            invariant
                0 <= i <= 256,
                base == page as int * 256,
                self@.inv(),
                self@.dma_from(page, i as nat) == target,
                target.1,
            decreases 256 - i,
        {
            let addr = base + i;
            let ghost b = self@;
            assert(addr == (page as int * 256 + i as int) as u16);
            let v = self.read(addr);
            assert((0x2004u16 & 7) == 4) by (bit_vector);
            let ghost b1 = self@;
            self.ppu_register_write(0x2004, v);
            proof {
                reveal(BusModel::read_ok);
                reveal(BusModel::read);
                reveal(BusModel::write);
                assert(self@ == b1.oam_push(v));
                let rest = b1.oam_push(v).dma_from(page, i as nat + 1);
                assert(b.dma_from(page, i as nat) == (rest.0, b.read_ok(addr) && rest.1));
            }
            i = i + 1;
        }
    }

    /// A CPU write (see `BusModel::write`).
    pub fn write(&mut self, addr: u16, data: u8)
        requires
            old(self)@.inv(),
            old(self)@.write_ok(addr, data),
        ensures
            final(self)@ == old(self)@.write(addr, data),
            final(self)@.inv(),
    {
        proof {
            reveal(BusModel::write_ok);
            reveal(BusModel::write);
        }
        if addr <= 0x1FFF {
            let a = addr;
            assert(a & 0x07FF == a % 2048) by (bit_vector);
            self.ram[(addr & 0x07FF) as usize] = data;
        } else if addr <= 0x3FFF {
            self.ppu_register_write(addr, data);
        } else if addr == 0x4014 {
            self.oam_dma(data);
            self.dma_cycles = DMA_CYCLES;
        } else if addr == 0x4016 {
            self.joypad1.write(data);
            self.joypad2.write(data);
        } else if addr <= 0x4017 {
            self.apu.write(addr, data);
        } else if addr >= 0x4020 {
            match &mut self.cartridge {
                Some(cart) => cart.mapper.cpu_write(addr, data),
                None => {},
            }
        }
    }

    /// Advances the PPU by one dot.
    pub fn step_ppu(&mut self)
        requires
            old(self)@.inv(),
        ensures
            final(self)@ == old(self)@.step_ppu(),
            final(self)@.inv(),
    {
        match &self.cartridge {
            Some(cart) => self.ppu.step(&cart.mapper),
            None => {
                let empty = Mapper0::new(Vec::new(), Vec::new());
                self.ppu.step(&empty);
            },
        }
    }

    /// Advances the APU by one CPU cycle, returning the channel levels.
    pub fn step_apu(&mut self) -> (r: ChannelLevels)
        requires
            old(self)@.inv(),
            old(self)@.apu.cycles < u64::MAX,
        ensures
            final(self)@ == old(self)@.step_apu(),
            final(self)@.inv(),
            r == final(self)@.apu.levels_spec(),
    {
        self.apu.step()
    }

    /// Takes the PPU's pending NMI: returns whether one was pending and clears it.
    pub fn poll_nmi(&mut self) -> (r: bool)
        requires
            old(self)@.inv(),
        ensures
            r == old(self)@.ppu.nmi_pending,
            final(self)@ == old(self)@.take_nmi(),
            final(self)@.inv(),
    {
        let pending = self.ppu.nmi_pending;
        self.ppu.nmi_pending = false;
        pending
    }

    /// Whether the PPU has finished a frame since the flag was last cleared.
    pub fn frame_complete(&self) -> (r: bool)
        ensures
            r == self@.ppu.frame_complete,
    {
        self.ppu.frame_complete
    }

    /// Clears the PPU's frame-complete flag.
    pub fn clear_frame_complete(&mut self)
        requires
            old(self)@.inv(),
        ensures
            final(self)@ == old(self)@.clear_frame(),
            final(self)@.inv(),
    {
        self.ppu.frame_complete = false;
    }

    /// The PPU's RGBA frame buffer.
    pub fn frame_buffer(&self) -> (r: &[u8])
        ensures
            r@ == self@.ppu.frame_buffer,
    {
        self.ppu.frame_buffer.as_slice()
    }
}

} // verus!
