use vstd::prelude::*;
use crate::cartridge::Mirroring;
use crate::mapper::Mapper;

verus! {

/// Bytes in the RGBA frame buffer: 256 x 240 pixels, four bytes each.
pub const FRAME_BYTES: usize = 245760;

/// The picture processing unit (2C02): its memories, registers and frame timing.
pub struct Ppu {
    pub vram: Vec<u8>,
    pub oam: Vec<u8>,
    pub palette: Vec<u8>,
    pub ctrl: u8,
    pub mask: u8,
    pub status: u8,
    pub oam_addr: u8,
    pub v: u16,
    pub t: u16,
    pub x: u8,
    pub w: bool,
    pub data_buffer: u8,
    pub scanline: u16,
    pub cycle: u16,
    pub frame_buffer: Vec<u8>,
    pub nmi_pending: bool,
    pub frame_complete: bool,
    pub mirroring: Mirroring,
}

/// The state of the PPU.
pub ghost struct PpuModel {
    pub vram: Seq<u8>,
    pub oam: Seq<u8>,
    pub palette: Seq<u8>,
    pub ctrl: u8,
    pub mask: u8,
    pub status: u8,
    pub oam_addr: u8,
    pub v: u16,
    pub t: u16,
    pub x: u8,
    pub w: bool,
    pub data_buffer: u8,
    pub scanline: u16,
    pub cycle: u16,
    pub frame_buffer: Seq<u8>,
    pub nmi_pending: bool,
    pub frame_complete: bool,
    pub mirroring: Mirroring,
}

impl View for Ppu {
    type V = PpuModel;

    open spec fn view(&self) -> PpuModel {
        PpuModel {
            vram: self.vram@,
            oam: self.oam@,
            palette: self.palette@,
            ctrl: self.ctrl,
            mask: self.mask,
            status: self.status,
            oam_addr: self.oam_addr,
            v: self.v,
            t: self.t,
            x: self.x,
            w: self.w,
            data_buffer: self.data_buffer,
            scanline: self.scanline,
            cycle: self.cycle,
            frame_buffer: self.frame_buffer@,
            nmi_pending: self.nmi_pending,
            frame_complete: self.frame_complete,
            mirroring: self.mirroring,
        }
    }
}

/// Index into the 2 KB of VRAM of a nametable address ($2000-$3EFF).
pub open spec fn nametable_index(m: Mirroring, addr: u16) -> int {
    let a = (addr - 0x2000) % 4096;
    let table = a / 1024;
    let offset = a % 1024;
    let base = match m {
        Mirroring::Vertical => if table % 2 == 0 { 0 } else { 0x400 },
        Mirroring::Horizontal => if table < 2 { 0 } else { 0x400 },
        Mirroring::FourScreen => table * 0x400,
    };
    (base + offset) % 2048
}

/// Index into the 32 bytes of palette RAM of a palette address ($3F00-$3FFF):
/// the backdrop entries of the sprite palettes mirror those of the background.
pub open spec fn palette_index(addr: u16) -> int {
    let i = addr % 32;
    if i >= 16 && i % 4 == 0 {
        i - 16
    } else {
        i as int
    }
}

/// The amount PPUDATA accesses advance the VRAM address: 32 when PPUCTRL bit 2 is set, else 1.
pub open spec fn vram_step(ctrl: u8) -> u16 {
    if ctrl & 0x04 != 0 {
        32
    } else {
        1
    }
}

impl PpuModel {
    /// The PPU's invariant: memory sizes and the frame timing ranges.
    pub open spec fn inv(self) -> bool {
        &&& self.vram.len() == 2048
        &&& self.oam.len() == 256
        &&& self.palette.len() == 32
        &&& self.frame_buffer.len() == FRAME_BYTES
        &&& self.scanline <= 261
        &&& self.cycle <= 340
    }

    /// The byte at a 14-bit PPU address, given the byte the cartridge holds there.
    pub open spec fn internal_read(self, addr: u16, chr: u8) -> u8 {
        let a = addr & 0x3FFF;
        if a < 0x2000 {
            chr
        } else if a < 0x3F00 {
            self.vram[nametable_index(self.mirroring, a)]
        } else {
            self.palette[palette_index(a)]
        }
    }

    /// The PPU after writing a byte at a PPU address (cartridge addresses leave it unchanged).
    pub open spec fn internal_write(self, addr: u16, data: u8) -> PpuModel {
        let a = addr & 0x3FFF;
        if a < 0x2000 {
            self
        } else if a < 0x3F00 {
            PpuModel { vram: self.vram.update(nametable_index(self.mirroring, a), data), ..self }
        } else {
            PpuModel { palette: self.palette.update(palette_index(a), data), ..self }
        }
    }

    /// Whether a register read at `addr` reads pattern memory, at `self.v & 0x3FFF`.
    pub open spec fn register_read_reaches_chr(self, addr: u16) -> bool {
        addr & 7 == 7 && (self.v & 0x3FFF) < 0x2000
    }

    /// Whether a register write at `addr` writes pattern memory, at `self.v & 0x3FFF`.
    pub open spec fn register_write_reaches_chr(self, addr: u16) -> bool {
        addr & 7 == 7 && (self.v & 0x3FFF) < 0x2000
    }

    /// A CPU read of PPU register `addr & 7`: the new state and the value, given the
    /// byte the cartridge holds at `self.v & 0x3FFF`.
    pub open spec fn read_register(self, addr: u16, chr: u8) -> (PpuModel, u8) {
        let reg = addr & 7;
        if reg == 2 {
            (
                PpuModel { status: self.status & !0x80u8, w: false, ..self },
                (self.status & 0xE0) | (self.data_buffer & 0x1F),
            )
        } else if reg == 4 {
            (self, self.oam[self.oam_addr as int])
        } else if reg == 7 {
            let a = self.v & 0x3FFF;
            let next_v = self.v.wrapping_add(vram_step(self.ctrl));
            if a >= 0x3F00 {
                (
                    PpuModel { data_buffer: self.internal_read((a - 0x1000) as u16, chr), v: next_v, ..self },
                    self.internal_read(a, chr),
                )
            } else {
                (
                    PpuModel { data_buffer: self.internal_read(a, chr), v: next_v, ..self },
                    self.data_buffer,
                )
            }
        } else {
            (self, 0)
        }
    }

    /// The PPU after a CPU write of `data` to PPU register `addr & 7`.
    pub open spec fn write_register(self, addr: u16, data: u8) -> PpuModel {
        let reg = addr & 7;
        if reg == 0 {
            let was_enabled = self.ctrl & 0x80 != 0;
            let now_enabled = data & 0x80 != 0;
            PpuModel {
                ctrl: data,
                t: (self.t & 0xF3FF) | (((data & 0x03) as u16) << 10u16),
                nmi_pending: if !was_enabled && now_enabled && self.status & 0x80 != 0 { true } else { self.nmi_pending },
                ..self
            }
        } else if reg == 1 {
            PpuModel { mask: data, ..self }
        } else if reg == 3 {
            PpuModel { oam_addr: data, ..self }
        } else if reg == 4 {
            PpuModel {
                oam: self.oam.update(self.oam_addr as int, data),
                oam_addr: self.oam_addr.wrapping_add(1),
                ..self
            }
        } else if reg == 5 {
            if !self.w {
                PpuModel { t: (self.t & 0xFFE0) | ((data >> 3u8) as u16), x: data & 0x07, w: true, ..self }
            } else {
                PpuModel {
                    t: (self.t & 0x8C1F) | (((data & 0x07) as u16) << 12u16) | (((data & 0xF8) as u16) << 2u16),
                    w: false,
                    ..self
                }
            }
        } else if reg == 6 {
            if !self.w {
                PpuModel { t: (self.t & 0x00FF) | (((data & 0x3F) as u16) << 8u16), w: true, ..self }
            } else {
                let t = (self.t & 0xFF00) | (data as u16);
                PpuModel { t: t, v: t, w: false, ..self }
            }
        } else if reg == 7 {
            PpuModel {
                v: self.v.wrapping_add(vram_step(self.ctrl)),
                ..self.internal_write(self.v & 0x3FFF, data)
            }
        } else {
            self
        }
    }

    /// The PPU after one dot: the dot and scanline counters advance (262 lines of 341 dots),
    /// a wrap to line 0 completes the frame, dot 1 of line 241 starts vertical blank (and
    /// raises NMI when PPUCTRL enables it), and dot 1 of the pre-render line 261 clears
    /// both the vertical-blank and the sprite-0 hit flags.
    pub open spec fn step(self) -> PpuModel {
        let wrap_dot = self.cycle + 1 > 340;
        let cycle: u16 = if wrap_dot { 0 } else { (self.cycle + 1) as u16 };
        let line0: u16 = if wrap_dot { (self.scanline + 1) as u16 } else { self.scanline };
        let wrap_line = line0 > 261;
        let scanline: u16 = if wrap_line { 0 } else { line0 };
        let frame_complete = if wrap_line { true } else { self.frame_complete };
        let vblank_start = scanline == 241 && cycle == 1;
        let vblank_end = scanline == 261 && cycle == 1;
        let status = if vblank_start {
            self.status | 0x80
        } else if vblank_end {
            self.status & !0xC0u8
        } else {
            self.status
        };
        let nmi = if vblank_start && self.ctrl & 0x80 != 0 { true } else { self.nmi_pending };
        PpuModel { cycle, scanline, frame_complete, status, nmi_pending: nmi, ..self }
    }
}

/// Facts about the address masks the PPU applies.
proof fn lemma_masks()
    by (bit_vector)
    ensures
        forall|a: u16| #[trigger] (a & 0x3FFF) <= 0x3FFF && (a & 0x3FFF) & 0x3FFF == (a & 0x3FFF),
        forall|a: u16| a < 0x4000 ==> #[trigger] (a & 0x3FFF) == a,
        forall|a: u16| #[trigger] (a & 0x03FF) == a % 1024,
        forall|a: u16| #[trigger] (a & 0x0FFF) == a % 4096,
        forall|a: u16| #[trigger] (a & 0x1F) == a % 32,
        0x2006u16 & 7 == 6,
        0x2007u16 & 7 == 7,
{
}

proof fn lemma_index_mask()
    by (bit_vector)
    ensures
        forall|s: usize| #[trigger] (s & 0x07FF) == s % 2048,
{
}

/// The VRAM address two PPUADDR writes set: the high byte's low six bits, then the low byte.
pub open spec fn ppuaddr_value(hi: u8, lo: u8) -> u16 {
    (((hi & 0x3F) as u16) << 8u16) | (lo as u16)
}

/// Two writes to PPUADDR, starting with the latch clear, set the VRAM address (and the
/// temporary address) to the 14-bit address they spell, and clear the latch again.
pub proof fn lemma_ppuaddr_double_write(p: PpuModel, addr1: u16, hi: u8, addr2: u16, lo: u8)
    requires
        !p.w,
        addr1 & 7 == 6,
        addr2 & 7 == 6,
    ensures
        ({
            let q = p.write_register(addr1, hi).write_register(addr2, lo);
            &&& q.v == ppuaddr_value(hi, lo)
            &&& q.t == ppuaddr_value(hi, lo)
            &&& !q.w
        }),
{
    let t0 = p.t;
    let t1 = (t0 & 0x00FF) | (((hi & 0x3F) as u16) << 8u16);
    assert((t1 & 0xFF00) | (lo as u16) == (((hi & 0x3F) as u16) << 8u16) | (lo as u16)) by (bit_vector)
        requires
            t1 == (t0 & 0x00FF) | (((hi & 0x3F) as u16) << 8u16);
}

/// A byte written to a nametable or palette address is read back from it.
pub proof fn lemma_vram_read_after_write(p: PpuModel, addr: u16, data: u8, chr: u8)
    requires
        p.inv(),
        0x2000 <= addr & 0x3FFF,
    ensures
        p.internal_write(addr, data).internal_read(addr, chr) == data,
{
    lemma_masks();
}

/// The four nametables share 2 KB: with vertical mirroring $2800 shows $2000 (and $2C00
/// shows $2400); with horizontal mirroring $2400 shows $2000 (and $2C00 shows $2800);
/// and $3000-$3EFF show $2000-$2EFF.
pub proof fn lemma_nametable_mirroring(a: u16)
    requires
        0x2000 <= a < 0x2F00,
    ensures
        a < 0x2800 ==> nametable_index(Mirroring::Vertical, a) == nametable_index(
            Mirroring::Vertical,
            (a + 0x800) as u16,
        ),
        (a < 0x2400 || 0x2800 <= a < 0x2C00) ==> nametable_index(Mirroring::Horizontal, a)
            == nametable_index(Mirroring::Horizontal, (a + 0x400) as u16),
        forall|m: Mirroring| nametable_index(m, a) == #[trigger] nametable_index(m, (a + 0x1000) as u16),
        forall|m: Mirroring| 0 <= #[trigger] nametable_index(m, a) < 2048,
{
}

/// The nametables that mirroring keeps apart use different halves of VRAM: with
/// vertical mirroring $2000 and $2400 (and $2800 and $2C00), with horizontal mirroring
/// $2000 and $2800 (and $2400 and $2C00). So a byte written to one of them is still read
/// back after a write to the same place in the other.
pub proof fn lemma_nametables_distinct(p: PpuModel, a: u16, x: u8, y: u8, chr: u8)
    requires
        p.inv(),
        0x2000 <= a < 0x2400,
    ensures
        nametable_index(Mirroring::Vertical, a) != nametable_index(Mirroring::Vertical, (a + 0x400) as u16),
        nametable_index(Mirroring::Vertical, (a + 0x800) as u16) != nametable_index(
            Mirroring::Vertical,
            (a + 0xC00) as u16,
        ),
        nametable_index(Mirroring::Horizontal, a) != nametable_index(
            Mirroring::Horizontal,
            (a + 0x800) as u16,
        ),
        nametable_index(Mirroring::Horizontal, (a + 0x400) as u16) != nametable_index(
            Mirroring::Horizontal,
            (a + 0xC00) as u16,
        ),
        p.mirroring == Mirroring::Vertical ==> p.internal_write(a, x).internal_write(
            (a + 0x400) as u16,
            y,
        ).internal_read(a, chr) == x,
        p.mirroring == Mirroring::Horizontal ==> p.internal_write(a, x).internal_write(
            (a + 0x800) as u16,
            y,
        ).internal_read(a, chr) == x,
{
    lemma_masks();
    let b = (a + 0x400) as u16;
    let c = (a + 0x800) as u16;
    assert(a & 0x3FFF == a && b & 0x3FFF == b && c & 0x3FFF == c);
}

/// The PPU registers as the CPU sees them. Reading PPUSTATUS reports the vertical-blank
/// flag in bit 7, then clears that flag (the other status bits stay) and the address
/// latch, so a second read reports no vertical blank. A PPUDATA read or write moves the
/// VRAM address on by 1, or by 32 when PPUCTRL bit 2 is set. A byte written through
/// OAMDATA after OAMADDR was set to `oa` is read back through OAMDATA once OAMADDR is set
/// to `oa` again.
pub proof fn lemma_ppu_registers(p: PpuModel, oa: u8, d: u8, chr: u8)
    requires
        p.inv(),
    ensures
        ({
            let (q, s1) = p.read_register(0x2002, chr);
            let (_, s2) = q.read_register(0x2002, chr);
            &&& (s1 >= 0x80) == (p.status & 0x80 != 0)
            &&& s2 < 0x80
            &&& !q.w
            &&& q.status & 0x7F == p.status & 0x7F
        }),
        ({
            let step: int = if p.ctrl & 0x04 != 0 { 32 } else { 1 };
            &&& p.write_register(0x2007, d).v == (p.v + step) % 65536
            &&& p.read_register(0x2007, chr).0.v == (p.v + step) % 65536
        }),
        ({
            let q = p.write_register(0x2003, oa).write_register(0x2004, d).write_register(0x2003, oa);
            q.read_register(0x2004, chr).1 == d
        }),
{
    lemma_masks();
    let st = p.status;
    let db = p.data_buffer;
    assert((((st & 0xE0) | (db & 0x1F)) >= 0x80) == (st & 0x80 != 0) && (((st & !0x80u8) & 0xE0) | (db
        & 0x1F)) < 0x80 && (st & !0x80u8) & 0x7F == st & 0x7F && 0x2002u16 & 7 == 2 && 0x2003u16 & 7 == 3
        && 0x2004u16 & 7 == 4) by (bit_vector);
}

/// Scrolling. With the latch clear, two PPUSCROLL writes of `sx` and then `sy` set the
/// coarse X scroll (bits 0-4 of the temporary address) to sx / 8 and the fine X scroll to
/// sx % 8, then the coarse Y scroll (bits 5-9) to sy / 8 and the fine Y scroll (bits
/// 12-14) to sy % 8, keep the nametable bits (10-11) and leave the latch clear. A PPUCTRL
/// write of `c` puts c % 4 in the nametable bits and keeps the others.
pub proof fn lemma_ppuscroll(p: PpuModel, sx: u8, sy: u8, c: u8)
    requires
        !p.w,
    ensures
        ({
            let q = p.write_register(0x2005, sx).write_register(0x2005, sy);
            &&& q.t % 32 == sx / 8
            &&& q.x == sx % 8
            &&& (q.t / 32) % 32 == sy / 8
            &&& (q.t / 4096) % 8 == sy % 8
            &&& (q.t / 1024) % 4 == (p.t / 1024) % 4
            &&& !q.w
        }),
        ({
            let r = p.write_register(0x2000, c);
            &&& (r.t / 1024) % 4 == c % 4
            &&& r.t % 1024 == p.t % 1024
            &&& r.t / 4096 == p.t / 4096
        }),
{
    let t0 = p.t;
    let t1 = (t0 & 0xFFE0) | ((sx >> 3u8) as u16);
    let t2 = (t1 & 0x8C1F) | (((sy & 0x07) as u16) << 12u16) | (((sy & 0xF8) as u16) << 2u16);
    let tc = (t0 & 0xF3FF) | (((c & 0x03) as u16) << 10u16);
    assert(t2 % 32 == sx / 8 && (t2 / 32) % 32 == sy / 8 && (t2 / 4096) % 8 == sy % 8 && (t2 / 1024) % 4 == (t0
        / 1024) % 4 && sx & 0x07 == sx % 8 && (tc / 1024) % 4 == c % 4 && tc % 1024 == t0 % 1024 && tc / 4096
        == t0 / 4096 && 0x2005u16 & 7 == 5 && 0x2000u16 & 7 == 0) by (bit_vector)
        requires
            t1 == (t0 & 0xFFE0) | ((sx >> 3u8) as u16),
            t2 == (t1 & 0x8C1F) | (((sy & 0x07) as u16) << 12u16) | (((sy & 0xF8) as u16) << 2u16),
            tc == (t0 & 0xF3FF) | (((c & 0x03) as u16) << 10u16),
    ;
}

/// Palette entries $3F10, $3F14, $3F18 and $3F1C are the entries $3F00, $3F04, $3F08 and
/// $3F0C, and the 32 entries repeat through $3FFF.
pub proof fn lemma_palette_mirroring(a: u16)
    requires
        0x3F00 <= a <= 0x3FFF,
    ensures
        a % 32 >= 16 && a % 4 == 0 ==> palette_index(a) == palette_index((a - 16) as u16),
        a + 32 <= 0x3FFF ==> palette_index(a) == palette_index((a + 32) as u16),
        0 <= palette_index(a) < 32,
{
}

proof fn lemma_ppudata_write(q: PpuModel, data: u8, chr: u8)
    requires
        q.inv(),
        0x2000 <= q.v < 0x3F00,
    ensures
        q.write_register(0x2007, data).internal_read(q.v, chr) == data,
        q.write_register(0x2007, data).inv(),
        q.write_register(0x2007, data).w == q.w,
        q.write_register(0x2007, data).ctrl == q.ctrl,
{
    lemma_masks();
    let a = q.v;
    assert(a & 0x3FFF == a);
    lemma_vram_read_after_write(q, a, data, chr);
}

/// What a program reads back through PPUDATA after writing a byte there: it sets
/// PPUADDR, writes the byte, sets PPUADDR again and reads twice (the first read only
/// fills the read buffer). For a nametable address whose successor is still below the
/// palettes, the second read gives the byte.
pub proof fn lemma_ppudata_write_read_back(p: PpuModel, hi: u8, lo: u8, data: u8, chr: u8)
    requires
        p.inv(),
        !p.w,
        0x2000 <= ppuaddr_value(hi, lo),
        ppuaddr_value(hi, lo) + vram_step(p.ctrl) < 0x3F00,
    ensures
        ({
            let q0 = p.write_register(0x2006, hi).write_register(0x2006, lo);
            let q1 = q0.write_register(0x2007, data);
            let q2 = q1.write_register(0x2006, hi).write_register(0x2006, lo);
            let (q3, _) = q2.read_register(0x2007, chr);
            let (_, v) = q3.read_register(0x2007, chr);
            v == data
        }),
{
    lemma_masks();
    let a = ppuaddr_value(hi, lo);
    lemma_ppuaddr_double_write(p, 0x2006, hi, 0x2006, lo);
    let q0 = p.write_register(0x2006, hi).write_register(0x2006, lo);
    assert(q0.inv() && q0.ctrl == p.ctrl);
    lemma_ppudata_write(q0, data, chr);
    let q1 = q0.write_register(0x2007, data);
    lemma_ppuaddr_double_write(q1, 0x2006, hi, 0x2006, lo);
    let q2 = q1.write_register(0x2006, hi).write_register(0x2006, lo);
    assert(q2.internal_read(a, chr) == data);
    assert(a & 0x3FFF == a);
    let (q3, _) = q2.read_register(0x2007, chr);
    assert(q3.data_buffer == data);
    let b = q3.v;
    assert(b == a + vram_step(p.ctrl));
    assert(b & 0x3FFF == b);
}

impl Ppu {
    /// The power-up state: all memories and registers zero, at dot 0 of line 0.
    pub open spec fn new_model(mirroring: Mirroring) -> PpuModel {
        PpuModel {
                vram: Seq::new(2048, |i: int| 0u8),
                oam: Seq::new(256, |i: int| 0u8),
                palette: Seq::new(32, |i: int| 0u8),
                ctrl: 0,
                mask: 0,
                status: 0,
                oam_addr: 0,
                v: 0,
                t: 0,
                x: 0,
                w: false,
                data_buffer: 0,
                scanline: 0,
                cycle: 0,
                frame_buffer: Seq::new(FRAME_BYTES as nat, |i: int| 0u8),
                nmi_pending: false,
                frame_complete: false,
                mirroring,
            }
    }

    /// A powered-up PPU.
    pub fn new(mirroring: Mirroring) -> (r: Self)
        ensures
            r@ == Ppu::new_model(mirroring),
            r@.inv(),
    {
        let vram = vec![0u8; 2048];
        let oam = vec![0u8; 256];
        let palette = vec![0u8; 32];
        let frame_buffer = vec![0u8; FRAME_BYTES];
        assert(vram@ =~= Seq::new(2048, |i: int| 0u8));
        assert(oam@ =~= Seq::new(256, |i: int| 0u8));
        assert(palette@ =~= Seq::new(32, |i: int| 0u8));
        assert(frame_buffer@ =~= Seq::new(FRAME_BYTES as nat, |i: int| 0u8));
        Self {
            vram,
            oam,
            palette,
            ctrl: 0,
            mask: 0,
            status: 0,
            oam_addr: 0,
            v: 0,
            t: 0,
            x: 0,
            w: false,
            data_buffer: 0,
            scanline: 0,
            cycle: 0,
            frame_buffer,
            nmi_pending: false,
            frame_complete: false,
            mirroring,
        }
    }

    /// Reads the PPU's own address space (pattern tables through the cartridge).
    fn ppu_read<M: Mapper>(&self, addr: u16, mapper: &M) -> (r: u8)
        requires
            self@.inv(),
            M::inv_model(mapper@),
            (addr & 0x3FFF) < 0x2000 ==> M::ppu_read_ok(mapper@, addr & 0x3FFF),
        ensures
            r == self@.internal_read(addr, M::ppu_read_model(mapper@, addr & 0x3FFF)),
    {
        let addr = addr & 0x3FFF;
        if addr < 0x2000 {
            mapper.ppu_read(addr)
        } else if addr < 0x3F00 {
            let index = self.mirror_nametable_addr(addr);
            self.vram[index]
        } else {
            let index = self.mirror_palette_addr(addr);
            self.palette[index]
        }
    }

    /// Writes the PPU's own address space (pattern tables through the cartridge).
    fn ppu_write<M: Mapper>(&mut self, addr: u16, data: u8, mapper: &mut M)
        requires
            old(self)@.inv(),
            M::inv_model(old(mapper)@),
            (addr & 0x3FFF) < 0x2000 ==> M::ppu_write_ok(old(mapper)@, addr & 0x3FFF),
        ensures
            final(self)@ == old(self)@.internal_write(addr, data),
            final(self)@.inv(),
            M::inv_model(final(mapper)@),
            final(mapper)@ == (if (addr & 0x3FFF) < 0x2000 {
                M::ppu_write_model(old(mapper)@, addr & 0x3FFF, data)
            } else {
                old(mapper)@
            }),
    {
        let addr = addr & 0x3FFF;
        if addr < 0x2000 {
            mapper.ppu_write(addr, data);
        } else if addr < 0x3F00 {
            let index = self.mirror_nametable_addr(addr);
            self.vram[index] = data;
        } else {
            let index = self.mirror_palette_addr(addr);
            self.palette[index] = data;
        }
    }

    /// Converts a nametable address ($2000-$3EFF) to an index into VRAM.
    pub fn mirror_nametable_addr(&self, addr: u16) -> (r: usize)
        requires
            addr >= 0x2000,
        ensures
            r == nametable_index(self.mirroring, addr),
            r < 2048,
    {
        let a = addr;
        let addr = (addr - 0x2000) & 0x0FFF;
        let table = addr / 0x0400;
        let offset = addr & 0x03FF;
        proof {
            lemma_masks();
        }
        let base: usize = match self.mirroring {
            Mirroring::Vertical => if table == 0 || table == 2 { 0x0000 } else { 0x0400 },
            Mirroring::Horizontal => if table == 0 || table == 1 { 0x0000 } else { 0x0400 },
            Mirroring::FourScreen => (table as usize) * 0x0400,
        };
        let r = (base + offset as usize) & 0x07FF;
        let s = base + offset as usize;
        proof {
            lemma_index_mask();
        }
        assert(s & 0x07FF == s % 2048);
        r
    }

    /// Converts a palette address ($3F00-$3FFF) to an index into palette RAM.
    pub fn mirror_palette_addr(&self, addr: u16) -> (r: usize)
        ensures
            r == palette_index(addr),
            r < 32,
    {
        let a = addr;
        proof {
            lemma_masks();
        }
        assert(a & 0x1F == a % 32);
        let mut index = (addr & 0x1F) as usize;
        if index == 0x10 || index == 0x14 || index == 0x18 || index == 0x1C {
            index = index - 0x10;
        }
        index
    }

    /// VRAM address increment (1 or 32) selected by PPUCTRL bit 2.
    fn vram_increment(&self) -> (r: u16)
        ensures
            r == vram_step(self.ctrl),
    {
        if self.ctrl & 0x04 != 0 {
            32
        } else {
            1
        }
    }

    /// A CPU read of a PPU register ($2000-$2007, mirrored): PPUSTATUS clears vertical
    /// blank and the write toggle, OAMDATA reads sprite memory, PPUDATA returns the
    /// buffered byte (palette bytes directly) and advances the VRAM address.
    pub fn read_register<M: Mapper>(&mut self, addr: u16, mapper: &M) -> (r: u8)
        requires
            old(self)@.inv(),
            M::inv_model(mapper@),
            old(self)@.register_read_reaches_chr(addr) ==> M::ppu_read_ok(mapper@, old(self).v & 0x3FFF),
        ensures
            (final(self)@, r) == old(self)@.read_register(addr, M::ppu_read_model(mapper@, old(self).v & 0x3FFF)),
            final(self)@.inv(),
    {
        let reg = addr & 0x0007;
        if reg == 2 {
            let result = (self.status & 0xE0) | (self.data_buffer & 0x1F);
            self.status = self.status & !0x80u8;
            self.w = false;
            result
        } else if reg == 4 {
            self.oam[self.oam_addr as usize]
        } else if reg == 7 {
            let addr = self.v & 0x3FFF;
            let a = addr;
            let vv = self.v;
            proof {
                lemma_masks();
            }
            assert((a & 0x3FFF) == a && a <= 0x3FFF);
            let result = if addr >= 0x3F00 {
                let b = addr - 0x1000;
                assert((b & 0x3FFF) == b && b >= 0x2000 && b < 0x3F00);
                self.data_buffer = self.ppu_read(addr - 0x1000, mapper);
                self.ppu_read(addr, mapper)
            } else {
                let buffered = self.data_buffer;
                self.data_buffer = self.ppu_read(addr, mapper);
                buffered
            };
            let inc = self.vram_increment();
            self.v = self.v.wrapping_add(inc);
            result
        } else {
            0
        }
    }

    /// A CPU write of a PPU register ($2000-$2007, mirrored).
    pub fn write_register<M: Mapper>(&mut self, addr: u16, data: u8, mapper: &mut M)
        requires
            old(self)@.inv(),
            M::inv_model(old(mapper)@),
            old(self)@.register_write_reaches_chr(addr) ==> M::ppu_write_ok(old(mapper)@, old(self).v & 0x3FFF),
        ensures
            final(self)@ == old(self)@.write_register(addr, data),
            final(self)@.inv(),
            M::inv_model(final(mapper)@),
            final(mapper)@ == (if old(self)@.register_write_reaches_chr(addr) {
                M::ppu_write_model(old(mapper)@, old(self).v & 0x3FFF, data)
            } else {
                old(mapper)@
            }),
    {
        let reg = addr & 0x0007;
        if reg == 0 {
            let was_nmi_enabled = self.ctrl & 0x80 != 0;
            self.ctrl = data;
            self.t = (self.t & 0xF3FF) | (((data & 0x03) as u16) << 10u16);
            let nmi_enabled = data & 0x80 != 0;
            if !was_nmi_enabled && nmi_enabled && (self.status & 0x80 != 0) {
                self.nmi_pending = true;
            }
        } else if reg == 1 {
            self.mask = data;
        } else if reg == 3 {
            self.oam_addr = data;
        } else if reg == 4 {
            self.oam[self.oam_addr as usize] = data;
            self.oam_addr = self.oam_addr.wrapping_add(1);
        } else if reg == 5 {
            if !self.w {
                self.t = (self.t & 0xFFE0) | ((data >> 3u8) as u16);
                self.x = data & 0x07;
                self.w = true;
            } else {
                self.t = (self.t & 0x8C1F) | (((data & 0x07) as u16) << 12u16) | (((data & 0xF8) as u16) << 2u16);
                self.w = false;
            }
        } else if reg == 6 {
            if !self.w {
                self.t = (self.t & 0x00FF) | (((data & 0x3F) as u16) << 8u16);
                self.w = true;
            } else {
                self.t = (self.t & 0xFF00) | (data as u16);
                self.v = self.t;
                self.w = false;
            }
        } else if reg == 7 {
            let vram_addr = self.v & 0x3FFF;
            let a = vram_addr;
            let vv = self.v;
            proof {
                lemma_masks();
            }
            assert((a & 0x3FFF) == a);
            self.ppu_write(vram_addr, data, mapper);
            let inc = self.vram_increment();
            self.v = self.v.wrapping_add(inc);
        }
    }

    /// Advances the PPU by one dot (see `PpuModel::step`).
    pub fn step<M: Mapper>(&mut self, _mapper: &M)
        requires
            old(self)@.inv(),
        ensures
            final(self)@ == old(self)@.step(),
            final(self)@.inv(),
    {
        self.cycle = self.cycle + 1;
        if self.cycle > 340 {
            self.cycle = 0;
            self.scanline = self.scanline + 1;
            if self.scanline > 261 {
                self.scanline = 0;
                self.frame_complete = true;
            }
        }
        if self.scanline == 241 && self.cycle == 1 {
            self.status = self.status | 0x80;
            if self.ctrl & 0x80 != 0 {
                self.nmi_pending = true;
            }
        }
        if self.scanline == 261 && self.cycle == 1 {
            self.status = self.status & !0xC0u8;
        }
    }
}

} // verus!
