pub mod mapper0;
pub mod mapper1;
pub mod mapper2;
pub mod mapper3;
pub mod mapper4;

use vstd::prelude::*;
use crate::cartridge::Mirroring;
use crate::mapper::mapper0::{Mapper0, Mapper0Model};
use crate::mapper::mapper1::{Mapper1, Mapper1Model};
use crate::mapper::mapper2::{Mapper2, Mapper2Model};
use crate::mapper::mapper3::{Mapper3, Mapper3Model};
use crate::mapper::mapper4::{Mapper4, Mapper4Model};

verus! {

/// A cartridge board: how CPU and PPU addresses reach the cartridge's ROM and RAM.
///
/// The board's state is described by its view; each operation is described by a
/// function on views, and an `_ok` predicate says on which addresses it is defined.
pub trait Mapper: View + Sized {
    /// The board's internal invariant, kept by every operation.
    spec fn inv_model(v: Self::V) -> bool;

    spec fn cpu_read_ok(v: Self::V, addr: u16) -> bool;

    spec fn cpu_read_model(v: Self::V, addr: u16) -> u8;

    spec fn cpu_write_model(v: Self::V, addr: u16, data: u8) -> Self::V;

    spec fn ppu_read_ok(v: Self::V, addr: u16) -> bool;

    spec fn ppu_read_model(v: Self::V, addr: u16) -> u8;

    spec fn ppu_write_ok(v: Self::V, addr: u16) -> bool;

    spec fn ppu_write_model(v: Self::V, addr: u16, data: u8) -> Self::V;

    spec fn scanline_model(v: Self::V) -> Self::V;

    spec fn irq_model(v: Self::V) -> bool;

    spec fn acknowledge_model(v: Self::V) -> Self::V;

    spec fn mirroring_model(v: Self::V) -> Option<Mirroring>;

    /// Reads a byte from CPU address space.
    fn cpu_read(&self, addr: u16) -> (r: u8)
        requires
            Self::inv_model(self@),
            Self::cpu_read_ok(self@, addr),
        ensures
            r == Self::cpu_read_model(self@, addr),
    ;

    /// Writes a byte to CPU address space (ROM writes program the board's registers).
    fn cpu_write(&mut self, addr: u16, data: u8)
        requires
            Self::inv_model(old(self)@),
        ensures
            Self::inv_model(final(self)@),
            final(self)@ == Self::cpu_write_model(old(self)@, addr, data),
    ;

    /// Reads a byte of pattern memory in PPU address space.
    fn ppu_read(&self, addr: u16) -> (r: u8)
        requires
            Self::inv_model(self@),
            Self::ppu_read_ok(self@, addr),
        ensures
            r == Self::ppu_read_model(self@, addr),
    ;

    /// Writes a byte of pattern memory in PPU address space (ignored for ROM).
    fn ppu_write(&mut self, addr: u16, data: u8)
        requires
            Self::inv_model(old(self)@),
            Self::ppu_write_ok(old(self)@, addr),
        ensures
            Self::inv_model(final(self)@),
            final(self)@ == Self::ppu_write_model(old(self)@, addr, data),
    ;

    /// Tells the board that a scanline has been rendered.
    fn notify_scanline(&mut self)
        requires
            Self::inv_model(old(self)@),
        ensures
            Self::inv_model(final(self)@),
            final(self)@ == Self::scanline_model(old(self)@),
    ;

    /// Whether the board is asserting its interrupt line.
    fn irq_pending(&self) -> (r: bool)
        ensures
            r == Self::irq_model(self@),
    ;

    /// Clears the board's pending interrupt.
    fn irq_acknowledge(&mut self)
        requires
            Self::inv_model(old(self)@),
        ensures
            Self::inv_model(final(self)@),
            final(self)@ == Self::acknowledge_model(old(self)@),
    ;

    /// The nametable mirroring the board currently selects, if it controls it.
    fn mirroring(&self) -> (r: Option<Mirroring>)
        ensures
            r == Self::mirroring_model(self@),
    ;
}

/// A bank that exists fits, with its whole size, inside the banks that exist.
pub proof fn lemma_bank_fits(bank: int, banks: int, size: int)
    requires
        0 <= bank < banks,
        0 <= size,
    ensures
        bank * size + size <= banks * size,
        0 <= bank * size,
{
    assert(bank * size + size <= banks * size) by (nonlinear_arith)
        requires
            0 <= bank < banks,
            0 <= size,
    ;
    assert(0 <= bank * size) by (nonlinear_arith)
        requires
            0 <= bank,
            0 <= size,
    ;
}

/// The boards this emulator supports, by iNES mapper number.
pub enum Board {
    Nrom(Mapper0),
    Mmc1(Mapper1),
    Uxrom(Mapper2),
    Cnrom(Mapper3),
    Mmc3(Mapper4),
}

/// The state of a board.
pub ghost enum BoardModel {
    Nrom(Mapper0Model),
    Mmc1(Mapper1Model),
    Uxrom(Mapper2Model),
    Cnrom(Mapper3Model),
    Mmc3(Mapper4Model),
}

impl View for Board {
    type V = BoardModel;

    open spec fn view(&self) -> BoardModel {
        match self {
            Board::Nrom(m) => BoardModel::Nrom(m@),
            Board::Mmc1(m) => BoardModel::Mmc1(m@),
            Board::Uxrom(m) => BoardModel::Uxrom(m@),
            Board::Cnrom(m) => BoardModel::Cnrom(m@),
            Board::Mmc3(m) => BoardModel::Mmc3(m@),
        }
    }
}

impl Mapper for Board {
    open spec fn inv_model(v: BoardModel) -> bool {
        match v {
            BoardModel::Nrom(m) => Mapper0::inv_model(m),
            BoardModel::Mmc1(m) => Mapper1::inv_model(m),
            BoardModel::Uxrom(m) => Mapper2::inv_model(m),
            BoardModel::Cnrom(m) => Mapper3::inv_model(m),
            BoardModel::Mmc3(m) => Mapper4::inv_model(m),
        }
    }

    open spec fn cpu_read_ok(v: BoardModel, addr: u16) -> bool {
        match v {
            BoardModel::Nrom(m) => Mapper0::cpu_read_ok(m, addr),
            BoardModel::Mmc1(m) => Mapper1::cpu_read_ok(m, addr),
            BoardModel::Uxrom(m) => Mapper2::cpu_read_ok(m, addr),
            BoardModel::Cnrom(m) => Mapper3::cpu_read_ok(m, addr),
            BoardModel::Mmc3(m) => Mapper4::cpu_read_ok(m, addr),
        }
    }

    open spec fn cpu_read_model(v: BoardModel, addr: u16) -> u8 {
        match v {
            BoardModel::Nrom(m) => Mapper0::cpu_read_model(m, addr),
            BoardModel::Mmc1(m) => Mapper1::cpu_read_model(m, addr),
            BoardModel::Uxrom(m) => Mapper2::cpu_read_model(m, addr),
            BoardModel::Cnrom(m) => Mapper3::cpu_read_model(m, addr),
            BoardModel::Mmc3(m) => Mapper4::cpu_read_model(m, addr),
        }
    }

    open spec fn cpu_write_model(v: BoardModel, addr: u16, data: u8) -> BoardModel {
        match v {
            BoardModel::Nrom(m) => BoardModel::Nrom(Mapper0::cpu_write_model(m, addr, data)),
            BoardModel::Mmc1(m) => BoardModel::Mmc1(Mapper1::cpu_write_model(m, addr, data)),
            BoardModel::Uxrom(m) => BoardModel::Uxrom(Mapper2::cpu_write_model(m, addr, data)),
            BoardModel::Cnrom(m) => BoardModel::Cnrom(Mapper3::cpu_write_model(m, addr, data)),
            BoardModel::Mmc3(m) => BoardModel::Mmc3(Mapper4::cpu_write_model(m, addr, data)),
        }
    }

    open spec fn ppu_read_ok(v: BoardModel, addr: u16) -> bool {
        match v {
            BoardModel::Nrom(m) => Mapper0::ppu_read_ok(m, addr),
            BoardModel::Mmc1(m) => Mapper1::ppu_read_ok(m, addr),
            BoardModel::Uxrom(m) => Mapper2::ppu_read_ok(m, addr),
            BoardModel::Cnrom(m) => Mapper3::ppu_read_ok(m, addr),
            BoardModel::Mmc3(m) => Mapper4::ppu_read_ok(m, addr),
        }
    }

    open spec fn ppu_read_model(v: BoardModel, addr: u16) -> u8 {
        match v {
            BoardModel::Nrom(m) => Mapper0::ppu_read_model(m, addr),
            BoardModel::Mmc1(m) => Mapper1::ppu_read_model(m, addr),
            BoardModel::Uxrom(m) => Mapper2::ppu_read_model(m, addr),
            BoardModel::Cnrom(m) => Mapper3::ppu_read_model(m, addr),
            BoardModel::Mmc3(m) => Mapper4::ppu_read_model(m, addr),
        }
    }

    open spec fn ppu_write_ok(v: BoardModel, addr: u16) -> bool {
        match v {
            BoardModel::Nrom(m) => Mapper0::ppu_write_ok(m, addr),
            BoardModel::Mmc1(m) => Mapper1::ppu_write_ok(m, addr),
            BoardModel::Uxrom(m) => Mapper2::ppu_write_ok(m, addr),
            BoardModel::Cnrom(m) => Mapper3::ppu_write_ok(m, addr),
            BoardModel::Mmc3(m) => Mapper4::ppu_write_ok(m, addr),
        }
    }

    open spec fn ppu_write_model(v: BoardModel, addr: u16, data: u8) -> BoardModel {
        match v {
            BoardModel::Nrom(m) => BoardModel::Nrom(Mapper0::ppu_write_model(m, addr, data)),
            BoardModel::Mmc1(m) => BoardModel::Mmc1(Mapper1::ppu_write_model(m, addr, data)),
            BoardModel::Uxrom(m) => BoardModel::Uxrom(Mapper2::ppu_write_model(m, addr, data)),
            BoardModel::Cnrom(m) => BoardModel::Cnrom(Mapper3::ppu_write_model(m, addr, data)),
            BoardModel::Mmc3(m) => BoardModel::Mmc3(Mapper4::ppu_write_model(m, addr, data)),
        }
    }

    open spec fn scanline_model(v: BoardModel) -> BoardModel {
        match v {
            BoardModel::Nrom(m) => BoardModel::Nrom(Mapper0::scanline_model(m)),
            BoardModel::Mmc1(m) => BoardModel::Mmc1(Mapper1::scanline_model(m)),
            BoardModel::Uxrom(m) => BoardModel::Uxrom(Mapper2::scanline_model(m)),
            BoardModel::Cnrom(m) => BoardModel::Cnrom(Mapper3::scanline_model(m)),
            BoardModel::Mmc3(m) => BoardModel::Mmc3(Mapper4::scanline_model(m)),
        }
    }

    open spec fn irq_model(v: BoardModel) -> bool {
        match v {
            BoardModel::Nrom(m) => Mapper0::irq_model(m),
            BoardModel::Mmc1(m) => Mapper1::irq_model(m),
            BoardModel::Uxrom(m) => Mapper2::irq_model(m),
            BoardModel::Cnrom(m) => Mapper3::irq_model(m),
            BoardModel::Mmc3(m) => Mapper4::irq_model(m),
        }
    }

    open spec fn acknowledge_model(v: BoardModel) -> BoardModel {
        match v {
            BoardModel::Nrom(m) => BoardModel::Nrom(Mapper0::acknowledge_model(m)),
            BoardModel::Mmc1(m) => BoardModel::Mmc1(Mapper1::acknowledge_model(m)),
            BoardModel::Uxrom(m) => BoardModel::Uxrom(Mapper2::acknowledge_model(m)),
            BoardModel::Cnrom(m) => BoardModel::Cnrom(Mapper3::acknowledge_model(m)),
            BoardModel::Mmc3(m) => BoardModel::Mmc3(Mapper4::acknowledge_model(m)),
        }
    }

    open spec fn mirroring_model(v: BoardModel) -> Option<Mirroring> {
        match v {
            BoardModel::Nrom(m) => Mapper0::mirroring_model(m),
            BoardModel::Mmc1(m) => Mapper1::mirroring_model(m),
            BoardModel::Uxrom(m) => Mapper2::mirroring_model(m),
            BoardModel::Cnrom(m) => Mapper3::mirroring_model(m),
            BoardModel::Mmc3(m) => Mapper4::mirroring_model(m),
        }
    }

    fn cpu_read(&self, addr: u16) -> (r: u8) {
        match self {
            Board::Nrom(m) => m.cpu_read(addr),
            Board::Mmc1(m) => m.cpu_read(addr),
            Board::Uxrom(m) => m.cpu_read(addr),
            Board::Cnrom(m) => m.cpu_read(addr),
            Board::Mmc3(m) => m.cpu_read(addr),
        }
    }

    fn cpu_write(&mut self, addr: u16, data: u8) {
        match self {
            Board::Nrom(m) => m.cpu_write(addr, data),
            Board::Mmc1(m) => m.cpu_write(addr, data),
            Board::Uxrom(m) => m.cpu_write(addr, data),
            Board::Cnrom(m) => m.cpu_write(addr, data),
            Board::Mmc3(m) => m.cpu_write(addr, data),
        }
    }

    fn ppu_read(&self, addr: u16) -> (r: u8) {
        match self {
            Board::Nrom(m) => m.ppu_read(addr),
            Board::Mmc1(m) => m.ppu_read(addr),
            Board::Uxrom(m) => m.ppu_read(addr),
            Board::Cnrom(m) => m.ppu_read(addr),
            Board::Mmc3(m) => m.ppu_read(addr),
        }
    }

    fn ppu_write(&mut self, addr: u16, data: u8) {
        match self {
            Board::Nrom(m) => m.ppu_write(addr, data),
            Board::Mmc1(m) => m.ppu_write(addr, data),
            Board::Uxrom(m) => m.ppu_write(addr, data),
            Board::Cnrom(m) => m.ppu_write(addr, data),
            Board::Mmc3(m) => m.ppu_write(addr, data),
        }
    }

    fn notify_scanline(&mut self) {
        match self {
            Board::Nrom(m) => m.notify_scanline(),
            Board::Mmc1(m) => m.notify_scanline(),
            Board::Uxrom(m) => m.notify_scanline(),
            Board::Cnrom(m) => m.notify_scanline(),
            Board::Mmc3(m) => m.notify_scanline(),
        }
    }

    fn irq_pending(&self) -> (r: bool) {
        match self {
            Board::Nrom(m) => m.irq_pending(),
            Board::Mmc1(m) => m.irq_pending(),
            Board::Uxrom(m) => m.irq_pending(),
            Board::Cnrom(m) => m.irq_pending(),
            Board::Mmc3(m) => m.irq_pending(),
        }
    }

    fn irq_acknowledge(&mut self) {
        match self {
            Board::Nrom(m) => m.irq_acknowledge(),
            Board::Mmc1(m) => m.irq_acknowledge(),
            Board::Uxrom(m) => m.irq_acknowledge(),
            Board::Cnrom(m) => m.irq_acknowledge(),
            Board::Mmc3(m) => m.irq_acknowledge(),
        }
    }

    fn mirroring(&self) -> (r: Option<Mirroring>) {
        match self {
            Board::Nrom(m) => m.mirroring(),
            Board::Mmc1(m) => m.mirroring(),
            Board::Uxrom(m) => m.mirroring(),
            Board::Cnrom(m) => m.mirroring(),
            Board::Mmc3(m) => m.mirroring(),
        }
    }
}

} // verus!
