//! The PPU register facade: the eight memory-mapped registers at
//! `$2000-$3FFF` (mirrored every eight bytes), the OAM store, the scroll
//! and address write-pair latches, and the PPU-side bus with its own
//! nametable RAM and the cartridge's pattern mapper.

use vstd::prelude::*;

use crate::Address;
use crate::AddressMask;
use crate::addr_high;
use crate::addr_join;
use crate::addr_low;
use crate::devices::BusDevice;
use crate::devices::RamBank;
use crate::lemma_window_constants;

verus! {

/// The window of the PPU registers: `$2000-$3FFF`, mirrored every eight
/// bytes.
pub open spec fn ppu_register_window() -> AddressMask {
    AddressMask {
        start_address: Address(0x2000),
        address_mask: 0xE000,
        mirror_mask: 0x0007,
    }
}

/// The picture processor's bus facade.
pub struct Ppu<Mapper: BusDevice> {
    mask: AddressMask,
    control: u8,
    mask_flags: u8,
    status: u8,
    data_latch: u8,
    oam_address: u8,
    oam: Vec<u8>,
    scroll_x: u16,
    scroll_y: u16,
    bus_address: Address,
    bus: PpuBus<Mapper>,
    write_swap: bool,
}

impl<Mapper: BusDevice> Ppu<Mapper> {
    /// The OAM store.
    pub closed spec fn spec_oam(self) -> Seq<u8> {
        self.oam@
    }

    /// The OAM address register.
    pub closed spec fn spec_oam_address(self) -> u8 {
        self.oam_address
    }

    /// The stale byte on the PPU's register port.
    pub closed spec fn spec_latch(self) -> u8 {
        self.data_latch
    }

    /// The raw status bits.
    pub closed spec fn spec_status(self) -> u8 {
        self.status
    }

    /// The register window is in place, the OAM store holds its 256
    /// bytes, and the PPU-side bus is consistent.
    pub closed spec fn wf_ppu(self) -> bool {
        &&& self.mask == ppu_register_window()
        &&& self.oam@.len() == 256
        &&& self.bus.wf_bus()
    }

    /// A powered-up PPU over the given pattern mapper.
    pub fn new(mapper: Mapper) -> (r: Self)
        requires
            mapper.wf(),
        ensures
            r.wf_ppu(),
    {
        proof {
            lemma_window_constants();
            assert(!(0xffffu16 >> 3) == 0xE000u16) by (bit_vector);
        }
        let mask = AddressMask::from_block(Address(0x2000), 3, 10);
        proof {
            assert(0xffffu16 >> ((3 + 10) as u16) == 0x0007u16) by (bit_vector);
        }
        Ppu {
            mask,
            control: 0,
            mask_flags: 0,
            status: 0,
            data_latch: 0,
            oam_address: 0,
            oam: vec![0u8; 256],
            scroll_x: 0,
            scroll_y: 0,
            bus_address: Address(0),
            bus: PpuBus::new(mapper),
            write_swap: false,
        }
    }

    /// `$2000` write: latch the control byte.
    fn ctrl(&mut self, data: u8)
        ensures
            *final(self) == (Ppu { control: data, ..*old(self) }),
    {
        self.control = data;
    }

    /// `$2001` write: latch the mask byte.
    fn mask(&mut self, data: u8)
        ensures
            *final(self) == (Ppu { mask_flags: data, ..*old(self) }),
    {
        self.mask_flags = data;
    }

    /// `$2002` read: the status bits over the stale latch bits, resetting
    /// the write-pair toggle.
    fn status(&mut self) -> (r: u8)
        ensures
            r == (old(self).data_latch & 0x1F) | old(self).status,
            *final(self) == (Ppu { write_swap: false, ..*old(self) }),
    {
        self.write_swap = false;
        (self.data_latch & 0x1F) | self.status
    }

    /// `$2004` read: the OAM byte under the OAM address.
    fn read_oam(&self) -> (r: u8)
        requires
            self.wf_ppu(),
        ensures
            r == self.oam@[self.oam_address as int],
    {
        self.oam[self.oam_address as usize]
    }

    /// `$2004` write: store at the OAM address, which then advances.
    fn write_oam(&mut self, data: u8)
        requires
            old(self).wf_ppu(),
        ensures
            final(self).wf_ppu(),
            final(self).oam@ == old(self).oam@.update(old(self).oam_address as int, data),
            final(self).oam_address == ((old(self).oam_address as int + 1) % 256) as u8,
            final(self).data_latch == old(self).data_latch,
    {
        let idx = self.oam_address as usize;
        self.oam[idx] = data;
        self.oam_address = self.oam_address.wrapping_add(1);
    }

    /// `$2005` write pair: X scroll first, Y scroll second, each widened
    /// by its nametable-select bit.
    fn scroll(&mut self, data: u8)
        ensures
            !old(self).write_swap ==> final(self).scroll_x
                == (data as u16 | (((old(self).control & 0x01) as u16) << 8)),
            old(self).write_swap ==> final(self).scroll_y
                == (data as u16 | (((old(self).control & 0x02) as u16) << 7)),
            final(self).write_swap == !old(self).write_swap,
            final(self).oam@ == old(self).oam@,
            final(self).oam_address == old(self).oam_address,
            final(self).data_latch == old(self).data_latch,
            final(self).mask == old(self).mask,
            final(self).bus == old(self).bus,
    {
        let nametable = self.control & 0x03;
        if !self.write_swap {
            self.scroll_x = data as u16 | (((nametable & 0b01) as u16) << 8);
            proof {
                let c = old(self).control;
                assert(((c & 0x03) & 0x01) == (c & 0x01)) by (bit_vector);
            }
        } else {
            self.scroll_y = data as u16 | (((nametable & 0b10) as u16) << 7);
            proof {
                let c = old(self).control;
                assert(((c & 0x03) & 0x02) == (c & 0x02)) by (bit_vector);
            }
        }
        self.write_swap = !self.write_swap;
    }

    /// `$2006` write pair: high byte of the PPU bus address first, low
    /// byte second.
    fn addr(&mut self, data: u8)
        ensures
            !old(self).write_swap ==> final(self).bus_address.0
                == addr_join(data, addr_low(old(self).bus_address.0)),
            old(self).write_swap ==> final(self).bus_address.0
                == addr_join(addr_high(old(self).bus_address.0), data),
            final(self).write_swap == !old(self).write_swap,
            final(self).oam@ == old(self).oam@,
            final(self).oam_address == old(self).oam_address,
            final(self).data_latch == old(self).data_latch,
            final(self).mask == old(self).mask,
            final(self).bus == old(self).bus,
    {
        if !self.write_swap {
            self.bus_address.set_high(data);
        } else {
            self.bus_address.set_low(data);
        }
        self.write_swap = !self.write_swap;
    }

    /// `$2007` read: the byte under the PPU bus address; an unmapped
    /// address answers with the stale latch (open bus).
    fn read_vram(&mut self) -> (r: u8)
        requires
            old(self).wf_ppu(),
        ensures
            final(self).wf_ppu(),
    {
        match self.bus.read(self.bus_address) {
            Some(value) => value,
            None => self.data_latch,
        }
    }

    /// `$2007` write: the byte goes to the PPU-side bus.
    fn write_vram(&mut self, data: u8)
        requires
            old(self).wf_ppu(),
        ensures
            final(self).wf_ppu(),
            final(self).oam@ == old(self).oam@,
            final(self).oam_address == old(self).oam_address,
            final(self).data_latch == old(self).data_latch,
    {
        let address = self.bus_address;
        let _ = self.bus.write(address, data);
    }
}

impl<Mapper: BusDevice> BusDevice for Ppu<Mapper> {
    open spec fn wf(&self) -> bool {
        self.wf_ppu()
    }

    open spec fn claims(&self, address: Address) -> bool {
        ppu_register_window().spec_matches(address)
    }

    open spec fn captures(&self, address: Address) -> bool {
        ppu_register_window().spec_matches(address)
    }

    fn read(&mut self, address: Address) -> (r: Option<u8>)
        ensures
            r is Some <==> ppu_register_window().spec_matches(address),
            (ppu_register_window().spec_matches(address)
                && ppu_register_window().spec_offset(address) == 2) ==> r
                == Some((old(self).spec_latch() & 0x1F) | old(self).spec_status()),
            (ppu_register_window().spec_matches(address)
                && ppu_register_window().spec_offset(address) == 4) ==> r
                == Some(old(self).spec_oam()[old(self).spec_oam_address() as int]),
    {
        match self.mask.remap(address) {
            Some(register) => Some(
                if register == 2 {
                    self.status()
                } else if register == 4 {
                    self.read_oam()
                } else if register == 7 {
                    self.read_vram()
                } else {
                    self.data_latch
                },
            ),
            None => None,
        }
    }

    fn write(&mut self, address: Address, data: u8) -> (r: bool)
        ensures
            r == ppu_register_window().spec_matches(address),
            r ==> final(self).spec_latch() == data,
            (r && ppu_register_window().spec_offset(address) == 3)
                ==> final(self).spec_oam_address() == data
                    && final(self).spec_oam() == old(self).spec_oam(),
            (r && ppu_register_window().spec_offset(address) == 4)
                ==> final(self).spec_oam() == old(self).spec_oam().update(
                        old(self).spec_oam_address() as int,
                        data,
                    )
                    && final(self).spec_oam_address()
                        == ((old(self).spec_oam_address() as int + 1) % 256) as u8,
    {
        match self.mask.remap(address) {
            Some(register) => {
                self.data_latch = data;
                if register == 0 {
                    self.ctrl(data);
                } else if register == 1 {
                    self.mask(data);
                } else if register == 3 {
                    self.oam_address = data;
                } else if register == 4 {
                    self.write_oam(data);
                } else if register == 5 {
                    self.scroll(data);
                } else if register == 6 {
                    self.addr(data);
                } else if register == 7 {
                    self.write_vram(data);
                }
                true
            },
            None => false,
        }
    }
}

/// The PPU-side bus: the cartridge's pattern mapper first, then the 2 KiB
/// nametable RAM mirrored at `$2000`.
pub struct PpuBus<Mapper: BusDevice> {
    vram_bank: RamBank<2048>,
    mapper: Mapper,
}

impl<Mapper: BusDevice> PpuBus<Mapper> {
    /// Both sides of the bus are consistent.
    pub closed spec fn wf_bus(self) -> bool {
        &&& self.vram_bank.wf()
        &&& self.mapper.wf()
    }

    /// A PPU-side bus over the given pattern mapper.
    pub fn new(mapper: Mapper) -> (r: Self)
        requires
            mapper.wf(),
        ensures
            r.wf_bus(),
    {
        proof {
            lemma_window_constants();
        }
        Self {
            vram_bank: RamBank::new(AddressMask::from_block(Address(0x2000), 3, 2)),
            mapper,
        }
    }
}

impl<Mapper: BusDevice> BusDevice for PpuBus<Mapper> {
    open spec fn wf(&self) -> bool {
        self.wf_bus()
    }

    closed spec fn claims(&self, address: Address) -> bool {
        self.mapper.claims(address) || self.vram_bank.spec_map().spec_matches(address)
    }

    closed spec fn captures(&self, address: Address) -> bool {
        self.mapper.captures(address) || self.vram_bank.spec_map().spec_matches(address)
    }

    fn read(&mut self, address: Address) -> (r: Option<u8>) {
        match self.mapper.read(address) {
            Some(value) => Some(value),
            None => self.vram_bank.peek(address),
        }
    }

    fn write(&mut self, address: Address, data: u8) -> (r: bool) {
        if !self.mapper.write(address, data) {
            self.vram_bank.poke(address, data)
        } else {
            true
        }
    }
}

} // verus!
