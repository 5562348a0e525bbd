//! The APU/IO register facade: only its bus window matters to the core,
//! so reads echo the register index and writes are captured and dropped.

use vstd::prelude::*;

use crate::Address;
use crate::AddressMask;
use crate::devices::BusDevice;
use crate::lemma_window_constants;

verus! {

/// The window of the APU and IO registers: `$4000-$401F`, no mirroring.
pub open spec fn apu_window() -> AddressMask {
    AddressMask {
        start_address: Address(0x4000),
        address_mask: 0xFFE0,
        mirror_mask: 0x001F,
    }
}

/// The APU/IO register block, as a bus facade.
pub struct Apu {
    mask: AddressMask,
}

impl Apu {
    /// The decoded window.
    pub closed spec fn spec_map(self) -> AddressMask {
        self.mask
    }

    /// The facade holds its documented window.
    pub closed spec fn wf_apu(self) -> bool {
        self.mask == apu_window()
    }

    /// A fresh facade on the documented window.
    pub fn new() -> (r: Self)
        ensures
            r.wf_apu(),
    {
        proof {
            lemma_window_constants();
        }
        let mask = AddressMask::from_block(Address(0x4000), 11, 0);
        proof {
            assert(!(0xffffu16 >> 11) == 0xFFE0u16) by (bit_vector);
        }
        Apu { mask }
    }
}

impl Default for Apu {
    /// Same facade as `new`.
    fn default() -> (r: Self)
        ensures
            r.wf_apu(),
    {
        Apu::new()
    }
}

impl BusDevice for Apu {
    open spec fn wf(&self) -> bool {
        self.wf_apu()
    }

    open spec fn claims(&self, address: Address) -> bool {
        self.spec_map().spec_matches(address)
    }

    open spec fn captures(&self, address: Address) -> bool {
        self.spec_map().spec_matches(address)
    }

    fn read(&mut self, address: Address) -> (r: Option<u8>)
        ensures
            r == if apu_window().spec_matches(address) {
                Some(apu_window().spec_offset(address) as u8)
            } else {
                None::<u8>
            },
    {
        match self.mask.remap(address) {
            Some(register) => Some(register as u8),
            None => None,
        }
    }

    fn write(&mut self, address: Address, _data: u8) -> (r: bool)
        ensures
            r == apu_window().spec_matches(address),
    {
        match self.mask.remap(address) {
            Some(_) => true,
            None => false,
        }
    }
}

} // verus!
