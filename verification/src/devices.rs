//! Generic bus devices: the uniform device contract and a mirrored RAM
//! bank.

use vstd::prelude::*;

use crate::Address;
use crate::AddressMask;

verus! {

/// A device hanging off a bus: it answers reads that fall inside its
/// decoded window and reports whether it captured a write.  Reads take the
/// device mutably because some devices (the PPU's status and data ports)
/// change state when read.
pub trait BusDevice {
    /// The device's internal consistency condition.
    spec fn wf(&self) -> bool;

    /// Whether this device's decoded window covers the address.
    spec fn claims(&self, address: Address) -> bool;

    /// Whether this device captures a write to the address, stopping the
    /// bus fan-out there.
    spec fn captures(&self, address: Address) -> bool;

    /// The byte at `address`: an answer comes exactly when the address
    /// falls inside this device's window.
    fn read(&mut self, address: Address) -> (r: Option<u8>)
        requires
            old(self).wf(),
        ensures
            final(self).wf(),
            (r is Some <==> old(self).claims(address)),
    ;

    /// Offers a write; the result says exactly whether this device
    /// captured it.
    fn write(&mut self, address: Address, data: u8) -> (r: bool)
        requires
            old(self).wf(),
        ensures
            final(self).wf(),
            r == old(self).captures(address),
    ;
}

/// A RAM bank of `SIZE` bytes behind a mirrored window.
pub struct RamBank<const SIZE: usize> {
    map: AddressMask,
    memory: Vec<u8>,
}

impl<const SIZE: usize> RamBank<SIZE> {
    /// The bank's stored bytes.
    pub closed spec fn model(self) -> Seq<u8> {
        self.memory@
    }

    /// The bank's decoded window.
    pub closed spec fn spec_map(self) -> AddressMask {
        self.map
    }

    /// The window fits the storage: every mirrored offset is in range.
    pub closed spec fn wf(self) -> bool {
        &&& self.map.wf()
        &&& self.memory@.len() == SIZE
        &&& (self.map.mirror_mask as int) < SIZE as int
    }

    /// The shape behind a consistent bank: the stored bytes number
    /// `SIZE`, the window's masks are disjoint, and every mirrored
    /// offset lands inside the storage.
    pub proof fn lemma_bank_shape(self)
        requires
            self.wf(),
        ensures
            self.model().len() == SIZE as nat,
            self.spec_map().wf(),
            (self.spec_map().mirror_mask as int) < SIZE as int,
    {
    }

    /// A zero-filled bank behind the given window.
    pub fn new(map: AddressMask) -> (r: Self)
        requires
            map.wf(),
            (map.mirror_mask as int) < SIZE as int,
        ensures
            r.wf(),
            r.spec_map() == map,
            r.model() == Seq::<u8>::new(SIZE as nat, |i: int| 0u8),
    {
        let r = Self { map, memory: vec![0u8; SIZE] };
        proof {
            assert(r.memory@ =~= Seq::<u8>::new(SIZE as nat, |i: int| 0u8));
        }
        r
    }

    /// The mirrored byte at `address`, when the window decodes it.
    pub fn peek(&self, address: Address) -> (r: Option<u8>)
        requires
            self.wf(),
        ensures
            r == if self.spec_map().spec_matches(address) {
                Some(self.model()[self.spec_map().spec_offset(address) as int])
            } else {
                None::<u8>
            },
    {
        match self.map.remap(address) {
            Some(offset) => Some(self.memory[offset]),
            None => None,
        }
    }

    /// Stores a byte through the window; the result says whether the
    /// window decoded the address.
    pub fn poke(&mut self, address: Address, data: u8) -> (r: bool)
        requires
            old(self).wf(),
        ensures
            final(self).wf(),
            final(self).spec_map() == old(self).spec_map(),
            r == old(self).spec_map().spec_matches(address),
            final(self).model() == if r {
                old(self).model().update(
                    old(self).spec_map().spec_offset(address) as int,
                    data,
                )
            } else {
                old(self).model()
            },
    {
        match self.map.remap(address) {
            Some(offset) => {
                self.memory[offset] = data;
                true
            },
            None => false,
        }
    }
}

impl<const SIZE: usize> BusDevice for RamBank<SIZE> {
    open spec fn wf(&self) -> bool {
        RamBank::wf(*self)
    }

    open spec fn claims(&self, address: Address) -> bool {
        self.spec_map().spec_matches(address)
    }

    open spec fn captures(&self, address: Address) -> bool {
        self.spec_map().spec_matches(address)
    }

    fn read(&mut self, address: Address) -> (r: Option<u8>) {
        self.peek(address)
    }

    fn write(&mut self, address: Address, data: u8) -> (r: bool) {
        self.poke(address, data)
    }
}

} // verus!
