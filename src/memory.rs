//! Fixed-capacity, byte-addressable memory banks.
use vstd::prelude::*;

verus! {

/// A memory bank that can be read, one byte at a time.
pub trait ReadableMemory {
    /// The bytes the bank holds, one per address.
    spec fn contents(&self) -> Seq<u8>;

    /// The number of bytes this bank holds.
    fn size(&self) -> (r: u16)
        ensures
            r as int == self.contents().len(),
    ;

    /// The byte at `address`, or `None` when the address is out of bounds.
    fn byte(&self, address: u16) -> (r: Option<u8>)
        ensures
            address < self.contents().len() ==> r == Some(self.contents()[address as int]),
            address >= self.contents().len() ==> r is None,
    ;
}

/// A memory bank that can also be written, one byte at a time.
pub trait WritableMemory: ReadableMemory {
    /// Stores `value` at `address`. Out of bounds nothing changes and `None`
    /// is returned.
    fn set_byte(&mut self, address: u16, value: u8) -> (r: Option<()>)
        ensures
            address < old(self).contents().len() ==> r == Some(())
                && final(self).contents() == old(self).contents().update(address as int, value),
            address >= old(self).contents().len() ==> r is None
                && final(self).contents() == old(self).contents(),
    ;
}

/// Read-only memory: its bytes are set when a program image is loaded.
pub struct Rom {
    data: Vec<u8>,
}

/// Random access memory.
pub struct Ram {
    data: Vec<u8>,
}

/// A zero-based run of `len` copies of `value`.
pub open spec fn filled(value: u8, len: nat) -> Seq<u8> {
    Seq::new(len, |_i: int| value)
}

/// What a bank holds after `image` is written over its first bytes.
pub open spec fn overlaid(bank: Seq<u8>, image: Seq<u8>) -> Seq<u8> {
    image + bank.skip(image.len() as int)
}

fn filled_vec(value: u8, size: u16) -> (r: Vec<u8>)
    ensures
        r@ == filled(value, size as nat),
{
    let mut v: Vec<u8> = Vec::with_capacity(size as usize);
    let mut i: u16 = 0;
    while i < size
        invariant
            i <= size,
            v@ == filled(value, i as nat),
        decreases size - i,
    {
        v.push(value);
        i = i + 1;
    }
    v
}

impl Rom {
    #[verifier::type_invariant]
    spec fn addressable(self) -> bool {
        self.data@.len() <= 0xFFFF
    }

    /// A bank of `size` bytes, each set to `default`.
    pub fn new(default: u8, size: u16) -> (r: Self)
        ensures
            r.contents() == filled(default, size as nat),
    {
        Rom { data: filled_vec(default, size) }
    }

    /// Writes `image` over the first bytes of the bank. An image longer than
    /// the bank is refused and nothing changes.
    pub fn load(&mut self, image: &[u8]) -> (r: Option<()>)
        ensures
            image@.len() <= old(self).contents().len() ==> r == Some(())
                && final(self).contents() == overlaid(old(self).contents(), image@),
            image@.len() > old(self).contents().len() ==> r is None
                && final(self).contents() == old(self).contents(),
    {
        proof {
            use_type_invariant(&*self);
        }
        if image.len() > self.data.len() {
            return None;
        }
        let ghost before = self.data@;
        // The bank is taken out while it is written, so that it always holds
        // an addressable vector.
        let mut data: Vec<u8> = Vec::new();
        std::mem::swap(&mut self.data, &mut data);
        let mut i: usize = 0;
        while i < image.len()
            invariant
                i <= image@.len() <= before.len(),
                data@.len() == before.len(),
                forall|k: int| 0 <= k < i ==> data@[k] == image@[k],
                forall|k: int| i <= k < before.len() ==> data@[k] == before[k],
            decreases image.len() - i,
        {
            data.set(i, image[i]);
            i = i + 1;
        }
        assert(data@ =~= overlaid(before, image@));
        std::mem::swap(&mut self.data, &mut data);
        Some(())
    }
}

impl Default for Rom {
    /// The largest bank, zero-filled.
    fn default() -> (r: Self)
        ensures
            r.contents() == filled(0, 0xFFFF),
    {
        Rom::new(0, 0xFFFF)
    }
}

impl ReadableMemory for Rom {
    closed spec fn contents(&self) -> Seq<u8> {
        self.data@
    }

    fn size(&self) -> (r: u16) {
        proof {
            use_type_invariant(self);
        }
        self.data.len() as u16
    }

    fn byte(&self, address: u16) -> (r: Option<u8>) {
        proof {
            use_type_invariant(self);
        }
        if address as usize >= self.data.len() {
            None
        } else {
            Some(self.data[address as usize])
        }
    }
}

impl Ram {
    #[verifier::type_invariant]
    spec fn addressable(self) -> bool {
        self.data@.len() <= 0xFFFF
    }

    /// A bank of `size` bytes, each set to `default`.
    pub fn new(default: u8, size: u16) -> (r: Self)
        ensures
            r.contents() == filled(default, size as nat),
    {
        Ram { data: filled_vec(default, size) }
    }
}

impl Default for Ram {
    /// The largest bank, zero-filled.
    fn default() -> (r: Self)
        ensures
            r.contents() == filled(0, 0xFFFF),
    {
        Ram::new(0, 0xFFFF)
    }
}

impl ReadableMemory for Ram {
    closed spec fn contents(&self) -> Seq<u8> {
        self.data@
    }

    fn size(&self) -> (r: u16) {
        proof {
            use_type_invariant(self);
        }
        self.data.len() as u16
    }

    fn byte(&self, address: u16) -> (r: Option<u8>) {
        proof {
            use_type_invariant(self);
        }
        if address as usize >= self.data.len() {
            None
        } else {
            Some(self.data[address as usize])
        }
    }
}

impl WritableMemory for Ram {
    fn set_byte(&mut self, address: u16, value: u8) -> (r: Option<()>) {
        proof {
            use_type_invariant(&*self);
        }
        if address as usize >= self.data.len() {
            None
        } else {
            let mut data: Vec<u8> = Vec::new();
            std::mem::swap(&mut self.data, &mut data);
            data.set(address as usize, value);
            std::mem::swap(&mut self.data, &mut data);
            Some(())
        }
    }
}

/// A byte stored at an address inside the bank is the byte read back there,
/// and every other address keeps its byte.
pub proof fn lemma_store_then_load(before: Ram, after: Ram, address: u16, value: u8)
    requires
        address < before.contents().len(),
        after.contents() == before.contents().update(address as int, value),
    ensures
        after.contents().len() == before.contents().len(),
        after.contents()[address as int] == value,
        forall|other: int|
            0 <= other < before.contents().len() && other != address ==> after.contents()[other]
                == before.contents()[other],
{
}

} // verus!
