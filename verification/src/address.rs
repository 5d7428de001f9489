//! Thirty-two byte ledger addresses.

use vstd::prelude::*;

verus! {

/// Number of bytes in an address.
pub const ADDRESS_LEN: usize = 32;

/// The identity of an account or a program on the ledger.
#[derive(Clone, Copy, Debug, PartialEq, Eq, Hash)]
pub struct Address {
    pub bytes: [u8; 32],
}

impl View for Address {
    type V = Seq<u8>;

    open spec fn view(&self) -> Seq<u8> {
        self.bytes@
    }
}

/// The address whose bytes are `s`.
pub open spec fn address_of(s: Seq<u8>) -> Address {
    choose|a: Address| a@ == s
}

/// An address is the one that its bytes name.
pub proof fn address_of_bytes(a: Address)
    ensures
        address_of(a@) == a,
{
    let b = address_of(a@);
    assert(b@ == a@);
    assert(forall|i: int| 0 <= i < 32 ==> b.bytes[i] == a.bytes[i]) by {
        assert forall|i: int| 0 <= i < 32 implies b.bytes[i] == a.bytes[i] by {
            assert(b@[i] == a@[i]);
        }
    }
    assert(b.bytes =~= a.bytes);
}

impl Address {
    /// Reads the address that starts at `at`.
    pub fn read(data: &[u8], at: usize) -> (a: Address)
        requires
            at + 32 <= data@.len(),
        ensures
            a@ == data@.subrange(at as int, at + 32),
            a == address_of(data@.subrange(at as int, at + 32)),
    {
        let len: usize = data.len();
        let mut bytes: [u8; 32] = [0u8; 32];
        let mut i: usize = 0;
        while i < 32
            invariant
                i <= 32,
                at + 32 <= len,
                len == data@.len(),
                forall|j: int| 0 <= j < i ==> bytes[j] == data@[at + j],
            decreases 32 - i,
        {
            bytes[i] = data[at + i];
            i += 1;
        }
        let a = Address { bytes };
        assert(a@ =~= data@.subrange(at as int, at + 32));
        proof {
            address_of_bytes(a);
        }
        a
    }

    /// Appends the address's bytes.
    pub fn write(&self, out: &mut Vec<u8>)
        ensures
            final(out)@ == old(out)@ + self@,
    {
        let mut i: usize = 0;
        while i < 32
            invariant
                i <= 32,
                out@ == old(out)@ + self@.subrange(0, i as int),
            decreases 32 - i,
        {
            out.push(self.bytes[i]);
            assert(out@ =~= old(out)@ + self@.subrange(0, i as int + 1));
            i += 1;
        }
        assert(self@.subrange(0, 32) =~= self@);
    }

    /// Wraps thirty-two bytes as an address.
    pub fn new(bytes: [u8; 32]) -> (a: Address)
        ensures
            a.bytes == bytes,
            a@ == bytes@,
    {
        Address { bytes }
    }

    /// Whether two addresses hold the same bytes, which is to say whether
    /// they are the same address.
    pub fn same(&self, other: &Address) -> (r: bool)
        ensures
            r == (self@ == other@),
            r == (*self == *other),
    {
        let mut i: usize = 0;
        while i < 32
            invariant
                i <= 32,
                forall|j: int| 0 <= j < i ==> self.bytes[j] == other.bytes[j],
            decreases 32 - i,
        {
            if self.bytes[i] != other.bytes[i] {
                return false;
            }
            i += 1;
        }
        assert(self@ =~= other@);
        proof {
            address_of_bytes(*self);
            address_of_bytes(*other);
        }
        true
    }

    /// The address as a seed for derivation: its bytes, in order.
    pub fn to_seed(&self) -> (seed: Vec<u8>)
        ensures
            seed@ == self@,
    {
        let mut seed: Vec<u8> = Vec::new();
        let mut i: usize = 0;
        while i < 32
            invariant
                i <= 32,
                seed@ == self@.subrange(0, i as int),
            decreases 32 - i,
        {
            seed.push(self.bytes[i]);
            assert(seed@ =~= self@.subrange(0, i as int + 1));
            i += 1;
        }
        assert(self@.subrange(0, 32) =~= self@);
        seed
    }
}

} // verus!
