use crate::runtime::{address_from_base58, parse_address, MAX_BASE58_LEN};
use vstd::prelude::*;

verus! {

/// A 32-byte account address.
#[derive(Clone, Copy, Debug, PartialEq, Eq, Hash)]
pub struct Address(pub [u8; 32]);

impl View for Address {
    type V = Seq<u8>;

    open spec fn view(&self) -> Seq<u8> {
        self.0@
    }
}

impl Address {
    /// Whether two addresses hold the same bytes.
    pub fn same_as(&self, other: &Address) -> (r: bool)
        ensures
            r == (self@ == other@),
    {
        let mut i: usize = 0;
        while i < 32
            invariant
                i <= 32,
                self@.len() == 32,
                other@.len() == 32,
                forall|j: int| 0 <= j < i ==> self@[j] == other@[j],
            decreases 32 - i,
        {
            if self.0[i] != other.0[i] {
                return false;
            }
            i = i + 1;
        }
        assert(self@ =~= other@);
        true
    }

    /// Reads an address written in base58, as the runtime library reads it.
    pub fn parse(text: &str) -> (r: Option<Address>)
        ensures
            match r {
                Some(a) => address_from_base58(text@) == Some(a@),
                None => address_from_base58(text@) is None,
            },
            text@.len() > MAX_BASE58_LEN ==> r is None,
    {
        parse_address(text)
    }

    /// Reads an address from the 32 bytes of `bytes` that start at `start`.
    pub fn read_from(bytes: &[u8], start: usize) -> (r: Address)
        requires
            start + 32 <= bytes.len(),
        ensures
            r@ == bytes@.subrange(start as int, start + 32),
    {
        let mut a: [u8; 32] = [0u8; 32];
        let mut i: usize = 0;
        while i < 32
            invariant
                i <= 32,
                start + 32 <= bytes.len(),
                a@.len() == 32,
                i < 32 ==> start + i < bytes@.len(),
                forall|j: int| 0 <= j < i ==> a@[j] == bytes@[start + j],
            decreases 32 - i,
        {
            a[i] = bytes[start + i];
            i = i + 1;
        }
        let r = Address(a);
        assert(r@ =~= bytes@.subrange(start as int, start + 32));
        r
    }
}

} // verus!
