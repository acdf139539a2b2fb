use vstd::prelude::*;

verus! {

/// A 32-byte account address.  Escrow accounts carry no stored owner or
/// schema: the address itself, re-derived and compared on every access, is
/// the only identity and access-control anchor an account has.
#[derive(Clone, Copy, Debug, PartialEq, Eq)]
pub struct Address {
    pub bytes: [u8; 32],
}

impl View for Address {
    type V = Seq<u8>;

    open spec fn view(&self) -> Seq<u8> {
        self.bytes@
    }
}

impl Address {
    pub fn new(bytes: [u8; 32]) -> (r: Address)
        ensures
            r@ == bytes@,
    {
        Address { bytes }
    }
}

/// Bit-for-bit equality of two addresses.
pub fn addr_eq(a: &Address, b: &Address) -> (r: bool)
    ensures
        r == (a@ == b@),
        r == (*a == *b),
{
    let mut i: usize = 0;
    while i < 32
        invariant
            i <= 32,
            forall|j: int| 0 <= j < i ==> a.bytes@[j] == b.bytes@[j],
        decreases 32 - i,
    {
        if a.bytes[i] != b.bytes[i] {
            assert(a@[i as int] != b@[i as int]);
            assert(a.bytes !~= b.bytes);
            return false;
        }
        i += 1;
    }
    proof {
        assert(a@ =~= b@);
        assert(a.bytes =~= b.bytes);
    }
    true
}

/// The address bytes as a growable buffer, for use as a derivation seed.
pub fn addr_to_vec(a: &Address) -> (r: Vec<u8>)
    ensures
        r@ == a@,
{
    let mut v: Vec<u8> = Vec::new();
    let mut i: usize = 0;
    while i < 32
        invariant
            i <= 32,
            v@.len() == i,
            forall|j: int| 0 <= j < i ==> v@[j] == a.bytes@[j],
        decreases 32 - i,
    {
        v.push(a.bytes[i]);
        i += 1;
    }
    proof {
        assert(v@ =~= a@);
    }
    v
}

} // verus!
