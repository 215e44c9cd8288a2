use vstd::prelude::*;

verus! {

/// A 32-byte account address. The tree metadata stores the owner, the
/// optional program owner and forester, the associated queue and the
/// successor tree as values of this type; an all-zero value is the null
/// sentinel for references that are not set yet.
#[derive(Clone, Copy, Debug, PartialEq, Eq)]
pub struct Pubkey {
    pub bytes: [u8; 32],
}

impl View for Pubkey {
    type V = Seq<u8>;

    open spec fn view(&self) -> Seq<u8> {
        self.bytes@
    }
}

impl Pubkey {
    /// The null sentinel: every byte is zero.
    pub open spec fn is_zero(self) -> bool {
        self@ == Seq::new(32, |i: int| 0u8)
    }

    pub fn new(bytes: [u8; 32]) -> (r: Pubkey)
        ensures
            r@ == bytes@,
    {
        Pubkey { bytes }
    }

    /// The all-zero address used as the null sentinel.
    pub fn zero() -> (r: Pubkey)
        ensures
            r.is_zero(),
    {
        let bytes = [0u8; 32];
        proof {
            assert(bytes@ =~= Seq::new(32, |i: int| 0u8));
        }
        Pubkey { bytes }
    }
}

} // verus!
