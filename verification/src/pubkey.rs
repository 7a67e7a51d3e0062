use vstd::prelude::*;

verus! {

broadcast use vstd::array::group_array_axioms;

/// Number of bytes in an account address.
pub const PUBKEY_BYTES: usize = 32;

/// An account address: 32 raw bytes.
#[derive(Clone, Copy, Debug)]
pub struct Pubkey(pub [u8; 32]);

impl Pubkey {
    /// The all-zero address, which marks an unused slot in key arrays.
    pub open spec fn spec_default() -> Pubkey {
        Pubkey(vstd::array::spec_array_fill_for_copy_type::<u8, 32>(0u8))
    }

    /// Whether this is the all-zero address.
    pub open spec fn is_default(self) -> bool {
        self == Pubkey::spec_default()
    }

    /// The all-zero address.
    pub fn default_key() -> (k: Pubkey)
        ensures
            k == Pubkey::spec_default(),
    {
        Pubkey([0u8; 32])
    }

    pub fn new_from_array(bytes: [u8; 32]) -> (k: Pubkey)
        ensures
            k.0 == bytes,
    {
        Pubkey(bytes)
    }

    pub fn to_bytes(&self) -> (b: [u8; 32])
        ensures
            b == self.0,
    {
        self.0
    }

    /// Byte-wise equality of two addresses.
    pub fn key_eq(&self, other: &Pubkey) -> (r: bool)
        ensures
            r == (*self == *other),
    {
        let mut i: usize = 0;
        while i < PUBKEY_BYTES
            invariant
                i <= PUBKEY_BYTES,
                forall|j: int| 0 <= j < i ==> self.0[j] == other.0[j],
            decreases PUBKEY_BYTES - i,
        {
            if self.0[i] != other.0[i] {
                return false;
            }
            i = i + 1;
        }
        assert(self.0 =~= other.0);
        true
    }

    /// Whether this is the all-zero address.
    pub fn is_default_key(&self) -> (r: bool)
        ensures
            r == self.is_default(),
    {
        let d = Pubkey::default_key();
        self.key_eq(&d)
    }
}

impl PartialEq for Pubkey {
    fn eq(&self, other: &Pubkey) -> (r: bool) {
        self.key_eq(other)
    }
}

impl Eq for Pubkey {}

impl vstd::std_specs::cmp::PartialEqSpecImpl for Pubkey {
    open spec fn obeys_eq_spec() -> bool {
        true
    }

    open spec fn eq_spec(&self, other: &Pubkey) -> bool {
        *self == *other
    }
}

} // verus!
