use vstd::prelude::*;

verus! {

/// A 32-byte account address. The all-zero address marks an unused slot.
#[derive(Debug, Clone, Copy)]
pub struct Pubkey {
    pub bytes: [u8; 32],
}

/// The all-zero address.
pub open spec fn zero_key() -> Pubkey {
    Pubkey { bytes: vstd::array::spec_array_fill_for_copy_type::<u8, 32>(0u8) }
}

/// The zero address is the only all-zero address.
pub proof fn lemma_zero_key()
    ensures
        zero_key().is_zero(),
        forall|k: Pubkey| k.is_zero() ==> k == zero_key(),
{
    assert(zero_key().is_zero());
    assert forall|k: Pubkey| k.is_zero() implies k == zero_key() by {
        Pubkey::lemma_zero_unique(k, zero_key());
    }
}

impl Pubkey {
    /// Whether this is the all-zero address.
    pub open spec fn is_zero(self) -> bool {
        forall|i: int| 0 <= i < 32 ==> #[trigger] self.bytes@[i] == 0
    }

    /// Builds an address from its bytes.
    pub fn new_from_array(bytes: [u8; 32]) -> (key: Pubkey)
        ensures
            key.bytes == bytes,
    {
        Pubkey { bytes }
    }

    /// The all-zero address.
    pub fn zero() -> (key: Pubkey)
        ensures
            key == zero_key(),
            key.is_zero(),
    {
        proof {
            lemma_zero_key();
        }
        let bytes = [0u8; 32];
        Pubkey { bytes }
    }

    /// Whether this is the all-zero address.
    pub fn is_default(&self) -> (b: bool)
        ensures
            b == self.is_zero(),
    {
        let mut i: usize = 0;
        while i < 32
            invariant
                i <= 32,
                forall|j: int| 0 <= j < i ==> self.bytes@[j] == 0,
            decreases 32 - i,
        {
            if self.bytes[i] != 0 {
                return false;
            }
            i = i + 1;
        }
        true
    }

    /// Two addresses with the same bytes are the same address.
    pub proof fn lemma_bytes_eq(a: Pubkey, b: Pubkey)
        requires
            a.bytes@ == b.bytes@,
        ensures
            a == b,
    {
        assert(a.bytes =~= b.bytes);
    }

    /// Any two all-zero addresses are equal.
    pub proof fn lemma_zero_unique(a: Pubkey, b: Pubkey)
        requires
            a.is_zero(),
            b.is_zero(),
        ensures
            a == b,
    {
        assert(a.bytes@ =~= b.bytes@);
        Pubkey::lemma_bytes_eq(a, b);
    }
}

impl PartialEq for Pubkey {
    fn eq(&self, other: &Pubkey) -> (b: bool) {
        let mut i: usize = 0;
        while i < 32
            invariant
                i <= 32,
                forall|j: int| 0 <= j < i ==> self.bytes@[j] == other.bytes@[j],
            decreases 32 - i,
        {
            if self.bytes[i] != other.bytes[i] {
                return false;
            }
            i = i + 1;
        }
        proof {
            assert(self.bytes@ =~= other.bytes@);
            Pubkey::lemma_bytes_eq(*self, *other);
        }
        true
    }
}

impl Eq for Pubkey {
}

impl Default for Pubkey {
    /// The all-zero address.
    fn default() -> (key: Pubkey)
        ensures
            key == zero_key(),
    {
        Pubkey::zero()
    }
}

impl vstd::std_specs::cmp::PartialEqSpecImpl for Pubkey {
    open spec fn obeys_eq_spec() -> bool {
        true
    }

    open spec fn eq_spec(&self, other: &Pubkey) -> bool {
        *self == *other
    }
}

} // verus!
