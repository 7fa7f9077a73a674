use vstd::prelude::*;

verus! {

/// The 32-byte identity of a wallet or of a contract.
#[derive(Debug, Clone, Copy)]
pub struct AccountId(pub [u8; 32]);

impl AccountId {
    /// The account whose identity is the given bytes.
    pub fn from_bytes(bytes: [u8; 32]) -> (r: AccountId)
        ensures
            r.0 == bytes,
    {
        AccountId(bytes)
    }

    /// The 32 bytes of the identity.
    pub fn to_bytes(&self) -> (r: [u8; 32])
        ensures
            r == self.0,
    {
        self.0
    }
}

/// Two identities are the same account when all their bytes agree.
impl PartialEq for AccountId {
    fn eq(&self, other: &AccountId) -> (r: bool) {
        let mut i: usize = 0;
        while i < 32
            invariant
                i <= 32,
                forall|j: int| 0 <= j < i ==> self.0[j] == other.0[j],
            decreases 32 - i,
        {
            if self.0[i] != other.0[i] {
                return false;
            }
            i = i + 1;
        }
        assert(self.0 =~= other.0);
        true
    }
}

impl vstd::std_specs::cmp::PartialEqSpecImpl for AccountId {
    open spec fn obeys_eq_spec() -> bool {
        true
    }

    open spec fn eq_spec(&self, other: &AccountId) -> bool {
        *self == *other
    }
}

impl Eq for AccountId {}

} // verus!
