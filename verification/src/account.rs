use vstd::prelude::*;

verus! {

/// A 32-byte program or account address.
pub struct Address {
    pub bytes: Vec<u8>,
}

impl Address {
    /// An address holds exactly 32 bytes.
    pub open spec fn wf(&self) -> bool {
        self.bytes@.len() == 32
    }

    pub fn new(bytes: Vec<u8>) -> (r: Address)
        requires
            bytes@.len() == 32,
        ensures
            r.bytes@ == bytes@,
            r.wf(),
    {
        Address { bytes }
    }

    /// An independent copy holding the same bytes.
    pub fn dup(&self) -> (r: Address)
        ensures
            r.bytes@ == self.bytes@,
    {
        let bytes = self.bytes.clone();
        proof {
            assert(bytes@ =~= self.bytes@);
        }
        Address { bytes }
    }

    /// Byte-for-byte equality of two addresses.
    pub fn equals(&self, other: &Address) -> (r: bool)
        ensures
            r == (self.bytes@ == other.bytes@),
    {
        if self.bytes.len() != other.bytes.len() {
            proof {
                assert(self.bytes@ != other.bytes@);
            }
            return false;
        }
        let n = self.bytes.len();
        let mut i: usize = 0;
        while i < n
            invariant
                n == self.bytes@.len(),
                n == other.bytes@.len(),
                i <= n,
                forall|j: int| 0 <= j < i ==> self.bytes@[j] == other.bytes@[j],
            decreases n - i,
        {
            if self.bytes[i] != other.bytes[i] {
                proof {
                    assert(self.bytes@ != other.bytes@);
                }
                return false;
            }
            i += 1;
        }
        proof {
            assert(self.bytes@ =~= other.bytes@);
        }
        true
    }
}

/// The handler-visible view of one account handed in by the runtime:
/// its address, its authorization flags, and its persisted bytes.
pub struct Account {
    pub address: Address,
    pub is_signer: bool,
    pub is_writable: bool,
    pub data: Vec<u8>,
}

} // verus!
