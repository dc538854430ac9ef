//! Account identifiers as the ledger encodes them: 32 raw bytes.

use vstd::prelude::*;

verus! {

/// A ledger account identifier. The ledger's wire form of an account is a
/// fixed 32-byte string; this type carries exactly those bytes.
#[derive(Clone, Debug)]
pub struct AccountId {
    pub bytes: Vec<u8>,
}

impl AccountId {
    /// An account identifier is well formed when it holds exactly 32 bytes.
    pub open spec fn wf(&self) -> bool {
        self.bytes@.len() == 32
    }

    /// Build an account identifier from its 32 raw bytes.
    pub fn from_bytes(bytes: Vec<u8>) -> (r: Result<AccountId, ()>)
        ensures
            bytes@.len() == 32 <==> r is Ok,
            r matches Ok(a) ==> a.bytes@ == bytes@ && a.wf(),
    {
        if bytes.len() == 32 {
            Ok(AccountId { bytes })
        } else {
            Err(())
        }
    }

    /// Copy the identifier; the copy holds the same bytes.
    pub fn duplicate(&self) -> (r: AccountId)
        ensures
            r.bytes@ == self.bytes@,
    {
        let bytes = self.bytes.clone();
        proof {
            assert(bytes@ =~= self.bytes@);
        }
        AccountId { bytes }
    }
}

} // verus!
