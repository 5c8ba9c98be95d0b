use vstd::prelude::*;

verus! {

/// A fixed-length ledger address: the identifier of one account.
pub type Address = [u8; 32];

/// This escrow program's own address: program-owned records carry it as
/// their owning program, and every derived address is computed under it.
pub const PROGRAM_ID: Address = [
    1, 2, 3, 4, 5, 6, 7, 8, 9, 10, 11, 12, 13, 14, 15, 16, 17, 18, 19, 20, 21, 22, 23, 24, 25,
    26, 27, 28, 29, 30, 31, 32,
];

/// The asset-ledger (token) program's address: mints and holding accounts
/// are owned by it.
pub const TOKEN_PROGRAM_ID: Address = [
    6, 221, 246, 225, 215, 101, 161, 147, 217, 203, 225, 70, 206, 235, 121, 172, 28, 180, 133,
    237, 95, 91, 55, 145, 58, 140, 245, 133, 126, 255, 0, 169,
];

/// The associated-holding-account convention's program address: the
/// deterministic per-(owner, mint) holding-account addresses are derived
/// under it.
pub const ASSOCIATED_TOKEN_PROGRAM_ID: Address = [
    140, 151, 37, 143, 78, 36, 137, 241, 187, 61, 16, 41, 20, 142, 13, 131, 11, 90, 19, 153, 218,
    255, 16, 132, 4, 142, 123, 216, 219, 233, 248, 89,
];

/// The system program's address, which is also the owner of every account
/// whose storage has been released back to the runtime.
pub const SYSTEM_PROGRAM_ID: Address = [
    0, 0, 0, 0, 0, 0, 0, 0, 0, 0, 0, 0, 0, 0, 0, 0, 0, 0, 0, 0, 0, 0, 0, 0, 0, 0, 0, 0, 0, 0, 0,
    0,
];

/// Byte-for-byte comparison of two addresses.
pub fn address_eq(a: &Address, b: &Address) -> (r: bool)
    ensures
        r == (a@ == b@),
{
    let mut i: usize = 0;
    while i < 32
        invariant
            i <= 32,
            forall|j: int| 0 <= j < i ==> a@[j] == b@[j],
        decreases 32 - i,
    {
        if a[i] != b[i] {
            return false;
        }
        i = i + 1;
    }
    proof {
        assert(a@ =~= b@);
    }
    true
}

} // verus!
