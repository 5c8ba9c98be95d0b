use vstd::prelude::*;

use crate::addresses::Address;
use crate::error::ProgramError;

verus! {

/// The number of bytes of a persisted escrow record: an 8-byte seed, three
/// 32-byte addresses, an 8-byte amount and a 1-byte bump.
pub const ESCROW_LEN: usize = 113;

/// The persisted state of one trade offer, stored inside a program-owned
/// account's byte buffer.
#[derive(Clone, Copy, Debug, PartialEq, Eq)]
pub struct Escrow {
    /// An arbitrary nonce chosen at creation, used only to make the
    /// record's derived address unique.
    pub seed: u64,
    /// The address of the depositor.
    pub maker: Address,
    /// The asset type deposited into the vault.
    pub mint_a: Address,
    /// The asset type the maker wants in return.
    pub mint_b: Address,
    /// The amount of asset B the maker wants in return.
    pub receive_amount: u64,
    /// The single byte completing the derived-address search.
    pub bump: u8,
}

impl Escrow {
    /// The fixed byte layout of a record: `seed` and `receive_amount`
    /// little-endian, addresses verbatim, `bump` last.
    pub open spec fn spec_bytes(self) -> Seq<u8> {
        vstd::bytes::spec_u64_to_le_bytes(self.seed) + self.maker@ + self.mint_a@ + self.mint_b@
            + vstd::bytes::spec_u64_to_le_bytes(self.receive_amount) + seq![self.bump]
    }

    /// Reads a record out of an account's bytes.  Succeeds exactly on
    /// buffers of the record's fixed length, and the record read is the
    /// one whose layout is the buffer.
    pub fn load(data: &[u8]) -> (r: Result<Escrow, ProgramError>)
        ensures
            data@.len() == ESCROW_LEN ==> (r matches Ok(e) && e.spec_bytes() == data@),
            data@.len() != ESCROW_LEN ==> r == Err::<Escrow, ProgramError>(
                ProgramError::InvalidAccountData,
            ),
    {
        if data.len() != ESCROW_LEN {
            return Err(ProgramError::InvalidAccountData);
        }
        let seed = vstd::bytes::u64_from_le_bytes(vstd::slice::slice_subrange(data, 0, 8));
        let maker = read_address(data, 8);
        let mint_a = read_address(data, 40);
        let mint_b = read_address(data, 72);
        let receive_amount = vstd::bytes::u64_from_le_bytes(
            vstd::slice::slice_subrange(data, 104, 112),
        );
        let bump = *vstd::slice::slice_index_get(data, 112);
        let e = Escrow { seed, maker, mint_a, mint_b, receive_amount, bump };
        proof {
            vstd::bytes::lemma_auto_spec_u64_to_from_le_bytes();
            assert(e.spec_bytes() =~= data@);
        }
        Ok(e)
    }

    /// Writes the record in its fixed layout.
    pub fn to_bytes(&self) -> (r: Vec<u8>)
        ensures
            r@ == self.spec_bytes(),
            r@.len() == ESCROW_LEN,
    {
        let mut out = vstd::bytes::u64_to_le_bytes(self.seed);
        push_address(&mut out, &self.maker);
        push_address(&mut out, &self.mint_a);
        push_address(&mut out, &self.mint_b);
        let mut amount = vstd::bytes::u64_to_le_bytes(self.receive_amount);
        out.append(&mut amount);
        out.push(self.bump);
        proof {
            vstd::bytes::lemma_auto_spec_u64_to_from_le_bytes();
            assert(out@ =~= self.spec_bytes());
        }
        out
    }
}

/// The seed field of a record's bytes.
pub open spec fn spec_record_seed(data: Seq<u8>) -> u64 {
    vstd::bytes::spec_u64_from_le_bytes(data.subrange(0, 8))
}

/// The bump field of a record's bytes.
pub open spec fn spec_record_bump(data: Seq<u8>) -> u8 {
    data[112]
}

/// A record's seed material is read back from the record's own layout.
pub proof fn lemma_record_fields(e: Escrow)
    ensures
        spec_record_seed(e.spec_bytes()) == e.seed,
        spec_record_bump(e.spec_bytes()) == e.bump,
{
    vstd::bytes::lemma_auto_spec_u64_to_from_le_bytes();
    assert(e.spec_bytes().subrange(0, 8) =~= vstd::bytes::spec_u64_to_le_bytes(e.seed));
    assert(e.spec_bytes()[112] == e.bump);
}

/// Copies the 32 bytes at `offset` out of a buffer as an address.
pub fn read_address(data: &[u8], offset: usize) -> (r: Address)
    requires
        offset + 32 <= data@.len(),
    ensures
        r@ == data@.subrange(offset as int, offset as int + 32),
{
    let mut out: Address = [0; 32];
    let n: usize = data.len();
    let mut i: usize = 0;
    while i < 32
        invariant
            i <= 32,
            offset + 32 <= n,
            n == data@.len(),
            forall|j: int| 0 <= j < i ==> out@[j] == data@[offset + j],
        decreases 32 - i,
    {
        out[i] = *vstd::slice::slice_index_get(data, offset + i);
        i = i + 1;
    }
    proof {
        assert(out@ =~= data@.subrange(offset as int, offset as int + 32));
    }
    out
}

/// Appends the 32 bytes of an address to a buffer.
pub fn push_address(out: &mut Vec<u8>, a: &Address)
    ensures
        final(out)@ == old(out)@ + a@,
{
    let mut i: usize = 0;
    while i < 32
        invariant
            i <= 32,
            out@ == old(out)@ + a@.subrange(0, i as int),
        decreases 32 - i,
    {
        out.push(a[i]);
        proof {
            assert(out@ =~= old(out)@ + a@.subrange(0, i as int + 1));
        }
        i = i + 1;
    }
    proof {
        assert(a@.subrange(0, 32) =~= a@);
    }
}

} // verus!
