//! The token account: the mint address, the owning token program and the
//! packed token mask (decimals and the base-currency flag).

use vstd::bytes::*;
use vstd::prelude::*;

use crate::codec::{
    lemma_auto_spec_i64_to_from_le_bytes, lemma_subrange_of_concat_left,
    lemma_subrange_of_concat_right, put_i64, put_u16, put_u32, put_u64, put_u8, read_i64,
    read_u16, read_u32, read_u64, read_u8, spec_i64_from_le_bytes, spec_i64_to_le_bytes,
};
use crate::errors::DeriverseErrorKind;
use crate::types::{AccountType, Address, Discriminator};


verus! {

broadcast use lemma_subrange_of_concat_left, lemma_subrange_of_concat_right;

/// Token State.  The DRVS token always has id 0; the mask packs the
/// token decimals in its low byte and the base-currency flag in bit 30.
#[derive(Clone, Copy, Debug)]
pub struct TokenState {
    pub discriminator: Discriminator,
    pub address: Address,
    pub program_address: Address,
    pub id: u32,
    pub mask: u32,
    pub reserved: u32,
    pub base_crncy_index: u32,
}

pub const TOKEN_ACCOUNT_SIZE: usize = 88;

impl TokenState {
    /// Whether this value is exactly what the `TokenState` image that starts
    /// at byte offset `off` of the buffer holds.
    pub open spec fn matches_wire(self, b: Seq<u8>, off: int) -> bool {
        &&& self.discriminator == Discriminator::wire_at(b, off)
        &&& self.address.0@ == b.subrange(off + 8, off + 40)
        &&& self.program_address.0@ == b.subrange(off + 40, off + 72)
        &&& self.id == spec_u32_from_le_bytes(b.subrange(off + 72, off + 76))
        &&& self.mask == spec_u32_from_le_bytes(b.subrange(off + 76, off + 80))
        &&& self.reserved == spec_u32_from_le_bytes(b.subrange(off + 80, off + 84))
        &&& self.base_crncy_index == spec_u32_from_le_bytes(b.subrange(off + 84, off + 88))
    }

    pub fn read_at(b: &[u8], off: usize) -> (r: TokenState)
        requires
            off + TOKEN_ACCOUNT_SIZE <= b@.len(),
        ensures
            r.matches_wire(b@, off as int),
    {
        let n = b.len();
        assert(off + 88 <= n);
        TokenState {
            discriminator: Discriminator::read_at(b, off),
            address: Address::read_at(b, off + 8),
            program_address: Address::read_at(b, off + 40),
            id: read_u32(b, off + 72),
            mask: read_u32(b, off + 76),
            reserved: read_u32(b, off + 80),
            base_crncy_index: read_u32(b, off + 84),
        }
    }

    pub fn write(&self, out: &mut Vec<u8>)
        ensures
            final(out)@.len() == old(out)@.len() + TOKEN_ACCOUNT_SIZE,
            final(out)@.subrange(0, old(out)@.len() as int) == old(out)@,
            self.matches_wire(final(out)@, old(out)@.len() as int),
    {
        let ghost base = out@;
        put_u32(out, self.discriminator.tag.0);
        put_u32(out, self.discriminator.version.0);
        self.address.write(out);
        self.program_address.write(out);
        put_u32(out, self.id);
        put_u32(out, self.mask);
        put_u32(out, self.reserved);
        put_u32(out, self.base_crncy_index);
        proof {
            lemma_auto_spec_u16_to_from_le_bytes();
            lemma_auto_spec_u32_to_from_le_bytes();
            lemma_auto_spec_u64_to_from_le_bytes();
            lemma_auto_spec_i64_to_from_le_bytes();
            assert(out@ == base + spec_u32_to_le_bytes(self.discriminator.tag.0) + spec_u32_to_le_bytes(self.discriminator.version.0) + self.address.0@ + self.program_address.0@ + spec_u32_to_le_bytes(self.id) + spec_u32_to_le_bytes(self.mask) + spec_u32_to_le_bytes(self.reserved) + spec_u32_to_le_bytes(self.base_crncy_index));
            assert(out@.subrange(base.len() as int, base.len() as int + 4) =~= spec_u32_to_le_bytes(self.discriminator.tag.0));
            assert(out@.subrange(base.len() as int + 4, base.len() as int + 8) =~= spec_u32_to_le_bytes(self.discriminator.version.0));
            assert(out@.subrange(base.len() as int + 8, base.len() as int + 40) =~= self.address.0@);
            assert(out@.subrange(base.len() as int + 40, base.len() as int + 72) =~= self.program_address.0@);
            assert(out@.subrange(base.len() as int + 72, base.len() as int + 76) =~= spec_u32_to_le_bytes(self.id));
            assert(out@.subrange(base.len() as int + 76, base.len() as int + 80) =~= spec_u32_to_le_bytes(self.mask));
            assert(out@.subrange(base.len() as int + 80, base.len() as int + 84) =~= spec_u32_to_le_bytes(self.reserved));
            assert(out@.subrange(base.len() as int + 84, base.len() as int + 88) =~= spec_u32_to_le_bytes(self.base_crncy_index));
            assert(out@.subrange(0, base.len() as int) =~= base);
            assert(self.matches_wire(out@, base.len() as int));
        }
    }

    pub fn encode(&self) -> (r: Vec<u8>)
        ensures
            r@.len() == TOKEN_ACCOUNT_SIZE,
            self.matches_wire(r@, 0),
    {
        let mut out: Vec<u8> = Vec::new();
        self.write(&mut out);
        out
    }

    /// The mint's decimal count, packed into the low byte of the mask.
    pub fn decimals(&self) -> (r: u32)
        ensures
            r == self.mask & 0xFF,
    {
        self.mask & 0xFF
    }

    /// Whether the token is flagged as a base currency (bit 30 of the mask).
    pub fn is_base_crncy(&self) -> (r: bool)
        ensures
            r == (self.mask & 0x40000000 != 0),
    {
        self.mask & 0x40000000 != 0
    }

    /// Re-validates the stored discriminator before any other field of
    /// the buffer may be trusted: the buffer must be long enough, carry
    /// the expected account tag, and carry the expected schema version.
    pub fn load(b: &[u8], address: &Address, expected_version: u32) -> (r: Result<Self, DeriverseErrorKind>)
        ensures
            ({
                let d = Discriminator::wire_at(b@, 0);
                if b@.len() < TOKEN_ACCOUNT_SIZE {
                    r == Err::<Self, DeriverseErrorKind>(DeriverseErrorKind::InvalidAccountSize { address: *address, account_type: AccountType::Token, expected: TOKEN_ACCOUNT_SIZE, actual: b@.len() as usize })
                } else if d.tag.0 != AccountType::Token.spec_as_tag() {
                    r == Err::<Self, DeriverseErrorKind>(DeriverseErrorKind::InvalidAccountTag { expected_account_type: AccountType::Token, actual_tag: d.tag.0, address: *address })
                } else if d.version.0 != expected_version {
                    r == Err::<Self, DeriverseErrorKind>(DeriverseErrorKind::InvalidVersion { address: *address, account_type: AccountType::Token, expected: expected_version, actual: d.version.0 })
                } else {
                    match r {
                        Ok(h) => h.matches_wire(b@, 0),
                        Err(_) => false,
                    }
                }
            }),
    {
        if b.len() < TOKEN_ACCOUNT_SIZE {
            return Err(DeriverseErrorKind::InvalidAccountSize { address: *address, account_type: AccountType::Token, expected: TOKEN_ACCOUNT_SIZE, actual: b.len() });
        }
        let d = Discriminator::read_at(b, 0);
        let tag = AccountType::Token.as_tag();
        if d.tag.0 != tag {
            return Err(DeriverseErrorKind::InvalidAccountTag { expected_account_type: AccountType::Token, actual_tag: d.tag.0, address: *address });
        }
        if d.version.0 != expected_version {
            return Err(DeriverseErrorKind::InvalidVersion { address: *address, account_type: AccountType::Token, expected: expected_version, actual: d.version.0 });
        }
        Ok(Self::read_at(b, 0))
    }
}

} // verus!
