//! The governance account: the configuration that governs one program, and its
//! fixed binary layout.
use vstd::prelude::*;
use vstd::bytes::{
    lemma_auto_spec_u32_to_from_le_bytes, lemma_auto_spec_u64_to_from_le_bytes,
    spec_u32_from_le_bytes, spec_u32_to_le_bytes, spec_u64_from_le_bytes, spec_u64_to_le_bytes,
    u32_from_le_bytes, u32_to_le_bytes, u64_from_le_bytes, u64_to_le_bytes,
};

use crate::bytes::{push_bytes, read_array, write_at};
use crate::transaction::{GovernanceAccountType, PackError};

verus! {

/// The length of a governance's name, in bytes.
pub const GOVERNANCE_NAME_LENGTH: usize = 32;

/// The size of a packed governance account: the fields, then reserved space.
pub const GOVERNANCE_LEN: usize = 446;

/// The size of the fields of a packed governance account.
pub const GOVERNANCE_FIELDS_LEN: usize = 151;

/// The configuration that governs one program.
#[derive(Clone, Copy, Debug)]
pub struct Governance {
    /// The kind of account.
    pub account_type: GovernanceAccountType,
    /// Voting threshold, in percent, required to tip the vote.
    pub vote_threshold: u8,
    /// Slots from the creation of a proposal before an instruction may be placed.
    pub minimum_slot_waiting_period: u64,
    /// The governance mint.
    pub governance_mint: [u8; 32],
    /// The council mint, if any.
    pub council_mint: Option<[u8; 32]>,
    /// The program that this governance governs.
    pub program: [u8; 32],
    /// Slots for which a proposal is open to voting.
    pub time_limit: u64,
    /// The name.
    pub name: [u8; GOVERNANCE_NAME_LENGTH],
    /// How many proposals have been made.
    pub proposal_count: u32,
}

/// The kind of account that the first byte of a governance account names.
pub open spec fn governance_type_of(b: u8) -> Option<GovernanceAccountType> {
    if b == 0 {
        Some(GovernanceAccountType::Uninitialized)
    } else if b == 1 {
        Some(GovernanceAccountType::Governance)
    } else {
        None
    }
}

/// The kinds of account that a governance account may hold.
pub open spec fn is_governance_type(t: GovernanceAccountType) -> bool {
    t == GovernanceAccountType::Uninitialized || t == GovernanceAccountType::Governance
}

/// The byte that stands for a kind of governance account.
pub open spec fn governance_type_code(t: GovernanceAccountType) -> u8 {
    if t == GovernanceAccountType::Governance {
        1
    } else {
        0
    }
}

/// An optional key as 33 bytes: a tag (1 present, 0 absent), then the key or zeros.
pub open spec fn option_key_layout(k: Option<[u8; 32]>) -> Seq<u8> {
    match k {
        Some(key) => seq![1u8] + key@,
        None => seq![0u8] + Seq::new(32, |i: int| 0u8),
    }
}

/// The 33 bytes `s` hold the optional key `k`.
pub open spec fn option_key_decodes_to(s: Seq<u8>, k: Option<[u8; 32]>) -> bool {
    match k {
        Some(key) => s[0] == 1 && key@ == s.subrange(1, 33),
        None => s[0] == 0,
    }
}

/// The packed fields of `g`, integers little-endian.
pub open spec fn governance_layout(g: Governance) -> Seq<u8> {
    seq![governance_type_code(g.account_type), g.vote_threshold]
        + spec_u64_to_le_bytes(g.minimum_slot_waiting_period)
        + g.governance_mint@
        + option_key_layout(g.council_mint)
        + g.program@
        + spec_u64_to_le_bytes(g.time_limit)
        + g.name@
        + spec_u32_to_le_bytes(g.proposal_count)
}

/// The bytes `s` hold the governance `g`.
pub open spec fn governance_decodes_to(s: Seq<u8>, g: Governance) -> bool {
    &&& governance_type_of(s[0]) == Some(g.account_type)
    &&& g.vote_threshold == s[1]
    &&& g.minimum_slot_waiting_period == spec_u64_from_le_bytes(s.subrange(2, 10))
    &&& g.governance_mint@ == s.subrange(10, 42)
    &&& option_key_decodes_to(s.subrange(42, 75), g.council_mint)
    &&& g.program@ == s.subrange(75, 107)
    &&& g.time_limit == spec_u64_from_le_bytes(s.subrange(107, 115))
    &&& g.name@ == s.subrange(115, 147)
    &&& g.proposal_count == spec_u32_from_le_bytes(s.subrange(147, 151))
}

/// The tag byte of an optional key is one that a reader accepts.
pub open spec fn is_option_tag(b: u8) -> bool {
    b == 0 || b == 1
}

impl Governance {
    /// The account has been initialized.
    pub fn is_initialized(&self) -> (r: bool)
        ensures
            r == (self.account_type != GovernanceAccountType::Uninitialized),
    {
        self.account_type != GovernanceAccountType::Uninitialized
    }

    /// The size of a packed account.
    pub fn get_packed_len() -> (r: usize)
        ensures
            r == GOVERNANCE_LEN,
    {
        GOVERNANCE_LEN
    }

    /// Reads an account from the start of `input`.
    pub fn unpack_from_slice(input: &[u8]) -> (r: Result<Governance, PackError>)
        requires
            input@.len() >= GOVERNANCE_LEN,
        ensures
            r is Ok <==> governance_type_of(input@[0]) is Some && is_option_tag(input@[42]),
            r is Err ==> r == Err::<Governance, PackError>(PackError::InvalidAccountData),
            r is Ok ==> governance_decodes_to(input@, r.unwrap()),
    {
        let account_type = if input[0] == 0 {
            GovernanceAccountType::Uninitialized
        } else if input[0] == 1 {
            GovernanceAccountType::Governance
        } else {
            return Err(PackError::InvalidAccountData);
        };
        let council_mint: Option<[u8; 32]> = if input[42] == 0 {
            None
        } else if input[42] == 1 {
            Some(read_array(input, 43))
        } else {
            return Err(PackError::InvalidAccountData);
        };
        let g = Governance {
            account_type,
            vote_threshold: input[1],
            minimum_slot_waiting_period: u64_from_le_bytes(&input[2..10]),
            governance_mint: read_array(input, 10),
            council_mint,
            program: read_array(input, 75),
            time_limit: u64_from_le_bytes(&input[107..115]),
            name: read_array(input, 115),
            proposal_count: u32_from_le_bytes(&input[147..151]),
        };
        assert(input@.subrange(42, 75).subrange(1, 33) =~= input@.subrange(43, 75));
        Ok(g)
    }

    /// Writes the account's fields at the start of `output`, leaving the
    /// reserved space and anything after it.
    pub fn pack_into_slice(&self, output: &mut [u8])
        requires
            old(output)@.len() >= GOVERNANCE_LEN,
            is_governance_type(self.account_type),
        ensures
            final(output)@ == governance_layout(*self) + old(output)@.skip(GOVERNANCE_FIELDS_LEN as int),
    {
        proof {
            lemma_auto_spec_u64_to_from_le_bytes();
            lemma_auto_spec_u32_to_from_le_bytes();
        }
        let code: u8 = if self.account_type == GovernanceAccountType::Governance {
            1
        } else {
            0
        };
        let mut fields: Vec<u8> = Vec::new();
        fields.push(code);
        fields.push(self.vote_threshold);
        let mut slots = u64_to_le_bytes(self.minimum_slot_waiting_period);
        fields.append(&mut slots);
        push_bytes(&mut fields, self.governance_mint.as_slice());
        match self.council_mint {
            Some(key) => {
                fields.push(1u8);
                push_bytes(&mut fields, key.as_slice());
            },
            None => {
                fields.push(0u8);
                let zeros: [u8; 32] = [0u8; 32];
                assert(zeros@ =~= Seq::new(32, |i: int| 0u8));
                push_bytes(&mut fields, zeros.as_slice());
            },
        }
        push_bytes(&mut fields, self.program.as_slice());
        let mut limit = u64_to_le_bytes(self.time_limit);
        fields.append(&mut limit);
        push_bytes(&mut fields, self.name.as_slice());
        let mut count = u32_to_le_bytes(self.proposal_count);
        fields.append(&mut count);
        assert(fields@ =~= governance_layout(*self));
        write_at(output, 0, fields.as_slice());
        assert(old(output)@.take(0) + fields@ + old(output)@.skip(fields@.len() as int)
            =~= governance_layout(*self) + old(output)@.skip(GOVERNANCE_FIELDS_LEN as int));
    }

    /// Reads an account from a buffer of exactly the packed size, initialized or not.
    pub fn unpack_unchecked(input: &[u8]) -> (r: Result<Governance, PackError>)
        ensures
            r is Ok <==> input@.len() == GOVERNANCE_LEN && governance_type_of(input@[0]) is Some
                && is_option_tag(input@[42]),
            r is Err ==> r == Err::<Governance, PackError>(PackError::InvalidAccountData),
            r is Ok ==> governance_decodes_to(input@, r.unwrap()),
    {
        if input.len() != GOVERNANCE_LEN {
            return Err(PackError::InvalidAccountData);
        }
        Self::unpack_from_slice(input)
    }

    /// Reads an initialized account from a buffer of exactly the packed size.
    pub fn unpack(input: &[u8]) -> (r: Result<Governance, PackError>)
        ensures
            r is Ok <==> input@.len() == GOVERNANCE_LEN && input@[0] == 1 && is_option_tag(input@[42]),
            !(input@.len() == GOVERNANCE_LEN && governance_type_of(input@[0]) is Some && is_option_tag(input@[42]))
                ==> r == Err::<Governance, PackError>(PackError::InvalidAccountData),
            input@.len() == GOVERNANCE_LEN && input@[0] == 0 && is_option_tag(input@[42])
                ==> r == Err::<Governance, PackError>(PackError::UninitializedAccount),
            r is Ok ==> governance_decodes_to(input@, r.unwrap()),
    {
        let value = Self::unpack_unchecked(input)?;
        if value.is_initialized() {
            Ok(value)
        } else {
            Err(PackError::UninitializedAccount)
        }
    }

    /// Writes `src` into `dst`, which must be exactly the packed size.
    pub fn pack(src: Governance, dst: &mut [u8]) -> (r: Result<(), PackError>)
        requires
            is_governance_type(src.account_type),
        ensures
            r is Ok <==> old(dst)@.len() == GOVERNANCE_LEN,
            r is Err ==> r == Err::<(), PackError>(PackError::InvalidAccountData) && final(dst)@ == old(dst)@,
            r is Ok ==> final(dst)@ == governance_layout(src) + old(dst)@.skip(GOVERNANCE_FIELDS_LEN as int),
    {
        if dst.len() != GOVERNANCE_LEN {
            return Err(PackError::InvalidAccountData);
        }
        src.pack_into_slice(dst);
        Ok(())
    }
}

/// Packing a governance account and reading it back gives the same account.
pub proof fn lemma_governance_round_trip(g: Governance, rest: Seq<u8>)
    requires
        is_governance_type(g.account_type),
    ensures
        governance_layout(g).len() == GOVERNANCE_FIELDS_LEN,
        governance_decodes_to(governance_layout(g) + rest, g),
{
    lemma_auto_spec_u64_to_from_le_bytes();
    lemma_auto_spec_u32_to_from_le_bytes();
    let s = governance_layout(g) + rest;
    assert(s.subrange(2, 10) =~= spec_u64_to_le_bytes(g.minimum_slot_waiting_period));
    assert(s.subrange(10, 42) =~= g.governance_mint@);
    assert(s.subrange(42, 75) =~= option_key_layout(g.council_mint));
    if let Some(key) = g.council_mint {
        assert(s.subrange(42, 75).subrange(1, 33) =~= key@);
    }
    assert(s.subrange(75, 107) =~= g.program@);
    assert(s.subrange(107, 115) =~= spec_u64_to_le_bytes(g.time_limit));
    assert(s.subrange(115, 147) =~= g.name@);
    assert(s.subrange(147, 151) =~= spec_u32_to_le_bytes(g.proposal_count));
}

} // verus!
