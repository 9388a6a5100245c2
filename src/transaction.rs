//! The account of a governed transaction that holds a single instruction signed
//! by a single signer, and its fixed binary layout.
use vstd::prelude::*;
use vstd::bytes::{
    lemma_auto_spec_u16_to_from_le_bytes, lemma_auto_spec_u64_to_from_le_bytes,
    spec_u16_from_le_bytes, spec_u16_to_le_bytes, spec_u64_from_le_bytes, spec_u64_to_le_bytes,
    u16_from_le_bytes, u16_to_le_bytes, u64_from_le_bytes, u64_to_le_bytes,
};

use crate::bytes::{read_array, write_at};

verus! {

/// The largest instruction a transaction account holds, in bytes.
pub const MAX_INSTRUCTION_DATA: usize = 450;

/// The most accounts an instruction may name.
pub const MAX_ACCOUNTS_ALLOWED: usize = 12;

/// The size of a packed transaction account: the fields, then reserved space.
pub const CUSTOM_SINGLE_SIGNER_LEN: usize = 762;

/// The size of the fields of a packed transaction account.
pub const CUSTOM_SINGLE_SIGNER_FIELDS_LEN: usize = 462;

/// The kinds of account that the governance program keeps.
#[derive(Clone, Copy, Debug, PartialEq, Eq, Structural)]
pub enum GovernanceAccountType {
    Uninitialized,
    Governance,
    Proposal,
    ProposalState,
    VoteRecord,
    CustomSingleSignerTransaction,
}

/// Why an account could not be read or written.
#[derive(Clone, Copy, Debug, PartialEq, Eq, Structural)]
pub enum PackError {
    /// The buffer's size or contents do not form such an account.
    InvalidAccountData,
    /// The account has not been initialized.
    UninitializedAccount,
}

/// A transaction with a single instruction signed by a single signer.
#[derive(Clone, Copy, Debug)]
pub struct CustomSingleSignerTransaction {
    /// The kind of account.
    pub account_type: GovernanceAccountType,
    /// Slots to wait between the end of voting and execution.
    pub delay_slots: u64,
    /// The serialized instruction.
    pub instruction: [u8; MAX_INSTRUCTION_DATA],
    /// Index of the instruction's last byte.
    pub instruction_end_index: u16,
    /// Whether the transaction has been executed (1) or not (0).
    pub executed: u8,
}

/// The kind of account that the first byte of a transaction account names.
pub open spec fn transaction_type_of(b: u8) -> Option<GovernanceAccountType> {
    if b == 0 {
        Some(GovernanceAccountType::Uninitialized)
    } else if b == 5 {
        Some(GovernanceAccountType::CustomSingleSignerTransaction)
    } else {
        None
    }
}

/// The kinds of account that a transaction account may hold.
pub open spec fn is_transaction_type(t: GovernanceAccountType) -> bool {
    t == GovernanceAccountType::Uninitialized || t == GovernanceAccountType::CustomSingleSignerTransaction
}

/// The byte that stands for a kind of transaction account.
pub open spec fn transaction_type_code(t: GovernanceAccountType) -> u8 {
    if t == GovernanceAccountType::CustomSingleSignerTransaction {
        5
    } else {
        0
    }
}

/// The packed fields of `t`: kind, delay, instruction, executed flag and end
/// index, integers little-endian.
pub open spec fn transaction_layout(t: CustomSingleSignerTransaction) -> Seq<u8> {
    seq![transaction_type_code(t.account_type)] + spec_u64_to_le_bytes(t.delay_slots) + t.instruction@
        + seq![t.executed] + spec_u16_to_le_bytes(t.instruction_end_index)
}

/// The bytes `s` hold the transaction `t`.
pub open spec fn transaction_decodes_to(s: Seq<u8>, t: CustomSingleSignerTransaction) -> bool {
    &&& transaction_type_of(s[0]) == Some(t.account_type)
    &&& t.delay_slots == spec_u64_from_le_bytes(s.subrange(1, 9))
    &&& t.instruction@ == s.subrange(9, 459)
    &&& t.executed == s[459]
    &&& t.instruction_end_index == spec_u16_from_le_bytes(s.subrange(460, 462))
}

impl PartialEq for CustomSingleSignerTransaction {
    fn eq(&self, other: &CustomSingleSignerTransaction) -> (r: bool) {
        let mut n: usize = 0;
        while n < MAX_INSTRUCTION_DATA
            invariant
                0 <= n <= MAX_INSTRUCTION_DATA,
                forall|j: int| 0 <= j < n ==> self.instruction@[j] == other.instruction@[j],
            decreases MAX_INSTRUCTION_DATA - n,
        {
            if self.instruction[n] != other.instruction[n] {
                return false;
            }
            n += 1;
        }
        assert(self.instruction@ =~= other.instruction@);
        self.delay_slots == other.delay_slots
    }
}

impl vstd::std_specs::cmp::PartialEqSpecImpl for CustomSingleSignerTransaction {
    open spec fn obeys_eq_spec() -> bool {
        true
    }

    /// Two transactions are equal where their instructions and delays are.
    open spec fn eq_spec(&self, other: &CustomSingleSignerTransaction) -> bool {
        self.instruction@ == other.instruction@ && self.delay_slots == other.delay_slots
    }
}

impl CustomSingleSignerTransaction {
    /// The account has been initialized.
    pub fn is_initialized(&self) -> (r: bool)
        ensures
            r == (self.account_type != GovernanceAccountType::Uninitialized),
    {
        self.account_type != GovernanceAccountType::Uninitialized
    }

    /// The size of a packed account.
    pub fn get_packed_len() -> (r: usize)
        ensures
            r == CUSTOM_SINGLE_SIGNER_LEN,
    {
        CUSTOM_SINGLE_SIGNER_LEN
    }

    /// Reads an account from the start of `input`.
    pub fn unpack_from_slice(input: &[u8]) -> (r: Result<CustomSingleSignerTransaction, PackError>)
        requires
            input@.len() >= CUSTOM_SINGLE_SIGNER_LEN,
        ensures
            r is Ok <==> transaction_type_of(input@[0]) is Some,
            r is Err ==> r == Err::<CustomSingleSignerTransaction, PackError>(PackError::InvalidAccountData),
            r is Ok ==> transaction_decodes_to(input@, r.unwrap()),
    {
        let account_type = if input[0] == 0 {
            GovernanceAccountType::Uninitialized
        } else if input[0] == 5 {
            GovernanceAccountType::CustomSingleSignerTransaction
        } else {
            return Err(PackError::InvalidAccountData);
        };
        let delay_slots = u64_from_le_bytes(&input[1..9]);
        let instruction: [u8; MAX_INSTRUCTION_DATA] = read_array(input, 9);
        let executed = input[459];
        let instruction_end_index = u16_from_le_bytes(&input[460..462]);
        Ok(CustomSingleSignerTransaction {
            account_type,
            delay_slots,
            instruction,
            instruction_end_index,
            executed,
        })
    }

    /// Writes the account's fields at the start of `output`, leaving the
    /// reserved space and anything after it.
    pub fn pack_into_slice(&self, output: &mut [u8])
        requires
            old(output)@.len() >= CUSTOM_SINGLE_SIGNER_LEN,
            is_transaction_type(self.account_type),
        ensures
            final(output)@ == transaction_layout(*self) + old(output)@.skip(CUSTOM_SINGLE_SIGNER_FIELDS_LEN as int),
    {
        proof {
            lemma_auto_spec_u64_to_from_le_bytes();
            lemma_auto_spec_u16_to_from_le_bytes();
        }
        let code: u8 = if self.account_type == GovernanceAccountType::CustomSingleSignerTransaction {
            5
        } else {
            0
        };
        let mut fields: Vec<u8> = Vec::new();
        fields.push(code);
        let mut delay = u64_to_le_bytes(self.delay_slots);
        fields.append(&mut delay);
        let mut i: usize = 0;
        while i < MAX_INSTRUCTION_DATA
            invariant
                0 <= i <= MAX_INSTRUCTION_DATA,
                fields@ == seq![code] + spec_u64_to_le_bytes(self.delay_slots) + self.instruction@.take(i as int),
            decreases MAX_INSTRUCTION_DATA - i,
        {
            fields.push(self.instruction[i]);
            assert(self.instruction@.take(i + 1) =~= self.instruction@.take(i as int).push(self.instruction@[i as int]));
            i += 1;
        }
        assert(self.instruction@.take(MAX_INSTRUCTION_DATA as int) =~= self.instruction@);
        fields.push(self.executed);
        let mut end = u16_to_le_bytes(self.instruction_end_index);
        fields.append(&mut end);
        assert(fields@ =~= transaction_layout(*self));
        write_at(output, 0, fields.as_slice());
        assert(old(output)@.take(0) + fields@ + old(output)@.skip(fields@.len() as int)
            =~= transaction_layout(*self) + old(output)@.skip(CUSTOM_SINGLE_SIGNER_FIELDS_LEN as int));
    }

    /// Reads an account from a buffer of exactly the packed size, initialized or not.
    pub fn unpack_unchecked(input: &[u8]) -> (r: Result<CustomSingleSignerTransaction, PackError>)
        ensures
            r is Ok <==> input@.len() == CUSTOM_SINGLE_SIGNER_LEN && transaction_type_of(input@[0]) is Some,
            r is Err ==> r == Err::<CustomSingleSignerTransaction, PackError>(PackError::InvalidAccountData),
            r is Ok ==> transaction_decodes_to(input@, r.unwrap()),
    {
        if input.len() != CUSTOM_SINGLE_SIGNER_LEN {
            return Err(PackError::InvalidAccountData);
        }
        Self::unpack_from_slice(input)
    }

    /// Reads an initialized account from a buffer of exactly the packed size.
    pub fn unpack(input: &[u8]) -> (r: Result<CustomSingleSignerTransaction, PackError>)
        ensures
            r is Ok <==> input@.len() == CUSTOM_SINGLE_SIGNER_LEN && input@[0] == 5,
            !(input@.len() == CUSTOM_SINGLE_SIGNER_LEN && transaction_type_of(input@[0]) is Some)
                ==> r == Err::<CustomSingleSignerTransaction, PackError>(PackError::InvalidAccountData),
            input@.len() == CUSTOM_SINGLE_SIGNER_LEN && input@[0] == 0
                ==> r == Err::<CustomSingleSignerTransaction, PackError>(PackError::UninitializedAccount),
            r is Ok ==> transaction_decodes_to(input@, r.unwrap()),
    {
        let value = Self::unpack_unchecked(input)?;
        if value.is_initialized() {
            Ok(value)
        } else {
            Err(PackError::UninitializedAccount)
        }
    }

    /// Writes `src` into `dst`, which must be exactly the packed size.
    pub fn pack(src: CustomSingleSignerTransaction, dst: &mut [u8]) -> (r: Result<(), PackError>)
        requires
            is_transaction_type(src.account_type),
        ensures
            r is Ok <==> old(dst)@.len() == CUSTOM_SINGLE_SIGNER_LEN,
            r is Err ==> r == Err::<(), PackError>(PackError::InvalidAccountData) && final(dst)@ == old(dst)@,
            r is Ok ==> final(dst)@ == transaction_layout(src) + old(dst)@.skip(CUSTOM_SINGLE_SIGNER_FIELDS_LEN as int),
    {
        if dst.len() != CUSTOM_SINGLE_SIGNER_LEN {
            return Err(PackError::InvalidAccountData);
        }
        src.pack_into_slice(dst);
        Ok(())
    }
}

/// Packing a transaction account and reading it back gives the same account.
pub proof fn lemma_transaction_round_trip(t: CustomSingleSignerTransaction, rest: Seq<u8>)
    requires
        is_transaction_type(t.account_type),
    ensures
        transaction_layout(t).len() == CUSTOM_SINGLE_SIGNER_FIELDS_LEN,
        transaction_decodes_to(transaction_layout(t) + rest, t),
{
    lemma_auto_spec_u64_to_from_le_bytes();
    lemma_auto_spec_u16_to_from_le_bytes();
    let s = transaction_layout(t) + rest;
    assert(s.subrange(1, 9) =~= spec_u64_to_le_bytes(t.delay_slots));
    assert(s.subrange(9, 459) =~= t.instruction@);
    assert(s.subrange(460, 462) =~= spec_u16_to_le_bytes(t.instruction_end_index));
}

} // verus!
