//! The decisions of executing a governed transaction: whether its delay has
//! passed, whether the accounts it names may be used, which bytes hold its
//! instruction, and how the proposal's count of executed transactions moves.
use vstd::prelude::*;

use crate::accounts::{find_program_address, is_derived, key_seed, program_address_of};
use crate::governance::Governance;
use crate::bytes::same_address;
use crate::transaction::{CustomSingleSignerTransaction, MAX_ACCOUNTS_ALLOWED, MAX_INSTRUCTION_DATA};

verus! {

/// Failures of executing a governed transaction.
#[derive(Clone, Copy, Debug, PartialEq, Eq, Structural)]
pub enum TimelockError {
    /// A slot or count left the range of its integer type.
    NumericalOverflow,
    /// The transaction's delay after the end of voting has not passed.
    TooEarlyToExecute,
    /// The instruction names more accounts than allowed.
    TooManyAccountsInInstruction,
    /// An account that signs for the governance is not its authority.
    InvalidGovernanceKey,
    /// The transaction has already been executed.
    TimelockTransactionAlreadyExecuted,
    /// The stored instruction cannot be read.
    InstructionUnpackError,
}

/// The seed that starts the address of a governance's authority: "timelock".
pub open spec fn authority_prefix() -> Seq<u8> {
    seq![116u8, 105u8, 109u8, 101u8, 108u8, 111u8, 99u8, 107u8]
}

/// The seeds of the authority of governance `g`: the prefix, the program id,
/// the governance mint, the council mint (empty where there is none) and the
/// governed program.
pub open spec fn authority_seeds(program_id: Seq<u8>, g: Governance) -> Seq<Seq<u8>> {
    seq![
        authority_prefix(),
        program_id,
        g.governance_mint@,
        match g.council_mint {
            Some(k) => k@,
            None => Seq::empty(),
        },
        g.program@,
    ]
}

/// The address and bump seed of the authority that signs for governance `g`.
pub fn governance_authority(program_id: &[u8; 32], g: &Governance) -> (r: Option<([u8; 32], u8)>)
    ensures
        is_derived(r, program_address_of(authority_seeds(program_id@, *g), program_id@)),
{
    let prefix: Vec<u8> = vec![116u8, 105u8, 109u8, 101u8, 108u8, 111u8, 99u8, 107u8];
    assert(prefix@ =~= authority_prefix());
    let council: Vec<u8> = match &g.council_mint {
        Some(k) => key_seed(k),
        None => {
            let v: Vec<u8> = Vec::new();
            assert(v@ =~= Seq::<u8>::empty());
            v
        },
    };
    let seeds: Vec<Vec<u8>> = vec![
        prefix,
        key_seed(program_id),
        key_seed(&g.governance_mint),
        council,
        key_seed(&g.program),
    ];
    assert(seeds@.map_values(|v: Vec<u8>| v@) =~= authority_seeds(program_id@, *g));
    find_program_address(&seeds, program_id)
}

/// Whether a transaction whose delay is `delay_slots` may run at `slot`, voting
/// having ended at `voting_ended_at`.
pub fn check_execution_time(slot: u64, voting_ended_at: u64, delay_slots: u64) -> (r: Result<(), TimelockError>)
    ensures
        r is Ok <==> slot >= voting_ended_at && slot - voting_ended_at >= delay_slots,
        slot < voting_ended_at ==> r == Err::<(), TimelockError>(TimelockError::NumericalOverflow),
        slot >= voting_ended_at && slot - voting_ended_at < delay_slots
            ==> r == Err::<(), TimelockError>(TimelockError::TooEarlyToExecute),
{
    let elapsed = match slot.checked_sub(voting_ended_at) {
        Some(v) => v,
        None => return Err(TimelockError::NumericalOverflow),
    };
    if elapsed < delay_slots {
        return Err(TimelockError::TooEarlyToExecute);
    }
    Ok(())
}

/// Whether an instruction may name `n` accounts beyond the program and the
/// governance.
pub fn check_extra_accounts(n: u8) -> (r: Result<(), TimelockError>)
    ensures
        r is Ok <==> n <= MAX_ACCOUNTS_ALLOWED - 2,
        r is Err ==> r == Err::<(), TimelockError>(TimelockError::TooManyAccountsInInstruction),
{
    if n as usize > MAX_ACCOUNTS_ALLOWED - 2 {
        return Err(TimelockError::TooManyAccountsInInstruction);
    }
    Ok(())
}

/// Whether the account `key` may sign for the governance whose authority is
/// `authority`.
pub fn check_authority(key: &[u8; 32], authority: &[u8; 32]) -> (r: Result<(), TimelockError>)
    ensures
        r is Ok <==> key@ == authority@,
        r is Err ==> r == Err::<(), TimelockError>(TimelockError::InvalidGovernanceKey),
{
    if !same_address(key, authority) {
        return Err(TimelockError::InvalidGovernanceKey);
    }
    Ok(())
}

/// The number of executed transactions after one more, and whether that
/// completes the proposal's `total`.
pub fn count_execution(executed: u8, total: u8) -> (r: Result<(u8, bool), TimelockError>)
    ensures
        r is Ok <==> executed < u8::MAX,
        r is Err ==> r == Err::<(u8, bool), TimelockError>(TimelockError::NumericalOverflow),
        r is Ok ==> r.unwrap().0 == executed + 1 && r.unwrap().1 == (executed + 1 == total),
{
    let next = match executed.checked_add(1) {
        Some(v) => v,
        None => return Err(TimelockError::NumericalOverflow),
    };
    Ok((next, next == total))
}

impl CustomSingleSignerTransaction {
    /// The bytes of the stored instruction, up to and including its end
    /// index, where the transaction has not been executed yet.
    pub fn instruction_data(&self) -> (r: Result<Vec<u8>, TimelockError>)
        ensures
            r is Ok <==> self.executed != 1 && self.instruction_end_index < MAX_INSTRUCTION_DATA,
            self.executed == 1 ==> r == Err::<Vec<u8>, TimelockError>(TimelockError::TimelockTransactionAlreadyExecuted),
            self.executed != 1 && self.instruction_end_index >= MAX_INSTRUCTION_DATA
                ==> r == Err::<Vec<u8>, TimelockError>(TimelockError::InstructionUnpackError),
            r is Ok ==> r.unwrap()@ == self.instruction@.take(self.instruction_end_index + 1),
    {
        if self.executed == 1 {
            return Err(TimelockError::TimelockTransactionAlreadyExecuted);
        }
        if self.instruction_end_index as usize >= MAX_INSTRUCTION_DATA {
            return Err(TimelockError::InstructionUnpackError);
        }
        let end = self.instruction_end_index as usize + 1;
        let mut out: Vec<u8> = Vec::new();
        let mut i: usize = 0;
        while i < end
            invariant
                0 <= i <= end,
                end <= MAX_INSTRUCTION_DATA,
                out@ == self.instruction@.take(i as int),
            decreases end - i,
        {
            out.push(self.instruction[i]);
            assert(self.instruction@.take(i + 1) =~= self.instruction@.take(i as int).push(self.instruction@[i as int]));
            i += 1;
        }
        Ok(out)
    }
}

} // verus!
