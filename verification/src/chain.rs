//! What the ledger takes from the chain's SDK: account keys and the system
//! program's transfer instruction. Nothing in this file is proved; each item
//! says what it takes on trust.

use vstd::prelude::*;
use anchor_lang::prelude::Pubkey;
use anchor_lang::solana_program::instruction::Instruction;

verus! {

/// `Pubkey`, the 32-byte address of an account. The ledger only stores keys,
/// hands them on and compares them; it never looks inside one.
#[verifier::external_type_specification]
#[verifier::external_body]
pub struct ExPubkey(Pubkey);

/// `Instruction`, a request to another program. The ledger builds one and
/// hands it to the caller unread.
#[verifier::external_type_specification]
#[verifier::external_body]
pub struct ExInstruction(Instruction);

/// The instruction that `system_instruction::transfer` builds for moving
/// `lamports` from the account `from` to the account `to`. These three values
/// alone determine it. As the SDK builds it, it is addressed to the system
/// program, lists `from` as a writable signer and `to` as a writable account,
/// and carries the amount in its data; none of that is stated here.
pub uninterp spec fn system_transfer(from: Pubkey, to: Pubkey, lamports: u64) -> Instruction;

/// Calls `Pubkey`'s `==`, which `Pubkey` derives over its 32 bytes. Trusted:
/// the result is true exactly when the two keys are the same address.
#[verifier::external_body]
pub(crate) fn same_key(a: &Pubkey, b: &Pubkey) -> (same: bool)
    ensures
        same == (*a == *b),
{
    a == b
}

/// Calls `system_instruction::transfer`. Trusted: the instruction returned is
/// the one that `system_transfer` names for the same payer, payee and amount.
#[verifier::external_body]
pub(crate) fn transfer_instruction(from: &Pubkey, to: &Pubkey, lamports: u64) -> (ix: Instruction)
    ensures
        ix == system_transfer(*from, *to, lamports),
{
    anchor_lang::solana_program::system_instruction::transfer(from, to, lamports)
}

} // verus!
