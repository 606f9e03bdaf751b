//! The System Program's transfer: its instruction data (discriminator `2`
//! as a little-endian `u32`, then the lamports as a little-endian `u64`), its
//! accounts, and the unsigned transaction that carries it.
use vstd::prelude::*;

use crate::error::Error;
use crate::rpc::{address_bytes, base58_address, decode_error_about};

use solana_transaction::versioned::VersionedTransaction;

verus! {

/// The `count` low bytes of `n`, least significant first.
pub open spec fn le_bytes(n: nat, count: nat) -> Seq<u8>
    decreases count,
{
    if count == 0 {
        Seq::empty()
    } else {
        seq![(n % 256) as u8] + le_bytes(n / 256, (count - 1) as nat)
    }
}

/// The System Program transfer instruction's data for `lamports`.
pub open spec fn transfer_data(lamports: u64) -> Seq<u8> {
    le_bytes(2, 4) + le_bytes(lamports as nat, 8)
}

/// Appends the `count` low bytes of `n` to `out`, least significant first.
fn push_le(out: &mut Vec<u8>, n: u64, count: usize)
    ensures
        final(out)@ == old(out)@ + le_bytes(n as nat, count as nat),
{
    let mut rest = n;
    let mut i: usize = 0;
    let ghost start = old(out)@;
    while i < count
        invariant
            i <= count,
            start + le_bytes(n as nat, count as nat) == out@ + le_bytes(
                rest as nat,
                (count - i) as nat,
            ),
        decreases count - i,
    {
        let ghost before = out@;
        out.push((rest % 256) as u8);
        assert(out@ + le_bytes((rest / 256) as nat, (count - i - 1) as nat) =~= before
            + le_bytes(rest as nat, (count - i) as nat));
        rest = rest / 256;
        i += 1;
    }
    assert(le_bytes(rest as nat, 0) =~= Seq::<u8>::empty());
    assert(out@ =~= start + le_bytes(n as nat, count as nat));
}

/// Instruction data of `SystemProgram::transfer(lamports)`.
pub fn system_transfer_data(lamports: u64) -> (data: Vec<u8>)
    ensures
        data@ == transfer_data(lamports),
        data@.len() == 12,
{
    let mut data: Vec<u8> = Vec::new();
    push_le(&mut data, 2, 4);
    push_le(&mut data, lamports, 8);
    proof {
        lemma_le_bytes_len(2, 4);
        lemma_le_bytes_len(lamports as nat, 8);
    }
    data
}

/// `le_bytes(n, count)` has `count` bytes.
pub proof fn lemma_le_bytes_len(n: nat, count: nat)
    ensures
        le_bytes(n, count).len() == count,
    decreases count,
{
    if count > 0 {
        lemma_le_bytes_len(n / 256, (count - 1) as nat);
    }
}

/// The number little-endian `bytes` spell.
pub open spec fn from_le(bytes: Seq<u8>) -> nat
    decreases bytes.len(),
{
    if bytes.len() == 0 {
        0
    } else {
        bytes[0] as nat + 256 * from_le(bytes.drop_first())
    }
}

/// The number of values `count` bytes can hold: `256^count`.
pub open spec fn byte_range(count: nat) -> nat
    decreases count,
{
    if count == 0 {
        1
    } else {
        256 * byte_range((count - 1) as nat)
    }
}

/// Reading `count` little-endian bytes of `n` back gives `n` whenever it
/// fits in them.
pub proof fn law_le_bytes_read_back(n: nat, count: nat)
    requires
        n < byte_range(count),
    ensures
        from_le(le_bytes(n, count)) == n,
    decreases count,
{
    if count > 0 {
        let rest = byte_range((count - 1) as nat);
        assert(n / 256 < rest) by (nonlinear_arith)
            requires
                n < 256 * rest,
        ;
        law_le_bytes_read_back(n / 256, (count - 1) as nat);
        let s = le_bytes(n, count);
        assert(s.drop_first() =~= le_bytes(n / 256, (count - 1) as nat));
        assert(n == n % 256 + 256 * (n / 256)) by (nonlinear_arith);
    }
}

/// The transfer data carries the discriminator `2` and the lamports exactly:
/// reading its two little-endian fields back gives them.
pub proof fn law_transfer_data_reads_back(lamports: u64)
    ensures
        from_le(transfer_data(lamports).subrange(0, 4)) == 2,
        from_le(transfer_data(lamports).subrange(4, 12)) == lamports,
{
    lemma_le_bytes_len(2, 4);
    lemma_le_bytes_len(lamports as nat, 8);
    let d = transfer_data(lamports);
    assert(d.subrange(0, 4) =~= le_bytes(2, 4));
    assert(d.subrange(4, 12) =~= le_bytes(lamports as nat, 8));
    reveal_with_fuel(byte_range, 9);
    assert(byte_range(4) == 4294967296);
    assert(byte_range(8) == 18446744073709551616);
    law_le_bytes_read_back(2, 4);
    law_le_bytes_read_back(lamports as nat, 8);
}

/// An account an instruction uses, and how.
#[derive(Debug, Clone, Copy, PartialEq, Eq)]
pub struct AccountRole {
    /// The account's address bytes.
    pub key: [u8; 32],
    /// The transaction must carry this account's signature.
    pub is_signer: bool,
    /// The instruction may change the account.
    pub is_writable: bool,
}

/// The plain values of an account role.
pub open spec fn role_view(a: AccountRole) -> (Seq<u8>, bool, bool) {
    (a.key@, a.is_signer, a.is_writable)
}

/// The plain values of a list of account roles.
pub open spec fn roles_view(v: Seq<AccountRole>) -> Seq<(Seq<u8>, bool, bool)> {
    v.map_values(|a: AccountRole| role_view(a))
}

/// The unsigned transaction of one instruction (program, accounts with
/// their roles, data), paid by `payer`, for `blockhash`, as
/// `Message::new_with_blockhash` compiles it.
pub uninterp spec fn unsigned_transaction(
    program_id: Seq<u8>,
    accounts: Seq<(Seq<u8>, bool, bool)>,
    data: Seq<u8>,
    payer: Seq<u8>,
    blockhash: Seq<u8>,
) -> VersionedTransaction;

/// `Transaction::new_unsigned(Message::new_with_blockhash(&[instruction],
/// Some(&payer), &blockhash)).into()` for the instruction made of
/// `program_id`, `accounts` and `data`. Claimed: the transaction is what
/// `unsigned_transaction` names for these values. The message compiler
/// panics when more than 255 keys would be indexed; `requires` keeps well
/// below that.
#[verifier::external_body]
fn build_unsigned(
    program_id: [u8; 32],
    accounts: &Vec<AccountRole>,
    data: Vec<u8>,
    payer: [u8; 32],
    blockhash: [u8; 32],
) -> (tx: VersionedTransaction)
    requires
        accounts.len() <= 200,
    ensures
        tx == unsigned_transaction(program_id@, roles_view(accounts@), data@, payer@, blockhash@),
{
    let accounts = accounts.iter().map(|a| solana_instruction::AccountMeta {
        pubkey: solana_pubkey::Pubkey::new_from_array(a.key),
        is_signer: a.is_signer,
        is_writable: a.is_writable,
    }).collect();
    let program_id = solana_pubkey::Pubkey::new_from_array(program_id);
    let instruction = solana_instruction::Instruction { program_id, accounts, data };
    let payer = solana_pubkey::Pubkey::new_from_array(payer);
    let blockhash = solana_hash::Hash::new_from_array(blockhash);
    let message = solana_message::Message::new_with_blockhash(&[instruction], Some(&payer), &blockhash);
    solana_transaction::Transaction::new_unsigned(message).into()
}

/// The System Program's address: 32 zero bytes.
pub open spec fn system_program_id() -> Seq<u8> {
    Seq::new(32, |i: int| 0u8)
}

/// A transfer's accounts: the sender signs and pays out, the recipient is
/// credited.
pub open spec fn transfer_roles(from: Seq<u8>, to: Seq<u8>) -> Seq<(Seq<u8>, bool, bool)> {
    seq![(from, true, true), (to, false, true)]
}

/// The accounts of a transfer from `from` to `to`.
pub fn transfer_accounts(from: [u8; 32], to: [u8; 32]) -> (r: Vec<AccountRole>)
    ensures
        roles_view(r@) == transfer_roles(from@, to@),
        r@.len() == 2,
{
    let mut r: Vec<AccountRole> = Vec::new();
    r.push(AccountRole { key: from, is_signer: true, is_writable: true });
    r.push(AccountRole { key: to, is_signer: false, is_writable: true });
    assert(roles_view(r@) =~= transfer_roles(from@, to@));
    r
}

/// The unsigned transaction moving `lamports` from `from` to `to`, paid by
/// `from`, for `blockhash`.
pub fn transfer_transaction(from: [u8; 32], to: [u8; 32], lamports: u64, blockhash: [u8; 32]) -> (tx: VersionedTransaction)
    ensures
        tx == unsigned_transaction(
            system_program_id(),
            transfer_roles(from@, to@),
            transfer_data(lamports),
            from@,
            blockhash@,
        ),
{
    let program_id = [0u8; 32];
    assert(program_id@ =~= system_program_id());
    let accounts = transfer_accounts(from, to);
    build_unsigned(program_id, &accounts, system_transfer_data(lamports), from, blockhash)
}

/// The unsigned transaction moving `lamports` from the account at base58
/// `address` back to itself, for `blockhash`; a `Decode` error when the text
/// is no address.
pub fn self_transfer(address: &str, lamports: u64, blockhash: [u8; 32]) -> (r: Result<VersionedTransaction, Error>)
    ensures
        r is Ok <==> base58_address(address@) is Some,
        r matches Ok(tx) ==> tx == unsigned_transaction(
            system_program_id(),
            transfer_roles(base58_address(address@)->0, base58_address(address@)->0),
            transfer_data(lamports),
            base58_address(address@)->0,
            blockhash@,
        ),
        r matches Err(e) ==> decode_error_about(e@, "address: "@),
{
    let from = address_bytes(address)?;
    Ok(transfer_transaction(from, from, lamports, blockhash))
}

} // verus!
