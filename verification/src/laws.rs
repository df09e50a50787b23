use vstd::prelude::*;
use vstd::bytes::{spec_u64_from_le_bytes, spec_u64_to_le_bytes};

use crate::account::{
    AccountInfo, ASSOCIATED_TOKEN_PROGRAM_ID, ESCROW_PROGRAM_ID, TOKEN_2022_PROGRAM_ID, TOKEN_PROGRAM_ID,
};
use crate::anchor_escrow::Refund as AnchorRefund;
use crate::cpi::CpiSpec;
use crate::error::EscrowError;
use crate::instructions::make::{escrow_address, spec_make_data, Make};
use crate::instructions::make::spec_make_accounts_check;
use crate::instructions::refund::{spec_refund_accounts_check, spec_refund_init, spec_refund_process, RefundAccounts};
use crate::instructions::take::{spec_take_accounts_check, spec_take_init, spec_take_process, TakeAccounts};
use crate::pda::{derived_program_address, lemma_find_then_create, spec_find_program_address};
use crate::state::{
    escrow_bytes, lemma_escrow_bytes_roundtrip, spec_escrow_key_check, spec_escrow_seeds, stored_receive,
    stored_signer_seeds, Escrow,
};
use crate::vault::{spec_route_vault_instruction, VaultInstruction};
use crate::{spec_route_instruction, EscrowInstruction};

verus! {

broadcast use vstd::array::group_array_axioms;

/// The little-endian `u64` that `data` holds from byte `offset`.
pub open spec fn le_u64_at(data: Seq<u8>, offset: int) -> u64 {
    spec_u64_from_le_bytes(data.subrange(offset, offset + 8))
}

/// The seeds, as raw bytes, with which the escrow whose data is `data` is
/// signed for: `"escrow"`, the maker's address, the eight bytes of the seed
/// and the one byte of the bump that the data holds.
pub open spec fn raw_escrow_signer_seeds(maker: Seq<u8>, data: Seq<u8>) -> Seq<Seq<u8>> {
    seq![seq![101u8, 115u8, 99u8, 114u8, 111u8, 119u8], maker, data.subrange(0, 8), data.subrange(112, 113)]
}

/// The seeds the escrow check derives with are the raw bytes of the escrow's
/// data, and they are within the limits of a derivation.
proof fn lemma_signer_seeds_are_raw_bytes(maker: Seq<u8>, data: Seq<u8>)
    requires
        maker.len() == 32,
        data.len() == 113,
    ensures
        stored_signer_seeds(maker, data) == raw_escrow_signer_seeds(maker, data),
        crate::pda::seeds_within_limits(raw_escrow_signer_seeds(maker, data)),
{
    vstd::bytes::lemma_auto_spec_u64_to_from_le_bytes();
    assert(spec_u64_to_le_bytes(spec_u64_from_le_bytes(data.subrange(0, 8))) == data.subrange(0, 8));
    let raw = raw_escrow_signer_seeds(maker, data);
    assert(stored_signer_seeds(maker, data) =~= raw);
    assert forall|i: int| 0 <= i < raw.len() implies #[trigger] raw[i].len() <= 32 by {
        if i == 0 {
        } else if i == 1 {
        } else if i == 2 {
        } else {
        }
    }
}

/// An escrow passes the check against its maker exactly when its data has the
/// escrow's length and its address is the program address derived from
/// `"escrow"`, the maker, and the seed and bump bytes it stores.
pub proof fn lemma_escrow_check_is_derivation(maker: AccountInfo, escrow: AccountInfo)
    ensures
        spec_escrow_key_check(maker, escrow) is Ok <==> (escrow.data@.len() == 113 && derived_program_address(
            raw_escrow_signer_seeds(maker.address@, escrow.data@),
            ESCROW_PROGRAM_ID@,
        ) == Some(escrow.address@)),
{
    if escrow.data@.len() == 113 {
        lemma_signer_seeds_are_raw_bytes(maker.address@, escrow.data@);
    }
}

/// Take accepts an offer exactly when the escrow is the maker's (see
/// `lemma_escrow_check_is_derivation`) and the vault is an SPL token account;
/// it then plans, in order: the vault's whole balance (the `u64` at bytes
/// 64..72 of its data) to the taker's A account, signed for by the escrow;
/// the vault closed to the maker; the amount the escrow asks for (the `u64`
/// at bytes 104..112 of its data) from the taker's B account to the maker's B
/// account, signed by the taker; the escrow closed to the maker.
pub proof fn lemma_take_trades_whole_vault_for_asked_amount(a: TakeAccounts)
    ensures
        spec_take_process(a) is Ok <==> (a.escrow.data@.len() == 113 && derived_program_address(
            raw_escrow_signer_seeds(a.maker.address@, a.escrow.data@),
            ESCROW_PROGRAM_ID@,
        ) == Some(a.escrow.address@) && a.vault.data@.len() == 165 && a.vault.owner@ == TOKEN_PROGRAM_ID@),
        spec_take_process(a) is Ok ==> {
            let calls = spec_take_process(a)->Ok_0;
            let seeds = raw_escrow_signer_seeds(a.maker.address@, a.escrow.data@);
            &&& calls.len() == 4
            &&& calls[0] == CpiSpec::Transfer {
                from: a.vault.address@,
                to: a.taker_ata_a.address@,
                authority: a.escrow.address@,
                amount: le_u64_at(a.vault.data@, 64),
                signer_seeds: seeds,
            }
            &&& calls[1] == CpiSpec::CloseAccount {
                account: a.vault.address@,
                destination: a.maker.address@,
                authority: a.escrow.address@,
                signer_seeds: seeds,
            }
            &&& calls[2] == CpiSpec::Transfer {
                from: a.taker_ata_b.address@,
                to: a.maker_ata_b.address@,
                authority: a.taker.address@,
                amount: le_u64_at(a.escrow.data@, 104),
                signer_seeds: Seq::empty(),
            }
            &&& calls[3] == CpiSpec::CloseProgramAccount { account: a.escrow.address@, destination: a.maker.address@ }
        },
{
    lemma_escrow_check_is_derivation(*a.maker, *a.escrow);
    if a.escrow.data@.len() == 113 {
        lemma_signer_seeds_are_raw_bytes(a.maker.address@, a.escrow.data@);
    }
}

/// Refund withdraws an offer exactly when the escrow is the maker's and the
/// vault is an SPL token account; it then plans, in order: the vault's whole
/// balance (the `u64` at bytes 64..72 of its data) back to the maker's A
/// account, signed for by the escrow, so that the vault is empty; the vault
/// closed to the maker; the escrow closed to the maker.
pub proof fn lemma_refund_returns_whole_vault(a: RefundAccounts)
    ensures
        spec_refund_process(a) is Ok <==> (a.escrow.data@.len() == 113 && derived_program_address(
            raw_escrow_signer_seeds(a.maker.address@, a.escrow.data@),
            ESCROW_PROGRAM_ID@,
        ) == Some(a.escrow.address@) && a.vault.data@.len() == 165 && a.vault.owner@ == TOKEN_PROGRAM_ID@),
        spec_refund_process(a) is Ok ==> {
            let calls = spec_refund_process(a)->Ok_0;
            let seeds = raw_escrow_signer_seeds(a.maker.address@, a.escrow.data@);
            &&& calls.len() == 3
            &&& calls[0] == CpiSpec::Transfer {
                from: a.vault.address@,
                to: a.maker_ata_a.address@,
                authority: a.escrow.address@,
                amount: le_u64_at(a.vault.data@, 64),
                signer_seeds: seeds,
            }
            &&& calls[1] == CpiSpec::CloseAccount {
                account: a.vault.address@,
                destination: a.maker.address@,
                authority: a.escrow.address@,
                signer_seeds: seeds,
            }
            &&& calls[2] == CpiSpec::CloseProgramAccount { account: a.escrow.address@, destination: a.maker.address@ }
        },
{
    lemma_escrow_check_is_derivation(*a.maker, *a.escrow);
    if a.escrow.data@.len() == 113 {
        lemma_signer_seeds_are_raw_bytes(a.maker.address@, a.escrow.data@);
    }
}

/// What Make stores is what its instruction said: for a Make whose
/// parameters were read from instruction data `data`, the escrow bytes it
/// writes hold the eight seed bytes of `data` (bytes 0..8), the maker's and the
/// two mints' addresses, the eight bytes of the amount asked for (bytes 8..16
/// of `data`) unchanged, and the bump it found; the amount it moves is the
/// `u64` at bytes 16..24 of `data`, never 0.
pub proof fn lemma_make_stores_instruction_terms(m: Make, data: Seq<u8>)
    requires
        spec_make_data(data) == Ok::<(u64, u64, u64), EscrowError>(
            (m.instruction_data.seed, m.instruction_data.receive, m.instruction_data.amount),
        ),
    ensures
        data.len() == 24,
        escrow_bytes(m.terms()).len() == 113,
        escrow_bytes(m.terms()).subrange(0, 8) == data.subrange(0, 8),
        escrow_bytes(m.terms()).subrange(8, 40) == m.accounts.maker.address@,
        escrow_bytes(m.terms()).subrange(40, 72) == m.accounts.mint_a.address@,
        escrow_bytes(m.terms()).subrange(72, 104) == m.accounts.mint_b.address@,
        escrow_bytes(m.terms()).subrange(104, 112) == data.subrange(8, 16),
        escrow_bytes(m.terms())[112] == m.bump,
        m.instruction_data.amount == le_u64_at(data, 16),
        m.instruction_data.amount != 0,
{
    vstd::bytes::lemma_auto_spec_u64_to_from_le_bytes();
    let t = m.terms();
    let s = escrow_bytes(t);
    lemma_escrow_bytes_roundtrip(t, t);
    assert(s.subrange(0, 8) =~= spec_u64_to_le_bytes(t.seed));
    assert(s.subrange(104, 112) =~= spec_u64_to_le_bytes(t.receive));
    assert(spec_u64_to_le_bytes(spec_u64_from_le_bytes(data.subrange(0, 8))) == data.subrange(0, 8));
    assert(spec_u64_to_le_bytes(spec_u64_from_le_bytes(data.subrange(8, 16))) == data.subrange(8, 16));
    assert(t.bump@ == s.subrange(112, 113));
}

/// The Anchor refund gives the vault's whole balance back: its first call is
/// a checked transfer of exactly `vault_amount` from the vault to the maker's
/// A account with mint A's decimals, then the vault is closed to the maker;
/// both are signed for with `"escrow"`, the maker, the seed's eight
/// little-endian bytes and the bump.
pub proof fn lemma_anchor_refund_returns_whole_vault(r: AnchorRefund)
    ensures
        r.spec_refund_tokens().len() == 2,
        r.spec_refund_tokens()[0] == (CpiSpec::TransferChecked {
            from: r.vault@,
            mint: r.mint_a@,
            to: r.maker_ata_a@,
            authority: r.escrow@,
            amount: r.vault_amount,
            decimals: r.mint_a_decimals,
            signer_seeds: seq![
                seq![101u8, 115u8, 99u8, 114u8, 111u8, 119u8],
                r.maker@,
                spec_u64_to_le_bytes(r.escrow_seed),
                seq![r.escrow_bump],
            ],
        }),
        r.spec_refund_tokens()[1] == (CpiSpec::CloseAccount {
            account: r.vault@,
            destination: r.maker@,
            authority: r.escrow@,
            signer_seeds: seq![
                seq![101u8, 115u8, 99u8, 114u8, 111u8, 119u8],
                r.maker@,
                spec_u64_to_le_bytes(r.escrow_seed),
                seq![r.escrow_bump],
            ],
        }),
{
    assert(r.signer_seeds() =~= seq![
        seq![101u8, 115u8, 99u8, 114u8, 111u8, 119u8],
        r.maker@,
        spec_u64_to_le_bytes(r.escrow_seed),
        seq![r.escrow_bump],
    ]);
}

/// The escrow program routes on the first byte alone: 0 is Make, 1 Take,
/// 2 Refund, whatever follows; no data or any other first byte is refused.
pub proof fn lemma_route_by_first_byte(data: Seq<u8>)
    ensures
        data.len() >= 1 && data[0] == 0 ==> spec_route_instruction(data) == Ok::<EscrowInstruction, EscrowError>(
            EscrowInstruction::Make,
        ),
        data.len() >= 1 && data[0] == 1 ==> spec_route_instruction(data) == Ok::<EscrowInstruction, EscrowError>(
            EscrowInstruction::Take,
        ),
        data.len() >= 1 && data[0] == 2 ==> spec_route_instruction(data) == Ok::<EscrowInstruction, EscrowError>(
            EscrowInstruction::Refund,
        ),
        data.len() == 0 || data[0] > 2 ==> spec_route_instruction(data) == Err::<EscrowInstruction, EscrowError>(
            EscrowError::InvalidInstructionData,
        ),
{
}

/// Two instructions with the same first byte are routed alike, however the
/// rest of their data differs.
pub proof fn lemma_route_ignores_rest(a: Seq<u8>, b: Seq<u8>)
    requires
        a.len() >= 1,
        b.len() >= 1,
        a[0] == b[0],
    ensures
        spec_route_instruction(a) == spec_route_instruction(b),
        spec_route_vault_instruction(a) == spec_route_vault_instruction(b),
{
}

/// The vault program routes on the first byte alone: 0 is Deposit,
/// 1 Withdraw, whatever follows; no data or any other first byte is refused.
pub proof fn lemma_route_vault_by_first_byte(data: Seq<u8>)
    ensures
        data.len() >= 1 && data[0] == 0 ==> spec_route_vault_instruction(data) == Ok::<VaultInstruction, EscrowError>(
            VaultInstruction::Deposit,
        ),
        data.len() >= 1 && data[0] == 1 ==> spec_route_vault_instruction(data) == Ok::<VaultInstruction, EscrowError>(
            VaultInstruction::Withdraw,
        ),
        data.len() == 0 || data[0] > 1 ==> spec_route_vault_instruction(data) == Err::<VaultInstruction, EscrowError>(
            EscrowError::InvalidInstructionData,
        ),
{
}

/// An offer opened by Make is one that Take and Refund accept: an escrow
/// created at the address that Make found for the maker and seed, holding the
/// terms that Make wrote with the bump it found, passes the check that Take and
/// Refund make against the same maker; the seeds they sign with are the ones
/// Make created it with, and the amount a taker pays is the one the maker
/// asked for.
pub proof fn lemma_made_escrow_is_accepted(maker: AccountInfo, escrow: AccountInfo, terms: Escrow)
    requires
        terms.maker@ == maker.address@,
        escrow_address(maker.address@, terms.seed) matches Some((address, bump)) && escrow.address@ == address
            && terms.bump@ == seq![bump],
        escrow.data@ == escrow_bytes(terms),
    ensures
        spec_escrow_key_check(maker, escrow) is Ok,
        stored_signer_seeds(maker.address@, escrow.data@) == spec_escrow_seeds(maker.address@, terms.seed).push(terms.bump@),
        stored_receive(escrow.data@) == terms.receive,
{
    lemma_escrow_bytes_roundtrip(terms, terms);
    lemma_find_then_create(spec_escrow_seeds(maker.address@, terms.seed), ESCROW_PROGRAM_ID@);
    let seeds = spec_escrow_seeds(maker.address@, terms.seed);
    assert(stored_signer_seeds(maker.address@, escrow.data@) == seeds.push(terms.bump@));
}

/// `account` is a mint: of the SPL Token program with a mint's 82 bytes, or of
/// the Token-2022 program with 82 bytes or with extensions whose account type
/// (byte 165) is a mint's (1).
pub open spec fn is_mint(account: AccountInfo) -> bool {
    ||| account.owner@ == TOKEN_PROGRAM_ID@ && account.data@.len() == 82
    ||| account.owner@ == TOKEN_2022_PROGRAM_ID@ && (account.data@.len() == 82 || (account.data@.len() > 165
        && account.data@[165] == 1))
}

/// `account` is the associated token account of `wallet` for `mint`: the token
/// program is SPL Token or Token-2022 and owns it, its data is a token
/// account's (165 bytes, or Token-2022 extensions with account type 2 at byte
/// 165), and its address is the canonical program address of the associated
/// token account program for the wallet, the token program and the mint.
pub open spec fn is_associated_token_account(
    account: AccountInfo,
    wallet: AccountInfo,
    mint: AccountInfo,
    token_program: AccountInfo,
) -> bool {
    &&& token_program.address@ == TOKEN_PROGRAM_ID@ || token_program.address@ == TOKEN_2022_PROGRAM_ID@
    &&& account.owner@ == token_program.address@
    &&& account.data@.len() == 165 || (account.owner@ == TOKEN_2022_PROGRAM_ID@ && account.data@.len() > 165
        && account.data@[165] == 2)
    &&& spec_find_program_address(
        seq![wallet.address@, token_program.address@, mint.address@],
        ASSOCIATED_TOKEN_PROGRAM_ID@,
    ) matches Some((address, _)) && address == account.address@
}

/// `account` is an escrow: owned by the escrow program, with 113 bytes of data.
pub open spec fn is_escrow_account(account: AccountInfo) -> bool {
    account.owner@ == ESCROW_PROGRAM_ID@ && account.data@.len() == 113
}

/// The associated token account check accepts exactly the associated token
/// accounts.
pub proof fn lemma_ata_check_accepts_associated_accounts(
    account: AccountInfo,
    wallet: AccountInfo,
    mint: AccountInfo,
    token_program: AccountInfo,
)
    ensures
        crate::helpers::spec_ata_check(account, wallet, mint, token_program) is Ok <==> is_associated_token_account(
            account,
            wallet,
            mint,
            token_program,
        ),
        crate::helpers::spec_mint_check(mint) is Ok <==> is_mint(mint),
        crate::helpers::spec_program_account_check(account) is Ok <==> is_escrow_account(account),
        crate::helpers::spec_signer_check(account) is Ok <==> account.is_signer,
{
}

/// Make takes exactly nine accounts, refuses a maker who did not sign, and
/// accepts only when the maker signed, both mints are mints and the maker's
/// A account is the maker's associated token account for mint A.
pub proof fn lemma_make_accounts_accepted(a: Seq<AccountInfo>)
    ensures
        a.len() != 9 ==> spec_make_accounts_check(a) == Err::<(), EscrowError>(EscrowError::NotEnoughAccountKeys),
        a.len() == 9 && !a[0].is_signer ==> spec_make_accounts_check(a) == Err::<(), EscrowError>(
            EscrowError::MissingRequiredSignature,
        ),
        spec_make_accounts_check(a) is Ok <==> (a.len() == 9 && a[0].is_signer && is_mint(a[2]) && is_mint(a[3])
            && is_associated_token_account(a[4], a[0], a[2], a[7])),
{
    if a.len() == 9 {
        lemma_ata_check_accepts_associated_accounts(a[4], a[0], a[2], a[7]);
        lemma_ata_check_accepts_associated_accounts(a[4], a[0], a[3], a[7]);
    }
}

/// Take takes exactly twelve accounts, refuses a taker who did not sign, and
/// accepts only when the taker signed, the escrow is one, both mints are
/// mints, the taker's B account is the taker's associated token account for
/// mint B and the vault is the escrow's for mint A.
pub proof fn lemma_take_accounts_accepted(a: Seq<AccountInfo>)
    ensures
        a.len() != 12 ==> spec_take_accounts_check(a) == Err::<(), EscrowError>(EscrowError::NotEnoughAccountKeys),
        a.len() == 12 && !a[0].is_signer ==> spec_take_accounts_check(a) == Err::<(), EscrowError>(
            EscrowError::MissingRequiredSignature,
        ),
        spec_take_accounts_check(a) is Ok <==> (a.len() == 12 && a[0].is_signer && is_escrow_account(a[2]) && is_mint(a[3])
            && is_mint(a[4]) && is_associated_token_account(a[7], a[0], a[4], a[10]) && is_associated_token_account(
            a[5],
            a[2],
            a[3],
            a[10],
        )),
{
    if a.len() == 12 {
        lemma_ata_check_accepts_associated_accounts(a[7], a[0], a[4], a[10]);
        lemma_ata_check_accepts_associated_accounts(a[5], a[2], a[3], a[10]);
        lemma_ata_check_accepts_associated_accounts(a[2], a[0], a[3], a[10]);
    }
}

/// Refund takes exactly eight accounts, refuses a maker who did not sign, and
/// accepts only when the maker signed, the escrow is one, mint A is a mint and
/// the vault is the escrow's associated token account for mint A.
pub proof fn lemma_refund_accounts_accepted(a: Seq<AccountInfo>)
    ensures
        a.len() != 8 ==> spec_refund_accounts_check(a) == Err::<(), EscrowError>(EscrowError::NotEnoughAccountKeys),
        a.len() == 8 && !a[0].is_signer ==> spec_refund_accounts_check(a) == Err::<(), EscrowError>(
            EscrowError::MissingRequiredSignature,
        ),
        spec_refund_accounts_check(a) is Ok <==> (a.len() == 8 && a[0].is_signer && is_escrow_account(a[1]) && is_mint(
            a[2],
        ) && is_associated_token_account(a[3], a[1], a[2], a[6])),
{
    if a.len() == 8 {
        lemma_ata_check_accepts_associated_accounts(a[3], a[1], a[2], a[6]);
        lemma_ata_check_accepts_associated_accounts(a[1], a[0], a[2], a[6]);
    }
}

/// The creation of an associated token account of `wallet` for `mint`, paid
/// for by `payer`.
pub open spec fn create_ata_call(
    account: AccountInfo,
    wallet: AccountInfo,
    mint: AccountInfo,
    payer: AccountInfo,
    system_program: AccountInfo,
    token_program: AccountInfo,
) -> CpiSpec {
    CpiSpec::CreateAssociatedTokenAccount {
        funding_account: payer.address@,
        account: account.address@,
        wallet: wallet.address@,
        mint: mint.address@,
        system_program: system_program.address@,
        token_program: token_program.address@,
    }
}

/// Before the trade, Take creates, paid for by the taker, the taker's A
/// account and then the maker's B account, each only where it is not already
/// the right associated token account.
pub proof fn lemma_take_creates_missing_accounts(a: TakeAccounts)
    ensures
        ({
            let taker_a = if is_associated_token_account(*a.taker_ata_a, *a.taker, *a.mint_a, *a.token_program) {
                Seq::<CpiSpec>::empty()
            } else {
                seq![create_ata_call(*a.taker_ata_a, *a.taker, *a.mint_a, *a.taker, *a.system_program, *a.token_program)]
            };
            let maker_b = if is_associated_token_account(*a.maker_ata_b, *a.maker, *a.mint_b, *a.token_program) {
                Seq::<CpiSpec>::empty()
            } else {
                seq![create_ata_call(*a.maker_ata_b, *a.maker, *a.mint_b, *a.taker, *a.system_program, *a.token_program)]
            };
            spec_take_init(a) == taker_a + maker_b
        }),
{
    lemma_ata_check_accepts_associated_accounts(*a.taker_ata_a, *a.taker, *a.mint_a, *a.token_program);
    lemma_ata_check_accepts_associated_accounts(*a.maker_ata_b, *a.maker, *a.mint_b, *a.token_program);
}

/// Before the refund, Refund creates, paid for by the maker, the maker's A
/// account, only where it is not already the right associated token account.
pub proof fn lemma_refund_creates_missing_account(a: RefundAccounts)
    ensures
        is_associated_token_account(*a.maker_ata_a, *a.maker, *a.mint_a, *a.token_program) ==> spec_refund_init(a)
            == Seq::<CpiSpec>::empty(),
        !is_associated_token_account(*a.maker_ata_a, *a.maker, *a.mint_a, *a.token_program) ==> spec_refund_init(a)
            == seq![create_ata_call(*a.maker_ata_a, *a.maker, *a.mint_a, *a.maker, *a.system_program, *a.token_program)],
{
    lemma_ata_check_accepts_associated_accounts(*a.maker_ata_a, *a.maker, *a.mint_a, *a.token_program);
}

} // verus!

