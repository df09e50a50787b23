use vstd::prelude::*;
use vstd::bytes::{spec_u64_from_le_bytes, u64_from_le_bytes};
use vstd::slice::slice_subrange;

use crate::account::{AccountInfo, ESCROW_PROGRAM_ID};
use crate::cpi::{cpis_view, Cpi, CpiSpec};
use crate::error::EscrowError;
use crate::helpers::{
    spec_ata_check, spec_mint_check, spec_signer_check, then_check, AssociatedTokenAccount, MintInterface,
    SignerAccount,
};
use crate::pda::{find_program_address, spec_find_program_address};
use crate::state::{
    escrow_bytes, escrow_seeds, escrow_signer_seeds, lemma_escrow_bytes_roundtrip, spec_escrow_seeds, stored_receive,
    stored_seed, Escrow, ESCROW_LEN,
};

verus! {

/// Accounts that a Make instruction takes, in this order, with one more
/// account at the end that it does not read.
pub const MAKE_ACCOUNTS_LEN: usize = 9;

/// Bytes of a Make instruction's data: seed, amount asked for, amount offered.
pub const MAKE_DATA_LEN: usize = 24;

/// The accounts of a Make instruction.
pub struct MakeAccounts<'a> {
    pub maker: &'a AccountInfo,
    pub escrow: &'a AccountInfo,
    pub mint_a: &'a AccountInfo,
    pub mint_b: &'a AccountInfo,
    pub maker_ata_a: &'a AccountInfo,
    pub vault: &'a AccountInfo,
    pub system_program: &'a AccountInfo,
    pub token_program: &'a AccountInfo,
}

/// What checking the accounts of a Make instruction finds: the count, then
/// that the maker signed, that both mints are mints, and that the maker's
/// token account is the maker's associated token account for mint A.
pub open spec fn spec_make_accounts_check(a: Seq<AccountInfo>) -> Result<(), EscrowError> {
    if a.len() != MAKE_ACCOUNTS_LEN {
        Err(EscrowError::NotEnoughAccountKeys)
    } else {
        then_check(
            spec_signer_check(a[0]),
            then_check(
                spec_mint_check(a[2]),
                then_check(spec_mint_check(a[3]), spec_ata_check(a[4], a[0], a[2], a[7])),
            ),
        )
    }
}

impl<'a> MakeAccounts<'a> {
    /// Each field is the account at its place in `a`.
    pub open spec fn drawn_from(&self, a: Seq<AccountInfo>) -> bool {
        &&& *self.maker == a[0]
        &&& *self.escrow == a[1]
        &&& *self.mint_a == a[2]
        &&& *self.mint_b == a[3]
        &&& *self.maker_ata_a == a[4]
        &&& *self.vault == a[5]
        &&& *self.system_program == a[6]
        &&& *self.token_program == a[7]
    }

    /// Takes the accounts of a Make instruction in order and checks them.
    pub fn try_from(accounts: &'a [AccountInfo]) -> (r: Result<MakeAccounts<'a>, EscrowError>)
        ensures
            spec_make_accounts_check(accounts@) is Err ==> r is Err && r->Err_0 == spec_make_accounts_check(accounts@)->Err_0,
            spec_make_accounts_check(accounts@) is Ok ==> r is Ok && r->Ok_0.drawn_from(accounts@),
    {
        if accounts.len() != MAKE_ACCOUNTS_LEN {
            return Err(EscrowError::NotEnoughAccountKeys);
        }
        let maker = &accounts[0];
        let escrow = &accounts[1];
        let mint_a = &accounts[2];
        let mint_b = &accounts[3];
        let maker_ata_a = &accounts[4];
        let vault = &accounts[5];
        let system_program = &accounts[6];
        let token_program = &accounts[7];
        SignerAccount::check(maker)?;
        MintInterface::check(mint_a)?;
        MintInterface::check(mint_b)?;
        AssociatedTokenAccount::check(maker_ata_a, maker, mint_a, token_program)?;
        Ok(MakeAccounts { maker, escrow, mint_a, mint_b, maker_ata_a, vault, system_program, token_program })
    }
}

/// The parameters of a Make instruction.
#[derive(Debug, Clone, Copy, PartialEq, Eq)]
pub struct MakeInstructionData {
    /// Chosen by the maker; with the maker's address it derives the escrow's address.
    pub seed: u64,
    /// How many B tokens the maker asks for.
    pub receive: u64,
    /// How many A tokens the maker locks in the vault.
    pub amount: u64,
}

/// What the data of a Make instruction holds: three little-endian `u64`s
/// (seed, amount asked for, amount offered), nothing more, with a nonzero
/// amount offered.
pub open spec fn spec_make_data(d: Seq<u8>) -> Result<(u64, u64, u64), EscrowError> {
    if d.len() != MAKE_DATA_LEN {
        Err(EscrowError::InvalidInstructionData)
    } else if spec_u64_from_le_bytes(d.subrange(16, 24)) == 0 {
        Err(EscrowError::InvalidInstructionData)
    } else {
        Ok(
            (
                spec_u64_from_le_bytes(d.subrange(0, 8)),
                spec_u64_from_le_bytes(d.subrange(8, 16)),
                spec_u64_from_le_bytes(d.subrange(16, 24)),
            ),
        )
    }
}

impl MakeInstructionData {
    /// Reads the parameters of a Make instruction. Data of another length
    /// than 24 bytes, or offering 0 tokens, is refused with
    /// `InvalidInstructionData`.
    pub fn try_from(data: &[u8]) -> (r: Result<MakeInstructionData, EscrowError>)
        ensures
            spec_make_data(data@) is Err ==> r is Err && r->Err_0 == spec_make_data(data@)->Err_0,
            spec_make_data(data@) is Ok ==> r is Ok && (r->Ok_0.seed, r->Ok_0.receive, r->Ok_0.amount) == spec_make_data(
                data@,
            )->Ok_0,
    {
        if data.len() != MAKE_DATA_LEN {
            return Err(EscrowError::InvalidInstructionData);
        }
        let seed = u64_from_le_bytes(slice_subrange(data, 0, 8));
        let receive = u64_from_le_bytes(slice_subrange(data, 8, 16));
        let amount = u64_from_le_bytes(slice_subrange(data, 16, 24));
        if amount == 0 {
            return Err(EscrowError::InvalidInstructionData);
        }
        Ok(MakeInstructionData { seed, receive, amount })
    }
}

/// The bytes of Make instruction data with these parameters.
pub open spec fn make_data_bytes(seed: u64, receive: u64, amount: u64) -> Seq<u8> {
    vstd::bytes::spec_u64_to_le_bytes(seed) + vstd::bytes::spec_u64_to_le_bytes(receive) + vstd::bytes::spec_u64_to_le_bytes(
        amount,
    )
}

/// Encoding parameters as Make instruction data and reading them back gives
/// the same parameters, unless the amount offered is 0, which is refused.
pub proof fn lemma_make_data_roundtrip(seed: u64, receive: u64, amount: u64)
    ensures
        amount != 0 ==> spec_make_data(make_data_bytes(seed, receive, amount)) == Ok::<(u64, u64, u64), EscrowError>(
            (seed, receive, amount),
        ),
        amount == 0 ==> spec_make_data(make_data_bytes(seed, receive, amount)) == Err::<(u64, u64, u64), EscrowError>(
            EscrowError::InvalidInstructionData,
        ),
{
    vstd::bytes::lemma_auto_spec_u64_to_from_le_bytes();
    let d = make_data_bytes(seed, receive, amount);
    assert(d.subrange(0, 8) =~= vstd::bytes::spec_u64_to_le_bytes(seed));
    assert(d.subrange(8, 16) =~= vstd::bytes::spec_u64_to_le_bytes(receive));
    assert(d.subrange(16, 24) =~= vstd::bytes::spec_u64_to_le_bytes(amount));
}

/// A checked Make instruction: its accounts, its parameters, and the bump of
/// the escrow's program address.
pub struct Make<'a> {
    pub accounts: MakeAccounts<'a>,
    pub instruction_data: MakeInstructionData,
    pub bump: u8,
}

/// The escrow program's canonical program address and bump for the escrow
/// that the maker at `maker` opens with `seed`.
pub open spec fn escrow_address(maker: Seq<u8>, seed: u64) -> Option<(Seq<u8>, u8)> {
    spec_find_program_address(spec_escrow_seeds(maker, seed), ESCROW_PROGRAM_ID@)
}

impl<'a> Make<'a> {
    /// The first byte of a Make instruction.
    pub const DISCRIMINATOR: u8 = 0;

    /// The terms that this Make writes into the escrow.
    pub open spec fn terms(&self) -> Escrow {
        Escrow {
            seed: self.instruction_data.seed,
            maker: self.accounts.maker.address,
            mint_a: self.accounts.mint_a.address,
            mint_b: self.accounts.mint_b.address,
            receive: self.instruction_data.receive,
            bump: [self.bump],
        }
    }

    /// Checks the accounts, then reads the parameters, then finds the bump of
    /// the escrow's address. Errors come in that order; no bump at all is
    /// refused with `InvalidSeeds`.
    pub fn try_from(data: &[u8], accounts: &'a [AccountInfo]) -> (r: Result<Make<'a>, EscrowError>)
        ensures
            spec_make_accounts_check(accounts@) is Err ==> r is Err && r->Err_0 == spec_make_accounts_check(accounts@)->Err_0,
            spec_make_accounts_check(accounts@) is Ok && spec_make_data(data@) is Err ==> r is Err && r->Err_0
                == spec_make_data(data@)->Err_0,
            spec_make_accounts_check(accounts@) is Ok && spec_make_data(data@) is Ok && !(escrow_address(
                accounts@[0].address@,
                spec_make_data(data@)->Ok_0.0,
            ) is Some) ==> r is Err && r->Err_0 == EscrowError::InvalidSeeds,
            r is Ok ==> {
                &&& spec_make_accounts_check(accounts@) is Ok
                &&& r->Ok_0.accounts.drawn_from(accounts@)
                &&& spec_make_data(data@) == Ok::<(u64, u64, u64), EscrowError>(
                    (r->Ok_0.instruction_data.seed, r->Ok_0.instruction_data.receive, r->Ok_0.instruction_data.amount),
                )
                &&& escrow_address(accounts@[0].address@, r->Ok_0.instruction_data.seed) matches Some((_, bump))
                    && bump == r->Ok_0.bump
            },
            spec_make_accounts_check(accounts@) is Ok && spec_make_data(data@) is Ok && escrow_address(
                accounts@[0].address@,
                spec_make_data(data@)->Ok_0.0,
            ) is Some ==> r is Ok,
    {
        let accounts = MakeAccounts::try_from(accounts)?;
        let instruction_data = MakeInstructionData::try_from(data)?;
        let seeds = escrow_seeds(&accounts.maker.address, instruction_data.seed);
        match find_program_address(&seeds, &ESCROW_PROGRAM_ID) {
            None => Err(EscrowError::InvalidSeeds),
            Some((_address, bump)) => Ok(Make { accounts, instruction_data, bump }),
        }
    }

    /// The calls that open the offer: create the escrow account at its
    /// program address, paid for by the maker, and create the vault, the
    /// escrow's associated token account for mint A.
    pub fn init_cpis(&self) -> (r: Vec<Cpi>)
        ensures
            cpis_view(r@) == seq![
                CpiSpec::CreateProgramAccount {
                    payer: self.accounts.maker.address@,
                    account: self.accounts.escrow.address@,
                    space: ESCROW_LEN as u64,
                    owner: ESCROW_PROGRAM_ID@,
                    signer_seeds: spec_escrow_seeds(self.accounts.maker.address@, self.instruction_data.seed).push(seq![self.bump]),
                },
                CpiSpec::CreateAssociatedTokenAccount {
                    funding_account: self.accounts.maker.address@,
                    account: self.accounts.vault.address@,
                    wallet: self.accounts.escrow.address@,
                    mint: self.accounts.mint_a.address@,
                    system_program: self.accounts.system_program.address@,
                    token_program: self.accounts.token_program.address@,
                },
            ],
    {
        let bump: [u8; 1] = [self.bump];
        assert(bump@ =~= seq![self.bump]);
        let create_escrow = Cpi::CreateProgramAccount {
            payer: self.accounts.maker.address,
            account: self.accounts.escrow.address,
            space: ESCROW_LEN as u64,
            owner: ESCROW_PROGRAM_ID,
            signer_seeds: escrow_signer_seeds(&self.accounts.maker.address, self.instruction_data.seed, &bump),
        };
        let create_vault = AssociatedTokenAccount::init(
            self.accounts.vault,
            self.accounts.mint_a,
            self.accounts.maker,
            self.accounts.escrow,
            self.accounts.system_program,
            self.accounts.token_program,
        );
        let mut cpis: Vec<Cpi> = Vec::new();
        cpis.push(create_escrow);
        cpis.push(create_vault);
        assert(cpis_view(cpis@) =~= seq![create_escrow@, create_vault@]);
        cpis
    }

    /// Writes the offer's terms into the escrow's data and asks for the
    /// offered A tokens to move from the maker's account to the vault,
    /// authorised by the maker. Escrow data of another length than
    /// `ESCROW_LEN` is refused with `InvalidAccountData` and left as it was.
    pub fn process(&self, escrow_data: &mut Vec<u8>) -> (r: Result<Cpi, EscrowError>)
        ensures
            old(escrow_data)@.len() != ESCROW_LEN ==> r is Err && r->Err_0 == EscrowError::InvalidAccountData
                && final(escrow_data)@ == old(escrow_data)@,
            old(escrow_data)@.len() == ESCROW_LEN ==> r is Ok && final(escrow_data)@ == escrow_bytes(self.terms())
                && r->Ok_0@ == (CpiSpec::Transfer {
                    from: self.accounts.maker_ata_a.address@,
                    to: self.accounts.vault.address@,
                    authority: self.accounts.maker.address@,
                    amount: self.instruction_data.amount,
                    signer_seeds: Seq::empty(),
                }),
            old(escrow_data)@.len() == ESCROW_LEN ==> {
                &&& stored_seed(final(escrow_data)@) == self.instruction_data.seed
                &&& final(escrow_data)@.subrange(8, 40) == self.accounts.maker.address@
                &&& final(escrow_data)@.subrange(40, 72) == self.accounts.mint_a.address@
                &&& final(escrow_data)@.subrange(72, 104) == self.accounts.mint_b.address@
                &&& stored_receive(final(escrow_data)@) == self.instruction_data.receive
                &&& final(escrow_data)@[112] == self.bump
            },
    {
        let escrow = Escrow::new(
            self.instruction_data.seed,
            self.accounts.maker.address,
            self.accounts.mint_a.address,
            self.accounts.mint_b.address,
            self.instruction_data.receive,
            [self.bump],
        );
        escrow.write_to(escrow_data)?;
        proof {
            lemma_escrow_bytes_roundtrip(escrow, escrow);
        }
        let signer_seeds: Vec<Vec<u8>> = Vec::new();
        assert(signer_seeds.deep_view() =~= Seq::<Seq<u8>>::empty());
        Ok(Cpi::Transfer {
            from: self.accounts.maker_ata_a.address,
            to: self.accounts.vault.address,
            authority: self.accounts.maker.address,
            amount: self.instruction_data.amount,
            signer_seeds,
        })
    }
}

} // verus!
