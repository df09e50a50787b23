use vstd::prelude::*;

use crate::account::AccountInfo;
use crate::cpi::{cpis_view, Cpi, CpiSpec};
use crate::error::EscrowError;
use crate::helpers::{
    spec_ata_check, spec_create_ata, spec_mint_check, spec_program_account_check, spec_signer_check,
    spec_token_amount, then_check, AssociatedTokenAccount, MintInterface, ProgramAccount, SignerAccount, TokenAccount,
};
use crate::state::{escrow_signer_seeds, load_checked, spec_escrow_key_check, stored_receive, stored_signer_seeds};

verus! {

/// Accounts that a Take instruction takes, in this order, with one more
/// account at the end that it does not read.
pub const TAKE_ACCOUNTS_LEN: usize = 12;

/// The accounts of a Take instruction.
pub struct TakeAccounts<'a> {
    pub taker: &'a AccountInfo,
    pub maker: &'a AccountInfo,
    pub escrow: &'a AccountInfo,
    pub mint_a: &'a AccountInfo,
    pub mint_b: &'a AccountInfo,
    pub vault: &'a AccountInfo,
    pub taker_ata_a: &'a AccountInfo,
    pub taker_ata_b: &'a AccountInfo,
    pub maker_ata_b: &'a AccountInfo,
    pub system_program: &'a AccountInfo,
    pub token_program: &'a AccountInfo,
}

/// What checking the accounts of a Take instruction finds: the count, then
/// that the taker signed, that the escrow is one, that both mints are mints,
/// that the taker's B account is the taker's associated token account for
/// mint B, and that the vault is the escrow's for mint A.
pub open spec fn spec_take_accounts_check(a: Seq<AccountInfo>) -> Result<(), EscrowError> {
    if a.len() != TAKE_ACCOUNTS_LEN {
        Err(EscrowError::NotEnoughAccountKeys)
    } else {
        then_check(
            spec_signer_check(a[0]),
            then_check(
                spec_program_account_check(a[2]),
                then_check(
                    spec_mint_check(a[3]),
                    then_check(
                        spec_mint_check(a[4]),
                        then_check(spec_ata_check(a[7], a[0], a[4], a[10]), spec_ata_check(a[5], a[2], a[3], a[10])),
                    ),
                ),
            ),
        )
    }
}

impl<'a> TakeAccounts<'a> {
    /// Each field is the account at its place in `a`.
    pub open spec fn drawn_from(&self, a: Seq<AccountInfo>) -> bool {
        &&& *self.taker == a[0]
        &&& *self.maker == a[1]
        &&& *self.escrow == a[2]
        &&& *self.mint_a == a[3]
        &&& *self.mint_b == a[4]
        &&& *self.vault == a[5]
        &&& *self.taker_ata_a == a[6]
        &&& *self.taker_ata_b == a[7]
        &&& *self.maker_ata_b == a[8]
        &&& *self.system_program == a[9]
        &&& *self.token_program == a[10]
    }

    /// Takes the accounts of a Take instruction in order and checks them.
    pub fn try_from(accounts: &'a [AccountInfo]) -> (r: Result<TakeAccounts<'a>, EscrowError>)
        ensures
            spec_take_accounts_check(accounts@) is Err ==> r is Err && r->Err_0 == spec_take_accounts_check(accounts@)->Err_0,
            spec_take_accounts_check(accounts@) is Ok ==> r is Ok && r->Ok_0.drawn_from(accounts@),
    {
        if accounts.len() != TAKE_ACCOUNTS_LEN {
            return Err(EscrowError::NotEnoughAccountKeys);
        }
        let taker = &accounts[0];
        let maker = &accounts[1];
        let escrow = &accounts[2];
        let mint_a = &accounts[3];
        let mint_b = &accounts[4];
        let vault = &accounts[5];
        let taker_ata_a = &accounts[6];
        let taker_ata_b = &accounts[7];
        let maker_ata_b = &accounts[8];
        let system_program = &accounts[9];
        let token_program = &accounts[10];
        SignerAccount::check(taker)?;
        ProgramAccount::check(escrow)?;
        MintInterface::check(mint_a)?;
        MintInterface::check(mint_b)?;
        AssociatedTokenAccount::check(taker_ata_b, taker, mint_b, token_program)?;
        AssociatedTokenAccount::check(vault, escrow, mint_a, token_program)?;
        Ok(TakeAccounts {
            taker,
            maker,
            escrow,
            mint_a,
            mint_b,
            vault,
            taker_ata_a,
            taker_ata_b,
            maker_ata_b,
            system_program,
            token_program,
        })
    }
}

/// A checked Take instruction.
pub struct Take<'a> {
    pub accounts: TakeAccounts<'a>,
}

/// The calls that a Take asks for once the escrow and the vault have been
/// read: the whole vault to the taker, the vault closed to the maker, the
/// amount asked for from the taker to the maker, the escrow closed to the maker.
pub open spec fn spec_take_plan(a: TakeAccounts, amount: u64) -> Seq<CpiSpec> {
    let seeds = stored_signer_seeds(a.maker.address@, a.escrow.data@);
    seq![
        CpiSpec::Transfer {
            from: a.vault.address@,
            to: a.taker_ata_a.address@,
            authority: a.escrow.address@,
            amount: amount,
            signer_seeds: seeds,
        },
        CpiSpec::CloseAccount {
            account: a.vault.address@,
            destination: a.maker.address@,
            authority: a.escrow.address@,
            signer_seeds: seeds,
        },
        CpiSpec::Transfer {
            from: a.taker_ata_b.address@,
            to: a.maker_ata_b.address@,
            authority: a.taker.address@,
            amount: stored_receive(a.escrow.data@),
            signer_seeds: Seq::empty(),
        },
        CpiSpec::CloseProgramAccount { account: a.escrow.address@, destination: a.maker.address@ },
    ]
}

/// What a Take finds: the escrow must be the maker's (see
/// `spec_escrow_key_check`), the vault must be an SPL token account (see
/// `spec_token_amount`); then the calls of `spec_take_plan` for the vault's
/// balance.
pub open spec fn spec_take_process(a: TakeAccounts) -> Result<Seq<CpiSpec>, EscrowError> {
    let key = spec_escrow_key_check(*a.maker, *a.escrow);
    if key is Err {
        Err(key->Err_0)
    } else {
        match spec_token_amount(*a.vault) {
            Err(e) => Err(e),
            Ok(amount) => Ok(spec_take_plan(a, amount)),
        }
    }
}

/// The associated token accounts that a Take creates where they do not pass
/// the check yet: the taker's for mint A, then the maker's for mint B, both
/// paid for by the taker.
pub open spec fn spec_take_init(a: TakeAccounts) -> Seq<CpiSpec> {
    let taker_a = if spec_ata_check(*a.taker_ata_a, *a.taker, *a.mint_a, *a.token_program) is Ok {
        Seq::empty()
    } else {
        seq![spec_create_ata(*a.taker_ata_a, *a.mint_a, *a.taker, *a.taker, *a.system_program, *a.token_program)]
    };
    let maker_b = if spec_ata_check(*a.maker_ata_b, *a.maker, *a.mint_b, *a.token_program) is Ok {
        Seq::empty()
    } else {
        seq![spec_create_ata(*a.maker_ata_b, *a.mint_b, *a.taker, *a.maker, *a.system_program, *a.token_program)]
    };
    taker_a + maker_b
}

impl<'a> Take<'a> {
    /// The first byte of a Take instruction.
    pub const DISCRIMINATOR: u8 = 1;

    /// Takes the accounts of a Take instruction in order and checks them.
    pub fn try_from(accounts: &'a [AccountInfo]) -> (r: Result<Take<'a>, EscrowError>)
        ensures
            spec_take_accounts_check(accounts@) is Err ==> r is Err && r->Err_0 == spec_take_accounts_check(accounts@)->Err_0,
            spec_take_accounts_check(accounts@) is Ok ==> r is Ok && r->Ok_0.accounts.drawn_from(accounts@),
    {
        let accounts = TakeAccounts::try_from(accounts)?;
        Ok(Take { accounts })
    }

    /// The calls that create the token accounts that the trade pays into,
    /// where they are missing.
    pub fn init_cpis(&self) -> (r: Vec<Cpi>)
        ensures
            cpis_view(r@) == spec_take_init(self.accounts),
    {
        let a = &self.accounts;
        let mut cpis: Vec<Cpi> = Vec::new();
        let ghost before = cpis_view(cpis@);
        assert(before =~= Seq::<CpiSpec>::empty());
        match AssociatedTokenAccount::init_if_needed(a.taker_ata_a, a.mint_a, a.taker, a.taker, a.system_program, a.token_program) {
            Some(cpi) => cpis.push(cpi),
            None => {},
        }
        let ghost middle = cpis_view(cpis@);
        match AssociatedTokenAccount::init_if_needed(a.maker_ata_b, a.mint_b, a.taker, a.maker, a.system_program, a.token_program) {
            Some(cpi) => {
                cpis.push(cpi);
                assert(cpis_view(cpis@) =~= middle.push(cpi@));
            },
            None => {},
        }
        assert(cpis_view(cpis@) =~= spec_take_init(self.accounts));
        cpis
    }

    /// Checks the escrow against the maker, reads the vault's balance, and
    /// asks for the trade: the vault's tokens to the taker and the vault
    /// closed, both signed for by the escrow; the amount asked for from the
    /// taker to the maker; the escrow closed to the maker.
    pub fn process(&self) -> (r: Result<Vec<Cpi>, EscrowError>)
        ensures
            spec_take_process(self.accounts) is Err ==> r is Err && r->Err_0 == spec_take_process(self.accounts)->Err_0,
            spec_take_process(self.accounts) is Ok ==> r is Ok && cpis_view(r->Ok_0@) == spec_take_process(self.accounts)->Ok_0,
    {
        let a = &self.accounts;
        let escrow = load_checked(a.maker, a.escrow)?;
        let amount = TokenAccount::from_account_info(a.vault)?.amount();
        let to_taker = Cpi::Transfer {
            from: a.vault.address,
            to: a.taker_ata_a.address,
            authority: a.escrow.address,
            amount,
            signer_seeds: escrow_signer_seeds(&a.maker.address, escrow.seed, &escrow.bump),
        };
        let close_vault = Cpi::CloseAccount {
            account: a.vault.address,
            destination: a.maker.address,
            authority: a.escrow.address,
            signer_seeds: escrow_signer_seeds(&a.maker.address, escrow.seed, &escrow.bump),
        };
        let no_seeds: Vec<Vec<u8>> = Vec::new();
        assert(no_seeds.deep_view() =~= Seq::<Seq<u8>>::empty());
        let to_maker = Cpi::Transfer {
            from: a.taker_ata_b.address,
            to: a.maker_ata_b.address,
            authority: a.taker.address,
            amount: escrow.receive,
            signer_seeds: no_seeds,
        };
        let close_escrow = Cpi::CloseProgramAccount { account: a.escrow.address, destination: a.maker.address };
        let mut cpis: Vec<Cpi> = Vec::new();
        cpis.push(to_taker);
        cpis.push(close_vault);
        cpis.push(to_maker);
        cpis.push(close_escrow);
        assert(cpis_view(cpis@) =~= seq![to_taker@, close_vault@, to_maker@, close_escrow@]);
        assert(cpis_view(cpis@) =~= spec_take_plan(self.accounts, amount));
        Ok(cpis)
    }
}

} // verus!
