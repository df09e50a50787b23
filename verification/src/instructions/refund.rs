use vstd::prelude::*;

use crate::account::AccountInfo;
use crate::cpi::{cpis_view, Cpi, CpiSpec};
use crate::error::EscrowError;
use crate::helpers::{
    spec_ata_check, spec_create_ata, spec_mint_check, spec_program_account_check, spec_signer_check,
    spec_token_amount, then_check, AssociatedTokenAccount, MintInterface, ProgramAccount, SignerAccount, TokenAccount,
};
use crate::state::{escrow_signer_seeds, load_checked, spec_escrow_key_check, stored_signer_seeds};

verus! {

/// Accounts that a Refund instruction takes, in this order, with one more
/// account at the end that it does not read.
pub const REFUND_ACCOUNTS_LEN: usize = 8;

/// The accounts of a Refund instruction.
pub struct RefundAccounts<'a> {
    pub maker: &'a AccountInfo,
    pub escrow: &'a AccountInfo,
    pub mint_a: &'a AccountInfo,
    pub vault: &'a AccountInfo,
    pub maker_ata_a: &'a AccountInfo,
    pub system_program: &'a AccountInfo,
    pub token_program: &'a AccountInfo,
}

/// What checking the accounts of a Refund instruction finds: the count, then
/// that the maker signed, that the escrow is one, that mint A is a mint, and
/// that the vault is the escrow's associated token account for mint A.
pub open spec fn spec_refund_accounts_check(a: Seq<AccountInfo>) -> Result<(), EscrowError> {
    if a.len() != REFUND_ACCOUNTS_LEN {
        Err(EscrowError::NotEnoughAccountKeys)
    } else {
        then_check(
            spec_signer_check(a[0]),
            then_check(
                spec_program_account_check(a[1]),
                then_check(spec_mint_check(a[2]), spec_ata_check(a[3], a[1], a[2], a[6])),
            ),
        )
    }
}

impl<'a> RefundAccounts<'a> {
    /// Each field is the account at its place in `a`.
    pub open spec fn drawn_from(&self, a: Seq<AccountInfo>) -> bool {
        &&& *self.maker == a[0]
        &&& *self.escrow == a[1]
        &&& *self.mint_a == a[2]
        &&& *self.vault == a[3]
        &&& *self.maker_ata_a == a[4]
        &&& *self.system_program == a[5]
        &&& *self.token_program == a[6]
    }

    /// Takes the accounts of a Refund instruction in order and checks them.
    pub fn try_from(accounts: &'a [AccountInfo]) -> (r: Result<RefundAccounts<'a>, EscrowError>)
        ensures
            spec_refund_accounts_check(accounts@) is Err ==> r is Err && r->Err_0 == spec_refund_accounts_check(accounts@)->Err_0,
            spec_refund_accounts_check(accounts@) is Ok ==> r is Ok && r->Ok_0.drawn_from(accounts@),
    {
        if accounts.len() != REFUND_ACCOUNTS_LEN {
            return Err(EscrowError::NotEnoughAccountKeys);
        }
        let maker = &accounts[0];
        let escrow = &accounts[1];
        let mint_a = &accounts[2];
        let vault = &accounts[3];
        let maker_ata_a = &accounts[4];
        let system_program = &accounts[5];
        let token_program = &accounts[6];
        SignerAccount::check(maker)?;
        ProgramAccount::check(escrow)?;
        MintInterface::check(mint_a)?;
        AssociatedTokenAccount::check(vault, escrow, mint_a, token_program)?;
        Ok(RefundAccounts { maker, escrow, mint_a, vault, maker_ata_a, system_program, token_program })
    }
}

/// A checked Refund instruction.
pub struct Refund<'a> {
    pub accounts: RefundAccounts<'a>,
}

/// The calls that a Refund asks for once the escrow and the vault have been
/// read: the whole vault back to the maker, the vault closed to the maker, the
/// escrow closed to the maker.
pub open spec fn spec_refund_plan(a: RefundAccounts, amount: u64) -> Seq<CpiSpec> {
    let seeds = stored_signer_seeds(a.maker.address@, a.escrow.data@);
    seq![
        CpiSpec::Transfer {
            from: a.vault.address@,
            to: a.maker_ata_a.address@,
            authority: a.escrow.address@,
            amount: amount,
            signer_seeds: seeds,
        },
        CpiSpec::CloseAccount {
            account: a.vault.address@,
            destination: a.maker.address@,
            authority: a.escrow.address@,
            signer_seeds: seeds,
        },
        CpiSpec::CloseProgramAccount { account: a.escrow.address@, destination: a.maker.address@ },
    ]
}

/// What a Refund finds: the escrow must be the maker's (see
/// `spec_escrow_key_check`), the vault must be an SPL token account (see
/// `spec_token_amount`); then the calls of `spec_refund_plan` for the vault's
/// balance.
pub open spec fn spec_refund_process(a: RefundAccounts) -> Result<Seq<CpiSpec>, EscrowError> {
    let key = spec_escrow_key_check(*a.maker, *a.escrow);
    if key is Err {
        Err(key->Err_0)
    } else {
        match spec_token_amount(*a.vault) {
            Err(e) => Err(e),
            Ok(amount) => Ok(spec_refund_plan(a, amount)),
        }
    }
}

/// The associated token account that a Refund creates where it does not pass
/// the check yet: the maker's for mint A, paid for by the maker.
pub open spec fn spec_refund_init(a: RefundAccounts) -> Seq<CpiSpec> {
    if spec_ata_check(*a.maker_ata_a, *a.maker, *a.mint_a, *a.token_program) is Ok {
        Seq::empty()
    } else {
        seq![spec_create_ata(*a.maker_ata_a, *a.mint_a, *a.maker, *a.maker, *a.system_program, *a.token_program)]
    }
}

impl<'a> Refund<'a> {
    /// The first byte of a Refund instruction.
    pub const DISCRIMINATOR: u8 = 2;

    /// Takes the accounts of a Refund instruction in order and checks them.
    pub fn try_from(accounts: &'a [AccountInfo]) -> (r: Result<Refund<'a>, EscrowError>)
        ensures
            spec_refund_accounts_check(accounts@) is Err ==> r is Err && r->Err_0 == spec_refund_accounts_check(accounts@)->Err_0,
            spec_refund_accounts_check(accounts@) is Ok ==> r is Ok && r->Ok_0.accounts.drawn_from(accounts@),
    {
        let accounts = RefundAccounts::try_from(accounts)?;
        Ok(Refund { accounts })
    }

    /// The call that creates the maker's token account for mint A, where it
    /// is missing.
    pub fn init_cpis(&self) -> (r: Vec<Cpi>)
        ensures
            cpis_view(r@) == spec_refund_init(self.accounts),
    {
        let a = &self.accounts;
        let mut cpis: Vec<Cpi> = Vec::new();
        match AssociatedTokenAccount::init_if_needed(a.maker_ata_a, a.mint_a, a.maker, a.maker, a.system_program, a.token_program) {
            Some(cpi) => cpis.push(cpi),
            None => {},
        }
        assert(cpis_view(cpis@) =~= spec_refund_init(self.accounts));
        cpis
    }

    /// Checks the escrow against the maker, reads the vault's balance, and
    /// asks for the refund: the vault's tokens back to the maker and the vault
    /// closed, both signed for by the escrow; the escrow closed to the maker.
    pub fn process(&self) -> (r: Result<Vec<Cpi>, EscrowError>)
        ensures
            spec_refund_process(self.accounts) is Err ==> r is Err && r->Err_0 == spec_refund_process(self.accounts)->Err_0,
            spec_refund_process(self.accounts) is Ok ==> r is Ok && cpis_view(r->Ok_0@) == spec_refund_process(self.accounts)->Ok_0,
    {
        let a = &self.accounts;
        let escrow = load_checked(a.maker, a.escrow)?;
        let amount = TokenAccount::from_account_info(a.vault)?.amount();
        let to_maker = Cpi::Transfer {
            from: a.vault.address,
            to: a.maker_ata_a.address,
            authority: a.escrow.address,
            amount,
            signer_seeds: escrow_signer_seeds(&a.maker.address, escrow.seed, &escrow.bump),
        };
        let close_vault = Cpi::CloseAccount {
            account: a.vault.address,
            destination: a.maker.address,
            authority: a.escrow.address,
            signer_seeds: escrow_signer_seeds(&a.maker.address, escrow.seed, &escrow.bump),
        };
        let close_escrow = Cpi::CloseProgramAccount { account: a.escrow.address, destination: a.maker.address };
        let mut cpis: Vec<Cpi> = Vec::new();
        cpis.push(to_maker);
        cpis.push(close_vault);
        cpis.push(close_escrow);
        assert(cpis_view(cpis@) =~= seq![to_maker@, close_vault@, close_escrow@]);
        assert(cpis_view(cpis@) =~= spec_refund_plan(self.accounts, amount));
        Ok(cpis)
    }
}

} // verus!
