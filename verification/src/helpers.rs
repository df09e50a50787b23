use vstd::prelude::*;
use vstd::bytes::{spec_u64_from_le_bytes, u64_from_le_bytes};
use vstd::slice::slice_subrange;

use crate::account::{
    address_eq, address_to_vec, AccountInfo, Address, ASSOCIATED_TOKEN_PROGRAM_ID, ESCROW_PROGRAM_ID,
    SYSTEM_PROGRAM_ID, TOKEN_2022_PROGRAM_ID, TOKEN_PROGRAM_ID,
};
use crate::cpi::{Cpi, CpiSpec};
use crate::error::EscrowError;
use crate::pda::{find_program_address, push_seed, spec_find_program_address};
use crate::state::ESCROW_LEN;

verus! {

/// Bytes of an SPL mint account.
pub const MINT_LEN: usize = 82;

/// Bytes of an SPL token account.
pub const TOKEN_ACCOUNT_LEN: usize = 165;

/// Where a Token-2022 account with extensions stores its account type.
pub const TOKEN_2022_ACCOUNT_TYPE_OFFSET: usize = 165;

/// Token-2022 account type of a mint.
pub const TOKEN_2022_MINT_TYPE: u8 = 1;

/// Token-2022 account type of a token account.
pub const TOKEN_2022_TOKEN_ACCOUNT_TYPE: u8 = 2;

/// Where a token account stores its balance (little-endian `u64`).
pub const TOKEN_ACCOUNT_AMOUNT_OFFSET: usize = 64;

/// The first error of two checks made in turn.
pub open spec fn then_check(first: Result<(), EscrowError>, second: Result<(), EscrowError>) -> Result<(), EscrowError> {
    if first is Err {
        first
    } else {
        second
    }
}

/// The account signed the transaction.
pub open spec fn spec_signer_check(account: AccountInfo) -> Result<(), EscrowError> {
    if account.is_signer {
        Ok(())
    } else {
        Err(EscrowError::MissingRequiredSignature)
    }
}

/// The account is a mint of the SPL Token or the Token-2022 program.
pub open spec fn spec_mint_check(account: AccountInfo) -> Result<(), EscrowError> {
    let len = account.data@.len();
    if account.owner@ == TOKEN_2022_PROGRAM_ID@ {
        if len == MINT_LEN || (len > TOKEN_2022_ACCOUNT_TYPE_OFFSET && account.data@[TOKEN_2022_ACCOUNT_TYPE_OFFSET as int]
            == TOKEN_2022_MINT_TYPE) {
            Ok(())
        } else {
            Err(EscrowError::InvalidAccountData)
        }
    } else if account.owner@ == TOKEN_PROGRAM_ID@ {
        if len == MINT_LEN {
            Ok(())
        } else {
            Err(EscrowError::InvalidAccountData)
        }
    } else {
        Err(EscrowError::InvalidAccountOwner)
    }
}

/// The account is a token account of `token_program`, which is the SPL Token
/// or the Token-2022 program.
pub open spec fn spec_token_account_check(account: AccountInfo, token_program: AccountInfo) -> Result<(), EscrowError> {
    let len = account.data@.len();
    if token_program.address@ != TOKEN_PROGRAM_ID@ && token_program.address@ != TOKEN_2022_PROGRAM_ID@ {
        Err(EscrowError::IncorrectProgramId)
    } else if account.owner@ != token_program.address@ {
        Err(EscrowError::InvalidAccountOwner)
    } else if len == TOKEN_ACCOUNT_LEN || (account.owner@ == TOKEN_2022_PROGRAM_ID@ && len > TOKEN_2022_ACCOUNT_TYPE_OFFSET
        && account.data@[TOKEN_2022_ACCOUNT_TYPE_OFFSET as int] == TOKEN_2022_TOKEN_ACCOUNT_TYPE) {
        Ok(())
    } else {
        Err(EscrowError::InvalidAccountData)
    }
}

/// The seeds of the associated token account of `wallet` for `mint`.
pub open spec fn ata_seeds(wallet: Seq<u8>, token_program: Seq<u8>, mint: Seq<u8>) -> Seq<Seq<u8>> {
    seq![wallet, token_program, mint]
}

/// The account is the associated token account of `authority` for `mint`:
/// a token account whose address is the one the associated token account
/// program derives from the authority, the token program and the mint.
pub open spec fn spec_ata_check(
    account: AccountInfo,
    authority: AccountInfo,
    mint: AccountInfo,
    token_program: AccountInfo,
) -> Result<(), EscrowError> {
    let token_check = spec_token_account_check(account, token_program);
    if token_check is Err {
        token_check
    } else {
        match spec_find_program_address(
            ata_seeds(authority.address@, token_program.address@, mint.address@),
            ASSOCIATED_TOKEN_PROGRAM_ID@,
        ) {
            None => Err(EscrowError::InvalidSeeds),
            Some((address, _bump)) => if address == account.address@ {
                Ok(())
            } else {
                Err(EscrowError::InvalidAddress)
            },
        }
    }
}

/// The account is an escrow: owned by the escrow program, with data of the
/// escrow's length.
pub open spec fn spec_program_account_check(account: AccountInfo) -> Result<(), EscrowError> {
    if account.owner@ != ESCROW_PROGRAM_ID@ {
        Err(EscrowError::InvalidAccountOwner)
    } else if account.data@.len() != ESCROW_LEN {
        Err(EscrowError::InvalidAccountData)
    } else {
        Ok(())
    }
}

/// Checks on an account that must have signed.
pub struct SignerAccount;

impl SignerAccount {
    /// Refuses an account that did not sign with `MissingRequiredSignature`.
    pub fn check(account: &AccountInfo) -> (r: Result<(), EscrowError>)
        ensures
            r == spec_signer_check(*account),
    {
        if account.is_signer {
            Ok(())
        } else {
            Err(EscrowError::MissingRequiredSignature)
        }
    }
}

/// Checks on an account that must be a mint.
pub struct MintInterface;

impl MintInterface {
    /// Refuses an account that no token program owns with
    /// `InvalidAccountOwner`, and one whose data is not a mint's with
    /// `InvalidAccountData`.
    pub fn check(account: &AccountInfo) -> (r: Result<(), EscrowError>)
        ensures
            r == spec_mint_check(*account),
    {
        let len = account.data.len();
        if address_eq(&account.owner, &TOKEN_2022_PROGRAM_ID) {
            if len == MINT_LEN || (len > TOKEN_2022_ACCOUNT_TYPE_OFFSET && account.data[TOKEN_2022_ACCOUNT_TYPE_OFFSET]
                == TOKEN_2022_MINT_TYPE) {
                Ok(())
            } else {
                Err(EscrowError::InvalidAccountData)
            }
        } else if address_eq(&account.owner, &TOKEN_PROGRAM_ID) {
            if len == MINT_LEN {
                Ok(())
            } else {
                Err(EscrowError::InvalidAccountData)
            }
        } else {
            Err(EscrowError::InvalidAccountOwner)
        }
    }
}

/// A token account's mint, owner and balance.
#[derive(Debug, Clone, Copy, PartialEq, Eq)]
pub struct TokenAccount {
    pub mint: Address,
    pub owner: Address,
    pub amount: u64,
}

/// The balance that token account data stores.
pub open spec fn stored_token_amount(data: Seq<u8>) -> u64 {
    spec_u64_from_le_bytes(data.subrange(TOKEN_ACCOUNT_AMOUNT_OFFSET as int, TOKEN_ACCOUNT_AMOUNT_OFFSET + 8))
}

/// What reading an SPL token account gives: data of the wrong length is
/// refused with `InvalidAccountData`, an account that the SPL Token program
/// does not own with `IncorrectProgramId`; otherwise its balance.
pub open spec fn spec_token_amount(account: AccountInfo) -> Result<u64, EscrowError> {
    if account.data@.len() != TOKEN_ACCOUNT_LEN {
        Err(EscrowError::InvalidAccountData)
    } else if account.owner@ != TOKEN_PROGRAM_ID@ {
        Err(EscrowError::IncorrectProgramId)
    } else {
        Ok(stored_token_amount(account.data@))
    }
}

impl TokenAccount {
    /// Reads an SPL token account, as `pinocchio_token`'s token account state
    /// does: length first, then owner, then the fields at their offsets.
    pub fn from_account_info(account: &AccountInfo) -> (r: Result<TokenAccount, EscrowError>)
        ensures
            spec_token_amount(*account) is Err ==> r is Err && r->Err_0 == spec_token_amount(*account)->Err_0,
            spec_token_amount(*account) is Ok ==> r is Ok && r->Ok_0.amount == spec_token_amount(*account)->Ok_0
                && r->Ok_0.mint@ == account.data@.subrange(0, 32) && r->Ok_0.owner@ == account.data@.subrange(32, 64),
    {
        if account.data.len() != TOKEN_ACCOUNT_LEN {
            return Err(EscrowError::InvalidAccountData);
        }
        if !address_eq(&account.owner, &TOKEN_PROGRAM_ID) {
            return Err(EscrowError::IncorrectProgramId);
        }
        let data = account.data.as_slice();
        let mint = read_address_at(data, 0);
        let owner = read_address_at(data, 32);
        let amount = u64_from_le_bytes(slice_subrange(data, TOKEN_ACCOUNT_AMOUNT_OFFSET, TOKEN_ACCOUNT_AMOUNT_OFFSET + 8));
        Ok(TokenAccount { mint, owner, amount })
    }

    /// The balance.
    pub fn amount(&self) -> (r: u64)
        ensures
            r == self.amount,
    {
        self.amount
    }
}

/// Copies 32 bytes of `data` from `offset` into an address.
fn read_address_at(data: &[u8], offset: usize) -> (a: Address)
    requires
        offset + 32 <= data.len(),
    ensures
        a@ == data@.subrange(offset as int, offset + 32),
{
    let mut a: Address = [0u8; 32];
    let mut i: usize = 0;
    while i < 32
        invariant
            i <= 32,
            offset + 32 <= data.len(),
            a@.len() == 32,
            forall|j: int| 0 <= j < i ==> a@[j] == data@[offset + j],
        decreases 32 - i,
    {
        a[i] = data[offset + i];
        i = i + 1;
    }
    assert(a@ =~= data@.subrange(offset as int, offset + 32));
    a
}

/// Checks on, and creation of, associated token accounts.
pub struct AssociatedTokenAccount;

impl AssociatedTokenAccount {
    /// Checks that `account` is a token account of `token_program` at the
    /// address of the associated token account of `authority` for `mint`.
    /// Errors: those of the token account check, then `InvalidAddress` for
    /// another address (`InvalidSeeds` where no address can be derived).
    pub fn check(account: &AccountInfo, authority: &AccountInfo, mint: &AccountInfo, token_program: &AccountInfo) -> (r: Result<
        (),
        EscrowError,
    >)
        ensures
            r == spec_ata_check(*account, *authority, *mint, *token_program),
    {
        let token_check = check_token_account(account, token_program);
        if token_check.is_err() {
            return token_check;
        }
        let mut seeds: Vec<Vec<u8>> = Vec::new();
        assert(seeds.deep_view() =~= Seq::<Seq<u8>>::empty());
        push_seed(&mut seeds, address_to_vec(&authority.address));
        push_seed(&mut seeds, address_to_vec(&token_program.address));
        push_seed(&mut seeds, address_to_vec(&mint.address));
        assert(seeds.deep_view() =~= ata_seeds(authority.address@, token_program.address@, mint.address@));
        match find_program_address(&seeds, &ASSOCIATED_TOKEN_PROGRAM_ID) {
            None => Err(EscrowError::InvalidSeeds),
            Some((address, _bump)) => if address_eq(&address, &account.address) {
                Ok(())
            } else {
                Err(EscrowError::InvalidAddress)
            },
        }
    }

    /// Asks for the associated token account of `owner` for `mint` to be
    /// created, funded by `payer`, unless `account` already passes `check`.
    pub fn init_if_needed(
        account: &AccountInfo,
        mint: &AccountInfo,
        payer: &AccountInfo,
        owner: &AccountInfo,
        system_program: &AccountInfo,
        token_program: &AccountInfo,
    ) -> (r: Option<Cpi>)
        ensures
            spec_ata_check(*account, *owner, *mint, *token_program) is Ok ==> r is None,
            spec_ata_check(*account, *owner, *mint, *token_program) is Err ==> r is Some && r->0@
                == spec_create_ata(*account, *mint, *payer, *owner, *system_program, *token_program),
    {
        if Self::check(account, owner, mint, token_program).is_ok() {
            None
        } else {
            Some(Self::init(account, mint, payer, owner, system_program, token_program))
        }
    }

    /// The call that creates the associated token account `account` of
    /// `owner` for `mint`, funded by `payer`.
    pub fn init(
        account: &AccountInfo,
        mint: &AccountInfo,
        payer: &AccountInfo,
        owner: &AccountInfo,
        system_program: &AccountInfo,
        token_program: &AccountInfo,
    ) -> (r: Cpi)
        ensures
            r@ == spec_create_ata(*account, *mint, *payer, *owner, *system_program, *token_program),
    {
        Cpi::CreateAssociatedTokenAccount {
            funding_account: payer.address,
            account: account.address,
            wallet: owner.address,
            mint: mint.address,
            system_program: system_program.address,
            token_program: token_program.address,
        }
    }
}

/// The call that creates the associated token account `account` of `owner`
/// for `mint`, funded by `payer`.
pub open spec fn spec_create_ata(
    account: AccountInfo,
    mint: AccountInfo,
    payer: AccountInfo,
    owner: AccountInfo,
    system_program: AccountInfo,
    token_program: AccountInfo,
) -> CpiSpec {
    CpiSpec::CreateAssociatedTokenAccount {
        funding_account: payer.address@,
        account: account.address@,
        wallet: owner.address@,
        mint: mint.address@,
        system_program: system_program.address@,
        token_program: token_program.address@,
    }
}

/// Checks that `account` is a token account of `token_program`.
fn check_token_account(account: &AccountInfo, token_program: &AccountInfo) -> (r: Result<(), EscrowError>)
    ensures
        r == spec_token_account_check(*account, *token_program),
{
    let len = account.data.len();
    if !address_eq(&token_program.address, &TOKEN_PROGRAM_ID) && !address_eq(&token_program.address, &TOKEN_2022_PROGRAM_ID) {
        Err(EscrowError::IncorrectProgramId)
    } else if !address_eq(&account.owner, &token_program.address) {
        Err(EscrowError::InvalidAccountOwner)
    } else if len == TOKEN_ACCOUNT_LEN || (address_eq(&account.owner, &TOKEN_2022_PROGRAM_ID) && len
        > TOKEN_2022_ACCOUNT_TYPE_OFFSET && account.data[TOKEN_2022_ACCOUNT_TYPE_OFFSET] == TOKEN_2022_TOKEN_ACCOUNT_TYPE) {
        Ok(())
    } else {
        Err(EscrowError::InvalidAccountData)
    }
}

/// Checks on, and closing of, accounts that the escrow program owns.
pub struct ProgramAccount;

impl ProgramAccount {
    /// Refuses an account that the escrow program does not own with
    /// `InvalidAccountOwner`, and one whose data is not an escrow's length
    /// with `InvalidAccountData`.
    pub fn check(account: &AccountInfo) -> (r: Result<(), EscrowError>)
        ensures
            r == spec_program_account_check(*account),
    {
        if !address_eq(&account.owner, &ESCROW_PROGRAM_ID) {
            Err(EscrowError::InvalidAccountOwner)
        } else if account.data.len() != ESCROW_LEN {
            Err(EscrowError::InvalidAccountData)
        } else {
            Ok(())
        }
    }

    /// Closes `account`: all its lamports go to `destination`, its data is
    /// emptied and the system program becomes its owner. Where the sum would
    /// not fit in a `u64`, refuses with `ArithmeticOverflow` and changes
    /// nothing.
    pub fn close(account: &mut AccountInfo, destination: &mut AccountInfo) -> (r: Result<(), EscrowError>)
        ensures
            old(destination).lamports + old(account).lamports > u64::MAX ==> {
                &&& r == Err::<(), EscrowError>(EscrowError::ArithmeticOverflow)
                &&& *final(account) == *old(account)
                &&& *final(destination) == *old(destination)
            },
            old(destination).lamports + old(account).lamports <= u64::MAX ==> {
                &&& r is Ok
                &&& final(destination).lamports == old(destination).lamports + old(account).lamports
                &&& final(account).lamports + final(destination).lamports == old(account).lamports + old(destination).lamports
                &&& final(account).lamports == 0
                &&& final(account).data@.len() == 0
                &&& final(account).owner@ == SYSTEM_PROGRAM_ID@
                &&& final(account).address == old(account).address
                &&& final(account).is_signer == old(account).is_signer
                &&& final(account).is_writable == old(account).is_writable
                &&& final(destination).address == old(destination).address
                &&& final(destination).owner == old(destination).owner
                &&& final(destination).is_signer == old(destination).is_signer
                &&& final(destination).is_writable == old(destination).is_writable
                &&& final(destination).data == old(destination).data
            },
    {
        match destination.lamports.checked_add(account.lamports) {
            None => Err(EscrowError::ArithmeticOverflow),
            Some(total) => {
                destination.lamports = total;
                account.lamports = 0;
                account.data = Vec::new();
                account.owner = SYSTEM_PROGRAM_ID;
                Ok(())
            },
        }
    }
}

} // verus!
