use vstd::prelude::*;

use crate::account::Address;

verus! {

/// A call into another program (or, for `CloseProgramAccount`, a move of
/// lamports between accounts) that an instruction asks to be made on its
/// behalf, in order. Where `signer_seeds` is not empty the escrow program signs
/// for the program address those seeds derive.
#[derive(Debug, Clone, PartialEq, Eq)]
pub enum Cpi {
    /// System program: create `account` with `space` bytes owned by `owner`,
    /// funded by `payer` with the rent-exempt minimum for that space.
    CreateProgramAccount { payer: Address, account: Address, space: u64, owner: Address, signer_seeds: Vec<Vec<u8>> },
    /// Associated token account program: create the token account `account`
    /// of `wallet` for `mint`, funded by `funding_account`.
    CreateAssociatedTokenAccount {
        funding_account: Address,
        account: Address,
        wallet: Address,
        mint: Address,
        system_program: Address,
        token_program: Address,
    },
    /// Token program: move `amount` tokens from `from` to `to`, authorised by `authority`.
    Transfer { from: Address, to: Address, authority: Address, amount: u64, signer_seeds: Vec<Vec<u8>> },
    /// Token program: as `Transfer`, naming the mint and its decimals.
    TransferChecked {
        from: Address,
        mint: Address,
        to: Address,
        authority: Address,
        amount: u64,
        decimals: u8,
        signer_seeds: Vec<Vec<u8>>,
    },
    /// Token program: close the token account `account`, its lamports going to `destination`.
    CloseAccount { account: Address, destination: Address, authority: Address, signer_seeds: Vec<Vec<u8>> },
    /// Close an account that the escrow program owns, its lamports going to
    /// `destination` (see `ProgramAccount::close`).
    CloseProgramAccount { account: Address, destination: Address },
}

/// A `Cpi` with its addresses and seeds as byte sequences.
pub enum CpiSpec {
    CreateProgramAccount { payer: Seq<u8>, account: Seq<u8>, space: u64, owner: Seq<u8>, signer_seeds: Seq<Seq<u8>> },
    CreateAssociatedTokenAccount {
        funding_account: Seq<u8>,
        account: Seq<u8>,
        wallet: Seq<u8>,
        mint: Seq<u8>,
        system_program: Seq<u8>,
        token_program: Seq<u8>,
    },
    Transfer { from: Seq<u8>, to: Seq<u8>, authority: Seq<u8>, amount: u64, signer_seeds: Seq<Seq<u8>> },
    TransferChecked {
        from: Seq<u8>,
        mint: Seq<u8>,
        to: Seq<u8>,
        authority: Seq<u8>,
        amount: u64,
        decimals: u8,
        signer_seeds: Seq<Seq<u8>>,
    },
    CloseAccount { account: Seq<u8>, destination: Seq<u8>, authority: Seq<u8>, signer_seeds: Seq<Seq<u8>> },
    CloseProgramAccount { account: Seq<u8>, destination: Seq<u8> },
}

impl View for Cpi {
    type V = CpiSpec;

    open spec fn view(&self) -> CpiSpec {
        match self {
            Cpi::CreateProgramAccount { payer, account, space, owner, signer_seeds } => CpiSpec::CreateProgramAccount {
                payer: payer@,
                account: account@,
                space: *space,
                owner: owner@,
                signer_seeds: signer_seeds.deep_view(),
            },
            Cpi::CreateAssociatedTokenAccount { funding_account, account, wallet, mint, system_program, token_program } =>
                CpiSpec::CreateAssociatedTokenAccount {
                    funding_account: funding_account@,
                    account: account@,
                    wallet: wallet@,
                    mint: mint@,
                    system_program: system_program@,
                    token_program: token_program@,
                },
            Cpi::Transfer { from, to, authority, amount, signer_seeds } => CpiSpec::Transfer {
                from: from@,
                to: to@,
                authority: authority@,
                amount: *amount,
                signer_seeds: signer_seeds.deep_view(),
            },
            Cpi::TransferChecked { from, mint, to, authority, amount, decimals, signer_seeds } => CpiSpec::TransferChecked {
                from: from@,
                mint: mint@,
                to: to@,
                authority: authority@,
                amount: *amount,
                decimals: *decimals,
                signer_seeds: signer_seeds.deep_view(),
            },
            Cpi::CloseAccount { account, destination, authority, signer_seeds } => CpiSpec::CloseAccount {
                account: account@,
                destination: destination@,
                authority: authority@,
                signer_seeds: signer_seeds.deep_view(),
            },
            Cpi::CloseProgramAccount { account, destination } => CpiSpec::CloseProgramAccount {
                account: account@,
                destination: destination@,
            },
        }
    }
}

/// The calls of a list, each as a `CpiSpec`.
pub open spec fn cpis_view(cpis: Seq<Cpi>) -> Seq<CpiSpec> {
    cpis.map_values(|c: Cpi| c@)
}

} // verus!
