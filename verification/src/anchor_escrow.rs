use vstd::prelude::*;

use crate::account::Address;
use crate::cpi::{cpis_view, Cpi, CpiSpec};
use crate::error::EscrowError;
use crate::state::{escrow_signer_seeds, spec_escrow_seeds};

verus! {

/// What the refund of the Anchor escrow reads of its accounts, once Anchor
/// has checked them: the maker, the escrow with its seed and bump, mint A with
/// its decimals, the maker's token account for mint A, and the vault with its
/// balance.
#[derive(Debug, Clone, Copy, PartialEq, Eq)]
pub struct Refund {
    pub maker: Address,
    pub escrow: Address,
    pub escrow_seed: u64,
    pub escrow_bump: u8,
    pub mint_a: Address,
    pub mint_a_decimals: u8,
    pub maker_ata_a: Address,
    pub vault: Address,
    pub vault_amount: u64,
}

impl Refund {
    /// The seeds with which the escrow program signs for the escrow.
    pub open spec fn signer_seeds(&self) -> Seq<Seq<u8>> {
        spec_escrow_seeds(self.maker@, self.escrow_seed).push(seq![self.escrow_bump])
    }

    /// The calls of a refund: the vault's whole balance back to the maker,
    /// checked against mint A's decimals, then the vault closed to the maker,
    /// both signed for by the escrow.
    pub open spec fn spec_refund_tokens(&self) -> Seq<CpiSpec> {
        seq![
            CpiSpec::TransferChecked {
                from: self.vault@,
                mint: self.mint_a@,
                to: self.maker_ata_a@,
                authority: self.escrow@,
                amount: self.vault_amount,
                decimals: self.mint_a_decimals,
                signer_seeds: self.signer_seeds(),
            },
            CpiSpec::CloseAccount {
                account: self.vault@,
                destination: self.maker@,
                authority: self.escrow@,
                signer_seeds: self.signer_seeds(),
            },
        ]
    }

    /// The calls that return the vault's tokens to the maker and close it.
    pub fn refund_tokens(&self) -> (r: Vec<Cpi>)
        ensures
            cpis_view(r@) == self.spec_refund_tokens(),
    {
        let bump: [u8; 1] = [self.escrow_bump];
        assert(bump@ =~= seq![self.escrow_bump]);
        let transfer = Cpi::TransferChecked {
            from: self.vault,
            mint: self.mint_a,
            to: self.maker_ata_a,
            authority: self.escrow,
            amount: self.vault_amount,
            decimals: self.mint_a_decimals,
            signer_seeds: escrow_signer_seeds(&self.maker, self.escrow_seed, &bump),
        };
        let close = Cpi::CloseAccount {
            account: self.vault,
            destination: self.maker,
            authority: self.escrow,
            signer_seeds: escrow_signer_seeds(&self.maker, self.escrow_seed, &bump),
        };
        let mut cpis: Vec<Cpi> = Vec::new();
        cpis.push(transfer);
        cpis.push(close);
        assert(cpis_view(cpis@) =~= self.spec_refund_tokens());
        cpis
    }
}

/// The refund handler: an empty vault is refused with `InvalidAmount`;
/// otherwise the calls of `refund_tokens`.
pub fn handler(ctx: &Refund) -> (r: Result<Vec<Cpi>, EscrowError>)
    ensures
        ctx.vault_amount == 0 ==> r is Err && r->Err_0 == EscrowError::InvalidAmount,
        ctx.vault_amount > 0 ==> r is Ok && cpis_view(r->Ok_0@) == ctx.spec_refund_tokens(),
        ctx.vault_amount > 0 ==> r is Ok && r->Ok_0@.len() == 2 && (r->Ok_0@[0] matches Cpi::TransferChecked { from, mint, to, authority, amount, decimals, .. }
            && from == ctx.vault && mint == ctx.mint_a && to == ctx.maker_ata_a && authority == ctx.escrow
            && amount == ctx.vault_amount && decimals == ctx.mint_a_decimals)
            && (r->Ok_0@[1] matches Cpi::CloseAccount { account, destination, authority, .. }
            && account == ctx.vault && destination == ctx.maker && authority == ctx.escrow),
{
    if !(ctx.vault_amount > 0) {
        return Err(EscrowError::InvalidAmount);
    }
    let calls = ctx.refund_tokens();
    assert(cpis_view(calls@).len() == 2);
    assert(calls@.len() == 2);
    assert(calls@[0]@ == cpis_view(calls@)[0]);
    assert(calls@[1]@ == cpis_view(calls@)[1]);
    assert(calls@[0]@ is TransferChecked);
    assert(calls@[0] is TransferChecked);
    assert(calls@[1] is CloseAccount);
    Ok(calls)
}

} // verus!
