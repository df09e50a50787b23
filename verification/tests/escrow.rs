use blueshift_escrow::account::{
    address_eq, AccountInfo, Address, ASSOCIATED_TOKEN_PROGRAM_ID, ESCROW_PROGRAM_ID, SYSTEM_PROGRAM_ID,
    TOKEN_2022_PROGRAM_ID, TOKEN_PROGRAM_ID,
};
use blueshift_escrow::anchor_escrow::{handler, Refund as AnchorRefund};
use blueshift_escrow::cpi::Cpi;
use blueshift_escrow::error::EscrowError;
use blueshift_escrow::helpers::{
    AssociatedTokenAccount, MintInterface, ProgramAccount, SignerAccount, TokenAccount, MINT_LEN, TOKEN_ACCOUNT_LEN,
};
use blueshift_escrow::instructions::make::{Make, MakeAccounts, MakeInstructionData};
use blueshift_escrow::instructions::refund::Refund;
use blueshift_escrow::instructions::take::{Take, TakeAccounts};
use blueshift_escrow::state::{escrow_seeds, Escrow, ESCROW_LEN};
use blueshift_escrow::vault::{route_vault_instruction, VaultInstruction};
use blueshift_escrow::{route_instruction, EscrowInstruction};
use solana_address::Address as SolAddress;

fn addr(b: u8) -> Address {
    let mut a = [0u8; 32];
    a[0] = b;
    a[31] = b.wrapping_mul(7);
    a
}

fn account(address: Address, owner: Address, is_signer: bool, lamports: u64, data: Vec<u8>) -> AccountInfo {
    AccountInfo { address, owner, is_signer, is_writable: true, lamports, data }
}

fn pda(seeds: &[&[u8]], program: &Address) -> (Address, u8) {
    let (a, b) = SolAddress::find_program_address(seeds, &SolAddress::new_from_array(*program));
    (a.to_bytes(), b)
}

fn ata_address(wallet: &Address, token_program: &Address, mint: &Address) -> Address {
    pda(&[wallet, token_program, mint], &ASSOCIATED_TOKEN_PROGRAM_ID).0
}

fn mint_account(address: Address) -> AccountInfo {
    account(address, TOKEN_PROGRAM_ID, false, 1_000, vec![0u8; MINT_LEN])
}

fn token_account_data(mint: &Address, owner: &Address, amount: u64) -> Vec<u8> {
    let mut data = vec![0u8; TOKEN_ACCOUNT_LEN];
    data[0..32].copy_from_slice(mint);
    data[32..64].copy_from_slice(owner);
    data[64..72].copy_from_slice(&amount.to_le_bytes());
    data
}

fn ata_account(wallet: &Address, mint: &Address, amount: u64) -> AccountInfo {
    let address = ata_address(wallet, &TOKEN_PROGRAM_ID, mint);
    account(address, TOKEN_PROGRAM_ID, false, 2_039_280, token_account_data(mint, wallet, amount))
}

fn make_data(seed: u64, receive: u64, amount: u64) -> Vec<u8> {
    let mut d = Vec::new();
    d.extend_from_slice(&seed.to_le_bytes());
    d.extend_from_slice(&receive.to_le_bytes());
    d.extend_from_slice(&amount.to_le_bytes());
    d
}

const MAKER: u8 = 1;
const MINT_A: u8 = 2;
const MINT_B: u8 = 3;
const TAKER: u8 = 4;

/// The accounts of a Make for `seed`, in order; the escrow still empty.
fn make_accounts(seed: u64) -> Vec<AccountInfo> {
    let maker = addr(MAKER);
    let (escrow, _) = pda(&[b"escrow", &maker, &seed.to_le_bytes()], &ESCROW_PROGRAM_ID);
    let vault = ata_address(&escrow, &TOKEN_PROGRAM_ID, &addr(MINT_A));
    vec![
        account(maker, SYSTEM_PROGRAM_ID, true, 10_000_000, vec![]),
        account(escrow, SYSTEM_PROGRAM_ID, false, 0, vec![]),
        mint_account(addr(MINT_A)),
        mint_account(addr(MINT_B)),
        ata_account(&maker, &addr(MINT_A), 500),
        account(vault, SYSTEM_PROGRAM_ID, false, 0, vec![]),
        account(SYSTEM_PROGRAM_ID, SYSTEM_PROGRAM_ID, false, 1, vec![]),
        account(TOKEN_PROGRAM_ID, SYSTEM_PROGRAM_ID, false, 1, vec![]),
        account(addr(99), SYSTEM_PROGRAM_ID, false, 1, vec![]),
    ]
}

/// The escrow as Make leaves it, holding `receive` asked for.
fn opened_escrow(seed: u64, receive: u64) -> AccountInfo {
    let maker = addr(MAKER);
    let (escrow, bump) = pda(&[b"escrow", &maker, &seed.to_le_bytes()], &ESCROW_PROGRAM_ID);
    let terms = Escrow::new(seed, maker, addr(MINT_A), addr(MINT_B), receive, [bump]);
    let mut data = vec![0u8; ESCROW_LEN];
    terms.write_to(&mut data).unwrap();
    account(escrow, ESCROW_PROGRAM_ID, false, 1_677_360, data)
}

fn take_accounts(seed: u64, receive: u64, vault_amount: u64) -> Vec<AccountInfo> {
    let maker = addr(MAKER);
    let taker = addr(TAKER);
    let escrow = opened_escrow(seed, receive);
    let vault = ata_account(&escrow.address, &addr(MINT_A), vault_amount);
    vec![
        account(taker, SYSTEM_PROGRAM_ID, true, 10_000_000, vec![]),
        account(maker, SYSTEM_PROGRAM_ID, false, 5_000, vec![]),
        escrow,
        mint_account(addr(MINT_A)),
        mint_account(addr(MINT_B)),
        vault,
        ata_account(&taker, &addr(MINT_A), 0),
        ata_account(&taker, &addr(MINT_B), 1_000),
        ata_account(&maker, &addr(MINT_B), 0),
        account(SYSTEM_PROGRAM_ID, SYSTEM_PROGRAM_ID, false, 1, vec![]),
        account(TOKEN_PROGRAM_ID, SYSTEM_PROGRAM_ID, false, 1, vec![]),
        account(addr(99), SYSTEM_PROGRAM_ID, false, 1, vec![]),
    ]
}

fn refund_accounts(seed: u64, vault_amount: u64) -> Vec<AccountInfo> {
    let maker = addr(MAKER);
    let escrow = opened_escrow(seed, 77);
    let vault = ata_account(&escrow.address, &addr(MINT_A), vault_amount);
    vec![
        account(maker, SYSTEM_PROGRAM_ID, true, 5_000, vec![]),
        escrow,
        mint_account(addr(MINT_A)),
        vault,
        ata_account(&maker, &addr(MINT_A), 0),
        account(SYSTEM_PROGRAM_ID, SYSTEM_PROGRAM_ID, false, 1, vec![]),
        account(TOKEN_PROGRAM_ID, SYSTEM_PROGRAM_ID, false, 1, vec![]),
        account(addr(99), SYSTEM_PROGRAM_ID, false, 1, vec![]),
    ]
}

fn escrow_signer_seeds_vec(seed: u64, bump: u8) -> Vec<Vec<u8>> {
    vec![b"escrow".to_vec(), addr(MAKER).to_vec(), seed.to_le_bytes().to_vec(), vec![bump]]
}

#[test]
fn program_ids_match_outside_crates() {
    assert_eq!(pinocchio_token::ID.as_ref(), &TOKEN_PROGRAM_ID[..]);
    assert_eq!(pinocchio_associated_token_account::ID.as_ref(), &ASSOCIATED_TOKEN_PROGRAM_ID[..]);
    assert_eq!(pinocchio_system::ID.as_ref(), &SYSTEM_PROGRAM_ID[..]);
    let t22 = SolAddress::from_str_const("TokenzQdBNbLqP5VEhdkAS6EPFLC1PHnBqCXEpPxuEb");
    assert_eq!(t22.as_ref(), &TOKEN_2022_PROGRAM_ID[..]);
    let id = SolAddress::from_str_const("22222222222222222222222222222222222222222222");
    assert_eq!(id.as_ref(), &ESCROW_PROGRAM_ID[..]);
}

#[test]
fn route_instruction_by_first_byte() {
    assert_eq!(route_instruction(&[]), Err(EscrowError::InvalidInstructionData));
    assert_eq!(route_instruction(&[0, 9, 9]), Ok(EscrowInstruction::Make));
    assert_eq!(route_instruction(&[1]), Ok(EscrowInstruction::Take));
    assert_eq!(route_instruction(&[2, 5]), Ok(EscrowInstruction::Refund));
    assert_eq!(route_instruction(&[3]), Err(EscrowError::InvalidInstructionData));
    assert_eq!(route_instruction(&[255]), Err(EscrowError::InvalidInstructionData));
}

#[test]
fn route_vault_instruction_by_first_byte() {
    assert_eq!(route_vault_instruction(&[]), Err(EscrowError::InvalidInstructionData));
    assert_eq!(route_vault_instruction(&[0, 1, 2]), Ok(VaultInstruction::Deposit));
    assert_eq!(route_vault_instruction(&[1]), Ok(VaultInstruction::Withdraw));
    assert_eq!(route_vault_instruction(&[2]), Err(EscrowError::InvalidInstructionData));
}

#[test]
fn make_instruction_data_reads_little_endian() {
    let d = make_data(0x0102030405060708, 250, 100);
    let parsed = MakeInstructionData::try_from(&d).unwrap();
    assert_eq!(parsed, MakeInstructionData { seed: 0x0102030405060708, receive: 250, amount: 100 });
    let mut raw = vec![0u8; 24];
    raw[0] = 1;
    raw[8] = 2;
    raw[16] = 3;
    raw[23] = 1;
    let parsed = MakeInstructionData::try_from(&raw).unwrap();
    assert_eq!(parsed.seed, 1);
    assert_eq!(parsed.receive, 2);
    assert_eq!(parsed.amount, 3 + (1u64 << 56));
}

#[test]
fn make_instruction_data_refuses_bad_length_and_zero_amount() {
    assert_eq!(MakeInstructionData::try_from(&[0u8; 23]), Err(EscrowError::InvalidInstructionData));
    assert_eq!(MakeInstructionData::try_from(&[0u8; 25]), Err(EscrowError::InvalidInstructionData));
    assert_eq!(MakeInstructionData::try_from(&[]), Err(EscrowError::InvalidInstructionData));
    assert_eq!(MakeInstructionData::try_from(&make_data(5, 5, 0)), Err(EscrowError::InvalidInstructionData));
    assert!(MakeInstructionData::try_from(&make_data(0, 0, 1)).is_ok());
}

#[test]
fn escrow_write_then_load_roundtrip() {
    let terms = Escrow::new(42, addr(1), addr(2), addr(3), 9_000, [254]);
    let mut data = vec![7u8; ESCROW_LEN];
    assert_eq!(terms.write_to(&mut data), Ok(()));
    assert_eq!(&data[0..8], &42u64.to_le_bytes());
    assert_eq!(&data[8..40], &addr(1));
    assert_eq!(&data[104..112], &9_000u64.to_le_bytes());
    assert_eq!(data[112], 254);
    assert_eq!(Escrow::load(&data), Ok(terms));
}

#[test]
fn escrow_refuses_wrong_length() {
    let terms = Escrow::new(1, addr(1), addr(2), addr(3), 1, [1]);
    let mut short = vec![0u8; ESCROW_LEN - 1];
    assert_eq!(terms.write_to(&mut short), Err(EscrowError::InvalidAccountData));
    assert_eq!(short, vec![0u8; ESCROW_LEN - 1]);
    assert_eq!(Escrow::load(&[0u8; 120]), Err(EscrowError::InvalidAccountData));
    assert_eq!(Escrow::load(&[]), Err(EscrowError::InvalidAccountData));
}

#[test]
fn signer_check() {
    let signed = account(addr(1), SYSTEM_PROGRAM_ID, true, 0, vec![]);
    let unsigned = account(addr(1), SYSTEM_PROGRAM_ID, false, 0, vec![]);
    assert_eq!(SignerAccount::check(&signed), Ok(()));
    assert_eq!(SignerAccount::check(&unsigned), Err(EscrowError::MissingRequiredSignature));
}

#[test]
fn mint_check() {
    assert_eq!(MintInterface::check(&mint_account(addr(2))), Ok(()));
    let wrong_owner = account(addr(2), SYSTEM_PROGRAM_ID, false, 0, vec![0u8; MINT_LEN]);
    assert_eq!(MintInterface::check(&wrong_owner), Err(EscrowError::InvalidAccountOwner));
    let wrong_len = account(addr(2), TOKEN_PROGRAM_ID, false, 0, vec![0u8; MINT_LEN + 1]);
    assert_eq!(MintInterface::check(&wrong_len), Err(EscrowError::InvalidAccountData));
    let t22_plain = account(addr(2), TOKEN_2022_PROGRAM_ID, false, 0, vec![0u8; MINT_LEN]);
    assert_eq!(MintInterface::check(&t22_plain), Ok(()));
    let mut ext = vec![0u8; 200];
    ext[165] = 1;
    let t22_ext = account(addr(2), TOKEN_2022_PROGRAM_ID, false, 0, ext.clone());
    assert_eq!(MintInterface::check(&t22_ext), Ok(()));
    ext[165] = 2;
    let t22_not_mint = account(addr(2), TOKEN_2022_PROGRAM_ID, false, 0, ext);
    assert_eq!(MintInterface::check(&t22_not_mint), Err(EscrowError::InvalidAccountData));
}

#[test]
fn token_account_reads_amount_at_offset_64() {
    let acc = ata_account(&addr(5), &addr(2), 123_456_789);
    let t = TokenAccount::from_account_info(&acc).unwrap();
    assert_eq!(t.amount(), 123_456_789);
    assert_eq!(t.mint, addr(2));
    assert_eq!(t.owner, addr(5));
    let short = account(addr(6), TOKEN_PROGRAM_ID, false, 0, vec![0u8; 100]);
    assert_eq!(TokenAccount::from_account_info(&short), Err(EscrowError::InvalidAccountData));
    let foreign = account(addr(6), SYSTEM_PROGRAM_ID, false, 0, token_account_data(&addr(2), &addr(5), 1));
    assert_eq!(TokenAccount::from_account_info(&foreign), Err(EscrowError::IncorrectProgramId));
}

#[test]
fn associated_token_account_check() {
    let wallet = account(addr(5), SYSTEM_PROGRAM_ID, true, 0, vec![]);
    let mint = mint_account(addr(2));
    let token_program = account(TOKEN_PROGRAM_ID, SYSTEM_PROGRAM_ID, false, 0, vec![]);
    let good = ata_account(&addr(5), &addr(2), 0);
    assert_eq!(AssociatedTokenAccount::check(&good, &wallet, &mint, &token_program), Ok(()));
    let mut elsewhere = good.clone();
    elsewhere.address = addr(77);
    assert_eq!(
        AssociatedTokenAccount::check(&elsewhere, &wallet, &mint, &token_program),
        Err(EscrowError::InvalidAddress)
    );
    let other_wallet = account(addr(6), SYSTEM_PROGRAM_ID, true, 0, vec![]);
    assert_eq!(
        AssociatedTokenAccount::check(&good, &other_wallet, &mint, &token_program),
        Err(EscrowError::InvalidAddress)
    );
    let mut foreign = good.clone();
    foreign.owner = SYSTEM_PROGRAM_ID;
    assert_eq!(
        AssociatedTokenAccount::check(&foreign, &wallet, &mint, &token_program),
        Err(EscrowError::InvalidAccountOwner)
    );
    let not_token = account(addr(8), SYSTEM_PROGRAM_ID, false, 0, vec![]);
    assert_eq!(
        AssociatedTokenAccount::check(&good, &wallet, &mint, &not_token),
        Err(EscrowError::IncorrectProgramId)
    );
    let mut short = good.clone();
    short.data.truncate(100);
    assert_eq!(
        AssociatedTokenAccount::check(&short, &wallet, &mint, &token_program),
        Err(EscrowError::InvalidAccountData)
    );
}

#[test]
fn init_if_needed_only_for_missing_accounts() {
    let wallet = account(addr(5), SYSTEM_PROGRAM_ID, true, 0, vec![]);
    let mint = mint_account(addr(2));
    let sys = account(SYSTEM_PROGRAM_ID, SYSTEM_PROGRAM_ID, false, 0, vec![]);
    let token_program = account(TOKEN_PROGRAM_ID, SYSTEM_PROGRAM_ID, false, 0, vec![]);
    let good = ata_account(&addr(5), &addr(2), 0);
    assert_eq!(AssociatedTokenAccount::init_if_needed(&good, &mint, &wallet, &wallet, &sys, &token_program), None);
    let missing = account(good.address, SYSTEM_PROGRAM_ID, false, 0, vec![]);
    assert_eq!(
        AssociatedTokenAccount::init_if_needed(&missing, &mint, &wallet, &wallet, &sys, &token_program),
        Some(Cpi::CreateAssociatedTokenAccount {
            funding_account: addr(5),
            account: good.address,
            wallet: addr(5),
            mint: addr(2),
            system_program: SYSTEM_PROGRAM_ID,
            token_program: TOKEN_PROGRAM_ID,
        })
    );
}

#[test]
fn program_account_check() {
    let escrow = opened_escrow(1, 1);
    assert_eq!(ProgramAccount::check(&escrow), Ok(()));
    let mut foreign = escrow.clone();
    foreign.owner = TOKEN_PROGRAM_ID;
    assert_eq!(ProgramAccount::check(&foreign), Err(EscrowError::InvalidAccountOwner));
    let mut short = escrow.clone();
    short.data.pop();
    assert_eq!(ProgramAccount::check(&short), Err(EscrowError::InvalidAccountData));
}

#[test]
fn close_moves_all_lamports() {
    let mut escrow = opened_escrow(1, 1);
    let mut maker = account(addr(1), SYSTEM_PROGRAM_ID, true, 5_000, vec![]);
    let total = escrow.lamports + maker.lamports;
    assert_eq!(ProgramAccount::close(&mut escrow, &mut maker), Ok(()));
    assert_eq!(escrow.lamports, 0);
    assert_eq!(maker.lamports, total);
    assert_eq!(escrow.lamports + maker.lamports, total);
    assert!(escrow.data.is_empty());
    assert_eq!(escrow.owner, SYSTEM_PROGRAM_ID);
}

#[test]
fn close_refuses_overflow() {
    let mut escrow = opened_escrow(1, 1);
    let mut rich = account(addr(1), SYSTEM_PROGRAM_ID, true, u64::MAX, vec![]);
    let before = (escrow.clone(), rich.clone());
    assert_eq!(ProgramAccount::close(&mut escrow, &mut rich), Err(EscrowError::ArithmeticOverflow));
    assert_eq!((escrow, rich), before);
}

#[test]
fn escrow_seeds_are_tag_maker_seed() {
    let seeds = escrow_seeds(&addr(1), 0x0a0b);
    assert_eq!(seeds, vec![b"escrow".to_vec(), addr(1).to_vec(), 0x0a0bu64.to_le_bytes().to_vec()]);
}

#[test]
fn make_finds_canonical_bump_and_writes_terms() {
    let accounts = make_accounts(42);
    let (_, expected_bump) = pda(&[b"escrow", &addr(MAKER), &42u64.to_le_bytes()], &ESCROW_PROGRAM_ID);
    let data = make_data(42, 250, 100);
    let make = Make::try_from(&data, &accounts).unwrap();
    assert_eq!(make.bump, expected_bump);
    assert_eq!(make.instruction_data, MakeInstructionData { seed: 42, receive: 250, amount: 100 });
    let init = make.init_cpis();
    assert_eq!(
        init,
        vec![
            Cpi::CreateProgramAccount {
                payer: addr(MAKER),
                account: accounts[1].address,
                space: ESCROW_LEN as u64,
                owner: ESCROW_PROGRAM_ID,
                signer_seeds: escrow_signer_seeds_vec(42, expected_bump),
            },
            Cpi::CreateAssociatedTokenAccount {
                funding_account: addr(MAKER),
                account: accounts[5].address,
                wallet: accounts[1].address,
                mint: addr(MINT_A),
                system_program: SYSTEM_PROGRAM_ID,
                token_program: TOKEN_PROGRAM_ID,
            },
        ]
    );
    let mut escrow_data = vec![0u8; ESCROW_LEN];
    let transfer = make.process(&mut escrow_data).unwrap();
    assert_eq!(
        transfer,
        Cpi::Transfer {
            from: accounts[4].address,
            to: accounts[5].address,
            authority: addr(MAKER),
            amount: 100,
            signer_seeds: vec![],
        }
    );
    assert_eq!(
        Escrow::load(&escrow_data),
        Ok(Escrow::new(42, addr(MAKER), addr(MINT_A), addr(MINT_B), 250, [expected_bump]))
    );
    let mut not_created = vec![];
    assert_eq!(make.process(&mut not_created), Err(EscrowError::InvalidAccountData));
}

#[test]
fn make_account_errors() {
    let accounts = make_accounts(1);
    let data = make_data(1, 2, 3);
    assert!(matches!(Make::try_from(&data, &accounts[..8]), Err(EscrowError::NotEnoughAccountKeys)));
    let mut more = accounts.clone();
    more.push(account(addr(50), SYSTEM_PROGRAM_ID, false, 0, vec![]));
    assert!(matches!(Make::try_from(&data, &more), Err(EscrowError::NotEnoughAccountKeys)));
    let mut unsigned = accounts.clone();
    unsigned[0].is_signer = false;
    assert!(matches!(Make::try_from(&data, &unsigned), Err(EscrowError::MissingRequiredSignature)));
    let mut bad_mint = accounts.clone();
    bad_mint[3].owner = SYSTEM_PROGRAM_ID;
    assert!(matches!(Make::try_from(&data, &bad_mint), Err(EscrowError::InvalidAccountOwner)));
    let mut bad_ata = accounts.clone();
    bad_ata[4].address = addr(60);
    assert!(matches!(Make::try_from(&data, &bad_ata), Err(EscrowError::InvalidAddress)));
    assert!(matches!(Make::try_from(&data[..20], &accounts), Err(EscrowError::InvalidInstructionData)));
    assert!(matches!(Make::try_from(&data[..20], &accounts[..3]), Err(EscrowError::NotEnoughAccountKeys)));
    assert!(MakeAccounts::try_from(&accounts).is_ok());
}

#[test]
fn take_pays_vault_to_taker_and_receive_to_maker() {
    let accounts = take_accounts(42, 250, 100);
    let (_, bump) = pda(&[b"escrow", &addr(MAKER), &42u64.to_le_bytes()], &ESCROW_PROGRAM_ID);
    let take = Take::try_from(&accounts).unwrap();
    assert!(take.init_cpis().is_empty());
    let cpis = take.process().unwrap();
    assert_eq!(
        cpis,
        vec![
            Cpi::Transfer {
                from: accounts[5].address,
                to: accounts[6].address,
                authority: accounts[2].address,
                amount: 100,
                signer_seeds: escrow_signer_seeds_vec(42, bump),
            },
            Cpi::CloseAccount {
                account: accounts[5].address,
                destination: addr(MAKER),
                authority: accounts[2].address,
                signer_seeds: escrow_signer_seeds_vec(42, bump),
            },
            Cpi::Transfer {
                from: accounts[7].address,
                to: accounts[8].address,
                authority: addr(TAKER),
                amount: 250,
                signer_seeds: vec![],
            },
            Cpi::CloseProgramAccount { account: accounts[2].address, destination: addr(MAKER) },
        ]
    );
}

#[test]
fn take_creates_missing_token_accounts() {
    let mut accounts = take_accounts(7, 1, 1);
    accounts[6] = account(accounts[6].address, SYSTEM_PROGRAM_ID, false, 0, vec![]);
    accounts[8] = account(accounts[8].address, SYSTEM_PROGRAM_ID, false, 0, vec![]);
    let take = Take::try_from(&accounts).unwrap();
    assert_eq!(
        take.init_cpis(),
        vec![
            Cpi::CreateAssociatedTokenAccount {
                funding_account: addr(TAKER),
                account: accounts[6].address,
                wallet: addr(TAKER),
                mint: addr(MINT_A),
                system_program: SYSTEM_PROGRAM_ID,
                token_program: TOKEN_PROGRAM_ID,
            },
            Cpi::CreateAssociatedTokenAccount {
                funding_account: addr(TAKER),
                account: accounts[8].address,
                wallet: addr(MAKER),
                mint: addr(MINT_B),
                system_program: SYSTEM_PROGRAM_ID,
                token_program: TOKEN_PROGRAM_ID,
            },
        ]
    );
}

#[test]
fn take_refuses_escrow_of_another_maker() {
    let mut accounts = take_accounts(42, 250, 100);
    accounts[1].address = addr(88);
    let take = Take::try_from(&accounts).unwrap();
    assert!(matches!(take.process(), Err(EscrowError::InvalidAccountOwner)));
}

#[test]
fn take_account_errors() {
    let accounts = take_accounts(42, 250, 100);
    assert!(matches!(TakeAccounts::try_from(&accounts[..11]), Err(EscrowError::NotEnoughAccountKeys)));
    let mut unsigned = accounts.clone();
    unsigned[0].is_signer = false;
    assert!(matches!(Take::try_from(&unsigned), Err(EscrowError::MissingRequiredSignature)));
    let mut foreign_escrow = accounts.clone();
    foreign_escrow[2].owner = SYSTEM_PROGRAM_ID;
    assert!(matches!(Take::try_from(&foreign_escrow), Err(EscrowError::InvalidAccountOwner)));
    let mut wrong_vault = accounts.clone();
    wrong_vault[5].address = addr(61);
    assert!(matches!(Take::try_from(&wrong_vault), Err(EscrowError::InvalidAddress)));
}

#[test]
fn take_refuses_vault_not_of_token_program() {
    let mut accounts = take_accounts(42, 250, 100);
    accounts[5].owner = TOKEN_2022_PROGRAM_ID;
    accounts[10].address = TOKEN_2022_PROGRAM_ID;
    accounts[5].address = ata_address(&accounts[2].address, &TOKEN_2022_PROGRAM_ID, &addr(MINT_A));
    accounts[7].owner = TOKEN_2022_PROGRAM_ID;
    accounts[7].address = ata_address(&addr(TAKER), &TOKEN_2022_PROGRAM_ID, &addr(MINT_B));
    let take = Take::try_from(&accounts).unwrap();
    assert!(matches!(take.process(), Err(EscrowError::IncorrectProgramId)));
}

#[test]
fn refund_returns_whole_vault_to_maker() {
    let accounts = refund_accounts(9, 321);
    let (_, bump) = pda(&[b"escrow", &addr(MAKER), &9u64.to_le_bytes()], &ESCROW_PROGRAM_ID);
    let refund = Refund::try_from(&accounts).unwrap();
    assert!(refund.init_cpis().is_empty());
    assert_eq!(
        refund.process().unwrap(),
        vec![
            Cpi::Transfer {
                from: accounts[3].address,
                to: accounts[4].address,
                authority: accounts[1].address,
                amount: 321,
                signer_seeds: escrow_signer_seeds_vec(9, bump),
            },
            Cpi::CloseAccount {
                account: accounts[3].address,
                destination: addr(MAKER),
                authority: accounts[1].address,
                signer_seeds: escrow_signer_seeds_vec(9, bump),
            },
            Cpi::CloseProgramAccount { account: accounts[1].address, destination: addr(MAKER) },
        ]
    );
}

#[test]
fn refund_errors() {
    let accounts = refund_accounts(9, 321);
    assert!(matches!(Refund::try_from(&accounts[..7]), Err(EscrowError::NotEnoughAccountKeys)));
    let mut unsigned = accounts.clone();
    unsigned[0].is_signer = false;
    assert!(matches!(Refund::try_from(&unsigned), Err(EscrowError::MissingRequiredSignature)));
    let mut tampered = accounts.clone();
    tampered[1].data[0] ^= 1;
    let refund = Refund::try_from(&tampered).unwrap();
    let r = refund.process();
    assert!(matches!(r, Err(EscrowError::InvalidAccountOwner)) || matches!(r, Err(EscrowError::InvalidSeeds)));
    let mut missing = accounts.clone();
    missing[4] = account(missing[4].address, SYSTEM_PROGRAM_ID, false, 0, vec![]);
    let refund = Refund::try_from(&missing).unwrap();
    assert_eq!(refund.init_cpis().len(), 1);
}

#[test]
fn made_escrow_is_accepted_by_take_and_refund() {
    let make_accs = make_accounts(1234);
    let make = Make::try_from(&make_data(1234, 55, 66), &make_accs).unwrap();
    let mut data = vec![0u8; ESCROW_LEN];
    make.process(&mut data).unwrap();
    let mut accounts = refund_accounts(1234, 66);
    accounts[1].data = data;
    let refund = Refund::try_from(&accounts).unwrap();
    let cpis = refund.process().unwrap();
    assert!(matches!(&cpis[0], Cpi::Transfer { amount: 66, .. }));
    let mut taccs = take_accounts(1234, 0, 66);
    taccs[2].data = accounts[1].data.clone();
    let take = Take::try_from(&taccs).unwrap();
    let cpis = take.process().unwrap();
    assert!(matches!(&cpis[2], Cpi::Transfer { amount: 55, .. }));
}

#[test]
fn anchor_refund_handler() {
    let ctx = AnchorRefund {
        maker: addr(MAKER),
        escrow: addr(20),
        escrow_seed: 5,
        escrow_bump: 250,
        mint_a: addr(MINT_A),
        mint_a_decimals: 6,
        maker_ata_a: addr(21),
        vault: addr(22),
        vault_amount: 0,
    };
    assert!(matches!(handler(&ctx), Err(EscrowError::InvalidAmount)));
    let ctx = AnchorRefund { vault_amount: 1_000, ..ctx };
    assert_eq!(
        handler(&ctx).unwrap(),
        vec![
            Cpi::TransferChecked {
                from: addr(22),
                mint: addr(MINT_A),
                to: addr(21),
                authority: addr(20),
                amount: 1_000,
                decimals: 6,
                signer_seeds: escrow_signer_seeds_vec(5, 250),
            },
            Cpi::CloseAccount {
                account: addr(22),
                destination: addr(MAKER),
                authority: addr(20),
                signer_seeds: escrow_signer_seeds_vec(5, 250),
            },
        ]
    );
}

#[test]
fn address_equality() {
    assert!(address_eq(&addr(3), &addr(3)));
    assert!(!address_eq(&addr(3), &addr(4)));
}
