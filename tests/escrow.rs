use escrow_vrf::error::ProgramError;
use escrow_vrf::escrow::{
    make, refund, take, Make, Refund, Take, REFUND_DELAY_SECONDS, REFUND_TASK_DESCRIPTION,
};
use escrow_vrf::keys::AccountMeta;
use escrow_vrf::keys::Pubkey;
use escrow_vrf::token::{transfer, TokenAccount};

fn key(b: u8) -> Pubkey {
    Pubkey::new([b; 32])
}

fn pda(seeds: &[&[u8]], program: &Pubkey) -> (Pubkey, u8) {
    let id = anchor_lang::prelude::Pubkey::new_from_array(program.bytes);
    let (k, b) = anchor_lang::prelude::Pubkey::find_program_address(seeds, &id);
    (Pubkey::new(k.to_bytes()), b)
}

const MAKER: u8 = 1;
const TAKER: u8 = 2;
const MINT_A: u8 = 10;
const MINT_B: u8 = 11;
const PROGRAM: u8 = 30;
const TOKEN_PROGRAM: u8 = 31;
const ATA_PROGRAM: u8 = 32;
const SYSTEM_PROGRAM: u8 = 0;
const NOW: i64 = 1_700_000_000;
const EXPIRY: i64 = 1_800_000_000;
const SELECTOR: [u8; 8] = [2, 3, 5, 7, 11, 13, 17, 19];

fn account(mint: u8, authority: u8, amount: u64) -> TokenAccount {
    TokenAccount { mint: key(mint), authority: key(authority), amount }
}

/// Accounts of `make` for `seed`, all at their derived addresses, and the escrow's bump.
fn make_ctx_for(maker_balance: u64, seed: u64) -> (Make, u8) {
    let program = key(PROGRAM);
    let (escrow_address, bump) =
        pda(&[b"escrow", &key(MAKER).bytes, &seed.to_le_bytes()], &program);
    let ata = |owner: &Pubkey| {
        pda(&[&owner.bytes, &key(TOKEN_PROGRAM).bytes, &key(MINT_A).bytes], &key(ATA_PROGRAM)).0
    };
    let (queue_authority, _) = pda(&[b"queue_authority"], &program);
    let m = Make {
        maker: key(MAKER),
        maker_signed: true,
        mint_a: key(MINT_A),
        mint_b: key(MINT_B),
        maker_ata_a_address: ata(&key(MAKER)),
        maker_ata_a: account(MINT_A, MAKER, maker_balance),
        escrow_address,
        escrow: None,
        vault_address: ata(&escrow_address),
        queue_authority,
        program_id: program,
        token_program: key(TOKEN_PROGRAM),
        associated_token_program: key(ATA_PROGRAM),
        system_program: key(SYSTEM_PROGRAM),
        refund_selector: SELECTOR,
    };
    (m, bump)
}

fn make_ctx(maker_balance: u64) -> Make {
    make_ctx_for(maker_balance, 1).0
}

fn bump_of(seed: u64) -> u8 {
    make_ctx_for(0, seed).1
}

fn take_ctx(m: &Make, taker_b: u64) -> Take {
    Take {
        taker: key(TAKER),
        taker_ata_a: account(MINT_A, TAKER, 0),
        taker_ata_b: account(MINT_B, TAKER, taker_b),
        maker_ata_b: account(MINT_B, MAKER, 0),
        escrow: m.escrow,
    }
}

#[test]
fn make_then_take_scenario() {
    let mut m = make_ctx(1000);
    let task = make(&mut m, 1, 100, 50, 7, EXPIRY, NOW, bump_of(1)).unwrap();
    let open = m.escrow.unwrap();
    assert_eq!(open.vault.amount, 100);
    assert_eq!(open.vault.mint, key(MINT_A));
    assert_eq!(open.vault.authority, m.escrow_address);
    assert_eq!(m.maker_ata_a.amount, 900);
    assert_eq!(task.id, 7);
    assert_eq!(task.trigger_at, NOW + 864000);
    assert_eq!(task.free_tasks, 1);
    assert_eq!(task.crank_reward, None);
    assert_eq!(task.description, REFUND_TASK_DESCRIPTION);
    assert_eq!(task.description, "Refund escrow after 10 days");
    assert_eq!(task.program_id, key(PROGRAM));
    assert_eq!(task.data, SELECTOR.to_vec());
    let w = |k: Pubkey, is_writable: bool| AccountMeta { pubkey: k, is_signer: false, is_writable };
    assert_eq!(
        task.accounts,
        vec![
            w(key(MAKER), true),
            w(key(MINT_A), false),
            w(m.maker_ata_a_address, true),
            w(m.escrow_address, true),
            w(m.vault_address, true),
            w(key(TOKEN_PROGRAM), false),
            w(key(SYSTEM_PROGRAM), false),
        ]
    );

    let mut t = take_ctx(&m, 80);
    assert_eq!(take(&mut t), Ok(()));
    assert_eq!(t.maker_ata_b.amount, 50);
    assert_eq!(t.taker_ata_b.amount, 30);
    assert_eq!(t.taker_ata_a.amount, 100);
    assert!(t.escrow.is_none());
}

#[test]
fn make_records_terms() {
    let mut m = make_ctx_for(500, 42).0;
    make(&mut m, 42, 500, 9, 3, EXPIRY, NOW, bump_of(42)).unwrap();
    let r = m.escrow.unwrap().record;
    assert_eq!(r.seed, 42);
    assert_eq!(r.maker, key(MAKER));
    assert_eq!(r.mint_a, key(MINT_A));
    assert_eq!(r.mint_b, key(MINT_B));
    assert_eq!(r.receive, 9);
    assert_eq!(r.bump, bump_of(42));
    assert_eq!(r.created_at, NOW);
    assert_eq!(r.expiry, EXPIRY);
    assert_eq!(m.maker_ata_a.amount, 0);
    assert_eq!(REFUND_DELAY_SECONDS, 10 * 24 * 60 * 60);
}

#[test]
fn make_twice_is_already_initialized() {
    let mut m = make_ctx(1000);
    make(&mut m, 1, 100, 50, 7, EXPIRY, NOW, bump_of(1)).unwrap();
    let before = m;
    assert_eq!(make(&mut m, 1, 100, 50, 8, EXPIRY, NOW, bump_of(1)), Err(ProgramError::AlreadyInitialized));
    assert_eq!(m, before);
}

#[test]
fn make_with_insufficient_balance_changes_nothing() {
    let mut m = make_ctx(99);
    let before = m;
    assert_eq!(make(&mut m, 1, 100, 50, 7, EXPIRY, NOW, bump_of(1)), Err(ProgramError::ArithmeticOrBalanceError));
    assert_eq!(m, before);
}

#[test]
fn make_with_wrong_mint_is_rejected() {
    let mut m = make_ctx(1000);
    m.maker_ata_a = account(MINT_B, MAKER, 1000);
    let before = m;
    assert_eq!(make(&mut m, 1, 100, 50, 7, EXPIRY, NOW, bump_of(1)), Err(ProgramError::AccountConstraintViolation));
    assert_eq!(m, before);
}

#[test]
fn make_with_wrong_authority_is_rejected() {
    let mut m = make_ctx(1000);
    m.maker_ata_a = account(MINT_A, TAKER, 1000);
    assert_eq!(make(&mut m, 1, 100, 50, 7, EXPIRY, NOW, bump_of(1)), Err(ProgramError::AccountConstraintViolation));
    assert!(m.escrow.is_none());
}

#[test]
fn make_with_overflowing_refund_time_changes_nothing() {
    let mut m = make_ctx(1000);
    let before = m;
    assert_eq!(
        make(&mut m, 1, 100, 50, 7, EXPIRY, i64::MAX - 10, bump_of(1)),
        Err(ProgramError::ArithmeticOrBalanceError)
    );
    assert_eq!(m, before);
}

#[test]
fn make_at_largest_time_that_fits() {
    let mut m = make_ctx(1000);
    let task = make(&mut m, 1, 0, 50, 7, EXPIRY, i64::MAX - 864000, bump_of(1)).unwrap();
    assert_eq!(task.trigger_at, i64::MAX);
    assert_eq!(m.escrow.unwrap().vault.amount, 0);
}

#[test]
fn take_twice_is_missing_account() {
    let mut m = make_ctx(1000);
    make(&mut m, 1, 100, 50, 7, EXPIRY, NOW, bump_of(1)).unwrap();
    let mut t = take_ctx(&m, 50);
    take(&mut t).unwrap();
    let mut again = t;
    assert_eq!(take(&mut again), Err(ProgramError::MissingAccount));
    assert_eq!(again, t);
    let mut r = Refund { maker_ata_a: m.maker_ata_a, escrow: t.escrow };
    assert_eq!(refund(&mut r), Err(ProgramError::MissingAccount));
    assert_eq!(r.maker_ata_a.amount, 900);
}

#[test]
fn refund_restores_maker_balance() {
    let mut m = make_ctx(1000);
    make(&mut m, 1, 100, 50, 7, EXPIRY, NOW, bump_of(1)).unwrap();
    let mut r = Refund { maker_ata_a: m.maker_ata_a, escrow: m.escrow };
    assert_eq!(refund(&mut r), Ok(()));
    assert_eq!(r.maker_ata_a.amount, 1000);
    assert!(r.escrow.is_none());
}

#[test]
fn refund_twice_is_missing_account() {
    let mut m = make_ctx(1000);
    make(&mut m, 1, 100, 50, 7, EXPIRY, NOW, bump_of(1)).unwrap();
    let mut r = Refund { maker_ata_a: m.maker_ata_a, escrow: m.escrow };
    refund(&mut r).unwrap();
    let mut again = r;
    assert_eq!(refund(&mut again), Err(ProgramError::MissingAccount));
    assert_eq!(again.maker_ata_a.amount, 1000);
    let mut t = take_ctx(&m, 50);
    t.escrow = r.escrow;
    assert_eq!(take(&mut t), Err(ProgramError::MissingAccount));
    assert_eq!(t.taker_ata_b.amount, 50);
}

#[test]
fn refund_to_wrong_account_is_rejected() {
    let mut m = make_ctx(1000);
    make(&mut m, 1, 100, 50, 7, EXPIRY, NOW, bump_of(1)).unwrap();
    let mut r = Refund { maker_ata_a: account(MINT_A, TAKER, 0), escrow: m.escrow };
    assert_eq!(refund(&mut r), Err(ProgramError::AccountConstraintViolation));
    assert!(r.escrow.is_some());
}

#[test]
fn take_with_insufficient_payment_changes_nothing() {
    let mut m = make_ctx(1000);
    make(&mut m, 1, 100, 50, 7, EXPIRY, NOW, bump_of(1)).unwrap();
    let mut t = take_ctx(&m, 49);
    let before = t;
    assert_eq!(take(&mut t), Err(ProgramError::ArithmeticOrBalanceError));
    assert_eq!(t, before);
}

#[test]
fn take_with_wrong_maker_account_is_rejected() {
    let mut m = make_ctx(1000);
    make(&mut m, 1, 100, 50, 7, EXPIRY, NOW, bump_of(1)).unwrap();
    let mut t = take_ctx(&m, 50);
    t.maker_ata_b = account(MINT_B, TAKER, 0);
    let before = t;
    assert_eq!(take(&mut t), Err(ProgramError::AccountConstraintViolation));
    assert_eq!(t, before);
}

#[test]
fn take_failing_withdrawal_rolls_back_payment() {
    let mut m = make_ctx(1000);
    make(&mut m, 1, 100, 50, 7, EXPIRY, NOW, bump_of(1)).unwrap();
    let mut t = take_ctx(&m, 50);
    t.taker_ata_a = account(MINT_A, TAKER, u64::MAX);
    let before = t;
    assert_eq!(take(&mut t), Err(ProgramError::ArithmeticOrBalanceError));
    assert_eq!(t, before);
}

#[test]
fn take_with_taker_account_of_wrong_mint_is_rejected() {
    let mut m = make_ctx(1000);
    make(&mut m, 1, 100, 50, 7, EXPIRY, NOW, bump_of(1)).unwrap();
    let mut t = take_ctx(&m, 50);
    t.taker_ata_a = account(MINT_B, TAKER, 0);
    let before = t;
    assert_eq!(take(&mut t), Err(ProgramError::AccountConstraintViolation));
    assert_eq!(t, before);
}

#[test]
fn transfer_moves_exact_amount() {
    let mut a = account(MINT_A, MAKER, 10);
    let mut b = account(MINT_A, TAKER, 5);
    assert_eq!(transfer(&mut a, &mut b, 10), Ok(()));
    assert_eq!((a.amount, b.amount), (0, 15));
    assert_eq!(transfer(&mut a, &mut b, 1), Err(ProgramError::ArithmeticOrBalanceError));
    assert_eq!((a.amount, b.amount), (0, 15));
}

#[test]
fn make_without_maker_signature_is_rejected() {
    let mut m = make_ctx(1000);
    m.maker_signed = false;
    let before = m;
    assert_eq!(make(&mut m, 1, 100, 50, 7, EXPIRY, NOW, bump_of(1)), Err(ProgramError::AccountConstraintViolation));
    assert_eq!(m, before);
}

#[test]
fn make_at_escrow_address_of_other_seed_is_rejected() {
    let mut m = make_ctx(1000);
    let before = m;
    assert_eq!(make(&mut m, 2, 100, 50, 7, EXPIRY, NOW, bump_of(1)), Err(ProgramError::AccountConstraintViolation));
    assert_eq!(m, before);
}

#[test]
fn make_with_wrong_bump_is_rejected() {
    let mut m = make_ctx(1000);
    let wrong = bump_of(1).wrapping_sub(1);
    assert_eq!(make(&mut m, 1, 100, 50, 7, EXPIRY, NOW, wrong), Err(ProgramError::AccountConstraintViolation));
    assert!(m.escrow.is_none());
}

#[test]
fn make_with_wrong_vault_address_is_rejected() {
    let mut m = make_ctx(1000);
    m.vault_address = key(99);
    assert_eq!(make(&mut m, 1, 100, 50, 7, EXPIRY, NOW, bump_of(1)), Err(ProgramError::AccountConstraintViolation));
    assert_eq!(m.maker_ata_a.amount, 1000);
}

#[test]
fn make_with_wrong_queue_authority_is_rejected() {
    let mut m = make_ctx(1000);
    m.queue_authority = key(98);
    assert_eq!(make(&mut m, 1, 100, 50, 7, EXPIRY, NOW, bump_of(1)), Err(ProgramError::AccountConstraintViolation));
    assert!(m.escrow.is_none());
}

#[test]
fn make_with_wrong_maker_account_address_is_rejected() {
    let mut m = make_ctx(1000);
    m.maker_ata_a_address = key(97);
    assert_eq!(make(&mut m, 1, 100, 50, 7, EXPIRY, NOW, bump_of(1)), Err(ProgramError::AccountConstraintViolation));
    assert!(m.escrow.is_none());
}
