use vstd::prelude::*;
use crate::error::ProgramError;
use crate::address::{derives, is_derived, key_seed, seeds_view};
use crate::keys::{AccountMeta, Pubkey};
use crate::token::{transfer, transfer_spec, TokenAccount};

verus! {

/// Delay between opening an escrow and its scheduled refund: ten days, in seconds.
pub const REFUND_DELAY_SECONDS: i64 = 864000;

/// Label of the scheduled refund task.
pub const REFUND_TASK_DESCRIPTION: &'static str = "Refund escrow after 10 days";

/// The record of a pending trade: the maker offers a vault of `mint_a` for
/// `receive` units of `mint_b`.
#[derive(Clone, Copy, PartialEq, Eq, Debug)]
pub struct Escrow {
    pub seed: u64,
    pub maker: Pubkey,
    pub mint_a: Pubkey,
    pub mint_b: Pubkey,
    pub receive: u64,
    pub bump: u8,
    pub created_at: i64,
    pub expiry: i64,
}

/// An open escrow: the record together with its vault. The two are created and
/// closed together, so an escrow slot is either empty or holds both.
#[derive(Clone, Copy, PartialEq, Eq, Debug)]
pub struct OpenEscrow {
    pub record: Escrow,
    pub vault: TokenAccount,
}

impl OpenEscrow {
    /// The vault holds the offered mint and is controlled by the escrow's own
    /// address, never by the maker.
    pub open spec fn wf(self, escrow_address: Pubkey) -> bool {
        &&& self.vault.mint == self.record.mint_a
        &&& self.vault.authority == escrow_address
    }
}

/// The one-shot task handed to the scheduler: at `trigger_at`, run this
/// program's refund instruction (`program_id`, `accounts`, `data`).
#[derive(Clone, PartialEq, Eq, Debug)]
pub struct RefundTask {
    pub id: u16,
    pub trigger_at: i64,
    pub free_tasks: u8,
    pub crank_reward: Option<u64>,
    pub description: String,
    pub program_id: Pubkey,
    pub accounts: Vec<AccountMeta>,
    pub data: Vec<u8>,
}

/// The accounts of `make`. `escrow` is the slot at `escrow_address`, which
/// must be derived from the maker and the seed; that address is the vault's
/// authority. `refund_selector` is the refund instruction's selector.
#[derive(Clone, Copy, PartialEq, Eq, Debug)]
pub struct Make {
    pub maker: Pubkey,
    pub maker_signed: bool,
    pub mint_a: Pubkey,
    pub mint_b: Pubkey,
    pub maker_ata_a_address: Pubkey,
    pub maker_ata_a: TokenAccount,
    pub escrow_address: Pubkey,
    pub escrow: Option<OpenEscrow>,
    pub vault_address: Pubkey,
    pub queue_authority: Pubkey,
    pub program_id: Pubkey,
    pub token_program: Pubkey,
    pub associated_token_program: Pubkey,
    pub system_program: Pubkey,
    pub refund_selector: [u8; 8],
}

/// The eight little-endian bytes of `x`.
pub open spec fn le_bytes(x: u64) -> Seq<u8> {
    seq![
        (x & 0xff) as u8,
        ((x >> 8u64) & 0xff) as u8,
        ((x >> 16u64) & 0xff) as u8,
        ((x >> 24u64) & 0xff) as u8,
        ((x >> 32u64) & 0xff) as u8,
        ((x >> 40u64) & 0xff) as u8,
        ((x >> 48u64) & 0xff) as u8,
        ((x >> 56u64) & 0xff) as u8,
    ]
}

/// The seeds of an escrow's address: `"escrow"`, the maker, the seed.
pub open spec fn escrow_seeds(maker: Pubkey, seed: u64) -> Seq<Seq<u8>> {
    seq![seq![101u8, 115u8, 99u8, 114u8, 111u8, 119u8], maker.bytes@, le_bytes(seed)]
}

/// The seeds of the associated token account of `owner` for `mint`.
pub open spec fn ata_seeds(owner: Pubkey, token_program: Pubkey, mint: Pubkey) -> Seq<Seq<u8>> {
    seq![owner.bytes@, token_program.bytes@, mint.bytes@]
}

/// The seeds of the queue authority: `"queue_authority"`.
pub open spec fn queue_authority_seeds() -> Seq<Seq<u8>> {
    seq![
        seq![113u8, 117u8, 101u8, 117u8, 101u8, 95u8, 97u8, 117u8, 116u8, 104u8, 111u8, 114u8, 105u8, 116u8, 121u8],
    ]
}

/// The account constraints of `make`: the maker signed, and the escrow (with
/// bump `bump`), the maker's account of `mint_a`, the vault and the queue
/// authority all sit at their derived addresses.
pub open spec fn make_accounts_valid(ctx: Make, seed: u64, bump: u8) -> bool {
    &&& ctx.maker_signed
    &&& derives(escrow_seeds(ctx.maker, seed), ctx.program_id, ctx.escrow_address, Some(bump))
    &&& derives(
        ata_seeds(ctx.maker, ctx.token_program, ctx.mint_a),
        ctx.associated_token_program,
        ctx.maker_ata_a_address,
        None,
    )
    &&& derives(
        ata_seeds(ctx.escrow_address, ctx.token_program, ctx.mint_a),
        ctx.associated_token_program,
        ctx.vault_address,
        None,
    )
    &&& derives(queue_authority_seeds(), ctx.program_id, ctx.queue_authority, None)
}

/// The accounts of the refund instruction, in its order.
pub open spec fn refund_accounts(ctx: Make) -> Seq<AccountMeta> {
    seq![
        AccountMeta { pubkey: ctx.maker, is_signer: false, is_writable: true },
        AccountMeta { pubkey: ctx.mint_a, is_signer: false, is_writable: false },
        AccountMeta { pubkey: ctx.maker_ata_a_address, is_signer: false, is_writable: true },
        AccountMeta { pubkey: ctx.escrow_address, is_signer: false, is_writable: true },
        AccountMeta { pubkey: ctx.vault_address, is_signer: false, is_writable: true },
        AccountMeta { pubkey: ctx.token_program, is_signer: false, is_writable: false },
        AccountMeta { pubkey: ctx.system_program, is_signer: false, is_writable: false },
    ]
}

/// `t` is the refund task of `ctx` with id `task_id`, due
/// `REFUND_DELAY_SECONDS` after `now`.
pub open spec fn refund_task_spec(ctx: Make, task_id: u16, now: i64, t: RefundTask) -> bool {
    &&& t.id == task_id
    &&& t.trigger_at == now + REFUND_DELAY_SECONDS
    &&& t.free_tasks == 1
    &&& t.crank_reward is None
    &&& t.description@ == REFUND_TASK_DESCRIPTION@
    &&& t.program_id == ctx.program_id
    &&& t.accounts@ == refund_accounts(ctx)
    &&& t.data@ == ctx.refund_selector@
}

pub open spec fn init_escrow_spec(
    ctx: Make,
    seed: u64,
    receive: u64,
    expiry: i64,
    bump: u8,
    now: i64,
) -> Result<Make, ProgramError> {
    if ctx.escrow is Some {
        Err(ProgramError::AlreadyInitialized)
    } else {
        Ok(
            Make {
                escrow: Some(
                    OpenEscrow {
                        record: Escrow {
                            seed,
                            maker: ctx.maker,
                            mint_a: ctx.mint_a,
                            mint_b: ctx.mint_b,
                            receive,
                            bump,
                            created_at: now,
                            expiry,
                        },
                        vault: TokenAccount {
                            mint: ctx.mint_a,
                            authority: ctx.escrow_address,
                            amount: 0,
                        },
                    },
                ),
                ..ctx
            },
        )
    }
}

pub open spec fn make_deposit_spec(ctx: Make, deposit: u64) -> Result<Make, ProgramError> {
    match ctx.escrow {
        None => Err(ProgramError::MissingAccount),
        Some(e) => if ctx.maker_ata_a.mint != ctx.mint_a || ctx.maker_ata_a.authority
            != ctx.maker {
            Err(ProgramError::AccountConstraintViolation)
        } else {
            match transfer_spec(ctx.maker_ata_a, e.vault, deposit) {
                Err(err) => Err(err),
                Ok((from, to)) => Ok(
                    Make { maker_ata_a: from, escrow: Some(OpenEscrow { vault: to, ..e }), ..ctx },
                ),
            }
        },
    }
}

/// The refund time `now + REFUND_DELAY_SECONDS` fits in an `i64`.
pub open spec fn schedule_fits(now: i64) -> bool {
    now + REFUND_DELAY_SECONDS <= i64::MAX
}

/// `make` as one step: check the accounts, create the record and vault, fund
/// the vault, schedule the refund; any rejection rejects the whole step.
pub open spec fn make_spec(
    ctx: Make,
    seed: u64,
    deposit: u64,
    receive: u64,
    expiry: i64,
    now: i64,
    bump: u8,
) -> Result<Make, ProgramError> {
    if !make_accounts_valid(ctx, seed, bump) {
        Err(ProgramError::AccountConstraintViolation)
    } else {
        match init_escrow_spec(ctx, seed, receive, expiry, bump, now) {
            Err(e) => Err(e),
            Ok(c1) => match make_deposit_spec(c1, deposit) {
                Err(e) => Err(e),
                Ok(c2) => if schedule_fits(now) {
                    Ok(c2)
                } else {
                    Err(ProgramError::ArithmeticOrBalanceError)
                },
            },
        }
    }
}

/// The eight little-endian bytes of `x`, as a seed.
pub fn le_seed(x: u64) -> (r: Vec<u8>)
    ensures
        r@ == le_bytes(x),
{
    let v = vec![
        (x & 0xff) as u8,
        ((x >> 8u64) & 0xff) as u8,
        ((x >> 16u64) & 0xff) as u8,
        ((x >> 24u64) & 0xff) as u8,
        ((x >> 32u64) & 0xff) as u8,
        ((x >> 40u64) & 0xff) as u8,
        ((x >> 48u64) & 0xff) as u8,
        ((x >> 56u64) & 0xff) as u8,
    ];
    proof {
        assert(v@ =~= le_bytes(x));
    }
    v
}

impl Make {
    /// Creates the escrow record and its empty vault in the empty slot.
    pub fn init_escrow(&mut self, seed: u64, receive: u64, expiry: i64, bump: u8, now: i64) -> (r:
        Result<(), ProgramError>)
        ensures
            match init_escrow_spec(*old(self), seed, receive, expiry, bump, now) {
                Ok(c) => r is Ok && *final(self) == c,
                Err(e) => r == Err::<(), ProgramError>(e) && *final(self) == *old(self),
            },
    {
        if self.escrow.is_some() {
            return Err(ProgramError::AlreadyInitialized);
        }
        self.escrow = Some(
            OpenEscrow {
                record: Escrow {
                    seed,
                    maker: self.maker,
                    mint_a: self.mint_a,
                    mint_b: self.mint_b,
                    receive,
                    bump,
                    created_at: now,
                    expiry,
                },
                vault: TokenAccount { mint: self.mint_a, authority: self.escrow_address, amount: 0 },
            },
        );
        Ok(())
    }

    /// Moves `deposit` units of `mint_a` from the maker's account into the vault.
    pub fn deposit(&mut self, deposit: u64) -> (r: Result<(), ProgramError>)
        ensures
            match make_deposit_spec(*old(self), deposit) {
                Ok(c) => r is Ok && *final(self) == c,
                Err(e) => r == Err::<(), ProgramError>(e) && *final(self) == *old(self),
            },
    {
        match self.escrow {
            None => Err(ProgramError::MissingAccount),
            Some(e) => {
                if self.maker_ata_a.mint != self.mint_a || self.maker_ata_a.authority != self.maker {
                    return Err(ProgramError::AccountConstraintViolation);
                }
                let mut vault = e.vault;
                let res = transfer(&mut self.maker_ata_a, &mut vault, deposit);
                if res.is_ok() {
                    self.escrow = Some(OpenEscrow { vault, ..e });
                }
                res
            },
        }
    }

    /// Checks the account constraints of `make` for `seed` and `bump`.
    pub fn validate(&self, seed: u64, bump: u8) -> (r: Result<(), ProgramError>)
        ensures
            r is Ok <==> make_accounts_valid(*self, seed, bump),
            r is Err ==> r == Err::<(), ProgramError>(ProgramError::AccountConstraintViolation),
    {
        if !self.maker_signed {
            return Err(ProgramError::AccountConstraintViolation);
        }
        let escrow_seed_list = vec![
            vec![101u8, 115u8, 99u8, 114u8, 111u8, 119u8],
            key_seed(&self.maker),
            le_seed(seed),
        ];
        proof {
            assert(seeds_view(escrow_seed_list@) =~~= escrow_seeds(self.maker, seed));
        }
        if !is_derived(&escrow_seed_list, &self.program_id, &self.escrow_address, Some(bump)) {
            return Err(ProgramError::AccountConstraintViolation);
        }
        let maker_ata_seeds = vec![
            key_seed(&self.maker),
            key_seed(&self.token_program),
            key_seed(&self.mint_a),
        ];
        proof {
            assert(seeds_view(maker_ata_seeds@) =~~= ata_seeds(self.maker, self.token_program, self.mint_a));
        }
        if !is_derived(&maker_ata_seeds, &self.associated_token_program, &self.maker_ata_a_address, None) {
            return Err(ProgramError::AccountConstraintViolation);
        }
        let vault_seeds = vec![
            key_seed(&self.escrow_address),
            key_seed(&self.token_program),
            key_seed(&self.mint_a),
        ];
        proof {
            assert(seeds_view(vault_seeds@) =~~= ata_seeds(self.escrow_address, self.token_program, self.mint_a));
        }
        if !is_derived(&vault_seeds, &self.associated_token_program, &self.vault_address, None) {
            return Err(ProgramError::AccountConstraintViolation);
        }
        let queue_seeds = vec![
            vec![113u8, 117u8, 101u8, 117u8, 101u8, 95u8, 97u8, 117u8, 116u8, 104u8, 111u8, 114u8, 105u8, 116u8, 121u8],
        ];
        proof {
            assert(seeds_view(queue_seeds@) =~~= queue_authority_seeds());
        }
        if !is_derived(&queue_seeds, &self.program_id, &self.queue_authority, None) {
            return Err(ProgramError::AccountConstraintViolation);
        }
        Ok(())
    }

    /// The refund task, due `REFUND_DELAY_SECONDS` after `now`: a call of this
    /// program's refund instruction over the escrow's accounts.
    pub fn schedule(&self, task_id: u16, now: i64) -> (r: Result<RefundTask, ProgramError>)
        ensures
            !schedule_fits(now) ==> r == Err::<RefundTask, ProgramError>(
                ProgramError::ArithmeticOrBalanceError,
            ),
            schedule_fits(now) ==> r is Ok && refund_task_spec(*self, task_id, now, r->Ok_0),
    {
        if now > i64::MAX - REFUND_DELAY_SECONDS {
            return Err(ProgramError::ArithmeticOrBalanceError);
        }
        let accounts = vec![
            AccountMeta { pubkey: self.maker, is_signer: false, is_writable: true },
            AccountMeta { pubkey: self.mint_a, is_signer: false, is_writable: false },
            AccountMeta { pubkey: self.maker_ata_a_address, is_signer: false, is_writable: true },
            AccountMeta { pubkey: self.escrow_address, is_signer: false, is_writable: true },
            AccountMeta { pubkey: self.vault_address, is_signer: false, is_writable: true },
            AccountMeta { pubkey: self.token_program, is_signer: false, is_writable: false },
            AccountMeta { pubkey: self.system_program, is_signer: false, is_writable: false },
        ];
        proof {
            assert(accounts@ =~= refund_accounts(*self));
        }
        let mut data: Vec<u8> = Vec::new();
        let mut i: usize = 0;
        while i < 8
            invariant
                0 <= i <= 8,
                data@ == self.refund_selector@.subrange(0, i as int),
            decreases 8 - i,
        {
            data.push(self.refund_selector[i]);
            i += 1;
        }
        proof {
            assert(data@ =~= self.refund_selector@);
        }
        Ok(
            RefundTask {
                id: task_id,
                trigger_at: now + REFUND_DELAY_SECONDS,
                free_tasks: 1,
                crank_reward: None,
                description: REFUND_TASK_DESCRIPTION.to_owned(),
                program_id: self.program_id,
                accounts,
                data,
            },
        )
    }
}

/// Opens an escrow at time `now`: the record holds the given terms, the vault
/// holds exactly `deposit` of `mint_a`, and the refund task is returned for
/// the scheduler. On rejection no account changes.
pub fn make(
    ctx: &mut Make,
    seed: u64,
    deposit: u64,
    receive: u64,
    task_id: u16,
    expiry: i64,
    now: i64,
    bump: u8,
) -> (r: Result<RefundTask, ProgramError>)
    ensures
        match make_spec(*old(ctx), seed, deposit, receive, expiry, now, bump) {
            Ok(c) => r is Ok && *final(ctx) == c && refund_task_spec(*old(ctx), task_id, now, r->Ok_0),
            Err(e) => r == Err::<RefundTask, ProgramError>(e) && *final(ctx) == *old(ctx),
        },
        r is Ok ==> final(ctx).escrow == Some(
            OpenEscrow {
                record: Escrow {
                    seed,
                    maker: old(ctx).maker,
                    mint_a: old(ctx).mint_a,
                    mint_b: old(ctx).mint_b,
                    receive,
                    bump,
                    created_at: now,
                    expiry,
                },
                vault: TokenAccount {
                    mint: old(ctx).mint_a,
                    authority: old(ctx).escrow_address,
                    amount: deposit,
                },
            },
        ) && final(ctx).maker_ata_a.amount == old(ctx).maker_ata_a.amount - deposit,
        r is Ok ==> final(ctx).escrow->Some_0.wf(old(ctx).escrow_address),
        r is Ok <==> make_accounts_valid(*old(ctx), seed, bump) && old(ctx).escrow is None
            && old(ctx).maker_ata_a.mint == old(ctx).mint_a && old(ctx).maker_ata_a.authority
            == old(ctx).maker && old(ctx).maker_ata_a.amount >= deposit && schedule_fits(now),
{
    let v = ctx.validate(seed, bump);
    if let Err(e) = v {
        return Err(e);
    }
    let before = *ctx;
    let r1 = ctx.init_escrow(seed, receive, expiry, bump, now);
    if let Err(e) = r1 {
        return Err(e);
    }
    let r2 = ctx.deposit(deposit);
    if let Err(e) = r2 {
        *ctx = before;
        return Err(e);
    }
    let r3 = before.schedule(task_id, now);
    if r3.is_err() {
        *ctx = before;
    }
    r3
}

/// The accounts of `take`: the taker's accounts of both mints, the maker's
/// account of `mint_b`, and the escrow slot.
#[derive(Clone, Copy, PartialEq, Eq, Debug)]
pub struct Take {
    pub taker: Pubkey,
    pub taker_ata_a: TokenAccount,
    pub taker_ata_b: TokenAccount,
    pub maker_ata_b: TokenAccount,
    pub escrow: Option<OpenEscrow>,
}

/// The accounts of `refund`: the maker's account of `mint_a` and the escrow slot.
#[derive(Clone, Copy, PartialEq, Eq, Debug)]
pub struct Refund {
    pub maker_ata_a: TokenAccount,
    pub escrow: Option<OpenEscrow>,
}

/// The taker pays `receive` of `mint_b` to the maker.
pub open spec fn take_deposit_spec(ctx: Take) -> Result<Take, ProgramError> {
    match ctx.escrow {
        None => Err(ProgramError::MissingAccount),
        Some(e) => if ctx.taker_ata_b.mint != e.record.mint_b || ctx.taker_ata_b.authority
            != ctx.taker || ctx.maker_ata_b.mint != e.record.mint_b || ctx.maker_ata_b.authority
            != e.record.maker {
            Err(ProgramError::AccountConstraintViolation)
        } else {
            match transfer_spec(ctx.taker_ata_b, ctx.maker_ata_b, e.record.receive) {
                Err(err) => Err(err),
                Ok((from, to)) => Ok(Take { taker_ata_b: from, maker_ata_b: to, ..ctx }),
            }
        },
    }
}

/// The vault's whole balance goes to the taker; vault and record are closed.
pub open spec fn withdraw_spec(ctx: Take) -> Result<Take, ProgramError> {
    match ctx.escrow {
        None => Err(ProgramError::MissingAccount),
        Some(e) => if ctx.taker_ata_a.mint != e.record.mint_a || ctx.taker_ata_a.authority
            != ctx.taker {
            Err(ProgramError::AccountConstraintViolation)
        } else {
            match transfer_spec(e.vault, ctx.taker_ata_a, e.vault.amount) {
                Err(err) => Err(err),
                Ok((_, to)) => Ok(Take { taker_ata_a: to, escrow: None, ..ctx }),
            }
        },
    }
}

/// `take` as one step: the payment to the maker, then the withdrawal.
pub open spec fn take_spec(ctx: Take) -> Result<Take, ProgramError> {
    match take_deposit_spec(ctx) {
        Err(e) => Err(e),
        Ok(c) => withdraw_spec(c),
    }
}

/// The vault's whole balance returns to the maker; vault and record are closed.
pub open spec fn refund_spec(ctx: Refund) -> Result<Refund, ProgramError> {
    match ctx.escrow {
        None => Err(ProgramError::MissingAccount),
        Some(e) => if ctx.maker_ata_a.mint != e.record.mint_a || ctx.maker_ata_a.authority
            != e.record.maker {
            Err(ProgramError::AccountConstraintViolation)
        } else {
            match transfer_spec(e.vault, ctx.maker_ata_a, e.vault.amount) {
                Err(err) => Err(err),
                Ok((_, to)) => Ok(Refund { maker_ata_a: to, escrow: None }),
            }
        },
    }
}

impl Take {
    /// Pays `receive` of `mint_b` from the taker to the maker.
    pub fn deposit(&mut self) -> (r: Result<(), ProgramError>)
        ensures
            match take_deposit_spec(*old(self)) {
                Ok(c) => r is Ok && *final(self) == c,
                Err(e) => r == Err::<(), ProgramError>(e) && *final(self) == *old(self),
            },
    {
        match self.escrow {
            None => Err(ProgramError::MissingAccount),
            Some(e) => {
                if self.taker_ata_b.mint != e.record.mint_b || self.taker_ata_b.authority
                    != self.taker || self.maker_ata_b.mint != e.record.mint_b
                    || self.maker_ata_b.authority != e.record.maker {
                    return Err(ProgramError::AccountConstraintViolation);
                }
                transfer(&mut self.taker_ata_b, &mut self.maker_ata_b, e.record.receive)
            },
        }
    }

    /// Empties the vault into the taker's account of `mint_a` and closes the escrow.
    pub fn withdraw_and_close_vault(&mut self) -> (r: Result<(), ProgramError>)
        ensures
            match withdraw_spec(*old(self)) {
                Ok(c) => r is Ok && *final(self) == c,
                Err(e) => r == Err::<(), ProgramError>(e) && *final(self) == *old(self),
            },
    {
        match self.escrow {
            None => Err(ProgramError::MissingAccount),
            Some(e) => {
                if self.taker_ata_a.mint != e.record.mint_a || self.taker_ata_a.authority
                    != self.taker {
                    return Err(ProgramError::AccountConstraintViolation);
                }
                let mut vault = e.vault;
                let res = transfer(&mut vault, &mut self.taker_ata_a, e.vault.amount);
                if res.is_ok() {
                    self.escrow = None;
                }
                res
            },
        }
    }
}

impl Refund {
    /// Empties the vault into the maker's account of `mint_a` and closes the escrow.
    pub fn refund_and_close_vault(&mut self) -> (r: Result<(), ProgramError>)
        ensures
            match refund_spec(*old(self)) {
                Ok(c) => r is Ok && *final(self) == c,
                Err(e) => r == Err::<(), ProgramError>(e) && *final(self) == *old(self),
            },
    {
        match self.escrow {
            None => Err(ProgramError::MissingAccount),
            Some(e) => {
                if self.maker_ata_a.mint != e.record.mint_a || self.maker_ata_a.authority
                    != e.record.maker {
                    return Err(ProgramError::AccountConstraintViolation);
                }
                let mut vault = e.vault;
                let res = transfer(&mut vault, &mut self.maker_ata_a, e.vault.amount);
                if res.is_ok() {
                    self.escrow = None;
                }
                res
            },
        }
    }
}

/// Completes the trade: the maker receives exactly `receive` of `mint_b`, the
/// taker exactly the vault's balance of `mint_a`, and the escrow is closed.
/// On rejection no account changes.
pub fn take(ctx: &mut Take) -> (r: Result<(), ProgramError>)
    ensures
        match take_spec(*old(ctx)) {
            Ok(c) => r is Ok && *final(ctx) == c,
            Err(e) => r == Err::<(), ProgramError>(e) && *final(ctx) == *old(ctx),
        },
        old(ctx).escrow is None ==> r == Err::<(), ProgramError>(ProgramError::MissingAccount),
        r is Ok ==> final(ctx).escrow is None && final(ctx).taker_ata_a.amount
            == old(ctx).taker_ata_a.amount + old(ctx).escrow->Some_0.vault.amount
            && final(ctx).maker_ata_b.amount == old(ctx).maker_ata_b.amount
            + old(ctx).escrow->Some_0.record.receive && final(ctx).taker_ata_b.amount
            == old(ctx).taker_ata_b.amount - old(ctx).escrow->Some_0.record.receive,
{
    let before = *ctx;
    let r1 = ctx.deposit();
    if r1.is_err() {
        return r1;
    }
    let r2 = ctx.withdraw_and_close_vault();
    if r2.is_err() {
        *ctx = before;
    }
    r2
}

/// Cancels the trade: the maker gets the vault's whole balance of `mint_a`
/// back and the escrow is closed. On rejection no account changes.
pub fn refund(ctx: &mut Refund) -> (r: Result<(), ProgramError>)
    ensures
        match refund_spec(*old(ctx)) {
            Ok(c) => r is Ok && *final(ctx) == c,
            Err(e) => r == Err::<(), ProgramError>(e) && *final(ctx) == *old(ctx),
        },
        old(ctx).escrow is None ==> r == Err::<(), ProgramError>(ProgramError::MissingAccount),
        r is Ok ==> final(ctx).escrow is None && final(ctx).maker_ata_a.amount
            == old(ctx).maker_ata_a.amount + old(ctx).escrow->Some_0.vault.amount,
{
    ctx.refund_and_close_vault()
}

/// Once `take` has succeeded on an escrow, a second `take` or a `refund` on
/// that escrow slot is rejected with `MissingAccount`, whatever the other
/// accounts supplied.
pub proof fn take_closes_escrow(ctx: Take, again: Take, then_refund: Refund)
    requires
        take_spec(ctx) is Ok,
        again.escrow == take_spec(ctx)->Ok_0.escrow,
        then_refund.escrow == take_spec(ctx)->Ok_0.escrow,
    ensures
        take_spec(again) == Err::<Take, ProgramError>(ProgramError::MissingAccount),
        refund_spec(then_refund) == Err::<Refund, ProgramError>(ProgramError::MissingAccount),
{
}

/// Once `refund` has succeeded on an escrow, a second `refund` or a `take` on
/// that escrow slot is rejected with `MissingAccount`, whatever the other
/// accounts supplied.
pub proof fn refund_closes_escrow(ctx: Refund, again: Refund, then_take: Take)
    requires
        refund_spec(ctx) is Ok,
        again.escrow == refund_spec(ctx)->Ok_0.escrow,
        then_take.escrow == refund_spec(ctx)->Ok_0.escrow,
    ensures
        refund_spec(again) == Err::<Refund, ProgramError>(ProgramError::MissingAccount),
        take_spec(then_take) == Err::<Take, ProgramError>(ProgramError::MissingAccount),
{
}

/// After `make` funds an escrow with `deposit`, a successful `take` on it
/// credits the taker with exactly `deposit` of `mint_a` and the maker with
/// exactly `receive` of `mint_b`, and closes the escrow.
pub proof fn take_pays_both_sides(
    ctx: Make,
    seed: u64,
    deposit: u64,
    receive: u64,
    expiry: i64,
    now: i64,
    bump: u8,
    t: Take,
)
    requires
        make_spec(ctx, seed, deposit, receive, expiry, now, bump) is Ok,
        t.escrow == make_spec(ctx, seed, deposit, receive, expiry, now, bump)->Ok_0.escrow,
        take_spec(t) is Ok,
    ensures
        take_spec(t)->Ok_0.taker_ata_a.amount == t.taker_ata_a.amount + deposit,
        take_spec(t)->Ok_0.maker_ata_b.amount == t.maker_ata_b.amount + receive,
        take_spec(t)->Ok_0.escrow is None,
{
}

/// After `make` moves `deposit` out of the maker's account of `mint_a`, a
/// successful `refund` of that escrow into the same account restores its
/// balance exactly, and closes the escrow.
pub proof fn refund_restores_deposit(
    ctx: Make,
    seed: u64,
    deposit: u64,
    receive: u64,
    expiry: i64,
    now: i64,
    bump: u8,
    r: Refund,
)
    requires
        make_spec(ctx, seed, deposit, receive, expiry, now, bump) is Ok,
        r.escrow == make_spec(ctx, seed, deposit, receive, expiry, now, bump)->Ok_0.escrow,
        r.maker_ata_a == make_spec(ctx, seed, deposit, receive, expiry, now, bump)->Ok_0.maker_ata_a,
        refund_spec(r) is Ok,
    ensures
        refund_spec(r)->Ok_0.maker_ata_a == ctx.maker_ata_a,
        refund_spec(r)->Ok_0.escrow is None,
{
}

} // verus!
