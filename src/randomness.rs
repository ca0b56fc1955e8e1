use vstd::prelude::*;
use crate::error::ProgramError;
use crate::address::{derives, is_derived, key_seed, seeds_view};
use crate::keys::{AccountMeta, Pubkey};

verus! {

/// The little-endian 64-bit value read from bytes 0, 4, 8, ..., 28 of a 32-byte seed.
pub open spec fn random_u64_of(b: Seq<u8>) -> u64 {
    (b[0] as int + b[4] as int * 0x100 + b[8] as int * 0x1_0000 + b[12] as int * 0x100_0000
        + b[16] as int * 0x1_0000_0000 + b[20] as int * 0x100_0000_0000
        + b[24] as int * 0x1_0000_0000_0000 + b[28] as int * 0x100_0000_0000_0000) as u64
}

/// Relies on ephemeral_vrf_sdk::rnd::random_u64, which builds a u64 with
/// `u64::from_le_bytes` from bytes 0, 4, 8, ..., 28 of the seed.
#[verifier::external_body]
fn random_u64(randomness: &[u8; 32]) -> (r: u64)
    ensures
        r == random_u64_of(randomness@),
{
    ephemeral_vrf_sdk::rnd::random_u64(randomness)
}

/// The per-user record that receives delivered random values.
#[derive(Clone, Copy, PartialEq, Eq, Structural, Debug)]
pub struct UserAccount {
    pub data: u64,
    pub bump: u8,
}

/// Creates the user record in the empty slot: no value delivered yet.
/// Rejected when the record already exists.
pub fn initialize(slot: &mut Option<UserAccount>, bump: u8) -> (r: Result<(), ProgramError>)
    ensures
        *old(slot) is Some ==> r == Err::<(), ProgramError>(ProgramError::AlreadyInitialized)
            && *final(slot) == *old(slot),
        *old(slot) is None ==> r is Ok && *final(slot) == Some(UserAccount { data: 0, bump }),
{
    if slot.is_some() {
        return Err(ProgramError::AlreadyInitialized);
    }
    *slot = Some(UserAccount { data: 0, bump });
    Ok(())
}

/// Overwrites the stored value; the bump is kept.
pub fn update(user: &mut UserAccount, new_data: u64)
    ensures
        *final(user) == (UserAccount { data: new_data, bump: old(user).bump }),
{
    user.data = new_data;
}

/// The accounts of the oracle's callback: the user record to fill and the
/// identity the callback names, with whether that identity signed.
#[derive(Clone, Copy, PartialEq, Eq, Debug)]
pub struct ConsumeRandomness {
    pub user: UserAccount,
    pub vrf_program_identity: Pubkey,
    pub identity_signed: bool,
}

/// The callback is accepted only from the `oracle` identity, with its signature.
pub open spec fn callback_authorized(ctx: ConsumeRandomness, oracle: Pubkey) -> bool {
    ctx.identity_signed && ctx.vrf_program_identity == oracle
}

impl ConsumeRandomness {
    /// Stores the value drawn from `randomness` into the user record, but only
    /// when the callback was signed by the `oracle` identity.
    pub fn consume(&mut self, oracle: &Pubkey, randomness: [u8; 32]) -> (r: Result<(), ProgramError>)
        ensures
            !callback_authorized(*old(self), *oracle) ==> r == Err::<(), ProgramError>(
                ProgramError::AccountConstraintViolation,
            ) && *final(self) == *old(self),
            callback_authorized(*old(self), *oracle) ==> r is Ok && *final(self) == (ConsumeRandomness {
                user: UserAccount { data: random_u64_of(randomness@), bump: old(self).user.bump },
                ..*old(self)
            }),
    {
        if !self.identity_signed || self.vrf_program_identity != *oracle {
            return Err(ProgramError::AccountConstraintViolation);
        }
        let random_no = random_u64(&randomness);
        self.user.data = random_no;
        Ok(())
    }
}

/// The oracle's callback: see [`ConsumeRandomness::consume`].
pub fn consume(ctx: &mut ConsumeRandomness, oracle: &Pubkey, randomness: [u8; 32]) -> (r: Result<(), ProgramError>)
    ensures
        r is Err <==> !callback_authorized(*old(ctx), *oracle),
        r is Err ==> r == Err::<(), ProgramError>(ProgramError::AccountConstraintViolation)
            && *final(ctx) == *old(ctx),
        r is Ok ==> final(ctx).user.data == random_u64_of(randomness@)
            && final(ctx).user.bump == old(ctx).user.bump
            && final(ctx).vrf_program_identity == old(ctx).vrf_program_identity
            && final(ctx).identity_signed == old(ctx).identity_signed,
{
    ctx.consume(oracle, randomness)
}

/// What is sent to the oracle queue: who pays, which queue, which program and
/// instruction to call back, the caller's seed, and the callback's accounts.
#[derive(Clone, PartialEq, Eq, Debug)]
pub struct RandomnessRequest {
    pub payer: Pubkey,
    pub oracle_queue: Pubkey,
    pub callback_program_id: Pubkey,
    pub callback_discriminator: Vec<u8>,
    pub caller_seed: [u8; 32],
    pub accounts_metas: Vec<AccountMeta>,
}

/// The accounts of a randomness request: the paying user (and whether it
/// signed), the address and contents of the user's record, and the queue.
#[derive(Clone, Copy, PartialEq, Eq, Debug)]
pub struct RequestRandomness {
    pub user: Pubkey,
    pub user_signed: bool,
    pub user_account_address: Pubkey,
    pub user_account: UserAccount,
    pub oracle_queue: Pubkey,
}

/// The seeds of a user's record: `"user"` and the user's address.
pub open spec fn user_seeds(user: Pubkey) -> Seq<Seq<u8>> {
    seq![seq![117u8, 115u8, 101u8, 114u8], user.bytes@]
}

/// The user signed, the record sits at the address derived from the user with
/// the record's own bump, and the queue is `expected_queue`.
pub open spec fn request_authorized(ctx: RequestRandomness, program_id: Pubkey, expected_queue: Pubkey) -> bool {
    &&& ctx.user_signed
    &&& derives(user_seeds(ctx.user), program_id, ctx.user_account_address, Some(ctx.user_account.bump))
    &&& ctx.oracle_queue == expected_queue
}

/// The request for the accounts `ctx`, when they are authorized.
pub open spec fn request_spec(
    ctx: RequestRandomness,
    program_id: Pubkey,
    client_seed: u8,
    q: RandomnessRequest,
    discriminator: Seq<u8>,
) -> bool {
    &&& q.payer == ctx.user
    &&& q.oracle_queue == ctx.oracle_queue
    &&& q.callback_program_id == program_id
    &&& q.callback_discriminator@ == discriminator
    &&& forall|i: int| 0 <= i < 32 ==> q.caller_seed[i] == client_seed
    &&& q.accounts_metas@ == seq![
        AccountMeta { pubkey: ctx.user_account_address, is_signer: false, is_writable: true },
    ]
}

impl RequestRandomness {
    /// The request asking the oracle at `expected_queue` to call back instruction
    /// `discriminator` of `program_id` with the user's record writable. Rejected
    /// unless the user signed, the record is the user's, and the queue is right.
    pub fn request(
        &self,
        program_id: &Pubkey,
        expected_queue: &Pubkey,
        client_seed: u8,
        discriminator: Vec<u8>,
    ) -> (r: Result<RandomnessRequest, ProgramError>)
        ensures
            !request_authorized(*self, *program_id, *expected_queue) ==> r == Err::<
                RandomnessRequest,
                ProgramError,
            >(ProgramError::AccountConstraintViolation),
            request_authorized(*self, *program_id, *expected_queue) ==> r is Ok && request_spec(
                *self,
                *program_id,
                client_seed,
                r->Ok_0,
                discriminator@,
            ),
    {
        if !self.user_signed {
            return Err(ProgramError::AccountConstraintViolation);
        }
        let seeds = vec![vec![117u8, 115u8, 101u8, 114u8], key_seed(&self.user)];
        proof {
            assert(seeds_view(seeds@) =~~= user_seeds(self.user));
        }
        if !is_derived(&seeds, program_id, &self.user_account_address, Some(self.user_account.bump)) {
            return Err(ProgramError::AccountConstraintViolation);
        }
        if self.oracle_queue != *expected_queue {
            return Err(ProgramError::AccountConstraintViolation);
        }
        let accounts_metas = vec![
            AccountMeta { pubkey: self.user_account_address, is_signer: false, is_writable: true },
        ];
        proof {
            assert(accounts_metas@ =~= seq![
                AccountMeta { pubkey: self.user_account_address, is_signer: false, is_writable: true },
            ]);
        }
        Ok(
            RandomnessRequest {
                payer: self.user,
                oracle_queue: self.oracle_queue,
                callback_program_id: *program_id,
                callback_discriminator: discriminator,
                caller_seed: [client_seed; 32],
                accounts_metas,
            },
        )
    }
}

/// Builds the randomness request: see [`RequestRandomness::request`].
pub fn request(
    ctx: &RequestRandomness,
    program_id: &Pubkey,
    expected_queue: &Pubkey,
    client_seed: u8,
    discriminator: Vec<u8>,
) -> (r: Result<RandomnessRequest, ProgramError>)
    ensures
        r is Err <==> !request_authorized(*ctx, *program_id, *expected_queue),
        r is Err ==> r == Err::<RandomnessRequest, ProgramError>(ProgramError::AccountConstraintViolation),
        r is Ok ==> request_spec(*ctx, *program_id, client_seed, r->Ok_0, discriminator@),
{
    ctx.request(program_id, expected_queue, client_seed, discriminator)
}

} // verus!
