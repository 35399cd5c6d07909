use vstd::prelude::*;

use crate::address::Address;
use crate::derivation::{
    authority_seed, derive_authority, derive_mint_address, derived_address, found_derivation,
    mint_seed, rederive_authority,
};
use crate::error::{AccountingError, ErrorCode, FaucetError, StoreError};
use crate::state::{State, StateView};

verus! {

/// The faucet's mint as the accounting service keeps it: its sole designated
/// minting authority, its decimal precision, and its total supply.
pub struct MintAccount {
    pub authority: Address,
    pub decimals: u8,
    pub supply: u64,
}

/// The mathematical value of a mint account.
#[verifier::ext_equal]
pub ghost struct MintAccountView {
    pub authority: Seq<u8>,
    pub decimals: u8,
    pub supply: u64,
}

impl View for MintAccount {
    type V = MintAccountView;

    open spec fn view(&self) -> MintAccountView {
        MintAccountView {
            authority: self.authority@,
            decimals: self.decimals,
            supply: self.supply,
        }
    }
}

impl MintAccount {
    pub open spec fn wf(&self) -> bool {
        self.authority.wf()
    }
}

/// A token-holding account as the accounting service keeps it: the mint whose
/// units it holds, and its balance in base units.
pub struct TokenAccount {
    pub mint: Address,
    pub balance: u64,
}

/// The mathematical value of a token account.
#[verifier::ext_equal]
pub ghost struct TokenAccountView {
    pub mint: Seq<u8>,
    pub balance: u64,
}

impl View for TokenAccount {
    type V = TokenAccountView;

    open spec fn view(&self) -> TokenAccountView {
        TokenAccountView { mint: self.mint@, balance: self.balance }
    }
}

impl TokenAccount {
    pub open spec fn wf(&self) -> bool {
        self.mint.wf()
    }
}

/// The records initialization touches: the deployment's state slot and mint
/// slot in the external stores (empty until initialization creates them), and
/// the funding identity that pays for the new records.
pub struct Initialize {
    pub state: Option<State>,
    pub mint: Option<MintAccount>,
    pub payer: Address,
}

/// The mathematical value of the initialization records.
#[verifier::ext_equal]
pub ghost struct InitializeView {
    pub state: Option<StateView>,
    pub mint: Option<MintAccountView>,
    pub payer: Seq<u8>,
}

impl View for Initialize {
    type V = InitializeView;

    open spec fn view(&self) -> InitializeView {
        InitializeView {
            state: match self.state {
                Some(s) => Some(s@),
                None => None,
            },
            mint: match self.mint {
                Some(m) => Some(m@),
                None => None,
            },
            payer: self.payer@,
        }
    }
}

impl Initialize {
    pub open spec fn wf(&self) -> bool {
        &&& self.payer.wf()
        &&& (self.state matches Some(s) ==> s.wf())
        &&& (self.mint matches Some(m) ==> m.wf())
    }
}

/// The records a dispense call touches: the persisted state, the supplied
/// mint (its address and its account data), and the destination token account.
pub struct Dispense {
    pub state: State,
    pub mint_address: Address,
    pub mint: MintAccount,
    pub to: TokenAccount,
}

/// The mathematical value of the dispense records.
#[verifier::ext_equal]
pub ghost struct DispenseView {
    pub state: StateView,
    pub mint_address: Seq<u8>,
    pub mint: MintAccountView,
    pub to: TokenAccountView,
}

impl View for Dispense {
    type V = DispenseView;

    open spec fn view(&self) -> DispenseView {
        DispenseView {
            state: self.state@,
            mint_address: self.mint_address@,
            mint: self.mint@,
            to: self.to@,
        }
    }
}

impl Dispense {
    pub open spec fn wf(&self) -> bool {
        &&& self.state.wf()
        &&& self.mint_address.wf()
        &&& self.mint.wf()
        &&& self.to.wf()
    }
}

/// The decimal precision every faucet mint is created with.
pub const MINT_DECIMALS: u8 = 9;

/// The address bound into the state record by a successful initialization:
/// the canonical derived address for the mint seed label.
pub open spec fn spec_bound_mint(program_id: Seq<u8>) -> Seq<u8>
    recommends
        found_derivation(mint_seed(), program_id) is Some,
{
    (found_derivation(mint_seed(), program_id)->0).0
}

/// The authority address a successful initialization sets on the mint: the
/// canonical derived address for the authority seed label.
pub open spec fn spec_bound_authority(program_id: Seq<u8>) -> Seq<u8>
    recommends
        found_derivation(authority_seed(), program_id) is Some,
{
    (found_derivation(authority_seed(), program_id)->0).0
}

/// The proof byte a successful initialization persists: the canonical one for
/// the authority seed label.
pub open spec fn spec_bound_bump(program_id: Seq<u8>) -> u8
    recommends
        found_derivation(authority_seed(), program_id) is Some,
{
    (found_derivation(authority_seed(), program_id)->0).1
}

/// Whether both derivations that initialization needs exist for this program.
pub open spec fn derivations_exist(program_id: Seq<u8>) -> bool {
    &&& found_derivation(mint_seed(), program_id) is Some
    &&& found_derivation(authority_seed(), program_id) is Some
}

/// The binding a successful initialization establishes: the persisted proof
/// byte re-derives exactly the authority address the mint was created with.
pub open spec fn authority_link(program_id: Seq<u8>) -> bool {
    derived_address(authority_seed(), spec_bound_bump(program_id), program_id) == Some(
        spec_bound_authority(program_id),
    )
}

/// One-time setup: creates the mint (decimal precision 9, minting authority
/// set to the derived authority), derives and persists the canonical proof
/// byte, and writes the state record — atomically, so a failure leaves every
/// record as it was. A second call fails because the records already exist.
pub fn initialize(ctx: &mut Initialize, program_id: &Address) -> (r: Result<(), FaucetError>)
    requires
        old(ctx).wf(),
        program_id.wf(),
    ensures
        final(ctx).wf(),
        final(ctx).payer@ == old(ctx).payer@,
        r is Ok <==> {
            &&& old(ctx)@.state is None
            &&& old(ctx)@.mint is None
            &&& derivations_exist(program_id@)
        },
        r is Err ==> final(ctx)@ == old(ctx)@,
        old(ctx)@.state is Some || old(ctx)@.mint is Some ==> r == Err::<(), FaucetError>(
            FaucetError::Store(StoreError::AlreadyExists),
        ),
        old(ctx)@.state is None && old(ctx)@.mint is None && !derivations_exist(program_id@)
            ==> r == Err::<(), FaucetError>(FaucetError::Program(ErrorCode::BumpError)),
        r is Ok ==> final(ctx)@.state == Some(
            StateView {
                is_initialized: true,
                mint: spec_bound_mint(program_id@),
                bump: spec_bound_bump(program_id@),
            },
        ),
        r is Ok ==> final(ctx)@.mint == Some(
            MintAccountView {
                authority: spec_bound_authority(program_id@),
                decimals: MINT_DECIMALS,
                supply: 0,
            },
        ),
        r is Ok ==> authority_link(program_id@),
{
    if ctx.state.is_some() || ctx.mint.is_some() {
        return Err(FaucetError::Store(StoreError::AlreadyExists));
    }
    let (mint_addr, _mint_bump) = match derive_mint_address(program_id) {
        Ok(p) => p,
        Err(e) => {
            return Err(FaucetError::Program(e));
        },
    };
    let (auth_addr, auth_bump) = match derive_authority(program_id) {
        Ok(p) => p,
        Err(e) => {
            return Err(FaucetError::Program(e));
        },
    };
    ctx.mint = Some(
        MintAccount { authority: auth_addr, decimals: MINT_DECIMALS, supply: 0 },
    );
    ctx.state = Some(State { is_initialized: true, mint: mint_addr, bump: auth_bump });
    Ok(())
}

/// Checks a dispense request against the persisted state: the record must be
/// initialized, and the supplied mint must be the one bound at initialization.
pub fn validate_dispense(state: &State, mint_address: &Address) -> (r: Result<(), ErrorCode>)
    ensures
        r is Ok <==> state.is_initialized && state@.mint == mint_address@,
        !state.is_initialized ==> r == Err::<(), ErrorCode>(ErrorCode::Uninitialized),
        state.is_initialized && state@.mint != mint_address@ ==> r == Err::<(), ErrorCode>(
            ErrorCode::MintMismatch,
        ),
{
    if !state.is_initialized {
        return Err(ErrorCode::Uninitialized);
    }
    if !(state.mint == *mint_address) {
        return Err(ErrorCode::MintMismatch);
    }
    Ok(())
}

/// The exact outcome of a dispense call over the records it was handed: which
/// single failure it reports, or the two balance changes it commits. The
/// checks mirror, in order, this program's own validation, the signing
/// re-derivation, and the accounting service's checks on a mint instruction.
pub open spec fn dispense_outcome(pre: DispenseView, program_id: Seq<u8>, amount: u64) -> Result<
    DispenseView,
    FaucetError,
> {
    if !pre.state.is_initialized {
        Err(FaucetError::Program(ErrorCode::Uninitialized))
    } else if pre.state.mint != pre.mint_address {
        Err(FaucetError::Program(ErrorCode::MintMismatch))
    } else if derived_address(authority_seed(), pre.state.bump, program_id) is None {
        Err(FaucetError::Program(ErrorCode::BumpError))
    } else if derived_address(authority_seed(), pre.state.bump, program_id) != Some(
        pre.mint.authority,
    ) {
        Err(FaucetError::Accounting(AccountingError::NotMintAuthority))
    } else if pre.to.mint != pre.mint_address {
        Err(FaucetError::Accounting(AccountingError::DestinationMintMismatch))
    } else if pre.mint.supply + amount > u64::MAX {
        Err(FaucetError::Accounting(AccountingError::SupplyOverflow))
    } else if pre.to.balance + amount > u64::MAX {
        Err(FaucetError::Accounting(AccountingError::BalanceOverflow))
    } else {
        Ok(
            DispenseView {
                state: pre.state,
                mint_address: pre.mint_address,
                mint: MintAccountView {
                    authority: pre.mint.authority,
                    decimals: pre.mint.decimals,
                    supply: (pre.mint.supply + amount) as u64,
                },
                to: TokenAccountView {
                    mint: pre.to.mint,
                    balance: (pre.to.balance + amount) as u64,
                },
            },
        )
    }
}

/// The repeated operation: validates the supplied mint against the bound
/// state, re-derives the authority's signing proof from the fixed seed and
/// the stored proof byte, and mints `amount` base units to the destination,
/// with every accounting-service failure passed through; a failure leaves
/// every record as it was.
pub fn dispense(ctx: &mut Dispense, program_id: &Address, amount: u64) -> (r: Result<
    (),
    FaucetError,
>)
    requires
        old(ctx).wf(),
        program_id.wf(),
    ensures
        final(ctx).wf(),
        match dispense_outcome(old(ctx)@, program_id@, amount) {
            Ok(post) => r is Ok && final(ctx)@ == post,
            Err(e) => r == Err::<(), FaucetError>(e) && final(ctx)@ == old(ctx)@,
        },
{
    match validate_dispense(&ctx.state, &ctx.mint_address) {
        Ok(()) => {},
        Err(e) => {
            return Err(FaucetError::Program(e));
        },
    }
    let authority = match rederive_authority(program_id, ctx.state.bump) {
        Ok(a) => a,
        Err(e) => {
            return Err(FaucetError::Program(e));
        },
    };
    if !(authority == ctx.mint.authority) {
        return Err(FaucetError::Accounting(AccountingError::NotMintAuthority));
    }
    if !(ctx.to.mint == ctx.mint_address) {
        return Err(FaucetError::Accounting(AccountingError::DestinationMintMismatch));
    }
    if amount > u64::MAX - ctx.mint.supply {
        return Err(FaucetError::Accounting(AccountingError::SupplyOverflow));
    }
    if amount > u64::MAX - ctx.to.balance {
        return Err(FaucetError::Accounting(AccountingError::BalanceOverflow));
    }
    ctx.mint.supply = ctx.mint.supply + amount;
    ctx.to.balance = ctx.to.balance + amount;
    Ok(())
}

/// Uninitialized guard: against a state record that is not initialized, a
/// dispense call always fails with `Uninitialized` and changes no balance.
pub proof fn lemma_uninitialized_guard(pre: DispenseView, program_id: Seq<u8>, amount: u64)
    requires
        !pre.state.is_initialized,
    ensures
        dispense_outcome(pre, program_id, amount) == Err::<DispenseView, FaucetError>(
            FaucetError::Program(ErrorCode::Uninitialized),
        ),
{
}

/// Mint binding: a dispense call succeeds only with the mint bound in the
/// state record at call time; a supplied mint that differs from the bound one
/// fails with `MintMismatch`, before any balance changes.
pub proof fn lemma_mint_binding(pre: DispenseView, program_id: Seq<u8>, amount: u64)
    ensures
        dispense_outcome(pre, program_id, amount) is Ok ==> pre.state.mint == pre.mint_address,
        pre.state.is_initialized && pre.state.mint != pre.mint_address ==> dispense_outcome(
            pre,
            program_id,
            amount,
        ) == Err::<DispenseView, FaucetError>(FaucetError::Program(ErrorCode::MintMismatch)),
{
}

/// End to end: a dispense request built from the very records a successful
/// initialization wrote — the bound mint supplied as the mint argument, a
/// destination owned by that mint — succeeds whenever neither the supply nor
/// the destination balance would overflow, and pays out exactly `amount`.
pub proof fn lemma_initialize_enables_dispense(
    pre: DispenseView,
    program_id: Seq<u8>,
    amount: u64,
)
    requires
        authority_link(program_id),
        pre.state.is_initialized,
        pre.state.mint == spec_bound_mint(program_id),
        pre.state.bump == spec_bound_bump(program_id),
        pre.mint.authority == spec_bound_authority(program_id),
        pre.mint_address == pre.state.mint,
        pre.to.mint == pre.mint_address,
        pre.mint.supply + amount <= u64::MAX,
        pre.to.balance + amount <= u64::MAX,
    ensures
        dispense_outcome(pre, program_id, amount) matches Ok(post) && post.to.balance
            == pre.to.balance + amount && post.mint.supply == pre.mint.supply + amount,
{
}

/// Dispense conservation: a successful dispense of `amount` raises the
/// destination balance and the total supply by exactly `amount`, and changes
/// nothing else — not the state record, not the mint's authority or precision,
/// not the destination's mint.
pub proof fn lemma_dispense_conservation(
    pre: DispenseView,
    post: DispenseView,
    program_id: Seq<u8>,
    amount: u64,
)
    requires
        dispense_outcome(pre, program_id, amount) == Ok::<DispenseView, FaucetError>(post),
    ensures
        post.to.balance == pre.to.balance + amount,
        post.mint.supply == pre.mint.supply + amount,
        post.state == pre.state,
        post.mint_address == pre.mint_address,
        post.mint.authority == pre.mint.authority,
        post.mint.decimals == pre.mint.decimals,
        post.to.mint == pre.to.mint,
{
}

} // verus!
