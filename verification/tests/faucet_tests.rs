use token_faucet::address::Address;
use token_faucet::error::{AccountingError, ErrorCode, FaucetError, StoreError};
use token_faucet::faucet::{
    dispense, initialize, Dispense, Initialize, MintAccount, TokenAccount,
};
use token_faucet::state::State;
use token_faucet::derivation::{derive_authority, derive_mint_address, rederive_authority};

fn addr(n: u8) -> Address {
    Address { bytes: vec![n; 32] }
}

fn initialized(program_id: &Address) -> (State, MintAccount) {
    let mut ctx = Initialize {
        state: None,
        mint: None,
        payer: addr(9),
    };
    let r = initialize(&mut ctx, program_id);
    assert!(r.is_ok());
    (ctx.state.unwrap(), ctx.mint.unwrap())
}

fn dispense_ctx(program_id: &Address) -> Dispense {
    let (state, mint) = initialized(program_id);
    let mint_address = state.mint.clone();
    let to_mint = state.mint.clone();
    Dispense {
        state,
        mint_address,
        mint,
        to: TokenAccount {
            mint: to_mint,
            balance: 0,
        },
    }
}

#[test]
fn end_to_end_dispense() {
    let program_id = addr(1);
    let mut ctx = dispense_ctx(&program_id);
    let r = dispense(&mut ctx, &program_id, 500);
    assert_eq!(r, Ok(()));
    assert_eq!(ctx.to.balance, 500);
    assert_eq!(ctx.mint.supply, 500);

    let other_mint = addr(77);
    assert!(!(other_mint == ctx.mint_address));
    ctx.mint_address = other_mint;
    let r2 = dispense(&mut ctx, &program_id, 100);
    assert_eq!(r2, Err(FaucetError::Program(ErrorCode::MintMismatch)));
    assert_eq!(ctx.to.balance, 500);
    assert_eq!(ctx.mint.supply, 500);
}

#[test]
fn dispense_accumulates() {
    let program_id = addr(2);
    let mut ctx = dispense_ctx(&program_id);
    assert_eq!(dispense(&mut ctx, &program_id, 300), Ok(()));
    assert_eq!(dispense(&mut ctx, &program_id, 200), Ok(()));
    assert_eq!(ctx.to.balance, 500);
    assert_eq!(ctx.mint.supply, 500);
}

#[test]
fn initialize_twice_fails_and_keeps_state() {
    let program_id = addr(3);
    let mut ctx = Initialize {
        state: None,
        mint: None,
        payer: addr(9),
    };
    assert_eq!(initialize(&mut ctx, &program_id), Ok(()));
    let first_state = state_fields(&ctx.state);
    let r2 = initialize(&mut ctx, &program_id);
    assert_eq!(r2, Err(FaucetError::Store(StoreError::AlreadyExists)));
    let second_state = state_fields(&ctx.state);
    assert_eq!(first_state.0, second_state.0);
    assert!(first_state.1 == second_state.1);
    assert_eq!(first_state.2, second_state.2);
}

fn state_fields(slot: &Option<State>) -> (bool, Address, u8) {
    let s = slot.as_ref().unwrap();
    (s.is_initialized, s.mint.clone(), s.bump)
}

#[test]
fn initialize_binds_derived_mint_and_authority() {
    let program_id = addr(4);
    let (state, mint) = initialized(&program_id);
    assert!(state.is_initialized);
    let (mint_addr, _) = derive_mint_address(&program_id).unwrap();
    let (auth_addr, auth_bump) = derive_authority(&program_id).unwrap();
    assert!(state.mint == mint_addr);
    assert_eq!(state.bump, auth_bump);
    assert!(mint.authority == auth_addr);
    assert_eq!(mint.decimals, 9);
    assert_eq!(mint.supply, 0);
}

#[test]
fn uninitialized_dispense_fails() {
    let program_id = addr(5);
    let mut ctx = dispense_ctx(&program_id);
    ctx.state.is_initialized = false;
    let r = dispense(&mut ctx, &program_id, 100);
    assert_eq!(r, Err(FaucetError::Program(ErrorCode::Uninitialized)));
    assert_eq!(ctx.to.balance, 0);
    assert_eq!(ctx.mint.supply, 0);
}

#[test]
fn rederivation_is_deterministic() {
    let program_id = addr(6);
    let (auth_addr, auth_bump) = derive_authority(&program_id).unwrap();
    let again = derive_authority(&program_id).unwrap();
    assert!(auth_addr == again.0);
    assert_eq!(auth_bump, again.1);
    let r1 = rederive_authority(&program_id, auth_bump).unwrap();
    let r2 = rederive_authority(&program_id, auth_bump).unwrap();
    assert!(r1 == r2);
    assert!(r1 == auth_addr);
    assert!(!(r1 == program_id));
}

#[test]
fn derivation_depends_on_its_inputs() {
    let program_id = addr(7);
    let other_program = addr(8);
    let (a1, _) = derive_authority(&program_id).unwrap();
    let (a2, _) = derive_authority(&other_program).unwrap();
    assert!(!(a1 == a2));
    assert!(!(a1 == program_id));
    let (m1, _) = derive_mint_address(&program_id).unwrap();
    assert!(!(m1 == a1));
}

#[test]
fn invalid_bump_gives_bump_error() {
    let program_id = addr(10);
    let (_, good_bump) = derive_authority(&program_id).unwrap();
    let mut bad_bump: Option<u8> = None;
    for b in 0..=255u8 {
        if rederive_authority(&program_id, b).is_err() {
            bad_bump = Some(b);
            break;
        }
    }
    let bad_bump = bad_bump.expect("some proof byte must fail to re-derive off-curve");
    assert_ne!(bad_bump, good_bump);
    let mut ctx = dispense_ctx(&program_id);
    ctx.state.bump = bad_bump;
    let r = dispense(&mut ctx, &program_id, 100);
    assert_eq!(r, Err(FaucetError::Program(ErrorCode::BumpError)));
    assert_eq!(ctx.to.balance, 0);
}

#[test]
fn wrong_authority_is_refused() {
    let program_id = addr(11);
    let mut ctx = dispense_ctx(&program_id);
    ctx.mint.authority = addr(200);
    let r = dispense(&mut ctx, &program_id, 100);
    assert_eq!(
        r,
        Err(FaucetError::Accounting(AccountingError::NotMintAuthority))
    );
    assert_eq!(ctx.to.balance, 0);
    assert_eq!(ctx.mint.supply, 0);
}

#[test]
fn destination_of_other_mint_is_refused() {
    let program_id = addr(12);
    let mut ctx = dispense_ctx(&program_id);
    ctx.to.mint = addr(201);
    let r = dispense(&mut ctx, &program_id, 100);
    assert_eq!(
        r,
        Err(FaucetError::Accounting(AccountingError::DestinationMintMismatch))
    );
    assert_eq!(ctx.to.balance, 0);
    assert_eq!(ctx.mint.supply, 0);
}

#[test]
fn supply_overflow_is_refused() {
    let program_id = addr(13);
    let mut ctx = dispense_ctx(&program_id);
    ctx.mint.supply = u64::MAX;
    let r = dispense(&mut ctx, &program_id, 1);
    assert_eq!(
        r,
        Err(FaucetError::Accounting(AccountingError::SupplyOverflow))
    );
    assert_eq!(ctx.to.balance, 0);
    assert_eq!(ctx.mint.supply, u64::MAX);
}

#[test]
fn balance_overflow_is_refused() {
    let program_id = addr(14);
    let mut ctx = dispense_ctx(&program_id);
    ctx.to.balance = u64::MAX;
    let r = dispense(&mut ctx, &program_id, 1);
    assert_eq!(
        r,
        Err(FaucetError::Accounting(AccountingError::BalanceOverflow))
    );
    assert_eq!(ctx.to.balance, u64::MAX);
    assert_eq!(ctx.mint.supply, 0);
}

#[test]
fn zero_amount_dispense_succeeds() {
    let program_id = addr(15);
    let mut ctx = dispense_ctx(&program_id);
    assert_eq!(dispense(&mut ctx, &program_id, 0), Ok(()));
    assert_eq!(ctx.to.balance, 0);
    assert_eq!(ctx.mint.supply, 0);
}

#[test]
fn state_encodes_to_its_34_byte_layout() {
    let state = State {
        is_initialized: true,
        mint: addr(5),
        bump: 254,
    };
    let bytes = state.encode();
    let mut expected = vec![1u8];
    expected.extend_from_slice(&[5u8; 32]);
    expected.push(254);
    assert_eq!(bytes, expected);
    assert_eq!(bytes.len(), State::LEN);
}

#[test]
fn state_decode_roundtrip() {
    let state = State {
        is_initialized: false,
        mint: addr(42),
        bump: 7,
    };
    let bytes = state.encode();
    let back = State::decode(&bytes).unwrap();
    assert_eq!(back.is_initialized, state.is_initialized);
    assert!(back.mint == state.mint);
    assert_eq!(back.bump, state.bump);
}

#[test]
fn state_decode_rejects_bad_input() {
    assert!(State::decode(&vec![1u8; 33]).is_none());
    assert!(State::decode(&vec![1u8; 35]).is_none());
    let mut bytes = vec![2u8];
    bytes.extend_from_slice(&[0u8; 32]);
    bytes.push(0);
    assert!(State::decode(&bytes).is_none());
    let mut good = vec![0u8];
    good.extend_from_slice(&[0u8; 32]);
    good.push(9);
    assert!(State::decode(&good).is_some());
}

#[test]
fn address_from_bytes_checks_length() {
    assert!(Address::from_bytes(vec![0u8; 32]).is_some());
    assert!(Address::from_bytes(vec![0u8; 31]).is_none());
    assert!(Address::from_bytes(vec![0u8; 33]).is_none());
    assert!(Address::from_bytes(Vec::new()).is_none());
}
