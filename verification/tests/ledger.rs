use crowdfunding_core::errors::CrowdfundingError;
use crowdfunding_core::token::MockTokenContract;

const ADMIN: u64 = 1;
const B: u64 = 2;
const C: u64 = 3;

fn ledger_with_admin() -> MockTokenContract {
    let mut t = MockTokenContract::new();
    t.initialize(ADMIN, String::from("Celo"), String::from("CLO"), 7).unwrap();
    t
}

#[test]
fn test_initialize_records_metadata() {
    let t = ledger_with_admin();
    assert_eq!(t.name(), "Celo");
    assert_eq!(t.symbol(), "CLO");
    assert_eq!(t.decimals(), 7);
    assert_eq!(t.total_supply(), 0);
}

#[test]
fn test_initialize_only_once() {
    let mut t = ledger_with_admin();
    let again = t.initialize(9, String::from("Other"), String::from("OTH"), 2);
    assert_eq!(again, Err(CrowdfundingError::ContractAlreadyInitialized));
    assert_eq!(t.name(), "Celo");
    assert_eq!(t.decimals(), 7);
}

#[test]
fn test_queries_before_initialize() {
    let t = MockTokenContract::new();
    assert_eq!(t.name(), "");
    assert_eq!(t.symbol(), "");
    assert_eq!(t.decimals(), 0);
    assert_eq!(t.total_supply(), 0);
    assert_eq!(t.balance(B), 0);
}

#[test]
fn test_mint_before_initialize() {
    let mut t = MockTokenContract::new();
    let r = t.mint(B, 100, &vec![ADMIN]);
    assert_eq!(r, Err(CrowdfundingError::UnauthorizedMinting));
}

#[test]
fn test_mint_requires_admin_authorization() {
    let mut t = ledger_with_admin();
    let r = t.mint(B, 100, &vec![B, C]);
    assert_eq!(r, Err(CrowdfundingError::Unauthorized));
    assert_eq!(t.balance(B), 0);
    assert_eq!(t.total_supply(), 0);
}

#[test]
fn test_mint_invalid_amounts() {
    let mut t = ledger_with_admin();
    for bad in [0i128, -1i128, i128::MIN] {
        let r = t.mint(B, bad, &vec![ADMIN]);
        assert_eq!(r, Err(CrowdfundingError::InvalidAmount));
    }
    assert_eq!(t.total_supply(), 0);
}

#[test]
fn test_mint_overflow() {
    let mut t = ledger_with_admin();
    t.mint(B, i128::MAX, &vec![ADMIN]).unwrap();
    assert_eq!(t.total_supply(), i128::MAX);
    let r = t.mint(C, 1, &vec![ADMIN]);
    assert_eq!(r, Err(CrowdfundingError::InvalidAmount));
    assert_eq!(t.total_supply(), i128::MAX);
    assert_eq!(t.balance(C), 0);
}

#[test]
fn test_transfer_invalid_amounts() {
    let mut t = ledger_with_admin();
    t.mint(B, 1000, &vec![ADMIN]).unwrap();
    for bad in [0i128, -1i128, i128::MIN] {
        let r = t.transfer(B, C, bad, &vec![B]);
        assert_eq!(r, Err(CrowdfundingError::InvalidAmount));
    }
    assert_eq!(t.balance(B), 1000);
    assert_eq!(t.balance(C), 0);
}

#[test]
fn test_transfer_requires_sender_authorization() {
    let mut t = ledger_with_admin();
    t.mint(B, 1000, &vec![ADMIN]).unwrap();
    let r = t.transfer(B, C, 10, &vec![C]);
    assert_eq!(r, Err(CrowdfundingError::Unauthorized));
    assert_eq!(t.balance(B), 1000);
}

#[test]
fn test_transfer_insufficient_balance_mutates_nothing() {
    let mut t = ledger_with_admin();
    t.mint(B, 500, &vec![ADMIN]).unwrap();
    let r = t.transfer(B, C, 501, &vec![B]);
    assert_eq!(r, Err(CrowdfundingError::InsufficientBalance));
    assert_eq!(t.balance(B), 500);
    assert_eq!(t.balance(C), 0);
    assert_eq!(t.total_supply(), 500);
}

#[test]
fn test_transfer_round_trip() {
    let mut t = ledger_with_admin();
    t.mint(B, 1000, &vec![ADMIN]).unwrap();
    t.transfer(B, C, 400, &vec![B]).unwrap();
    t.transfer(C, B, 400, &vec![C]).unwrap();
    assert_eq!(t.balance(B), 1000);
    assert_eq!(t.balance(C), 0);
    assert_eq!(t.total_supply(), 1000);
}

#[test]
fn test_self_transfer_is_validated_no_op() {
    let mut t = ledger_with_admin();
    t.mint(B, 1000, &vec![ADMIN]).unwrap();
    t.transfer(B, B, 250, &vec![B]).unwrap();
    assert_eq!(t.balance(B), 1000);
    let too_much = t.transfer(B, B, 1001, &vec![B]);
    assert_eq!(too_much, Err(CrowdfundingError::InsufficientBalance));
}

#[test]
fn test_supply_equals_sum_of_balances() {
    let mut t = ledger_with_admin();
    t.mint(B, 700, &vec![ADMIN]).unwrap();
    t.mint(C, 300, &vec![ADMIN]).unwrap();
    t.transfer(B, C, 150, &vec![B]).unwrap();
    t.transfer(C, ADMIN, 50, &vec![C]).unwrap();
    let sum = t.balance(ADMIN) + t.balance(B) + t.balance(C);
    assert_eq!(sum, t.total_supply());
    assert_eq!(t.total_supply(), 1000);
}

#[test]
fn test_ledger_scenario() {
    // initialize with decimals 7; mint 1000 to B; transfer 400 from B to C.
    let mut t = MockTokenContract::new();
    t.initialize(ADMIN, String::from("Token"), String::from("TOK"), 7).unwrap();
    t.mint(B, 1000, &vec![ADMIN]).unwrap();
    t.transfer(B, C, 400, &vec![B]).unwrap();
    assert_eq!(t.balance(B), 600);
    assert_eq!(t.balance(C), 400);
    assert_eq!(t.total_supply(), 1000);
}
