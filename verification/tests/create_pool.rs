use crowdfunding_core::errors::{CrowdfundingError, HardFault, PoolFailure};
use crowdfunding_core::pools::{CrowdfundingContract, PoolConfig, MAX_DESCRIPTION_LENGTH};

#[test]
fn test_create_pool_success() {
    let mut platform = CrowdfundingContract::new(1000);
    let creator: u64 = 7;
    let auths = vec![creator];

    let name = String::from("Community Garden");
    let description = String::from("A garden for the neighborhood");
    let target_amount = 50_000i128; // 50000 cents or relevant unit
    let duration = 30 * 24 * 60 * 60; // 30 days
    let created_at = 0u64;

    let config = PoolConfig {
        name: name.clone(),
        description: description.clone(),
        target_amount,
        is_private: false,
        duration,
        created_at,
    };

    let pool_id = platform.create_pool(creator, config, &auths, created_at).unwrap();

    assert_eq!(pool_id, 1);

    let saved_pool = platform.get_pool(pool_id).unwrap();
    assert_eq!(saved_pool.name, name);
    assert_eq!(saved_pool.description, description);
    assert_eq!(saved_pool.target_amount, target_amount);
}

#[test]
fn test_create_pool_invalid_description_length() {
    let mut platform = CrowdfundingContract::new(1000);
    let creator: u64 = 7;
    let auths = vec![creator];

    // A description one character over the bound.
    let mut script = vec![];
    for _ in 0..(MAX_DESCRIPTION_LENGTH + 1) {
        script.push(b'a');
    }
    let long_desc_str = std::str::from_utf8(&script).unwrap();
    let description = String::from(long_desc_str);

    let config = PoolConfig {
        name: String::from("Invalid Pool"),
        description,
        target_amount: 1000,
        is_private: false,
        duration: 86400,
        created_at: 0,
    };

    let result = platform.create_pool(creator, config, &auths, 0);
    assert_eq!(result, Err(PoolFailure::Aborted(HardFault::DescriptionTooLong)));
    // The hard fault consumes no identifier.
    assert_eq!(platform.pool_count, 0);
}

#[test]
fn test_create_pool_panic_description_length() {
    let mut platform = CrowdfundingContract::new(1000);
    let creator: u64 = 7;
    let auths = vec![creator];

    // A description over the bound is a hard fault, not an error value.
    let long_desc = "a".repeat((MAX_DESCRIPTION_LENGTH + 1) as usize);
    let description = String::from(&long_desc[..]);

    let config = PoolConfig {
        name: String::from("Invalid Pool"),
        description,
        target_amount: 1000,
        is_private: false,
        duration: 86400,
        created_at: 0,
    };

    let result = platform.create_pool(creator, config, &auths, 0);
    assert!(matches!(result, Err(PoolFailure::Aborted(HardFault::DescriptionTooLong))));
}

#[test]
fn test_create_pool_validation_logic() {
    let mut platform = CrowdfundingContract::new(1000);
    let creator: u64 = 7;
    let admin: u64 = 11;
    let token_address: u64 = 42;

    // Test contract paused
    platform.initialize(admin, token_address, 0).unwrap(); // initialize with 0 fee
    platform.pause(&vec![admin]).unwrap();

    let config = PoolConfig {
        name: String::from("Paused Pool"),
        description: String::from("Desc"),
        target_amount: 1000,
        is_private: false,
        duration: 86400,
        created_at: 0,
    };

    let result = platform.create_pool(creator, config, &vec![creator], 0);
    assert_eq!(result, Err(PoolFailure::Rejected(CrowdfundingError::ContractPaused)));
}
