use cpmm::account::AccountId;
use cpmm::amms_config::AmmsConfig;
use cpmm::error::ErrorCode;

#[test]
fn test_amms_config_initialize() {
    let mut amms_config = AmmsConfig::unset();

    let fee_authority = AccountId::new([11u8; 32]);
    let protocol_fee_rate_basis_points = 200;
    let providers_fee_rate_basis_points = 300;
    let id = 42u64;
    let bump = 42u8;

    amms_config
        .initialize(fee_authority, protocol_fee_rate_basis_points, providers_fee_rate_basis_points, id, bump)
        .unwrap();

    assert_eq!(amms_config.bump, bump);
    assert_eq!(amms_config.id, id);
    assert_eq!(amms_config.fee_authority, fee_authority);
    assert_eq!(amms_config.protocol_fee_rate_basis_points, protocol_fee_rate_basis_points);
    assert_eq!(amms_config.providers_fee_rate_basis_points, providers_fee_rate_basis_points);

    assert_eq!(amms_config.bump(), bump);
    assert_eq!(amms_config.fee_authority(), fee_authority);
}

#[test]
fn test_amms_config_initialize_rejects_excessive_rates() {
    let mut amms_config = AmmsConfig::unset();
    let result = amms_config.initialize(AccountId::new([1u8; 32]), 6000, 5000, 1, 1);
    assert_eq!(result, Err(ErrorCode::ConfigFeeRateExceeded));
    assert_eq!(amms_config.providers_fee_rate_basis_points, 0);
}

#[test]
fn test_amms_config_update_fee_authority() {
    let mut amms_config = AmmsConfig::unset();
    amms_config.initialize(AccountId::new([0u8; 32]), 200, 300, 42, 42).unwrap();

    let new_fee_authority = AccountId::new([13u8; 32]);
    amms_config.update_fee_authority(new_fee_authority);
    assert_eq!(amms_config.fee_authority, new_fee_authority);
}

#[test]
fn test_amms_config_update_providers_fee_rate() {
    let mut amms_config = AmmsConfig::unset();
    amms_config.initialize(AccountId::new([0u8; 32]), 200, 300, 42, 42).unwrap();

    let new_providers_fee_rate = 234;
    amms_config.update_providers_fee_rate(new_providers_fee_rate).unwrap();
    assert_eq!(amms_config.providers_fee_rate_basis_points, new_providers_fee_rate);
    assert_eq!(amms_config.update_providers_fee_rate(9801).ok(), None);
}

#[test]
fn test_amms_config_update_protocol_fee_rate() {
    let mut amms_config = AmmsConfig::unset();
    amms_config.initialize(AccountId::new([0u8; 32]), 200, 300, 42, 42).unwrap();

    let new_protocol_fee_rate = 234;
    amms_config.update_protocol_fee_rate(new_protocol_fee_rate).unwrap();
    assert_eq!(amms_config.protocol_fee_rate_basis_points, new_protocol_fee_rate);
    assert_eq!(amms_config.update_protocol_fee_rate(9701).ok(), None);
}
