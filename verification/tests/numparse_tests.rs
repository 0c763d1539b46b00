use veracruz_host::numparse::{is_u64, parse_u64};
use veracruz_host::adapter::DummyWasmtimeHostProvisioningState;
use veracruz_host::lifecycle::LifecycleState;

#[test]
fn plain_digits_parse() {
    assert_eq!(parse_u64("0"), Some(0));
    assert_eq!(parse_u64("10"), Some(10));
    assert_eq!(parse_u64("18446744073709551615"), Some(u64::MAX));
}

#[test]
fn a_leading_plus_sign_is_accepted() {
    assert_eq!(parse_u64("+10"), Some(10));
    assert_eq!(parse_u64("+0"), Some(0));
}

#[test]
fn shapes_rust_rejects_are_rejected() {
    assert_eq!(parse_u64(""), None);
    assert_eq!(parse_u64("+"), None);
    assert_eq!(parse_u64("-1"), None);
    assert_eq!(parse_u64("1 0"), None);
    assert_eq!(parse_u64("ten"), None);
    assert_eq!(parse_u64("10x"), None);
    assert_eq!(parse_u64("١٠"), None); // digits outside ASCII
}

#[test]
fn values_past_sixty_four_bits_are_rejected() {
    assert_eq!(parse_u64("18446744073709551616"), None);
    assert_eq!(parse_u64("99999999999999999999999"), None);
}

#[test]
fn parse_agrees_with_rust_on_samples() {
    for s in ["0", "7", "+99", "18446744073709551615", "18446744073709551616", "", "+", "x1"] {
        assert_eq!(parse_u64(s), s.parse::<u64>().ok(), "on {:?}", s);
    }
}

#[test]
fn is_u64_validates_like_parse() {
    assert!(is_u64(String::from("123")).is_ok());
    assert!(is_u64(String::from("abc")).is_err());
    assert!(is_u64(String::from("18446744073709551616")).is_err());
}

#[test]
fn the_adapter_front_walks_the_same_lifecycle() {
    let mut front = DummyWasmtimeHostProvisioningState::new();
    assert_eq!(front.get_lifecycle_state(), LifecycleState::Initial);
    front.set_expected_data_sources(&[4]);
    front.set_expected_shutdown_sources(&[4]);
    front.load_program(b"bytes").unwrap();
    assert_eq!(front.get_lifecycle_state(), LifecycleState::DataSourcesLoading);
    front
        .add_new_data_source(veracruz_host::lifecycle::DataSourceMetadata {
            identifier: 4,
            data: vec![1, 2],
        })
        .unwrap();
    assert_eq!(front.get_lifecycle_state(), LifecycleState::ReadyToExecute);
    assert!(front.is_program_registered());
    assert!(!front.is_result_registered());
    assert_eq!(front.get_current_data_source_count(), 1);
    assert_eq!(front.get_expected_data_sources(), vec![4]);
    assert!(front.get_program_digest().is_some());
    assert!(!front.is_able_to_shutdown());
    front.request_shutdown(4);
    assert!(front.is_able_to_shutdown());
    front.invalidate();
    assert_eq!(front.get_lifecycle_state(), LifecycleState::Error);
}
