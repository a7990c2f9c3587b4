use vigem::{TargetState, TargetType, VigemError};
use vigem::error::VIGEM_ERROR_NONE;

#[test]
fn target_type_decodes_known_codes() {
    assert_eq!(TargetType::new(0), Ok(TargetType::Xbox360));
    assert_eq!(TargetType::new(2), Ok(TargetType::DualShock4));
}

#[test]
fn target_type_rejects_unknown_codes() {
    assert_eq!(TargetType::new(1), Err(VigemError::ConsistencyViolation));
    assert_eq!(TargetType::new(3), Err(VigemError::ConsistencyViolation));
    assert_eq!(TargetType::new(4), Err(VigemError::ConsistencyViolation));
    assert_eq!(TargetType::new(255), Err(VigemError::ConsistencyViolation));
    assert_eq!(TargetType::new(u32::MAX), Err(VigemError::ConsistencyViolation));
}

#[test]
fn target_type_rejects_every_small_code_but_two() {
    let mut code: u32 = 0;
    while code < 1000 {
        let decoded = TargetType::new(code);
        if code == 0 || code == 2 {
            assert!(decoded.is_ok());
        } else {
            assert_eq!(decoded, Err(VigemError::ConsistencyViolation));
        }
        code += 1;
    }
}

#[test]
fn target_type_codes() {
    assert_eq!(TargetType::Xbox360.code(), 0);
    assert_eq!(TargetType::DualShock4.code(), 2);
}

#[test]
fn target_type_code_round_trip() {
    for tt in [TargetType::Xbox360, TargetType::DualShock4] {
        assert_eq!(TargetType::new(tt.code()), Ok(tt));
    }
}

#[test]
fn target_state_decodes_known_codes() {
    assert_eq!(TargetState::new(0), Ok(TargetState::New));
    assert_eq!(TargetState::new(1), Ok(TargetState::Initialized));
    assert_eq!(TargetState::new(2), Ok(TargetState::Connected));
    assert_eq!(TargetState::new(3), Ok(TargetState::Disconnected));
}

#[test]
fn target_state_rejects_unknown_codes() {
    assert_eq!(TargetState::new(4), Err(VigemError::ConsistencyViolation));
    assert_eq!(TargetState::new(5), Err(VigemError::ConsistencyViolation));
    assert_eq!(TargetState::new(0x8000_0000), Err(VigemError::ConsistencyViolation));
    assert_eq!(TargetState::new(u32::MAX), Err(VigemError::ConsistencyViolation));
}

#[test]
fn target_state_code_round_trip() {
    for s in [
        TargetState::New,
        TargetState::Initialized,
        TargetState::Connected,
        TargetState::Disconnected,
    ] {
        assert_eq!(TargetState::new(s.code()), Ok(s));
    }
    assert_eq!(TargetState::Connected.code(), 2);
    assert_eq!(TargetState::Disconnected.code(), 3);
}

#[test]
fn success_status_maps_to_ok() {
    assert_eq!(VIGEM_ERROR_NONE, 0x2000_0000);
    assert_eq!(VigemError::from_status(0x2000_0000), Ok(()));
}

#[test]
fn failure_status_keeps_its_code() {
    assert_eq!(
        VigemError::from_status(0xE000_0001),
        Err(VigemError::NativeOperationFailed(0xE000_0001))
    );
    assert_eq!(VigemError::from_status(0), Err(VigemError::NativeOperationFailed(0)));
    assert_eq!(
        VigemError::from_status(0x2000_0001),
        Err(VigemError::NativeOperationFailed(0x2000_0001))
    );
}

#[test]
fn only_a_failed_driver_call_is_recoverable() {
    assert!(VigemError::NativeOperationFailed(7).is_recoverable());
    assert!(!VigemError::ConsistencyViolation.is_recoverable());
    assert!(!VigemError::CallerContractViolation.is_recoverable());
}
