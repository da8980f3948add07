use uacpi::status::{status_and_value, status_of};
use uacpi::Status;

const ALL: [Status; 28] = [
    Status::Success,
    Status::MappingFailed,
    Status::OutOfMemory,
    Status::BadChecksum,
    Status::InvalidSignature,
    Status::InvalidTableLength,
    Status::NotFound,
    Status::InvalidArgument,
    Status::Unimplemented,
    Status::AlreadyExists,
    Status::InternalError,
    Status::TypeMismatch,
    Status::InitLevelMismatch,
    Status::NamespaceNodeDangling,
    Status::NoHandler,
    Status::NoResourceEndTag,
    Status::CompiledOut,
    Status::HardwareTimeout,
    Status::AmlUndefinedReference,
    Status::AmlInvalidNamestring,
    Status::AmlObjectAlreadyExists,
    Status::AmlInvalidOpcode,
    Status::AmlIncompatibleObjectType,
    Status::AmlBadEncoding,
    Status::AmlOutOfBoundsIndex,
    Status::AmlSyncLevelTooHigh,
    Status::AmlInvalidResource,
    Status::AmlLoopTimeout,
];

#[test]
fn every_status_round_trips_through_its_code() {
    for s in ALL {
        assert_eq!(Status::from_code(s.code()), Some(s));
    }
}

#[test]
fn status_codes_match_the_engine() {
    assert_eq!(Status::Success.code(), 0);
    assert_eq!(Status::HardwareTimeout.code(), 17);
    assert_eq!(Status::AmlUndefinedReference.code(), 0x0EFF_0000);
    assert_eq!(Status::AmlLoopTimeout.code(), 0x0EFF_0009);
    assert_eq!(Status::from_code(13), Some(Status::NamespaceNodeDangling));
}

#[test]
fn unknown_codes_decode_to_nothing() {
    for code in [18u32, 19, 100, 0x0EFE_FFFF, 0x0EFF_000A, u32::MAX] {
        assert_eq!(Status::from_code(code), None);
    }
}

#[test]
fn only_code_zero_is_success() {
    for code in 0u32..=20 {
        assert_eq!(Status::from_code(code) == Some(Status::Success), code == 0);
    }
    for code in 0x0EFF_0000u32..=0x0EFF_000A {
        assert_ne!(Status::from_code(code), Some(Status::Success));
    }
}

#[test]
fn into_result_splits_success_from_failure() {
    assert_eq!(Status::Success.into_result(), Ok(()));
    assert_eq!(Status::NotFound.into_result(), Err(Status::NotFound));
    assert!(Status::Success.is_ok());
    assert!(!Status::AmlBadEncoding.is_ok());
}

#[test]
fn host_results_become_engine_statuses() {
    assert_eq!(status_of(Ok(())), Status::Success);
    assert_eq!(status_of(Err(Status::OutOfMemory)), Status::OutOfMemory);
    assert_eq!(status_of(Err(Status::Success)), Status::InternalError);
}

#[test]
fn output_values_come_only_with_success() {
    assert_eq!(status_and_value(Ok::<u64, Status>(0xAB)), (Status::Success, Some(0xAB)));
    assert_eq!(
        status_and_value(Err::<u64, Status>(Status::MappingFailed)),
        (Status::MappingFailed, None)
    );
    assert_eq!(
        status_and_value(Err::<u64, Status>(Status::Success)),
        (Status::InternalError, None)
    );
}

#[test]
fn statuses_order_by_code() {
    for a in ALL {
        for b in ALL {
            assert_eq!(a < b, a.code() < b.code());
            assert_eq!(a.cmp(&b), a.code().cmp(&b.code()));
        }
    }
    assert!(Status::Success < Status::MappingFailed);
    assert!(Status::HardwareTimeout < Status::AmlUndefinedReference);
}
