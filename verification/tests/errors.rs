use ffiber::error::GenError;

#[test]
fn every_error_has_its_message() {
    assert_eq!(GenError::OwnerNotStruct.message(), "Expecting Struct argument type as struct_ty");
    assert_eq!(GenError::NestedSequence.message(), "A buffer of buffers is not supported");
    assert_eq!(GenError::EnumReturn.message(), "An enum return type is not supported");
    assert_eq!(
        GenError::SequenceReturnWithoutErrorCode.message(),
        "A buffer return type requires an error code"
    );
    assert_eq!(GenError::NoDependencyKeys.message(), "Cargo.toml crate requires at least one key.");
    assert_eq!(GenError::NoOpenContext.message(), "No context to pop");
}
