use vstd::prelude::*;

verus! {

/// Errors of the runtime bridge: registration, conversion, calls and lifecycle.
#[derive(Debug)]
pub enum SquirrelError {
    CouldNotCompileSource,
    GetWrongObjectType,
    ErrorWhileCalling,
    CouldNotReadBytecode,
    CouldNotSuspendVM,
    CouldNotWakeupVM,
    Utf8Error,
    CouldNotAddFunction,
    /// The VM already has a function of this name.
    FunctionNameTaken(String),
    CouldNotSetNativeClosureName,
    ObjectTypeDoesNotMatch,
    CouldNotFindFunction(String),
    ForeignPointerNotSet,
}

} // verus!

verus! {

/// Errors of binding generation; any of them aborts generation as a whole.
#[derive(Debug)]
pub enum BindingError {
    /// A binding attribute that is not an argument list.
    MalformedAttribute,
    /// An attribute argument whose left side is not a plain identifier.
    MissingIdentifier,
    /// An attribute argument with a key that is not recognised.
    UnknownParameter(String),
    /// A recognised key given a value of the wrong type.
    WrongValueType(String),
    /// A method whose enclosing type is not a plain type name.
    UnresolvedReceiver,
    /// A parameter or return type that has no stack representation.
    UnsupportedType(String),
    /// Two declarations bound under one name in one domain.
    DuplicateBinding(String),
}

} // verus!
