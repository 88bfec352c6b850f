//! The errors of the library.
use vstd::prelude::*;

verus! {

/// Why a catalog could not be built or a lookup in it not be answered.
#[derive(Clone, Copy, Debug, PartialEq, Eq, Structural)]
pub enum ConfigurationAccessError {
    /// The snapshot store could not be acquired.
    LockAcquisitionError,
    /// Not exactly one environment of the document carries the configured id.
    EnvironmentNotFound,
    /// The catalog holds no feature with the requested id.
    FeatureNotFound,
    /// The catalog holds no property with the requested id.
    PropertyNotFound,
    /// A targeting rule names a segment that the catalog does not hold.
    MissingSegments,
}

/// Why a segment could not be tested against an entity.
#[derive(Clone, Copy, Debug, PartialEq, Eq, Structural)]
pub enum EntityEvaluationError {
    /// The operator is none that the evaluator understands.
    OperatorNotImplemented,
    /// A substring operator met an attribute that is not a string.
    StringExpected,
    /// An order operator met an attribute that is not a number.
    NumberExpected,
    /// The operand cannot be read as a value of the attribute's type.
    InvalidOperand,
    /// A targeting rule names a segment that is not at hand.
    SegmentNotFound,
}

/// A rule of the catalog that a decoded document breaks.
#[derive(Clone, Copy, Debug, PartialEq, Eq, Structural)]
pub enum ProtocolViolation {
    /// A value declared numeric is no number.
    NotANumber,
    /// Two targeting rules of one resource share their order.
    DuplicateOrder,
    /// A rollout percentage is no integer from 0 to 100.
    RolloutOutOfRange,
}

/// Everything that can go wrong in this library.
#[derive(Clone, Debug)]
pub enum Error {
    /// A network, TLS or HTTP failure, in the transport's own words.
    Transport(String),
    /// The catalog document could not be decoded, in the decoder's own words.
    Deserialization(String),
    /// The catalog document was decoded and breaks a rule of the catalog.
    ProtocolError(ProtocolViolation),
    /// A value does not have the requested or the declared type.
    MismatchType,
    /// A segment could not be tested against an entity.
    EntityEvaluationError(EntityEvaluationError),
    /// A catalog could not be built or a lookup in it not be answered.
    ConfigurationAccessError(ConfigurationAccessError),
    /// The server closed the push channel.
    ConnectionClosed,
    /// An address could not be put together.
    InvalidUrl,
}

/// The outcome of an operation of this library.
pub type Result<T> = core::result::Result<T, Error>;

} // verus!
