use vstd::prelude::*;

verus! {

/// The error codes that evaluation reports.
#[derive(PartialEq, Eq, Structural, Clone, Copy, Debug)]
pub enum ErrorCode {
    /// Not yet supported.
    TODO,
    /// Invalid value for a cast or constructor.
    FORG0001,
    /// Division by zero.
    FOAR0001,
    /// Numeric operation overflow or underflow.
    FOAR0002,
    /// `fn:zero-or-one` called with more than one item.
    FORG0003,
    /// `fn:one-or-more` called with no item.
    FORG0004,
    /// `fn:exactly-one` called with other than one item.
    FORG0005,
    /// A map was atomized.
    FOTY0013,
    /// The context item is absent.
    XPDY0002,
    /// Static error: the type of an expression does not match what is required.
    XPTY0004,
    /// A path step was applied to something that is not a node.
    XPTY0019,
    /// An untyped value was passed where a QName or NOTATION is expected.
    XPTY0117,
    /// No function of that name and arity.
    XPST0017,
    /// A cast to an abstract or NOTATION type.
    XPST0080,
    /// An unsupported version in a version declaration.
    XQST0031,
    /// A second default collation declaration.
    XQST0038,
    /// A second copy-namespaces declaration.
    XQST0055,
    /// A second ordering mode declaration.
    XQST0065,
    /// A second construction declaration.
    XQST0067,
    /// A second boundary-space declaration.
    XQST0068,
    /// A second empty order declaration.
    XQST0069,
    /// An unsupported encoding in a version declaration.
    XQST0087,
}

/// An error code with a message.
pub type ErrorInfo = (ErrorCode, String);

} // verus!
