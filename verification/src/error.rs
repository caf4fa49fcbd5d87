//! Error kinds surfaced by the codec layer. All errors are local and
//! non-fatal: they are returned to the immediate caller, never logged
//! globally or escalated to a process abort.

use vstd::prelude::*;

verus! {

/// Which variable-length integer type a decoder was reading when its group
/// count overflowed the type's bit width.
#[derive(Clone, Copy, Debug, PartialEq, Eq, Structural)]
pub enum VarWidth {
    /// A 32-bit variable-length integer (at most 5 groups).
    Bits32,
    /// A 64-bit variable-length integer (at most 10 groups).
    Bits64,
}

/// A decoding failure. No error is silently swallowed except the
/// intentionally discarded first-arm error of [`crate::OneOf::resolve`].
#[derive(Debug, PartialEq, Eq)]
pub enum DecodeError {
    /// Fewer bytes were available than the wire format required.
    Truncated,
    /// A variable-length integer's group count would exceed the named
    /// type's bit width.
    Overflow(VarWidth),
    /// A length-prefixed byte run was not valid UTF-8.
    InvalidUtf8,
    /// A raw value fell outside a closed enumeration's domain; carries the
    /// enumeration's name and the offending raw value.
    InvalidEnumOrdinal(&'static str, i64),
    /// A textual value fell outside a closed enumeration's domain; carries
    /// the enumeration's name and the offending text.
    InvalidEnumText(&'static str, String),
    /// Namespaced-identifier text with the wrong number of separators.
    InvalidIdentifierGrammar,
    /// Both arms of a union failed to decode; carries the second arm's
    /// underlying error (the first arm's error is discarded by design).
    UnionExhausted(Box<DecodeError>),
}

} // verus!
