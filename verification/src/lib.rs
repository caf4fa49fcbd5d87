//! Codec layer for a tree-structured tagged binary format and a
//! length-prefixed streaming binary protocol: a variable-length integer wire
//! codec, an ordered two-shape union resolver, and a family of stateless
//! scalar transcoders, together with the record shapes they serve.

use vstd::prelude::*;

pub mod data;
pub mod error;
pub mod text_component;
pub mod types;
pub mod wire;

use error::DecodeError;

verus! {

/// A value that is either an `L` or an `R`. No tag is stored on the wire:
/// which arm is present is decided purely by decode attempt order (`L` is
/// tried first; see [`OneOf::resolve`]) or by explicit call-site choice when
/// encoding.
#[derive(Clone, Debug)]
pub enum OneOf<L, R> {
    Left(L),
    Right(R),
}

impl<L, R> OneOf<L, R> {
    /// Ordered union resolution: the two arguments are the outcomes of the
    /// two decode attempts, `left` tried first. A successful left attempt
    /// always wins, even when the right attempt would also have succeeded;
    /// when both attempts fail, the failure of the *second* (right) arm is
    /// surfaced, wrapped as `UnionExhausted`, and the left error is
    /// discarded by design.
    pub fn resolve(left: Result<L, DecodeError>, right: Result<R, DecodeError>) -> (r: Result<
        OneOf<L, R>,
        DecodeError,
    >)
        ensures
            match (left, right) {
                (Ok(l), _) => r == Ok::<OneOf<L, R>, DecodeError>(OneOf::Left(l)),
                (Err(_), Ok(rv)) => r == Ok::<OneOf<L, R>, DecodeError>(OneOf::Right(rv)),
                (Err(_), Err(e)) => r matches Err(DecodeError::UnionExhausted(inner)) && *inner
                    == e,
            },
    {
        match left {
            Ok(l) => Ok(OneOf::Left(l)),
            Err(_) => match right {
                Ok(rv) => Ok(OneOf::Right(rv)),
                Err(e) => Err(DecodeError::UnionExhausted(Box::new(e))),
            },
        }
    }
}

impl<T> OneOf<T, Vec<T>> {
    /// Canonicalize a "single item or list" union to a plain list: a single
    /// item becomes a one-element list.
    pub fn into_vec(self) -> (r: Vec<T>)
        ensures
            match self {
                OneOf::Left(item) => r@ == seq![item],
                OneOf::Right(list) => r == list,
            },
    {
        match self {
            OneOf::Left(item) => {
                let mut out: Vec<T> = Vec::new();
                out.push(item);
                proof {
                    assert(out@ =~= seq![item]);
                }
                out
            },
            OneOf::Right(list) => list,
        }
    }

    /// The inverse of [`OneOf::into_vec`] always selects the list-typed arm;
    /// it never reconstructs a bare single value, so a single item that went
    /// through `into_vec` does not come back as `Left` (a known, accepted
    /// asymmetry of the format).
    pub fn from_vec(value: Vec<T>) -> (r: OneOf<T, Vec<T>>)
        ensures
            r == OneOf::<T, Vec<T>>::Right(value),
    {
        OneOf::Right(value)
    }
}

impl<T> OneOf<Vec<T>, T> {
    /// Canonicalize a "list or single item" union to a plain list: a single
    /// item becomes a one-element list.
    pub fn into_vec(self) -> (r: Vec<T>)
        ensures
            match self {
                OneOf::Left(list) => r == list,
                OneOf::Right(item) => r@ == seq![item],
            },
    {
        match self {
            OneOf::Left(list) => list,
            OneOf::Right(item) => {
                let mut out: Vec<T> = Vec::new();
                out.push(item);
                proof {
                    assert(out@ =~= seq![item]);
                }
                out
            },
        }
    }

    /// The inverse of [`OneOf::into_vec`] always selects the list-typed arm,
    /// mirroring [`OneOf::<T, Vec<T>>::from_vec`].
    pub fn from_vec(value: Vec<T>) -> (r: OneOf<Vec<T>, T>)
        ensures
            r == OneOf::<Vec<T>, T>::Left(value),
    {
        OneOf::Left(value)
    }
}


/// Character-wise string equality, usable wherever a contract needs to
/// speak about the compared views.
pub fn str_eq(a: &str, b: &str) -> (r: bool)
    ensures
        r == (a@ == b@),
{
    let alen = a.unicode_len();
    let blen = b.unicode_len();
    if alen != blen {
        return false;
    }
    let mut i: usize = 0;
    while i < alen
        invariant
            i <= alen,
            alen == a@.len(),
            alen == b@.len(),
            forall|j: int| 0 <= j < i ==> a@[j] == b@[j],
        decreases alen - i,
    {
        if a.get_char(i) != b.get_char(i) {
            return false;
        }
        i = i + 1;
    }
    proof {
        assert(a@ =~= b@);
    }
    true
}

} // verus!
