//! Answers of the document store, as the request handlers receive them.

use vstd::prelude::*;

verus! {

/// The answer to a single-document lookup: the document, `0` where none
/// matches, `1` where the store failed.
pub fn found_reply<T>(lookup: Result<Option<T>, ()>) -> (r: Result<T, u8>)
    ensures
        match lookup {
            Ok(Some(d)) => r == Ok::<T, u8>(d),
            Ok(None) => r == Err::<T, u8>(0),
            Err(_) => r == Err::<T, u8>(1),
        },
{
    match lookup {
        Ok(Some(d)) => Ok(d),
        Ok(None) => Err(0),
        Err(_) => Err(1),
    }
}

/// The answer to a listing or counting query: its result, or `1` where the
/// store failed.
pub fn query_reply<T>(outcome: Result<T, ()>) -> (r: Result<T, u8>)
    ensures
        match outcome {
            Ok(v) => r == Ok::<T, u8>(v),
            Err(_) => r == Err::<T, u8>(1),
        },
{
    match outcome {
        Ok(v) => Ok(v),
        Err(_) => Err(1),
    }
}

} // verus!
