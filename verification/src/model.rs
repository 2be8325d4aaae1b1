//! Models of optional values, of lists and of answers, part by part.

use vstd::prelude::*;

verus! {

/// The model of an optional value: the model of what it holds, if anything.
pub open spec fn opt_view<T: View>(o: Option<T>) -> Option<T::V> {
    match o {
        Some(t) => Some(t@),
        None => None,
    }
}

/// The models of the elements of a list, in order.
pub open spec fn seq_view<T: View>(s: Seq<T>) -> Seq<T::V> {
    Seq::new(s.len(), |i: int| s[i]@)
}

/// The model of an answer of the client: the model of what it holds, or the
/// client's words where the call itself failed.
pub open spec fn reply_view<T: View>(r: Result<T, String>) -> Result<T::V, Seq<char>> {
    match r {
        Ok(t) => Ok(t@),
        Err(m) => Err(m@),
    }
}

} // verus!
