//! Copies that the verifier knows to be equal to what they were made from.

use crate::json::Number;
use vstd::prelude::*;

verus! {

/// A value that can be copied, the copy being equal to its source as
/// contracts see it.
pub trait Duplicate: DeepView + Sized {
    /// A copy.
    fn duplicate(&self) -> (r: Self)
        ensures
            r.deep_view() == self.deep_view(),
    ;
}

impl Duplicate for String {
    fn duplicate(&self) -> (r: String) {
        self.clone()
    }
}

impl Duplicate for Number {
    fn duplicate(&self) -> (r: Number) {
        match self {
            Number::UInt(u) => Number::UInt(*u),
            Number::Int(i) => Number::Int(*i),
            Number::Decimal(text) => Number::Decimal(text.clone()),
        }
    }
}

impl Duplicate for u8 {
    fn duplicate(&self) -> (r: u8) {
        *self
    }
}

impl Duplicate for u32 {
    fn duplicate(&self) -> (r: u32) {
        *self
    }
}

impl Duplicate for u64 {
    fn duplicate(&self) -> (r: u64) {
        *self
    }
}

impl Duplicate for i32 {
    fn duplicate(&self) -> (r: i32) {
        *self
    }
}

impl<A: Duplicate, B: Duplicate> Duplicate for (A, B) {
    fn duplicate(&self) -> (r: (A, B)) {
        (self.0.duplicate(), self.1.duplicate())
    }
}

impl<T: Duplicate> Duplicate for Vec<T> {
    fn duplicate(&self) -> (r: Vec<T>) {
        let mut copy: Vec<T> = Vec::new();
        let mut i: usize = 0;
        while i < self.len()
            invariant
                i <= self.len(),
                copy.len() == i,
                forall|k: int| 0 <= k < i ==> #[trigger] copy[k].deep_view() == self[k].deep_view(),
            decreases self.len() - i,
        {
            copy.push(self[i].duplicate());
            i += 1;
        }
        assert(copy.deep_view() =~= self.deep_view());
        copy
    }
}

} // verus!
