use vstd::prelude::*;

use crate::model::DecodeError;

verus! {

/// A strictly negative 64-bit integer.
#[derive(Debug, Clone, Copy, PartialEq, Eq, Structural)]
pub struct N {
    v: i64,
}

impl N {
    #[verifier::type_invariant]
    spec fn inv(self) -> bool {
        self.v < 0
    }

    /// The integer this value holds.
    pub closed spec fn value(self) -> i64 {
        self.v
    }

    /// The value that holds `x`.
    pub closed spec fn from_value(x: i64) -> N {
        N { v: x }
    }

    /// Every value is the one that holds its own integer.
    pub proof fn lemma_from_own_value(n: N)
        ensures
            N::from_value(n.value()) == n,
    {
    }

    /// Validates a parsed primitive: only strictly negative integers are accepted.
    pub fn new(v: i64) -> (r: Result<N, DecodeError>)
        ensures
            r is Ok <==> v < 0,
            r matches Ok(n) ==> n.value() == v && n == N::from_value(v),
            r matches Err(e) ==> e == (DecodeError::NotNegative { value: v }),
    {
        if v < 0 {
            Ok(N { v })
        } else {
            Err(DecodeError::NotNegative { value: v })
        }
    }

    /// The integer this value holds; always negative.
    pub fn get(&self) -> (r: i64)
        ensures
            r == self.value(),
            r < 0,
    {
        proof {
            use_type_invariant(self);
        }
        self.v
    }
}

impl Default for N {
    /// The default negative value, minus one.
    fn default() -> (r: N)
        ensures
            r.value() == -1,
    {
        N { v: -1 }
    }
}

} // verus!
