//! Shapes and their logical element counts.
//!
//! A shape is an ordered sequence of non-negative dimension sizes; its
//! element count is the product of the dimensions (1 for the empty shape,
//! 0 as soon as any dimension is 0). The exec computation is defensive:
//! a negative dimension or a product beyond `usize::MAX` is reported, never
//! silently wrapped.

use vstd::prelude::*;

verus! {

/// The logical element count of a shape: the product of its dimensions.
pub open spec fn elem_count(s: Seq<i64>) -> int
    decreases s.len(),
{
    if s.len() == 0 {
        1
    } else {
        elem_count(s.drop_last()) * s.last()
    }
}

/// A shape is valid when every dimension size is non-negative.
pub open spec fn valid_shape(s: Seq<i64>) -> bool {
    forall|i: int| 0 <= i < s.len() ==> s[i] >= 0
}

/// The element count of a valid shape is never negative.
pub proof fn lemma_elem_count_nonneg(s: Seq<i64>)
    requires
        valid_shape(s),
    ensures
        elem_count(s) >= 0,
    decreases s.len(),
{
    if s.len() > 0 {
        assert(valid_shape(s.drop_last()));
        lemma_elem_count_nonneg(s.drop_last());
        assert(elem_count(s.drop_last()) * s.last() >= 0) by (nonlinear_arith)
            requires
                elem_count(s.drop_last()) >= 0,
                s.last() >= 0,
        ;
    }
}

/// A shape with a zero dimension has element count zero.
pub proof fn lemma_zero_dim_zero_count(s: Seq<i64>, i: int)
    requires
        0 <= i < s.len(),
        s[i] == 0,
    ensures
        elem_count(s) == 0,
    decreases s.len(),
{
    if i == s.len() - 1 {
        assert(s.last() == 0);
        assert(elem_count(s.drop_last()) * 0 == 0) by (nonlinear_arith);
    } else {
        lemma_zero_dim_zero_count(s.drop_last(), i);
        assert(elem_count(s.drop_last()) * s.last() == 0) by (nonlinear_arith)
            requires
                elem_count(s.drop_last()) == 0,
        ;
    }
}

/// With every dimension at least 1, the count of a prefix never exceeds the
/// count of the whole shape.
pub proof fn lemma_prefix_count_le(s: Seq<i64>, i: int)
    requires
        forall|k: int| 0 <= k < s.len() ==> s[k] >= 1,
        0 <= i <= s.len(),
    ensures
        1 <= elem_count(s.take(i)) <= elem_count(s),
    decreases s.len() - i,
{
    if i == s.len() {
        assert(s.take(i) =~= s);
        lemma_count_positive(s);
    } else {
        lemma_prefix_count_le(s, i + 1);
        assert(s.take(i + 1).drop_last() =~= s.take(i));
        assert(s.take(i + 1).last() == s[i]);
        lemma_count_positive(s.take(i));
        assert(elem_count(s.take(i)) <= elem_count(s.take(i)) * s[i]) by (nonlinear_arith)
            requires
                elem_count(s.take(i)) >= 1,
                s[i] >= 1,
        ;
    }
}

/// With every dimension at least 1, the count is at least 1.
pub proof fn lemma_count_positive(s: Seq<i64>)
    requires
        forall|k: int| 0 <= k < s.len() ==> s[k] >= 1,
    ensures
        elem_count(s) >= 1,
    decreases s.len(),
{
    if s.len() > 0 {
        lemma_count_positive(s.drop_last());
        assert(elem_count(s.drop_last()) * s.last() >= 1) by (nonlinear_arith)
            requires
                elem_count(s.drop_last()) >= 1,
                s.last() >= 1,
        ;
    }
}

/// Computes the element count of a shape, or reports that it cannot be
/// represented: `None` exactly when a dimension is negative or the product
/// does not fit in `usize`.
pub fn checked_elem_count(shape: &Vec<i64>) -> (r: Option<usize>)
    ensures
        r matches Some(c) ==> valid_shape(shape@) && c == elem_count(shape@),
        r is None ==> !valid_shape(shape@) || elem_count(shape@) > usize::MAX,
{
    let n = shape.len();
    let mut i: usize = 0;
    let mut saw_zero: bool = false;
    while i < n
        invariant
            0 <= i <= n,
            n == shape@.len(),
            forall|k: int| 0 <= k < i ==> shape@[k] >= 0,
            saw_zero <==> exists|k: int| 0 <= k < i && shape@[k] == 0,
        decreases n - i,
    {
        let d = shape[i];
        if d < 0 {
            return None;
        }
        if d == 0 {
            saw_zero = true;
        }
        i += 1;
    }
    if saw_zero {
        proof {
            let k = choose|k: int| 0 <= k < shape@.len() && shape@[k] == 0;
            lemma_zero_dim_zero_count(shape@, k);
        }
        return Some(0);
    }
    let mut acc: u64 = 1;
    let mut j: usize = 0;
    while j < n
        invariant
            0 <= j <= n,
            n == shape@.len(),
            forall|k: int| 0 <= k < n ==> shape@[k] >= 1,
            acc == elem_count(shape@.take(j as int)),
        decreases n - j,
    {
        let d = shape[j];
        proof {
            assert(shape@.take(j + 1).drop_last() =~= shape@.take(j as int));
            assert(shape@.take(j + 1).last() == shape@[j as int]);
        }
        match acc.checked_mul(d as u64) {
            Some(next) => {
                acc = next;
            },
            None => {
                proof {
                    lemma_prefix_count_le(shape@, j + 1);
                }
                return None;
            },
        }
        j += 1;
    }
    proof {
        assert(shape@.take(n as int) =~= shape@);
    }
    if acc > usize::MAX as u64 {
        None
    } else {
        Some(acc as usize)
    }
}

} // verus!
