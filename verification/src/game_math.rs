//! Small arithmetic helpers for the game rules: a non-negative modulo for
//! wrap-around neighbour lookups, and minimum/maximum over a vector of
//! indices, used to pick the endpoints of a winning line.

use vstd::prelude::*;

verus! {

/// Arithmetic modulo with a non-negative result, unlike Rust's `%`, which is a
/// remainder and can yield negatives. The requirement `a >= b || a <= i16::MAX - b`
/// rules out exactly the inputs on which the intermediate sum `(a % b) + b`
/// would overflow.
pub fn modulo(a: i16, b: i16) -> (r: i16)
    requires
        0 < b,
        a >= b || a <= i16::MAX - b,
    ensures
        r == a as int % b as int,
{
    let t: i16 = a % b;
    proof {
        assert(t as int + b as int <= i16::MAX as int) by (nonlinear_arith)
            requires
                0 < b as int <= i16::MAX as int,
                (a as int) >= b as int || (a as int) <= i16::MAX as int - b as int,
                (a as int) >= 0 ==> t as int == a as int % b as int,
                (a as int) < 0 ==> t as int == -((-(a as int)) % (b as int)),
        ;
    }
    let s: i16 = t + b;
    let r: i16 = s % b;
    proof {
        let ai = a as int;
        let bi = b as int;
        let ti = t as int;
        if ai >= 0 {
            vstd::arithmetic::div_mod::lemma_mod_add_multiples_vanish(ti, bi);
            vstd::arithmetic::div_mod::lemma_mod_twice(ai, bi);
        } else {
            let u = (-ai) % bi;
            let q = (-ai) / bi;
            vstd::arithmetic::div_mod::lemma_fundamental_div_mod(-ai, bi);
            assert(s as int == bi * (q + 1) + ai) by (nonlinear_arith)
                requires
                    -ai == bi * q + u,
                    s as int == -u + bi,
            ;
            vstd::arithmetic::div_mod::lemma_mod_multiples_vanish(q + 1, ai, bi);
        }
    }
    r
}

/// Smallest element of `v`, or `None` when `v` is empty.
pub fn vec_min(v: &Vec<usize>) -> (r: Option<usize>)
    ensures
        match r {
            None => v@.len() == 0,
            Some(m) => v@.contains(m) && forall|k: int| 0 <= k < v@.len() ==> m <= #[trigger] v@[k],
        },
{
    let mut min: Option<usize> = None;
    let mut n: usize = 0;
    while n < v.len()
        invariant
            n <= v@.len(),
            match min {
                None => n == 0,
                Some(m) => v@.subrange(0, n as int).contains(m)
                    && forall|k: int| 0 <= k < n ==> m <= #[trigger] v@[k],
            },
        decreases v@.len() - n,
    {
        let x = v[n];
        min = match min {
            None => Some(x),
            Some(y) => Some(if x < y { x } else { y }),
        };
        proof {
            let m = min->Some_0;
            assert(v@.subrange(0, n + 1)[if m == x { n as int } else {
                v@.subrange(0, n as int).index_of(m)
            }] == m);
        }
        n = n + 1;
    }
    proof {
        if min is Some {
            let m = min->Some_0;
            let k = v@.subrange(0, n as int).index_of(m);
            assert(v@[k] == m);
        }
    }
    min
}

/// Largest element of `v`, or `None` when `v` is empty.
pub fn vec_max(v: &Vec<usize>) -> (r: Option<usize>)
    ensures
        match r {
            None => v@.len() == 0,
            Some(m) => v@.contains(m) && forall|k: int| 0 <= k < v@.len() ==> m >= #[trigger] v@[k],
        },
{
    let mut max: Option<usize> = None;
    let mut n: usize = 0;
    while n < v.len()
        invariant
            n <= v@.len(),
            match max {
                None => n == 0,
                Some(m) => v@.subrange(0, n as int).contains(m)
                    && forall|k: int| 0 <= k < n ==> m >= #[trigger] v@[k],
            },
        decreases v@.len() - n,
    {
        let x = v[n];
        max = match max {
            None => Some(x),
            Some(y) => Some(if x > y { x } else { y }),
        };
        proof {
            let m = max->Some_0;
            assert(v@.subrange(0, n + 1)[if m == x { n as int } else {
                v@.subrange(0, n as int).index_of(m)
            }] == m);
        }
        n = n + 1;
    }
    proof {
        if max is Some {
            let m = max->Some_0;
            let k = v@.subrange(0, n as int).index_of(m);
            assert(v@[k] == m);
        }
    }
    max
}

} // verus!
