use vstd::prelude::*;
use crate::scalar::{
    F64_ZERO_BITS, add_bits, div_bits, f32_sub, f32_widen, f64_add, f64_div, f64_mul, f64_sub,
    mul_bits, sub_bits, sub_single_bits, widen_bits,
};

verus! {

/// Fold-left dot product of the first `k` components: the accumulator
/// starts at zero and takes `a[d] * b[d]` for `d = 0, 1, ...` in order,
/// every operation in double precision.
pub open spec fn dot_prefix(a: Seq<u64>, b: Seq<u64>, k: int) -> u64
    decreases k,
{
    if k <= 0 {
        F64_ZERO_BITS
    } else {
        add_bits(dot_prefix(a, b, k - 1), mul_bits(a[k - 1], b[k - 1]))
    }
}

/// Dot product over all components of `a`.
pub open spec fn dot(a: Seq<u64>, b: Seq<u64>) -> u64 {
    dot_prefix(a, b, a.len() as int)
}

/// Every component widened from single to double precision.
pub open spec fn widened(v: Seq<u32>) -> Seq<u64> {
    Seq::new(v.len(), |i: int| widen_bits(v[i]))
}

/// Component `i` of a flattened batch of `dim`-sized vectors.
pub open spec fn row(words: Seq<u32>, i: int, dim: int) -> Seq<u32> {
    words.subrange(i * dim, (i + 1) * dim)
}

/// Componentwise double-precision difference.
pub open spec fn sub_seq(a: Seq<u64>, b: Seq<u64>) -> Seq<u64> {
    Seq::new(a.len(), |i: int| sub_bits(a[i], b[i]))
}

/// Every component divided by `m` in double precision.
pub open spec fn scaled_down(v: Seq<u64>, m: u64) -> Seq<u64> {
    Seq::new(v.len(), |i: int| div_bits(v[i], m))
}

/// `p` plus `c` times `u`, componentwise in double precision.
pub open spec fn accumulated(p: Seq<u64>, c: u64, u: Seq<u64>) -> Seq<u64> {
    Seq::new(p.len(), |i: int| add_bits(p[i], mul_bits(c, u[i])))
}

/// The single-precision difference of corresponding components, each
/// widened to double precision afterwards.
pub open spec fn delta_seq(a: Seq<u32>, b: Seq<u32>) -> Seq<u64> {
    Seq::new(a.len(), |i: int| widen_bits(sub_single_bits(a[i], b[i])))
}

pub fn dot_vec(a: &Vec<u64>, b: &Vec<u64>) -> (r: u64)
    requires
        a@.len() == b@.len(),
    ensures
        r == dot(a@, b@),
{
    let mut acc: u64 = F64_ZERO_BITS;
    let mut d: usize = 0;
    while d < a.len()
        invariant
            a@.len() == b@.len(),
            d <= a@.len(),
            acc == dot_prefix(a@, b@, d as int),
        decreases a@.len() - d,
    {
        acc = f64_add(acc, f64_mul(a[d], b[d]));
        d = d + 1;
    }
    acc
}

pub fn widen_vec(words: &Vec<u32>, start: usize, count: usize) -> (r: Vec<u64>)
    requires
        start + count <= words@.len(),
    ensures
        r@ == widened(words@.subrange(start as int, start as int + count as int)),
        r@.len() == count,
{
    let limit = words.len();
    let mut out: Vec<u64> = Vec::with_capacity(count);
    let mut d: usize = 0;
    while d < count
        invariant
            d <= count,
            limit == words@.len(),
            start + count <= words@.len(),
            out@ == widened(words@.subrange(start as int, start as int + count as int)).take(
                d as int,
            ),
        decreases count - d,
    {
        out.push(f32_widen(words[start + d]));
        proof {
            assert(out@ =~= widened(
                words@.subrange(start as int, start as int + count as int),
            ).take(d as int + 1));
        }
        d = d + 1;
    }
    proof {
        assert(out@ =~= widened(words@.subrange(start as int, start as int + count as int)));
    }
    out
}

pub fn sub_vec(a: &Vec<u64>, b: &Vec<u64>) -> (r: Vec<u64>)
    requires
        a@.len() == b@.len(),
    ensures
        r@ == sub_seq(a@, b@),
{
    let mut out: Vec<u64> = Vec::with_capacity(a.len());
    let mut d: usize = 0;
    while d < a.len()
        invariant
            a@.len() == b@.len(),
            d <= a@.len(),
            out@ == sub_seq(a@, b@).take(d as int),
        decreases a@.len() - d,
    {
        out.push(f64_sub(a[d], b[d]));
        proof {
            assert(out@ =~= sub_seq(a@, b@).take(d as int + 1));
        }
        d = d + 1;
    }
    proof {
        assert(out@ =~= sub_seq(a@, b@));
    }
    out
}

pub fn delta_vec(a: &Vec<u32>, b: &Vec<u32>, start: usize, count: usize) -> (r: Vec<u64>)
    requires
        a@.len() == count,
        start + count <= b@.len(),
    ensures
        r@ == delta_seq(a@, b@.subrange(start as int, start as int + count as int)),
        r@.len() == count,
{
    let limit = b.len();
    let mut out: Vec<u64> = Vec::with_capacity(count);
    let ghost bs = b@.subrange(start as int, start as int + count as int);
    let mut d: usize = 0;
    while d < count
        invariant
            d <= count,
            a@.len() == count,
            limit == b@.len(),
            start + count <= b@.len(),
            bs == b@.subrange(start as int, start as int + count as int),
            out@ == delta_seq(a@, bs).take(d as int),
        decreases count - d,
    {
        out.push(f32_widen(f32_sub(a[d], b[start + d])));
        proof {
            assert(out@ =~= delta_seq(a@, bs).take(d as int + 1));
        }
        d = d + 1;
    }
    proof {
        assert(out@ =~= delta_seq(a@, bs));
    }
    out
}

pub fn copy_words(words: &Vec<u32>, start: usize, count: usize) -> (r: Vec<u32>)
    requires
        start + count <= words@.len(),
    ensures
        r@ == words@.subrange(start as int, start as int + count as int),
        r@.len() == count,
{
    let limit = words.len();
    let mut out: Vec<u32> = Vec::with_capacity(count);
    let mut d: usize = 0;
    while d < count
        invariant
            d <= count,
            limit == words@.len(),
            start + count <= words@.len(),
            out@ == words@.subrange(start as int, start as int + count as int).take(d as int),
        decreases count - d,
    {
        out.push(words[start + d]);
        proof {
            assert(out@ =~= words@.subrange(start as int, start as int + count as int).take(
                d as int + 1,
            ));
        }
        d = d + 1;
    }
    proof {
        assert(out@ =~= words@.subrange(start as int, start as int + count as int));
    }
    out
}

pub fn zero_vec(count: usize) -> (r: Vec<u64>)
    ensures
        r@ == Seq::new(count as nat, |i: int| F64_ZERO_BITS),
{
    let mut out: Vec<u64> = Vec::with_capacity(count);
    let mut d: usize = 0;
    while d < count
        invariant
            d <= count,
            out@ == Seq::new(count as nat, |i: int| F64_ZERO_BITS).take(d as int),
        decreases count - d,
    {
        out.push(F64_ZERO_BITS);
        proof {
            assert(out@ =~= Seq::new(count as nat, |i: int| F64_ZERO_BITS).take(d as int + 1));
        }
        d = d + 1;
    }
    proof {
        assert(out@ =~= Seq::new(count as nat, |i: int| F64_ZERO_BITS));
    }
    out
}

pub fn scale_down_in_place(v: &mut Vec<u64>, m: u64)
    ensures
        final(v)@ == scaled_down(old(v)@, m),
{
    let n = v.len();
    let ghost v0 = v@;
    let mut d: usize = 0;
    while d < n
        invariant
            d <= n,
            n == v@.len(),
            v@.len() == v0.len(),
            forall|j: int| 0 <= j < d ==> v@[j] == div_bits(v0[j], m),
            forall|j: int| d <= j < n ==> v@[j] == v0[j],
        decreases n - d,
    {
        let nv = f64_div(v[d], m);
        v.set(d, nv);
        d = d + 1;
    }
    proof {
        assert(v@ =~= scaled_down(v0, m));
    }
}

pub fn accumulate_in_place(p: &mut Vec<u64>, c: u64, u: &Vec<u64>)
    requires
        old(p)@.len() == u@.len(),
    ensures
        final(p)@ == accumulated(old(p)@, c, u@),
{
    let n = p.len();
    let ghost p0 = p@;
    let mut d: usize = 0;
    while d < n
        invariant
            d <= n,
            n == p@.len(),
            p@.len() == p0.len(),
            u@.len() == p0.len(),
            forall|j: int| 0 <= j < d ==> v_matches_acc(p@[j], p0[j], c, u@[j]),
            forall|j: int| d <= j < n ==> p@[j] == p0[j],
        decreases n - d,
    {
        let nv = f64_add(p[d], f64_mul(c, u[d]));
        p.set(d, nv);
        d = d + 1;
    }
    proof {
        assert(p@ =~= accumulated(p0, c, u@));
    }
}

/// One updated component of an accumulation step.
pub open spec fn v_matches_acc(cur: u64, orig: u64, c: u64, u: u64) -> bool {
    cur == add_bits(orig, mul_bits(c, u))
}

} // verus!
