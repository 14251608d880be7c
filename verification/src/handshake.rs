use vstd::prelude::*;
use crate::linalg::{delta_seq, delta_vec, dot, dot_vec, row, scaled_down};
use crate::scalar::{DIRECTION_EPS_BITS, F64_ZERO_BITS, f64_div, f64_gt, f64_sqrt, gt_bits, sqrt_bits};

verus! {

/// Parallel displacement results: one Euclidean magnitude per reference
/// vector, and the flattened unit directions, in input order.
#[derive(Debug)]
pub struct HandshakeResult {
    pub magnitudes: Vec<u64>,
    pub directions: Vec<u64>,
}

/// Magnitude of the displacement between the query and reference `i`: the
/// componentwise single-precision difference is widened, squared and
/// summed in double precision, then rooted.
pub open spec fn hs_mag(q: Seq<u32>, tags: Seq<u32>, dim: int, i: int) -> u64 {
    let delta = delta_seq(q, row(tags, i, dim));
    sqrt_bits(dot(delta, delta))
}

/// Unit direction of a displacement, or the zero vector when the
/// magnitude is not above the displacement threshold.
pub open spec fn dir_of(delta: Seq<u64>, mag: u64) -> Seq<u64> {
    if gt_bits(mag, DIRECTION_EPS_BITS) {
        scaled_down(delta, mag)
    } else {
        Seq::new(delta.len(), |d: int| F64_ZERO_BITS)
    }
}

/// Magnitudes of the first `i` reference vectors, in input order.
pub open spec fn hs_mags(q: Seq<u32>, tags: Seq<u32>, dim: int, i: int) -> Seq<u64>
    decreases i,
{
    if i <= 0 {
        Seq::empty()
    } else {
        hs_mags(q, tags, dim, i - 1).push(hs_mag(q, tags, dim, i - 1))
    }
}

/// Flattened directions of the first `i` reference vectors, in input order.
pub open spec fn hs_dirs(q: Seq<u32>, tags: Seq<u32>, dim: int, i: int) -> Seq<u64>
    decreases i,
{
    if i <= 0 {
        Seq::empty()
    } else {
        hs_dirs(q, tags, dim, i - 1) + dir_of(
            delta_seq(q, row(tags, i - 1, dim)),
            hs_mag(q, tags, dim, i - 1),
        )
    }
}

/// Appends the unit direction of `delta`, or `delta.len()` zeros when the
/// magnitude is not above the displacement threshold.
fn push_direction(dirs: &mut Vec<u64>, delta: &Vec<u64>, mag: u64)
    ensures
        final(dirs)@ == old(dirs)@ + dir_of(delta@, mag),
{
    let ghost base = dirs@;
    let n = delta.len();
    if f64_gt(mag, DIRECTION_EPS_BITS) {
        let mut d: usize = 0;
        while d < n
            invariant
                d <= n,
                n == delta@.len(),
                dirs@ == base + scaled_down(delta@, mag).take(d as int),
            decreases n - d,
        {
            dirs.push(f64_div(delta[d], mag));
            proof {
                assert(dirs@ =~= base + scaled_down(delta@, mag).take(d as int + 1));
            }
            d = d + 1;
        }
        proof {
            assert(dirs@ =~= base + dir_of(delta@, mag));
        }
    } else {
        let mut d: usize = 0;
        while d < n
            invariant
                d <= n,
                n == delta@.len(),
                dirs@ == base + Seq::new(delta@.len(), |j: int| F64_ZERO_BITS).take(d as int),
            decreases n - d,
        {
            dirs.push(F64_ZERO_BITS);
            proof {
                assert(dirs@ =~= base + Seq::new(delta@.len(), |j: int| F64_ZERO_BITS).take(
                    d as int + 1,
                ));
            }
            d = d + 1;
        }
        proof {
            assert(dirs@ =~= base + dir_of(delta@, mag));
        }
    }
}

/// Pairwise displacement of a query against `n` reference vectors of `dim`
/// single-precision components each: each difference is taken in single
/// precision, widened, and measured in double precision; a displacement
/// whose magnitude is not above the threshold gets the zero direction, so
/// no division by a near-zero magnitude ever happens. Input order is kept;
/// nothing is sorted or truncated.
pub fn handshake_words(query: &Vec<u32>, tags: &Vec<u32>, n: usize, dim: usize) -> (r:
    HandshakeResult)
    requires
        query@.len() == dim,
        tags@.len() == n * dim,
    ensures
        r.magnitudes@ == hs_mags(query@, tags@, dim as int, n as int),
        r.directions@ == hs_dirs(query@, tags@, dim as int, n as int),
        r.magnitudes@.len() == n,
        r.directions@.len() == n * dim,
{
    let total = tags.len();
    let mut mags: Vec<u64> = Vec::with_capacity(n);
    let mut dirs: Vec<u64> = Vec::new();
    let mut i: usize = 0;
    while i < n
        invariant
            i <= n,
            query@.len() == dim,
            tags@.len() == n * dim,
            total == tags@.len(),
            mags@ == hs_mags(query@, tags@, dim as int, i as int),
            dirs@ == hs_dirs(query@, tags@, dim as int, i as int),
            mags@.len() == i,
            dirs@.len() == i * dim,
        decreases n - i,
    {
        proof {
            assert((i + 1) * dim <= n * dim) by (nonlinear_arith)
                requires
                    i + 1 <= n,
                    0 <= dim,
            ;
            assert(i * dim + dim == (i + 1) * dim) by (nonlinear_arith);
            assert(i * dim + dim <= tags@.len());
            assert(tags@.len() <= usize::MAX);
        }
        let delta = delta_vec(query, tags, i * dim, dim);
        let magsq = dot_vec(&delta, &delta);
        let mag = f64_sqrt(magsq);
        mags.push(mag);
        push_direction(&mut dirs, &delta, mag);
        proof {
            assert(delta@ == delta_seq(query@, row(tags@, i as int, dim as int)));
            assert(mag == hs_mag(query@, tags@, dim as int, i as int));
        }
        i = i + 1;
    }
    HandshakeResult { magnitudes: mags, directions: dirs }
}

} // verus!
