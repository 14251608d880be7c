use vstd::prelude::*;
use crate::linalg::{delta_seq, delta_vec, dot, dot_vec, row, widen_vec, widened, zero_vec};
use crate::scalar::{
    ENERGY_EPS_BITS, F64_ZERO_BITS, PROB_EPS_BITS, add_bits, div_bits, f64_add, f64_div, f64_gt,
    f64_log2, f64_mul, f64_sub, gt_bits, log2_bits, mul_bits, sub_bits,
};

verus! {

/// Per-axis scalar projections of a mean-centered vector onto a
/// precomputed orthonormal basis, the energy-normalized probability over
/// axes, its Shannon entropy in bits, and the total energy used for
/// normalization.
#[derive(Debug)]
pub struct ProjectResult {
    pub projections: Vec<u64>,
    pub probabilities: Vec<u64>,
    pub entropy: u64,
    pub total_energy: u64,
}

/// Projection of the centered vector onto basis axis `i`: each basis
/// component is widened and the dot product accumulates in double
/// precision.
pub open spec fn axis_projection(c: Seq<u64>, basis: Seq<u32>, dim: int, i: int) -> u64 {
    dot(c, widened(row(basis, i, dim)))
}

/// All `k` per-axis projections, in axis order.
pub open spec fn projections_of(c: Seq<u64>, basis: Seq<u32>, dim: int, k: int) -> Seq<u64> {
    Seq::new(k as nat, |i: int| axis_projection(c, basis, dim, i))
}

/// Total energy of the first `i` projections: the fold-left sum of their
/// squares in double precision.
pub open spec fn energy_prefix(ps: Seq<u64>, i: int) -> u64
    decreases i,
{
    if i <= 0 {
        F64_ZERO_BITS
    } else {
        add_bits(energy_prefix(ps, i - 1), mul_bits(ps[i - 1], ps[i - 1]))
    }
}

/// Each axis's squared-projection share of the total energy.
pub open spec fn probs_of(ps: Seq<u64>, energy: u64) -> Seq<u64> {
    Seq::new(ps.len(), |i: int| div_bits(mul_bits(ps[i], ps[i]), energy))
}

/// Shannon entropy accumulated over the first `i` probabilities:
/// probabilities not above the probability threshold contribute nothing.
pub open spec fn entropy_prefix(probs: Seq<u64>, i: int) -> u64
    decreases i,
{
    if i <= 0 {
        F64_ZERO_BITS
    } else {
        let e = entropy_prefix(probs, i - 1);
        let p = probs[i - 1];
        if gt_bits(p, PROB_EPS_BITS) {
            sub_bits(e, mul_bits(p, log2_bits(p)))
        } else {
            e
        }
    }
}

/// The full outcome: projections, probabilities, entropy, total energy.
/// A total energy not above the energy threshold is a degenerate input,
/// not an error: the probabilities and the entropy are all zero then.
pub open spec fn project_spec(v: Seq<u32>, basis: Seq<u32>, mean: Seq<u32>, dim: int, k: int) -> (
    Seq<u64>,
    Seq<u64>,
    u64,
    u64,
) {
    let c = delta_seq(v, mean);
    let ps = projections_of(c, basis, dim, k);
    let energy = energy_prefix(ps, k);
    if gt_bits(energy, ENERGY_EPS_BITS) {
        let probs = probs_of(ps, energy);
        (ps, probs, entropy_prefix(probs, k), energy)
    } else {
        (ps, Seq::new(k as nat, |i: int| F64_ZERO_BITS), F64_ZERO_BITS, energy)
    }
}

/// Projects the mean-centered vector onto `k` orthonormal basis axes
/// (assumed, not verified, orthonormal), derives the energy-normalized
/// probability distribution over axes, and computes its Shannon entropy
/// in bits. All accumulation happens in double precision.
pub fn project_words(
    vector: &Vec<u32>,
    basis: &Vec<u32>,
    mean: &Vec<u32>,
    k: usize,
    dim: usize,
) -> (r: ProjectResult)
    requires
        vector@.len() == dim,
        mean@.len() == dim,
        basis@.len() == k * dim,
    ensures
        r.projections@ == project_spec(vector@, basis@, mean@, dim as int, k as int).0,
        r.probabilities@ == project_spec(vector@, basis@, mean@, dim as int, k as int).1,
        r.entropy == project_spec(vector@, basis@, mean@, dim as int, k as int).2,
        r.total_energy == project_spec(vector@, basis@, mean@, dim as int, k as int).3,
        r.projections@.len() == k,
        r.probabilities@.len() == k,
{
    let total = basis.len();
    let centered = delta_vec(vector, mean, 0, dim);
    let ghost c = delta_seq(vector@, mean@);
    proof {
        assert(mean@.subrange(0, dim as int) =~= mean@);
        assert(centered@ == c);
    }
    let ghost full = projections_of(c, basis@, dim as int, k as int);
    let mut ps: Vec<u64> = Vec::with_capacity(k);
    let mut energy: u64 = F64_ZERO_BITS;
    let mut i: usize = 0;
    while i < k
        invariant
            i <= k,
            vector@.len() == dim,
            mean@.len() == dim,
            basis@.len() == k * dim,
            total == basis@.len(),
            c == delta_seq(vector@, mean@),
            centered@ == c,
            centered@.len() == dim,
            full == projections_of(c, basis@, dim as int, k as int),
            ps@ == full.take(i as int),
            energy == energy_prefix(full, i as int),
        decreases k - i,
    {
        proof {
            assert((i + 1) * dim <= k * dim) by (nonlinear_arith)
                requires
                    i + 1 <= k,
                    0 <= dim,
            ;
            assert(i * dim + dim == (i + 1) * dim) by (nonlinear_arith);
            assert(i * dim + dim <= basis@.len());
            assert(basis@.len() <= usize::MAX);
        }
        let bw = widen_vec(basis, i * dim, dim);
        let p = dot_vec(&centered, &bw);
        proof {
            assert(bw@ == widened(row(basis@, i as int, dim as int)));
            assert(p == full[i as int]);
        }
        ps.push(p);
        energy = f64_add(energy, f64_mul(p, p));
        proof {
            assert(ps@ =~= full.take(i as int + 1));
        }
        i = i + 1;
    }
    proof {
        assert(ps@ =~= full);
    }
    let mut entropy: u64 = F64_ZERO_BITS;
    if f64_gt(energy, ENERGY_EPS_BITS) {
        let ghost fullp = probs_of(full, energy);
        let mut probs: Vec<u64> = Vec::with_capacity(k);
        let mut j: usize = 0;
        while j < k
            invariant
                j <= k,
                ps@ == full,
                ps@.len() == k,
                fullp == probs_of(full, energy),
                probs@ == fullp.take(j as int),
                entropy == entropy_prefix(fullp, j as int),
            decreases k - j,
        {
            let p = f64_div(f64_mul(ps[j], ps[j]), energy);
            proof {
                assert(p == fullp[j as int]);
            }
            probs.push(p);
            if f64_gt(p, PROB_EPS_BITS) {
                entropy = f64_sub(entropy, f64_mul(p, f64_log2(p)));
            }
            proof {
                assert(probs@ =~= fullp.take(j as int + 1));
            }
            j = j + 1;
        }
        proof {
            assert(probs@ =~= fullp);
        }
        ProjectResult { projections: ps, probabilities: probs, entropy, total_energy: energy }
    } else {
        let probs = zero_vec(k);
        ProjectResult { projections: ps, probabilities: probs, entropy, total_energy: energy }
    }
}

} // verus!
