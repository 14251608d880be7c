use vstd::prelude::*;
use crate::linalg::{
    accumulate_in_place, accumulated, dot, dot_vec, row, scale_down_in_place, scaled_down, sub_seq,
    sub_vec, widen_vec, widened, zero_vec,
};
use crate::scalar::{
    BASIS_EPS_BITS, F64_ZERO_BITS, abs_bits, f64_abs, f64_gt, f64_mul, f64_sqrt, f64_sub, gt_bits,
    mul_bits, sqrt_bits, sub_bits,
};

verus! {

/// In-basis projection, out-of-basis residual, and per-candidate
/// coefficient magnitudes of a query against an incrementally
/// orthonormalized candidate list.
#[derive(Debug)]
pub struct OrthogonalProjectionResult {
    pub projection: Vec<u64>,
    pub residual: Vec<u64>,
    pub basis_coefficients: Vec<u64>,
}

/// `v` minus its projection onto `u`: the dot product is taken once
/// against the incoming `v`, then removed componentwise.
pub open spec fn deflate(v: Seq<u64>, u: Seq<u64>) -> Seq<u64> {
    sub_seq(v, Seq::new(v.len(), |i: int| mul_bits(dot(v, u), u[i])))
}

/// `v` orthogonalized against every accepted basis vector, first to last.
pub open spec fn deflate_all(v: Seq<u64>, basis: Seq<Seq<u64>>) -> Seq<u64>
    decreases basis.len(),
{
    if basis.len() == 0 {
        v
    } else {
        deflate_all(deflate(v, basis[0]), basis.drop_first())
    }
}

/// The norm of the residual of candidate `v` after orthogonalization.
pub open spec fn residual_norm(v: Seq<u64>) -> u64 {
    sqrt_bits(dot(v, v))
}

/// A candidate is accepted exactly when its residual norm is above the
/// basis-drop threshold.
pub open spec fn candidate_accepted(v: Seq<u64>) -> bool {
    gt_bits(residual_norm(v), BASIS_EPS_BITS)
}

/// State of the orthogonalization after the first `i` candidates:
/// accepted basis vectors in acceptance order, one coefficient per input
/// candidate, and the running projection of the query.
pub open spec fn gs_rounds(q: Seq<u64>, tags: Seq<u32>, dim: int, i: int) -> (Seq<Seq<u64>>, Seq<
    u64,
>, Seq<u64>)
    decreases i,
{
    if i <= 0 {
        (Seq::empty(), Seq::empty(), Seq::new(dim as nat, |d: int| F64_ZERO_BITS))
    } else {
        let (basis, coeffs, proj) = gs_rounds(q, tags, dim, i - 1);
        let v = deflate_all(widened(row(tags, i - 1, dim)), basis);
        if candidate_accepted(v) {
            let unit = scaled_down(v, residual_norm(v));
            let c = dot(q, unit);
            (basis.push(unit), coeffs.push(abs_bits(c)), accumulated(proj, c, unit))
        } else {
            (basis, coeffs.push(F64_ZERO_BITS), proj)
        }
    }
}

/// Orthogonalizing against one more accepted vector is one more deflation.
pub proof fn lemma_deflate_all_snoc(v: Seq<u64>, basis: Seq<Seq<u64>>, u: Seq<u64>)
    ensures
        deflate_all(v, basis.push(u)) == deflate(deflate_all(v, basis), u),
    decreases basis.len(),
{
    if basis.len() == 0 {
        assert(basis.push(u)[0] == u);
        assert(basis.push(u).drop_first() =~= Seq::<Seq<u64>>::empty());
        assert(deflate_all(deflate(v, u), Seq::<Seq<u64>>::empty()) == deflate(v, u));
    } else {
        assert(basis.push(u)[0] == basis[0]);
        assert(basis.push(u).drop_first() =~= basis.drop_first().push(u));
        lemma_deflate_all_snoc(deflate(v, basis[0]), basis.drop_first(), u);
    }
}

/// Views of a list of owned vectors.
pub open spec fn views(s: Seq<Vec<u64>>) -> Seq<Seq<u64>> {
    s.map_values(|v: Vec<u64>| v@)
}

/// Projecting the same query against the same ordered candidate list a
/// second time changes nothing: the outcome is a function of the inputs.
pub proof fn lemma_orthogonalization_deterministic(
    q: Seq<u64>,
    tags: Seq<u32>,
    dim: int,
    n: int,
    first: (Seq<Seq<u64>>, Seq<u64>, Seq<u64>),
    second: (Seq<Seq<u64>>, Seq<u64>, Seq<u64>),
)
    requires
        first == gs_rounds(q, tags, dim, n),
        second == gs_rounds(q, tags, dim, n),
    ensures
        first == second,
{
}

/// Incremental Gram-Schmidt orthogonalization of `n` candidate vectors of
/// `dim` single-precision components each, in input order, followed by the
/// projection of the query onto the accepted orthonormal set. A candidate
/// whose residual norm is not above the basis-drop threshold is dropped
/// and its coefficient stays zero. Coefficients are reported as absolute
/// values while the running projection accumulates the signed dot product.
/// All accumulation happens in double precision.
pub fn orthogonal_projection_words(query: &Vec<u32>, tags: &Vec<u32>, n: usize, dim: usize) -> (r:
    OrthogonalProjectionResult)
    requires
        query@.len() == dim,
        tags@.len() == n * dim,
    ensures
        r.projection@ == gs_rounds(widened(query@), tags@, dim as int, n as int).2,
        r.basis_coefficients@ == gs_rounds(widened(query@), tags@, dim as int, n as int).1,
        r.residual@ == sub_seq(
            widened(query@),
            gs_rounds(widened(query@), tags@, dim as int, n as int).2,
        ),
        r.projection@.len() == dim,
        r.residual@.len() == dim,
        r.basis_coefficients@.len() == n,
{
    let ghost qs = widened(query@);
    let total = tags.len();
    let qw = widen_vec(query, 0, dim);
    proof {
        assert(query@.subrange(0, dim as int) =~= query@);
    }
    let mut basis: Vec<Vec<u64>> = Vec::new();
    let mut coeffs: Vec<u64> = Vec::new();
    let mut proj: Vec<u64> = zero_vec(dim);
    let mut i: usize = 0;
    while i < n
        invariant
            i <= n,
            query@.len() == dim,
            tags@.len() == n * dim,
            total == tags@.len(),
            qs == widened(query@),
            qw@ == qs,
            qw@.len() == dim,
            views(basis@) == gs_rounds(qs, tags@, dim as int, i as int).0,
            coeffs@ == gs_rounds(qs, tags@, dim as int, i as int).1,
            proj@ == gs_rounds(qs, tags@, dim as int, i as int).2,
            forall|j: int| 0 <= j < basis@.len() ==> (#[trigger] basis@[j])@.len() == dim,
            proj@.len() == dim,
            coeffs@.len() == i,
        decreases n - i,
    {
        proof {
            assert((i + 1) * dim <= n * dim) by (nonlinear_arith)
                requires
                    i + 1 <= n,
                    0 <= dim,
            ;
            assert(i * dim + dim == (i + 1) * dim) by (nonlinear_arith);
            assert(i * dim + dim <= tags@.len());
            assert(tags@.len() <= usize::MAX);
        }
        let mut v = widen_vec(tags, i * dim, dim);
        let ghost v0 = v@;
        proof {
            assert(v0 =~= widened(row(tags@, i as int, dim as int)));
        }
        let mut bi: usize = 0;
        while bi < basis.len()
            invariant
                bi <= basis@.len(),
                v@.len() == dim,
                v0.len() == dim,
                forall|j: int| 0 <= j < basis@.len() ==> (#[trigger] basis@[j])@.len() == dim,
                v@ == deflate_all(v0, views(basis@).take(bi as int)),
            decreases basis@.len() - bi,
        {
            let ghost before = v@;
            deflate_in_place(&mut v, &basis[bi]);
            proof {
                assert(views(basis@).take(bi as int).push(views(basis@)[bi as int]) =~= views(
                    basis@,
                ).take(bi as int + 1));
                lemma_deflate_all_snoc(v0, views(basis@).take(bi as int), views(basis@)[bi as int]);
            }
            bi = bi + 1;
        }
        proof {
            assert(views(basis@).take(basis@.len() as int) =~= views(basis@));
        }
        let magsq = dot_vec(&v, &v);
        let mag = f64_sqrt(magsq);
        let ghost old_basis = basis@;
        let ghost old_coeffs = coeffs@;
        let ghost old_proj = proj@;
        if f64_gt(mag, BASIS_EPS_BITS) {
            scale_down_in_place(&mut v, mag);
            let c = dot_vec(&qw, &v);
            coeffs.push(f64_abs(c));
            accumulate_in_place(&mut proj, c, &v);
            basis.push(v);
            proof {
                assert(views(basis@) =~= views(old_basis).push(basis@[old_basis.len() as int]@));
            }
        } else {
            coeffs.push(F64_ZERO_BITS);
        }
        i = i + 1;
    }
    let residual = sub_vec(&qw, &proj);
    OrthogonalProjectionResult { projection: proj, residual, basis_coefficients: coeffs }
}

/// `v` minus its projection onto `u`, in place: the dot product is taken
/// against the incoming `v`, then removed from every component.
pub fn deflate_in_place(v: &mut Vec<u64>, u: &Vec<u64>)
    requires
        old(v)@.len() == u@.len(),
    ensures
        final(v)@ == deflate(old(v)@, u@),
        final(v)@.len() == old(v)@.len(),
{
    let c = dot_vec(v, u);
    let n = v.len();
    let ghost v0 = v@;
    let mut d: usize = 0;
    while d < n
        invariant
            d <= n,
            n == v@.len(),
            v@.len() == v0.len(),
            u@.len() == v0.len(),
            c == dot(v0, u@),
            forall|j: int| 0 <= j < d ==> v@[j] == sub_bits(v0[j], mul_bits(c, u@[j])),
            forall|j: int| d <= j < n ==> v@[j] == v0[j],
        decreases n - d,
    {
        let nv = f64_sub(v[d], f64_mul(c, u[d]));
        v.set(d, nv);
        d = d + 1;
    }
    proof {
        assert(v@ =~= deflate(v0, u@));
    }
}

} // verus!
