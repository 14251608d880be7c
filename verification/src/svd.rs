use vstd::prelude::*;
use crate::errors::VexusError;
use crate::linalg::{widen_vec, widened};

verus! {

/// The top right-singular directions of a batch of vectors: `k` rows of
/// `dim` components each, flattened into `u`, with their singular values
/// in `s`, both widened to double precision and ordered as the
/// decomposition returned them (descending; truncated, never re-sorted).
#[derive(Debug)]
pub struct SvdResult {
    pub u: Vec<u64>,
    pub s: Vec<u64>,
    pub k: u32,
    pub dim: u32,
}

/// Number of directions kept: all available singular values, capped at
/// the requested maximum.
pub open spec fn selected_k(available: nat, max_k: nat) -> nat {
    if available <= max_k {
        available
    } else {
        max_k
    }
}

/// Truncates a decomposition to its top `k` directions: the first `k`
/// singular values and the first `k` rows of the flattened right-singular
/// matrix, each widened to double precision.
pub fn svd_select(singular: &Vec<u32>, vt: &Vec<u32>, dim: usize, max_k: usize) -> (r: SvdResult)
    requires
        vt@.len() == singular@.len() * dim,
        singular@.len() <= u32::MAX,
        dim <= u32::MAX,
    ensures
        r.k as nat == selected_k(singular@.len(), max_k as nat),
        r.dim == dim,
        r.s@ == widened(singular@.take(r.k as int)),
        r.u@ == widened(vt@.take(r.k as int * dim as int)),
        r.s@.len() == r.k,
        r.u@.len() == r.k as nat * dim as nat,
{
    let vt_total = vt.len();
    let available = singular.len();
    let k = if available <= max_k {
        available
    } else {
        max_k
    };
    proof {
        assert(k * dim <= singular@.len() * dim) by (nonlinear_arith)
            requires
                k <= singular@.len(),
                0 <= dim,
        ;
        assert(vt@.len() <= usize::MAX);
    }
    let s = widen_vec(singular, 0, k);
    let u = widen_vec(vt, 0, k * dim);
    proof {
        assert(singular@.subrange(0, k as int) =~= singular@.take(k as int));
        assert(vt@.subrange(0, k as int * dim as int) =~= vt@.take(k as int * dim as int));
    }
    SvdResult { u, s, k: k as u32, dim: dim as u32 }
}

/// Decides the outcome of a decomposition attempt: a missing
/// right-singular matrix is a convergence failure; a present one is
/// truncated to the top directions.
pub fn svd_outcome(
    decomposition: Option<(Vec<u32>, Vec<u32>)>,
    dim: usize,
    max_k: usize,
) -> (r: Result<SvdResult, VexusError>)
    requires
        decomposition matches Some(p) ==> p.1@.len() == p.0@.len() * dim && p.0@.len() <= u32::MAX
            && dim <= u32::MAX,
    ensures
        decomposition is None ==> r == Err::<SvdResult, VexusError>(
            VexusError::DecompositionFailed,
        ),
        decomposition matches Some(p) ==> r is Ok && {
            let out = r.unwrap();
            &&& out.k as nat == selected_k(p.0@.len(), max_k as nat)
            &&& out.dim == dim
            &&& out.s@ == widened(p.0@.take(out.k as int))
            &&& out.u@ == widened(p.1@.take(out.k as int * dim as int))
        },
{
    match decomposition {
        None => Err(VexusError::DecompositionFailed),
        Some((singular, vt)) => Ok(svd_select(&singular, &vt, dim, max_k)),
    }
}

} // verus!
