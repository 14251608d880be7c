use vstd::prelude::*;
use crate::codec::{decode_vector, decoded_words, shape_ok};
use crate::engine::{EngineHandle, engine_capacity, engine_dims, engine_ranked, engine_size};
use crate::errors::VexusError;
use crate::gram_schmidt::{OrthogonalProjectionResult, gs_rounds, orthogonal_projection_words};
use crate::handshake::{HandshakeResult, handshake_words, hs_dirs, hs_mags};
use crate::linalg::{copy_words, sub_seq, widened};
use crate::scalar::{F64_ONE_BITS, f32_widen, f64_sub, sub_bits, widen_bits};
use crate::subspace::{ProjectResult, project_spec, project_words};

verus! {

/// Neighbor connectivity the engine is configured with; a policy constant
/// shared by fresh and loaded stores.
pub const CONNECTIVITY: usize = 16;

/// Expansion factor for inserts; a policy constant.
pub const EXPANSION_ADD: usize = 128;

/// Expansion factor for searches; a policy constant.
pub const EXPANSION_SEARCH: usize = 64;

/// One search hit: the caller-assigned identifier and the similarity
/// score, one minus the engine's squared-Euclidean distance.
#[derive(Debug)]
pub struct SearchResult {
    pub id: u32,
    pub score: u64,
}

/// A snapshot of the store: vector count, dimensionality, reserved
/// capacity and the engine's memory estimate.
#[derive(Debug)]
pub struct VexusStats {
    pub total_vectors: u32,
    pub dimensions: u32,
    pub capacity: u32,
    pub memory_usage: u32,
}

/// Growth-managed vector store: a fixed dimensionality and an engine
/// handle whose occupancy never exceeds its reserved capacity.
pub struct VexusIndex {
    engine: EngineHandle,
    dimensions: u32,
}

/// The results repeat the engine's keys narrowed to 32 bits, each scored
/// as one minus its distance widened to double precision, in order.
pub open spec fn scored_from(res: Seq<SearchResult>, keys: Seq<u64>, dists: Seq<u32>) -> bool {
    keys.len() == res.len() && dists.len() == res.len() && forall|i: int|
        0 <= i < res.len() ==> (#[trigger] res[i]).id == keys[i] as u32 && res[i].score
            == sub_bits(F64_ONE_BITS, widen_bits(dists[i]))
}

/// Whether a result is a shape rejection.
pub open spec fn shape_rejected<T>(r: Result<T, VexusError>) -> bool {
    r matches Err(VexusError::ShapeMismatch { .. })
}

/// Number of recovered rows skipped among the first `i` for carrying the
/// wrong number of bytes.
pub open spec fn skipped_in(rows: Seq<(i64, Vec<u8>)>, dim: nat, i: int) -> nat
    decreases i,
{
    if i <= 0 {
        0
    } else {
        skipped_in(rows, dim, i - 1) + if !shape_ok(rows[i - 1].1@.len(), dim) {
            1nat
        } else {
            0nat
        }
    }
}

/// Turns engine matches into scored results: the identifier is the key
/// narrowed to 32 bits, the score is one minus the distance widened to
/// double precision.
pub fn score_results(keys: &Vec<u64>, dists: &Vec<u32>) -> (r: Vec<SearchResult>)
    requires
        keys@.len() == dists@.len(),
    ensures
        r@.len() == keys@.len(),
        forall|i: int|
            0 <= i < r@.len() ==> (#[trigger] r@[i]).id == keys@[i] as u32 && r@[i].score
                == sub_bits(F64_ONE_BITS, widen_bits(dists@[i])),
{
    let n = keys.len();
    let mut out: Vec<SearchResult> = Vec::with_capacity(n);
    let mut i: usize = 0;
    while i < n
        invariant
            i <= n,
            n == keys@.len(),
            keys@.len() == dists@.len(),
            out@.len() == i,
            forall|j: int|
                0 <= j < i ==> (#[trigger] out@[j]).id == keys@[j] as u32 && out@[j].score
                    == sub_bits(F64_ONE_BITS, widen_bits(dists@[j])),
        decreases n - i,
    {
        let score = f64_sub(F64_ONE_BITS, f32_widen(dists[i]));
        let id = #[verifier::truncate] (keys[i] as u32);
        out.push(SearchResult { id, score });
        i = i + 1;
    }
    out
}

impl VexusIndex {
    /// The store is well formed: the engine carries the store's
    /// dimensionality and never holds more vectors than it has capacity
    /// for.
    pub closed spec fn wf(self) -> bool {
        engine_dims(self.engine) == self.dimensions as nat && engine_size(self.engine)
            <= engine_capacity(self.engine) && self.dimensions as nat <= usize::MAX as nat / 4
    }

    /// Dimensionality of every vector in the store.
    pub closed spec fn dims(self) -> nat {
        self.dimensions as nat
    }

    /// Number of vectors the store holds.
    pub closed spec fn count(self) -> nat {
        engine_size(self.engine)
    }

    /// Number of vector slots the store has reserved.
    pub closed spec fn cap(self) -> nat {
        engine_capacity(self.engine)
    }

    /// Creates an empty store of the given dimensionality with the given
    /// initial capacity reserved.
    pub fn new(dim: u32, capacity: u32) -> (r: Result<VexusIndex, VexusError>)
        ensures
            r matches Ok(s) ==> s.wf() && s.dims() == dim as nat && s.count() == 0 && s.cap()
                >= capacity as nat,
            r matches Err(e) ==> e is EngineFailure,
            dim as nat > usize::MAX as nat / 4 ==> r is Err,
    {
        if dim as u64 > (usize::MAX / 4) as u64 {
            let message = "dimensionality exceeds the machine's addressable size".to_owned();
            return Err(VexusError::EngineFailure { message });
        }
        let mut engine = match EngineHandle::open(
            dim as usize,
            CONNECTIVITY,
            EXPANSION_ADD,
            EXPANSION_SEARCH,
        ) {
            Ok(e) => e,
            Err(message) => {
                return Err(VexusError::EngineFailure { message });
            },
        };
        match engine.reserve(capacity as usize) {
            Ok(()) => Ok(VexusIndex { engine, dimensions: dim }),
            Err(message) => Err(VexusError::EngineFailure { message }),
        }
    }

    /// Reads a store back from disk with the same policy constants a fresh
    /// store gets, verifies its dimensionality, and expands its capacity to
    /// the requested one where the file reserved less.
    pub fn load(dim: u32, capacity: u32, path: &str) -> (r: Result<VexusIndex, VexusError>)
        ensures
            r matches Ok(s) ==> s.wf() && s.dims() == dim as nat && s.cap() >= capacity as nat,
            r matches Err(e) ==> e is EngineFailure,
            dim as nat > usize::MAX as nat / 4 ==> r is Err,
    {
        if dim as u64 > (usize::MAX / 4) as u64 {
            let message = "dimensionality exceeds the machine's addressable size".to_owned();
            return Err(VexusError::EngineFailure { message });
        }
        let mut engine = match EngineHandle::open(
            dim as usize,
            CONNECTIVITY,
            EXPANSION_ADD,
            EXPANSION_SEARCH,
        ) {
            Ok(e) => e,
            Err(message) => {
                return Err(VexusError::EngineFailure { message });
            },
        };
        match engine.load_from(path) {
            Ok(()) => (),
            Err(message) => {
                return Err(VexusError::EngineFailure { message });
            },
        }
        let loaded_dims = engine.dims_now();
        if loaded_dims != dim as usize {
            let message = "loaded index dimensionality does not match the requested one".to_owned();
            return Err(VexusError::EngineFailure { message });
        }
        let current = engine.capacity_now();
        if capacity as usize > current {
            match engine.reserve(capacity as usize) {
                Ok(()) => (),
                Err(message) => {
                    return Err(VexusError::EngineFailure { message });
                },
            }
        }
        Ok(VexusIndex { engine, dimensions: dim })
    }

    /// Writes the index to the given path as one engine write; a caller
    /// that needs the crash-safe replace writes to a scratch path first and
    /// renames it over the destination afterwards.
    pub fn save(&self, path: &str) -> (r: Result<(), VexusError>)
        ensures
            r matches Err(e) ==> e is EngineFailure,
    {
        match self.engine.save_to(path) {
            Ok(()) => Ok(()),
            Err(message) => Err(VexusError::EngineFailure { message }),
        }
    }

    /// Inserts one vector under a caller-assigned identifier. The raw
    /// buffer is rejected exactly when it does not hold one vector of the
    /// store's dimensionality. An insert that would reach the reserved
    /// capacity first grows it to three halves, best effort: a failed
    /// growth is swallowed and the insert itself reports any engine
    /// refusal.
    pub fn add(&mut self, id: u32, vector: &Vec<u8>) -> (r: Result<(), VexusError>)
        requires
            old(self).wf(),
        ensures
            final(self).wf(),
            final(self).dims() == old(self).dims(),
            shape_rejected(r) <==> !shape_ok(vector@.len(), old(self).dims()),
            r is Ok ==> final(self).count() == old(self).count() + 1,
            r is Err ==> final(self).count() == old(self).count(),
            r matches Err(e) ==> (e is ShapeMismatch || e is EngineFailure),
    {
        let dim = self.dimensions as usize;
        let words = match decode_vector(vector, dim) {
            Ok(w) => w,
            Err(e) => {
                return Err(e);
            },
        };
        let size = self.engine.count();
        let cap = self.engine.capacity_now();
        if cap - size <= 1 {
            if cap <= usize::MAX - cap / 2 {
                let _ = self.engine.reserve(cap + cap / 2);
            }
        }
        match self.engine.add(id as u64, &words) {
            Ok(()) => Ok(()),
            Err(message) => Err(VexusError::EngineFailure { message }),
        }
    }

    /// Inserts a batch of vectors, one per identifier, from one flattened
    /// buffer, rejected exactly when it does not hold one vector of the
    /// store's dimensionality per identifier. A batch that would reach the
    /// reserved capacity first grows it to three halves of the occupied
    /// size, best effort. Items are inserted in order; the first failing
    /// item is reported by index and nothing inserted before it is rolled
    /// back.
    pub fn add_batch(&mut self, ids: &Vec<u32>, vectors: &Vec<u8>) -> (r: Result<(), VexusError>)
        requires
            old(self).wf(),
            ids@.len() * old(self).dims() <= usize::MAX / 4,
        ensures
            final(self).wf(),
            final(self).dims() == old(self).dims(),
            shape_rejected(r) <==> !shape_ok(vectors@.len(), ids@.len() * old(self).dims()),
            r is Ok ==> final(self).count() == old(self).count() + ids@.len(),
            r matches Err(VexusError::BatchItemFailed { index, .. }) ==> index < ids@.len()
                && final(self).count() == old(self).count() + index,
            shape_rejected(r) ==> final(self).count() == old(self).count(),
            r matches Err(e) ==> (e is ShapeMismatch || e is BatchItemFailed),
    {
        let dim = self.dimensions as usize;
        let count = ids.len();
        proof {
            assert(count * dim == ids@.len() * old(self).dims());
        }
        let words = match decode_vector(vectors, count * dim) {
            Ok(w) => w,
            Err(e) => {
                return Err(e);
            },
        };
        let words_total = words.len();
        let size = self.engine.count();
        let cap = self.engine.capacity_now();
        if size <= usize::MAX - count && size + count >= cap {
            let target = size + count;
            if target <= usize::MAX - target / 2 {
                let _ = self.engine.reserve(target + target / 2);
            }
        }
        let mut i: usize = 0;
        while i < count
            invariant
                i <= count,
                count == ids@.len(),
                self.wf(),
                self.dims() == old(self).dims(),
                self.count() == old(self).count() + i,
                dim == old(self).dims(),
                words@.len() == count * dim,
                words_total == words@.len(),
                shape_ok(vectors@.len(), ids@.len() * old(self).dims()),
            decreases count - i,
        {
            proof {
                assert((i + 1) * dim <= count * dim) by (nonlinear_arith)
                    requires
                        i + 1 <= count,
                        0 <= dim,
                ;
                assert(i * dim + dim == (i + 1) * dim) by (nonlinear_arith);
                assert(words@.len() <= usize::MAX);
            }
            let rowv = copy_words(&words, i * dim, dim);
            match self.engine.add(ids[i] as u64, &rowv) {
                Ok(()) => (),
                Err(message) => {
                    return Err(VexusError::BatchItemFailed { index: i, message });
                },
            }
            i = i + 1;
        }
        Ok(())
    }

    /// Removes a vector by identifier; an engine refusal, including one for
    /// an identifier the store never held, is surfaced, never swallowed.
    pub fn remove(&mut self, id: u32) -> (r: Result<(), VexusError>)
        requires
            old(self).wf(),
        ensures
            final(self).wf(),
            final(self).dims() == old(self).dims(),
            final(self).count() <= old(self).count(),
            r is Err ==> final(self).count() == old(self).count(),
            r matches Err(e) ==> e is EngineFailure,
    {
        match self.engine.remove(id as u64) {
            Ok(_removed) => Ok(()),
            Err(message) => Err(VexusError::EngineFailure { message }),
        }
    }

    /// Searches for the nearest stored vectors. The raw query is rejected
    /// exactly when it does not hold one vector of the store's
    /// dimensionality. At most `k` results come back, never more than the
    /// store holds, in the engine's ranking, each scored as one minus the
    /// engine's squared-Euclidean distance.
    pub fn search(&self, query: &Vec<u8>, k: u32) -> (r: Result<Vec<SearchResult>, VexusError>)
        requires
            self.wf(),
        ensures
            shape_rejected(r) <==> !shape_ok(query@.len(), self.dims()),
            r matches Ok(res) ==> res@.len() <= k as nat && res@.len() <= self.count() && (exists|
                keys: Seq<u64>,
                dists: Seq<u32>,
            | #[trigger] scored_from(res@, keys, dists) && engine_ranked(dists)),
            r matches Err(e) ==> (e is ShapeMismatch || e is EngineFailure),
    {
        let dim = self.dimensions as usize;
        let words = match decode_vector(query, dim) {
            Ok(w) => w,
            Err(e) => {
                return Err(e);
            },
        };
        match self.engine.search(&words, k as usize) {
            Ok((keys, dists)) => {
                let res = score_results(&keys, &dists);
                proof {
                    assert(scored_from(res@, keys@, dists@));
                }
                Ok(res)
            },
            Err(message) => Err(VexusError::EngineFailure { message }),
        }
    }

    /// Reads the store's counters: exact vector count, dimensionality and
    /// capacity (each narrowed to 32 bits), plus the engine's memory
    /// estimate.
    pub fn stats(&self) -> (r: VexusStats)
        requires
            self.wf(),
        ensures
            r.dimensions as nat == self.dims(),
            self.count() <= u32::MAX ==> r.total_vectors as nat == self.count(),
            self.cap() <= u32::MAX ==> r.capacity as nat == self.cap(),
    {
        VexusStats {
            total_vectors: #[verifier::truncate] (self.engine.count() as u32),
            dimensions: self.dimensions,
            capacity: #[verifier::truncate] (self.engine.capacity_now() as u32),
            memory_usage: #[verifier::truncate] (self.engine.memory() as u32),
        }
    }

    /// Folds a stream of recovered rows into the store: a row whose byte
    /// buffer does not hold one vector of the store's dimensionality is
    /// skipped and counted, never inserted; the rest go through the same
    /// growth policy as single inserts, and an engine refusal of one row
    /// leaves that row out without stopping the fold. Returns the inserted
    /// and skipped counts.
    pub fn recover_rows(&mut self, rows: &Vec<(i64, Vec<u8>)>) -> (r: (u32, u32))
        requires
            old(self).wf(),
            rows@.len() <= u32::MAX,
        ensures
            final(self).wf(),
            final(self).dims() == old(self).dims(),
            r.0 as nat == final(self).count() - old(self).count(),
            final(self).count() >= old(self).count(),
            r.1 as nat == skipped_in(rows@, old(self).dims(), rows@.len() as int),
            r.0 as nat + r.1 as nat <= rows@.len(),
    {
        let dim = self.dimensions as usize;
        let total = rows.len();
        let mut inserted: u32 = 0;
        let mut skipped: u32 = 0;
        let mut i: usize = 0;
        while i < total
            invariant
                i <= total,
                total == rows@.len(),
                rows@.len() <= u32::MAX,
                self.wf(),
                self.dims() == old(self).dims(),
                dim == old(self).dims(),
                inserted as nat == self.count() - old(self).count(),
                self.count() >= old(self).count(),
                skipped as nat == skipped_in(rows@, old(self).dims(), i as int),
                inserted as nat + skipped as nat <= i,
            decreases total - i,
        {
            let row = &rows[i];
            match decode_vector(&row.1, dim) {
                Ok(words) => {
                    let size = self.engine.count();
                    let cap = self.engine.capacity_now();
                    if cap - size <= 1 {
                        if cap <= usize::MAX - cap / 2 {
                            let _ = self.engine.reserve(cap + cap / 2);
                        }
                    }
                    let key = #[verifier::truncate] (row.0 as u64);
                    match self.engine.add(key, &words) {
                        Ok(()) => {
                            inserted = inserted + 1;
                        },
                        Err(_message) => (),
                    }
                },
                Err(_e) => {
                    skipped = skipped + 1;
                },
            }
            i = i + 1;
        }
        (inserted, skipped)
    }

    /// Incremental Gram-Schmidt orthogonalization of the candidate batch in
    /// input order, then the projection of the query onto the accepted
    /// orthonormal set; rejected exactly when either raw buffer does not
    /// hold its declared number of vectors of the store's dimensionality.
    pub fn compute_orthogonal_projection(
        &self,
        vector: &Vec<u8>,
        flattened_tags: &Vec<u8>,
        n_tags: u32,
    ) -> (r: Result<OrthogonalProjectionResult, VexusError>)
        requires
            self.wf(),
            n_tags as nat * self.dims() <= usize::MAX / 4,
        ensures
            r is Ok <==> shape_ok(vector@.len(), self.dims()) && shape_ok(
                flattened_tags@.len(),
                n_tags as nat * self.dims(),
            ),
            shape_rejected(r) <==> r is Err,
            r matches Ok(out) ==> ({
                let q = widened(decoded_words(vector@));
                let tags = decoded_words(flattened_tags@);
                &&& out.projection@ == gs_rounds(q, tags, self.dims() as int, n_tags as int).2
                &&& out.basis_coefficients@ == gs_rounds(
                    q,
                    tags,
                    self.dims() as int,
                    n_tags as int,
                ).1
                &&& out.residual@ == sub_seq(
                    q,
                    gs_rounds(q, tags, self.dims() as int, n_tags as int).2,
                )
                &&& out.projection@.len() == self.dims()
                &&& out.residual@.len() == self.dims()
                &&& out.basis_coefficients@.len() == n_tags as nat
            }),
    {
        let dim = self.dimensions as usize;
        let n = n_tags as usize;
        let q = match decode_vector(vector, dim) {
            Ok(w) => w,
            Err(e) => {
                return Err(e);
            },
        };
        let tags = match decode_vector(flattened_tags, n * dim) {
            Ok(w) => w,
            Err(e) => {
                return Err(e);
            },
        };
        Ok(orthogonal_projection_words(&q, &tags, n, dim))
    }

    /// Pairwise displacement magnitude and unit direction of the query
    /// against each reference vector, in input order; rejected exactly when
    /// either raw buffer does not hold its declared number of vectors of
    /// the store's dimensionality.
    pub fn compute_handshakes(
        &self,
        query: &Vec<u8>,
        flattened_tags: &Vec<u8>,
        n_tags: u32,
    ) -> (r: Result<HandshakeResult, VexusError>)
        requires
            self.wf(),
            n_tags as nat * self.dims() <= usize::MAX / 4,
        ensures
            r is Ok <==> shape_ok(query@.len(), self.dims()) && shape_ok(
                flattened_tags@.len(),
                n_tags as nat * self.dims(),
            ),
            shape_rejected(r) <==> r is Err,
            r matches Ok(out) ==> ({
                let q = decoded_words(query@);
                let tags = decoded_words(flattened_tags@);
                &&& out.magnitudes@ == hs_mags(q, tags, self.dims() as int, n_tags as int)
                &&& out.directions@ == hs_dirs(q, tags, self.dims() as int, n_tags as int)
                &&& out.magnitudes@.len() == n_tags as nat
                &&& out.directions@.len() == n_tags as nat * self.dims()
            }),
    {
        let dim = self.dimensions as usize;
        let n = n_tags as usize;
        let q = match decode_vector(query, dim) {
            Ok(w) => w,
            Err(e) => {
                return Err(e);
            },
        };
        let tags = match decode_vector(flattened_tags, n * dim) {
            Ok(w) => w,
            Err(e) => {
                return Err(e);
            },
        };
        Ok(handshake_words(&q, &tags, n, dim))
    }

    /// Projects the mean-centered vector onto `k` precomputed orthonormal
    /// basis axes and derives the energy-normalized distribution and its
    /// entropy; rejected exactly when one of the three raw buffers does not
    /// hold its declared number of vectors of the store's dimensionality.
    pub fn project(
        &self,
        vector: &Vec<u8>,
        flattened_basis: &Vec<u8>,
        mean_vector: &Vec<u8>,
        k: u32,
    ) -> (r: Result<ProjectResult, VexusError>)
        requires
            self.wf(),
            k as nat * self.dims() <= usize::MAX / 4,
        ensures
            r is Ok <==> shape_ok(vector@.len(), self.dims()) && shape_ok(
                flattened_basis@.len(),
                k as nat * self.dims(),
            ) && shape_ok(mean_vector@.len(), self.dims()),
            shape_rejected(r) <==> r is Err,
            r matches Ok(out) ==> ({
                let v = decoded_words(vector@);
                let basis = decoded_words(flattened_basis@);
                let mean = decoded_words(mean_vector@);
                &&& out.projections@ == project_spec(v, basis, mean, self.dims() as int, k as int).0
                &&& out.probabilities@ == project_spec(
                    v,
                    basis,
                    mean,
                    self.dims() as int,
                    k as int,
                ).1
                &&& out.entropy == project_spec(v, basis, mean, self.dims() as int, k as int).2
                &&& out.total_energy == project_spec(v, basis, mean, self.dims() as int, k as int).3
                &&& out.projections@.len() == k as nat
                &&& out.probabilities@.len() == k as nat
            }),
    {
        let dim = self.dimensions as usize;
        let kk = k as usize;
        let v = match decode_vector(vector, dim) {
            Ok(w) => w,
            Err(e) => {
                return Err(e);
            },
        };
        let basis = match decode_vector(flattened_basis, kk * dim) {
            Ok(w) => w,
            Err(e) => {
                return Err(e);
            },
        };
        let mean = match decode_vector(mean_vector, dim) {
            Ok(w) => w,
            Err(e) => {
                return Err(e);
            },
        };
        Ok(project_words(&v, &basis, &mean, kk, dim))
    }

    /// Decodes a flattened batch of `n` vectors for the decomposition,
    /// rejected exactly when the raw buffer does not hold `n` vectors of
    /// the store's dimensionality.
    pub fn svd_input_words(&self, flattened_vectors: &Vec<u8>, n: u32) -> (r: Result<
        Vec<u32>,
        VexusError,
    >)
        requires
            self.wf(),
            n as nat * self.dims() <= usize::MAX / 4,
        ensures
            r is Ok <==> shape_ok(flattened_vectors@.len(), n as nat * self.dims()),
            shape_rejected(r) <==> r is Err,
            r matches Ok(w) ==> w@ == decoded_words(flattened_vectors@) && w@.len() == n as nat
                * self.dims(),
    {
        decode_vector(flattened_vectors, (n as usize) * (self.dimensions as usize))
    }
}

/// After any sequence of inserts the store holds no more vectors than it
/// has capacity for: every operation preserves well-formedness, so the
/// bound holds at every observation point.
pub proof fn lemma_growth_invariant(s: VexusIndex)
    requires
        s.wf(),
    ensures
        s.count() <= s.cap(),
{
}

} // verus!
