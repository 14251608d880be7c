use vstd::prelude::*;

verus! {

/// Opaque owner of the native approximate-nearest-neighbor index. Verus
/// sees nothing inside it; its observable state is described by the named
/// values below, which the trusted methods relate to one another.
#[verifier::external_body]
pub struct EngineHandle {
    inner: cxx::UniquePtr<usearch::ffi::NativeIndex>,
}

/// Dimensionality the engine is configured with.
pub uninterp spec fn engine_dims(h: EngineHandle) -> nat;

/// Number of vectors the engine currently holds.
pub uninterp spec fn engine_size(h: EngineHandle) -> nat;

/// Number of vector slots the engine has reserved.
pub uninterp spec fn engine_capacity(h: EngineHandle) -> nat;

/// Distance bit patterns in ascending order. Nonnegative single-precision
/// values order exactly as their bit patterns do.
pub open spec fn ascending_bits(dists: Seq<u32>) -> bool {
    forall|i: int, j: int| 0 <= i <= j < dists.len() ==> dists[i] <= dists[j]
}

/// A single-precision bit pattern encoding a NaN: exponent all ones with a
/// nonzero mantissa.
pub open spec fn is_nan_single(b: u32) -> bool {
    (b & 0x7F80_0000) == 0x7F80_0000 && (b & 0x007F_FFFF) != 0
}

/// The engine ranks matches nearest first: as long as no distance is a NaN
/// (squared-Euclidean distances of ordinary inputs are nonnegative), the
/// distance bit patterns come in ascending order.
pub open spec fn engine_ranked(dists: Seq<u32>) -> bool {
    (forall|i: int| 0 <= i < dists.len() ==> !is_nan_single(#[trigger] dists[i]))
        ==> ascending_bits(dists)
}

impl EngineHandle {
    /// Relies on usearch's new_native_index: the new index is configured
    /// with the given dimensionality, the squared-Euclidean metric,
    /// single-precision storage and the given connectivity and expansion
    /// factors, and holds no vectors until inserts happen.
    #[verifier::external_body]
    pub fn open(
        dim: usize,
        connectivity: usize,
        expansion_add: usize,
        expansion_search: usize,
    ) -> (r: Result<EngineHandle, String>)
        ensures
            r matches Ok(h) ==> engine_dims(h) == dim as nat && engine_size(h) == 0,
    {
        let options = usearch::ffi::IndexOptions {
            dimensions: dim,
            metric: usearch::ffi::MetricKind::L2sq,
            quantization: usearch::ffi::ScalarKind::F32,
            connectivity,
            expansion_add,
            expansion_search,
            multi: false,
        };
        match usearch::ffi::new_native_index(&options) {
            Ok(inner) => Ok(EngineHandle { inner }),
            Err(e) => Err(e.what().to_owned()),
        }
    }

    /// Relies on usearch's reserve: on success at least the requested
    /// capacity is reserved and the index stays consistent; the contents
    /// and the dimensionality are untouched either way.
    #[verifier::external_body]
    pub fn reserve(&mut self, capacity: usize) -> (r: Result<(), String>)
        ensures
            engine_dims(*final(self)) == engine_dims(*old(self)),
            engine_size(*final(self)) == engine_size(*old(self)),
            r is Ok ==> engine_capacity(*final(self)) >= capacity as nat && engine_capacity(
                *final(self),
            ) >= engine_size(*final(self)),
            r is Err ==> engine_capacity(*final(self)) == engine_capacity(*old(self)),
    {
        match self.inner.reserve(capacity) {
            Ok(()) => Ok(()),
            Err(e) => Err(e.what().to_owned()),
        }
    }

    /// Relies on usearch's add_f32 over the raw bit patterns of the
    /// single-precision components: the engine refuses an insert beyond its
    /// reserved capacity rather than growing, stores exactly one more
    /// vector on success, and stores nothing on failure.
    #[verifier::external_body]
    pub fn add(&mut self, key: u64, words: &Vec<u32>) -> (r: Result<(), String>)
        requires
            words@.len() == engine_dims(*old(self)),
        ensures
            engine_dims(*final(self)) == engine_dims(*old(self)),
            engine_capacity(*final(self)) == engine_capacity(*old(self)),
            r is Ok ==> engine_size(*old(self)) < engine_capacity(*old(self)) && engine_size(
                *final(self),
            ) == engine_size(*old(self)) + 1,
            r is Err ==> engine_size(*final(self)) == engine_size(*old(self)),
    {
        match self.inner.add_f32(key, bytemuck::cast_slice(words.as_slice())) {
            Ok(()) => Ok(()),
            Err(e) => Err(e.what().to_owned()),
        }
    }

    /// Relies on usearch's search_f32 over the raw bit patterns of the
    /// single-precision components: at most the requested number of
    /// matches comes back, never more than the engine holds, keys and
    /// squared-Euclidean distances in matching order, nearest first — the
    /// distances are nonnegative, so their bit patterns ascend.
    #[verifier::external_body]
    pub fn search(&self, query: &Vec<u32>, k: usize) -> (r: Result<(Vec<u64>, Vec<u32>), String>)
        requires
            query@.len() == engine_dims(*self),
        ensures
            r matches Ok(p) ==> p.0@.len() == p.1@.len() && p.0@.len() <= k as nat && p.0@.len()
                <= engine_size(*self) && engine_ranked(p.1@),
    {
        match self.inner.search_f32(bytemuck::cast_slice(query.as_slice()), k) {
            Ok(m) => {
                let dist_bits: Vec<u32> = m.distances.iter().map(|d| d.to_bits()).collect();
                Ok((m.keys, dist_bits))
            },
            Err(e) => Err(e.what().to_owned()),
        }
    }

    /// Relies on usearch's remove: on success the returned number of
    /// entries left the index; the capacity and dimensionality are
    /// untouched either way.
    #[verifier::external_body]
    pub fn remove(&mut self, key: u64) -> (r: Result<usize, String>)
        ensures
            engine_dims(*final(self)) == engine_dims(*old(self)),
            engine_capacity(*final(self)) == engine_capacity(*old(self)),
            r matches Ok(c) ==> c as nat <= engine_size(*old(self)) && engine_size(*final(self))
                == engine_size(*old(self)) - c as nat,
            r is Err ==> engine_size(*final(self)) == engine_size(*old(self)),
    {
        match self.inner.remove(key) {
            Ok(c) => Ok(c),
            Err(e) => Err(e.what().to_owned()),
        }
    }

    /// Relies on usearch's size accessor.
    #[verifier::external_body]
    pub fn count(&self) -> (r: usize)
        ensures
            r as nat == engine_size(*self),
    {
        self.inner.size()
    }

    /// Relies on usearch's capacity accessor.
    #[verifier::external_body]
    pub fn capacity_now(&self) -> (r: usize)
        ensures
            r as nat == engine_capacity(*self),
    {
        self.inner.capacity()
    }

    /// Relies on usearch's dimensions accessor.
    #[verifier::external_body]
    pub fn dims_now(&self) -> (r: usize)
        ensures
            r as nat == engine_dims(*self),
    {
        self.inner.dimensions()
    }

    /// Relies on usearch's memory_usage accessor; the estimate depends on
    /// the allocator, so nothing is claimed of it.
    #[verifier::external_body]
    pub fn memory(&self) -> usize {
        self.inner.memory_usage()
    }

    /// Relies on usearch's save: one engine write of the whole index to
    /// the given path; the in-memory index is untouched.
    #[verifier::external_body]
    pub fn save_to(&self, path: &str) -> (r: Result<(), String>) {
        match self.inner.save(path) {
            Ok(()) => Ok(()),
            Err(e) => Err(e.what().to_owned()),
        }
    }

    /// Relies on usearch's load: the index read back from disk is
    /// consistent, holding no more vectors than it has capacity for; its
    /// dimensionality comes from the file and is read back separately.
    #[verifier::external_body]
    pub fn load_from(&mut self, path: &str) -> (r: Result<(), String>)
        ensures
            engine_size(*final(self)) <= engine_capacity(*final(self)),
    {
        match self.inner.load(path) {
            Ok(()) => Ok(()),
            Err(e) => Err(e.what().to_owned()),
        }
    }
}

} // verus!
