use vstd::prelude::*;
use hirofa_utils::auto_id_map::AutoIdMap;
use crate::valueref::OwnedValueRef;

verus! {

#[verifier::external_type_specification]
#[verifier::external_body]
#[verifier::reject_recursive_types(T)]
pub struct ExAutoIdMap<T>(AutoIdMap<T>);

/// What an id map of cached references holds, by id.
pub uninterp spec fn cached_entries(m: AutoIdMap<OwnedValueRef>) -> Map<usize, OwnedValueRef>;

/// The bound an id map of cached references was made with: ids are drawn from
/// `0..bound`, and the map refuses to grow past `bound` entries.
pub uninterp spec fn cached_bound(m: AutoIdMap<OwnedValueRef>) -> usize;

/// Relies on `AutoIdMap::new_with_max_size`: an empty map with that bound.
#[verifier::external_body]
fn id_map_new(max_size: usize) -> (r: AutoIdMap<OwnedValueRef>)
    ensures
        cached_entries(r).dom() == Set::<usize>::empty(),
        cached_bound(r) == max_size,
{
    AutoIdMap::new_with_max_size(max_size)
}

/// Relies on `AutoIdMap::len`: the number of entries of the inner hash map.
#[verifier::external_body]
fn id_map_len(m: &AutoIdMap<OwnedValueRef>) -> (r: usize)
    ensures
        r == cached_entries(*m).len(),
{
    m.len()
}

/// Relies on `AutoIdMap::insert`: below its bound the map stores the element
/// under an id that is below the bound and was not in use (the starting point
/// of the search is random), and returns that id.
#[verifier::external_body]
fn id_map_insert(m: &mut AutoIdMap<OwnedValueRef>, elem: OwnedValueRef) -> (id: usize)
    requires
        cached_entries(*old(m)).len() < cached_bound(*old(m)),
    ensures
        id < cached_bound(*old(m)),
        !cached_entries(*old(m)).contains_key(id),
        cached_entries(*final(m)) == cached_entries(*old(m)).insert(id, elem),
        cached_bound(*final(m)) == cached_bound(*old(m)),
{
    m.insert(elem)
}

/// Relies on `AutoIdMap::remove`: takes the element stored under a present id
/// out of the map.
#[verifier::external_body]
fn id_map_remove(m: &mut AutoIdMap<OwnedValueRef>, id: usize) -> (r: OwnedValueRef)
    requires
        cached_entries(*old(m)).contains_key(id),
    ensures
        r == cached_entries(*old(m))[id],
        cached_entries(*final(m)) == cached_entries(*old(m)).remove(id),
        cached_bound(*final(m)) == cached_bound(*old(m)),
{
    m.remove(&id)
}

/// Relies on `AutoIdMap::get`: the element stored under the id, if any.
#[verifier::external_body]
fn id_map_get(m: &AutoIdMap<OwnedValueRef>, id: usize) -> (r: Option<&OwnedValueRef>)
    ensures
        r is Some <==> cached_entries(*m).contains_key(id),
        r is Some ==> *r->Some_0 == cached_entries(*m)[id],
{
    m.get(&id)
}

/// Relies on `AutoIdMap::contains_key`: whether an element is stored under the id.
#[verifier::external_body]
fn id_map_contains(m: &AutoIdMap<OwnedValueRef>, id: usize) -> (r: bool)
    ensures
        r == cached_entries(*m).contains_key(id),
{
    m.contains_key(&id)
}

/// Largest number of references the handle cache holds at once; every id it
/// hands out fits in an `i32`.
pub const CACHE_BOUND: usize = 0x7fff_ffff;

/// The handle cache of one engine instance. It belongs to the single owner of the
/// engine instance and is only touched from there.
pub struct QuickJsRuntime {
    object_cache: AutoIdMap<OwnedValueRef>,
}

impl QuickJsRuntime {
    /// The cached references, by id.
    pub closed spec fn cached(&self) -> Map<usize, OwnedValueRef> {
        cached_entries(self.object_cache)
    }

    /// Whether `id` names a live cache entry.
    pub open spec fn holds(&self, id: i32) -> bool {
        id >= 0 && self.cached().contains_key(id as usize)
    }

    pub closed spec fn wf(&self) -> bool {
        &&& cached_bound(self.object_cache) == CACHE_BOUND
        &&& self.cached().dom().finite()
        &&& forall|k: usize| #[trigger] self.cached().contains_key(k) ==> k < CACHE_BOUND
    }

    pub fn new() -> (r: QuickJsRuntime)
        ensures
            r.wf(),
            r.cached().dom() == Set::<usize>::empty(),
    {
        QuickJsRuntime { object_cache: id_map_new(CACHE_BOUND) }
    }

    /// Number of live cache entries.
    pub fn cached_count(&self) -> (r: usize)
        requires
            self.wf(),
        ensures
            r == self.cached().len(),
    {
        id_map_len(&self.object_cache)
    }

    /// Stores a reference, with its release obligation, in the handle cache and
    /// returns the fresh id it can be redeemed by. When the cache is full the
    /// reference comes back unchanged.
    pub fn cache_object(&mut self, obj: OwnedValueRef) -> (r: Result<i32, OwnedValueRef>)
        requires
            old(self).wf(),
        ensures
            final(self).wf(),
            old(self).cached().len() < CACHE_BOUND <==> r is Ok,
            r matches Ok(id) ==> {
                &&& id >= 0
                &&& !old(self).holds(id)
                &&& final(self).cached() == old(self).cached().insert(id as usize, obj)
            },
            r matches Err(back) ==> {
                &&& back == obj
                &&& final(self).cached() == old(self).cached()
            },
    {
        let n = id_map_len(&self.object_cache);
        if n < CACHE_BOUND {
            let id = id_map_insert(&mut self.object_cache, obj);
            Ok(id as i32)
        } else {
            Err(obj)
        }
    }

    /// Whether `id` names a live cache entry.
    pub fn has_cached_obj(&self, id: i32) -> (r: bool)
        requires
            self.wf(),
        ensures
            r == self.holds(id),
    {
        if id < 0 {
            false
        } else {
            id_map_contains(&self.object_cache, id as usize)
        }
    }

    /// Takes a reference out of the handle cache, with its release obligation.
    /// Redeeming an id that is not live is a bookkeeping error of the caller.
    pub fn consume_cached_obj(&mut self, id: i32) -> (r: OwnedValueRef)
        requires
            old(self).wf(),
            old(self).holds(id),
        ensures
            final(self).wf(),
            r == old(self).cached()[id as usize],
            final(self).cached() == old(self).cached().remove(id as usize),
            !final(self).holds(id),
    {
        id_map_remove(&mut self.object_cache, id as usize)
    }

    /// Lends the cached reference under `id` to `consumer`; the entry stays in
    /// the cache.
    pub fn with_cached_obj<C, R>(&self, id: i32, consumer: C) -> (r: R) where
        C: FnOnce(&OwnedValueRef) -> R,

        requires
            self.wf(),
            self.holds(id),
            consumer.requires((&self.cached()[id as usize],)),
        ensures
            consumer.ensures((&self.cached()[id as usize],), r),
    {
        let v = id_map_get(&self.object_cache, id as usize).unwrap();
        consumer(v)
    }
}

} // verus!

verus! {

/// Cache round trip: a reference stored under a fresh id and then redeemed by
/// that id comes back as the very reference that was stored (same value, same
/// obligation), the id is no longer live, and the cache is as it was before.
pub proof fn lemma_cache_round_trip(before: Map<usize, OwnedValueRef>, obj: OwnedValueRef, id: usize)
    requires
        !before.contains_key(id),
    ensures
        before.insert(id, obj)[id] == obj,
        before.insert(id, obj)[id].handle() == obj.handle(),
        !before.insert(id, obj).remove(id).contains_key(id),
        before.insert(id, obj).remove(id) == before,
{
    assert(before.insert(id, obj).remove(id) =~= before);
}

} // verus!
