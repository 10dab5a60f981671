use vstd::prelude::*;
use vstd::rwlock::RwLock;
use vstd::rwlock::RwLockPredicate;

use crate::meta::BaseInfo;
use crate::meta::BaseInfoSpec;
use crate::meta::ObjectMetaSpec;
use crate::meta::ObjectMeta;
use crate::meta::compat;
use crate::handle::AppObjectRef;
use crate::handle::LazyAppObjectRef;
use crate::object::AppObject;
use crate::object::ObjDynConstructor;
use crate::weakref::WeakRef;

verus! {

use std::sync::Arc;

/// The metadata of each object in a registration list, in registration order.
pub open spec fn metas_of<T>(objs: Seq<Arc<AppObject<T>>>) -> Seq<ObjectMetaSpec> {
    objs.map_values(|o: Arc<AppObject<T>>| o.meta@)
}

/// Some registered metadata is compatible with the requested identity.
pub open spec fn has_compat(metas: Seq<ObjectMetaSpec>, expected: BaseInfoSpec) -> bool {
    exists|i: int| 0 <= i < metas.len() && #[trigger] compat(metas[i], expected)
}

/// Index `i` holds the first registered metadata compatible with the
/// requested identity: it is compatible, and nothing registered before it is.
pub open spec fn is_first_compat(
    metas: Seq<ObjectMetaSpec>,
    expected: BaseInfoSpec,
    i: int,
) -> bool {
    &&& 0 <= i < metas.len()
    &&& compat(metas[i], expected)
    &&& forall|j: int| 0 <= j < i ==> !(#[trigger] compat(metas[j], expected))
}

/// `w` is a non-owning reference to the first registered object compatible
/// with the requested identity.
pub open spec fn resolved_ref<T>(
    objs: Seq<Arc<AppObject<T>>>,
    expected: BaseInfoSpec,
    w: WeakRef<AppObject<T>>,
) -> bool {
    exists|i: int|
        #[trigger] is_first_compat(metas_of(objs), expected, i) && w.target() == objs[i]
}

/// Whenever some registered metadata is compatible, a first compatible index
/// exists; resolution therefore succeeds exactly when a compatible object was
/// registered.
pub proof fn lemma_first_exists(metas: Seq<ObjectMetaSpec>, expected: BaseInfoSpec)
    requires
        has_compat(metas, expected),
    ensures
        exists|i: int| #[trigger] is_first_compat(metas, expected, i),
{
    let w = choose|i: int| 0 <= i < metas.len() && #[trigger] compat(metas[i], expected);
    lemma_first_below(metas, expected, w);
}

proof fn lemma_first_below(metas: Seq<ObjectMetaSpec>, expected: BaseInfoSpec, w: int)
    requires
        0 <= w < metas.len(),
        compat(metas[w], expected),
    ensures
        exists|i: int| #[trigger] is_first_compat(metas, expected, i),
    decreases w,
{
    if exists|j: int| 0 <= j < w && #[trigger] compat(metas[j], expected) {
        let j = choose|j: int| 0 <= j < w && #[trigger] compat(metas[j], expected);
        lemma_first_below(metas, expected, j);
    } else {
        assert(is_first_compat(metas, expected, w));
    }
}

/// The first compatible index is unique: resolution is a function of the
/// registration list and the requested identity, so repeating a lookup with
/// no intervening registration finds the same object.
pub proof fn lemma_first_compat_unique(
    metas: Seq<ObjectMetaSpec>,
    expected: BaseInfoSpec,
    i: int,
    j: int,
)
    requires
        is_first_compat(metas, expected, i),
        is_first_compat(metas, expected, j),
    ensures
        i == j,
{
}

/// Resolution is idempotent: two lookups of the same identity against the
/// same registration list — the registry never changes after its build —
/// observe the same underlying object. The premises are exactly what a
/// successful lookup promises of its result.
pub proof fn lemma_resolution_idempotent<T>(
    objs: Seq<Arc<AppObject<T>>>,
    expected: BaseInfoSpec,
    t1: Arc<AppObject<T>>,
    t2: Arc<AppObject<T>>,
)
    requires
        exists|i: int| #[trigger] is_first_compat(metas_of(objs), expected, i) && t1 == objs[i],
        exists|i: int| #[trigger] is_first_compat(metas_of(objs), expected, i) && t2 == objs[i],
    ensures
        t1 == t2,
{
    let i1 = choose|i: int|
        #[trigger] is_first_compat(metas_of(objs), expected, i) && t1 == objs[i];
    let i2 = choose|i: int|
        #[trigger] is_first_compat(metas_of(objs), expected, i) && t2 == objs[i];
    lemma_first_compat_unique(metas_of(objs), expected, i1, i2);
}

/// First-registered-wins: when an object at index `a` is compatible, no later
/// index — compatible or not — is ever the resolution result, and some result
/// exists.
pub proof fn lemma_first_registered_wins(
    metas: Seq<ObjectMetaSpec>,
    expected: BaseInfoSpec,
    a: int,
)
    requires
        0 <= a < metas.len(),
        compat(metas[a], expected),
    ensures
        exists|i: int| #[trigger] is_first_compat(metas, expected, i),
        forall|i: int| #[trigger] is_first_compat(metas, expected, i) ==> i <= a,
{
    assert(has_compat(metas, expected));
    lemma_first_exists(metas, expected);
}

/// Every registered object resolves under its own identity: the lookup
/// succeeds, and whatever object it settles on is compatible with that
/// identity, so the capability cast of the resolved object succeeds.
pub proof fn lemma_own_identity_resolves(metas: Seq<ObjectMetaSpec>, o: int)
    requires
        0 <= o < metas.len(),
    ensures
        has_compat(metas, metas[o].type_info),
        forall|i: int| #[trigger] is_first_compat(metas, metas[o].type_info, i)
            ==> compat(metas[i], metas[o].type_info),
{
    assert(compat(metas[o], metas[o].type_info));
}

/// An object whose metadata is not compatible with the requested identity is
/// never the resolution result, whatever else — such as its declared name —
/// may coincide.
pub proof fn lemma_incompatible_never_resolved(
    metas: Seq<ObjectMetaSpec>,
    expected: BaseInfoSpec,
    o: int,
)
    requires
        0 <= o < metas.len(),
        !compat(metas[o], expected),
    ensures
        !is_first_compat(metas, expected, o),
{
}

/// One memoized lookup: a requested identity, and the index of the first
/// compatible object it resolved to.
struct CacheEntry {
    key: BaseInfo,
    idx: usize,
}

/// What the lookup cache is allowed to hold: every entry records the index
/// that a linear scan over the registration list would find first for its
/// key. The cache is a derived index, never authoritative.
struct CachePred {
    metas: Seq<ObjectMetaSpec>,
}

impl RwLockPredicate<Vec<CacheEntry>> for CachePred {
    closed spec fn inv(self, v: Vec<CacheEntry>) -> bool {
        forall|k: int|
            0 <= k < v@.len() ==> is_first_compat(
                self.metas,
                (#[trigger] v@[k]).key@,
                v@[k].idx as int,
            )
    }
}

fn cache_lookup(entries: &Vec<CacheEntry>, expected: &BaseInfo) -> (r: Option<usize>)
    ensures
        r matches Some(i) ==> exists|k: int|
            0 <= k < entries@.len() && (#[trigger] entries@[k]).key@ == expected@
                && entries@[k].idx == i,
{
    let mut k: usize = 0;
    while k < entries.len()
        invariant
            k <= entries@.len(),
        decreases entries@.len() - k,
    {
        if entries[k].key == *expected {
            return Some(entries[k].idx);
        }
        k += 1;
    }
    None
}

fn scan_first<T>(objects: &Vec<Arc<AppObject<T>>>, expected: &BaseInfo) -> (r: Option<usize>)
    ensures
        r matches Some(i) ==> is_first_compat(metas_of(objects@), expected@, i as int),
        r is None ==> !has_compat(metas_of(objects@), expected@),
{
    let mut i: usize = 0;
    while i < objects.len()
        invariant
            i <= objects@.len(),
            forall|j: int| 0 <= j < i ==> !(#[trigger] compat(metas_of(objects@)[j], expected@)),
        decreases objects@.len() - i,
    {
        let o = &objects[i];
        if o.meta.compat_with(expected) {
            return Some(i);
        }
        i += 1;
    }
    None
}

/// The shared core of a built registry: the registered objects in
/// registration order, and the lookup cache, a reader/writer-guarded
/// memoization of earlier resolutions.
pub struct AppContextInner<T> {
    objects: Vec<Arc<AppObject<T>>>,
    object_cache: RwLock<Vec<CacheEntry>, CachePred>,
}

impl<T> AppContextInner<T> {
    /// The registered objects, in registration order.
    pub closed spec fn objs(&self) -> Seq<Arc<AppObject<T>>> {
        self.objects@
    }

    /// The registered metadata, in registration order.
    pub open spec fn metas(&self) -> Seq<ObjectMetaSpec> {
        metas_of(self.objs())
    }

    #[verifier::type_invariant]
    spec fn wf(&self) -> bool {
        self.object_cache.pred() == (CachePred { metas: metas_of(self.objects@) })
    }

    /// A core over a finished registration list, with an empty cache.
    pub fn new(objects: Vec<Arc<AppObject<T>>>) -> (s: Self)
        ensures
            s.objs() == objects@,
    {
        let ghost pred = CachePred { metas: metas_of(objects@) };
        let cache: RwLock<Vec<CacheEntry>, CachePred> = RwLock::new(Vec::new(), Ghost(pred));
        AppContextInner { objects, object_cache: cache }
    }

    /// Resolution: consult the cache under a read lock; on a miss, scan the
    /// registration list for the first compatible object and memoize the
    /// result under a brief write lock, inserting only if still absent — a
    /// concurrent duplicate computation is equivalent and harmless. Misses
    /// are never cached: a failed lookup re-scans every time.
    pub fn get_and_cache_inner(&self, expected: &BaseInfo) -> (r: Option<WeakRef<AppObject<T>>>)
        ensures
            r matches Some(w) ==> resolved_ref(self.objs(), expected@, w),
            (r is Some) == has_compat(self.metas(), expected@),
    {
        proof {
            use_type_invariant(self);
        }
        let read_handle = self.object_cache.acquire_read();
        let entries = read_handle.borrow();
        let cached = cache_lookup(entries, expected);
        proof {
            if cached is Some {
                let k = choose|k: int|
                    0 <= k < entries@.len() && (#[trigger] entries@[k]).key@ == expected@
                        && entries@[k].idx == cached.unwrap();
                assert(is_first_compat(self.metas(), expected@, cached.unwrap() as int));
            }
        }
        read_handle.release_read();
        match cached {
            Some(i) => {
                let w = WeakRef::downgrade(&self.objects[i]);
                proof {
                    assert(resolved_ref(self.objs(), expected@, w));
                }
                Some(w)
            },
            None => {
                match scan_first(&self.objects, expected) {
                    None => None,
                    Some(i) => {
                        let (mut entries, write_handle) = self.object_cache.acquire_write();
                        if cache_lookup(&entries, expected).is_none() {
                            entries.push(CacheEntry { key: expected.clone(), idx: i });
                        }
                        write_handle.release_write(entries);
                        let w = WeakRef::downgrade(&self.objects[i]);
                        proof {
                            assert(resolved_ref(self.objs(), expected@, w));
                        }
                        Some(w)
                    },
                }
            },
        }
    }
}

/// Accumulates objects during the build phase. The builder owns its storage
/// exclusively: nothing is shared until it is consumed into a registry.
pub struct AppContextBuilder<T> {
    objects: Vec<Arc<AppObject<T>>>,
}

impl<T> AppContextBuilder<T> {
    /// The objects registered so far, in registration order.
    pub closed spec fn objs(&self) -> Seq<Arc<AppObject<T>>> {
        self.objects@
    }

    /// An empty builder.
    pub fn new() -> (b: Self)
        ensures
            b.objs().len() == 0,
    {
        AppContextBuilder { objects: Vec::new() }
    }

    /// Appends one object, built outside, with the metadata that describes
    /// it. Registration order is what later breaks lookup ties: earlier
    /// registrations win.
    pub fn register(&mut self, meta: ObjectMeta, value: T)
        ensures
            final(self).objs().len() == old(self).objs().len() + 1,
            forall|i: int| 0 <= i < old(self).objs().len()
                ==> final(self).objs()[i] == old(self).objs()[i],
            final(self).objs().last() == (AppObject { meta, value }),
    {
        self.objects.push(Arc::new(AppObject { meta, value }));
    }

    /// Appends one constructor-collection record.
    pub fn register_dyn(&mut self, constructor: ObjDynConstructor<T>)
        ensures
            final(self).objs().len() == old(self).objs().len() + 1,
            forall|i: int| 0 <= i < old(self).objs().len()
                ==> final(self).objs()[i] == old(self).objs()[i],
            final(self).objs().last() == (AppObject {
                meta: constructor.meta,
                value: constructor.value,
            }),
    {
        let ObjDynConstructor { meta, value } = constructor;
        self.register(meta, value);
    }

    /// Registers every record of an explicit constructor list, in the order
    /// the list yields them. An empty list is valid and gives an empty
    /// registry.
    pub fn collected(constructors: Vec<ObjDynConstructor<T>>) -> (b: Self)
        ensures
            b.objs().len() == constructors@.len(),
            forall|i: int| 0 <= i < constructors@.len() ==> b.objs()[i] == (AppObject {
                meta: (#[trigger] constructors@[i]).meta,
                value: constructors@[i].value,
            }),
    {
        let ghost all = constructors@;
        let mut builder = Self::new();
        let mut cs = constructors;
        while cs.len() > 0
            invariant
                builder.objs().len() + cs@.len() == all.len(),
                cs@ == all.subrange(builder.objs().len() as int, all.len() as int),
                forall|i: int| 0 <= i < builder.objs().len() ==> builder.objs()[i] == (AppObject {
                    meta: (#[trigger] all[i]).meta,
                    value: all[i].value,
                }),
            decreases cs@.len(),
        {
            let c = cs.remove(0);
            proof {
                assert(all[builder.objs().len() as int] == c);
            }
            builder.register_dyn(c);
            proof {
                assert(cs@ =~= all.subrange(builder.objs().len() as int, all.len() as int));
            }
        }
        builder
    }

    /// Consumes the builder into an immutable, shareable registry. No
    /// mutation is exposed from here on.
    pub fn build(self) -> (c: AppContext<T>)
        ensures
            c.objs() == self.objs(),
    {
        AppContext { inner: Arc::new(AppContextInner::new(self.objects)) }
    }
}

/// A built, immutable registry. Clones share the same core; the core is
/// dropped — and every registered object with it — when the last clone goes
/// away.
pub struct AppContext<T> {
    pub(crate) inner: Arc<AppContextInner<T>>,
}

/// Relies on std::sync::Arc::clone: the copy shares the very same
/// allocation.
#[verifier::external_body]
fn share_inner<T>(a: &Arc<AppContextInner<T>>) -> (r: Arc<AppContextInner<T>>)
    ensures
        r == *a,
{
    Arc::clone(a)
}

impl<T> Clone for AppContext<T> {
    fn clone(&self) -> (r: Self)
        ensures
            r.objs() == self.objs(),
    {
        AppContext { inner: share_inner(&self.inner) }
    }
}

impl<T> AppContext<T> {
    /// The registered objects, in registration order.
    pub closed spec fn objs(&self) -> Seq<Arc<AppObject<T>>> {
        self.inner.objs()
    }

    /// The registered metadata, in registration order.
    pub open spec fn metas(&self) -> Seq<ObjectMetaSpec> {
        metas_of(self.objs())
    }

    /// An eager handle to the first registered object compatible with the
    /// requested identity, resolved now; nothing when no compatible object
    /// was registered.
    pub fn get_obj(&self, expected: BaseInfo) -> (r: Option<AppObjectRef<T>>)
        ensures
            r matches Some(h) ==> h.info() == expected@ && exists|i: int|
                #[trigger] is_first_compat(self.metas(), expected@, i) && h.target()
                    == self.objs()[i],
            (r is Some) == has_compat(self.metas(), expected@),
    {
        match self.inner.get_and_cache_inner(&expected) {
            None => None,
            Some(weak) => {
                proof {
                    let i = choose|i: int|
                        #[trigger] is_first_compat(metas_of(self.objs()), expected@, i)
                            && weak.target() == self.objs()[i];
                    assert(is_first_compat(self.metas(), expected@, i));
                }
                Some(AppObjectRef::new(weak, expected))
            },
        }
    }

    /// A lazy handle for the requested identity: no resolution happens now;
    /// the first dereference resolves against this registry — if it still
    /// exists then — and the outcome is memoized for the handle's lifetime.
    pub fn get_lazy_obj(&self, expected: BaseInfo) -> (r: LazyAppObjectRef<T>)
        ensures
            r.ctx_target().objs() == self.objs(),
            r.info() == expected@,
    {
        let ctx = WeakRef::downgrade(&self.inner);
        LazyAppObjectRef::lazy_new(ctx, expected).unwrap()
    }
}

} // verus!
