use vstd::prelude::*;

use crate::error::AppContextError;
use crate::error::AppContextResult;
use crate::meta::BaseInfo;
use crate::meta::BaseInfoSpec;
use crate::meta::compat;
use crate::object::AppObject;
use crate::registry::AppContextInner;
use crate::registry::has_compat;
use crate::registry::is_first_compat;
use crate::registry::metas_of;
use crate::registry::resolved_ref;
use crate::weakref::WeakRef;

verus! {

use std::sync::Arc;

/// What dereferencing a handle may return, given the object the handle was
/// resolved to and the identity it was resolved against. A strong reference
/// to that very object comes back when it is still alive and compatible;
/// `AppContextDropped` reports that the registry has gone away — which can
/// happen at any moment, so every outcome admits it; `UnsupportedCast`
/// reports, with the requested name, the actual and the requested type tag,
/// that the object cannot present the requested view — possible only when
/// the declared metadata is in fact incompatible.
pub open spec fn cast_post<T>(
    target: Arc<AppObject<T>>,
    info: BaseInfoSpec,
    r: AppContextResult<Arc<AppObject<T>>>,
) -> bool {
    match r {
        Ok(a) => a == target && compat(target.meta@, info),
        Err(AppContextError::AppContextDropped) => true,
        Err(AppContextError::UnsupportedCast { obj_name, obj_type, expected_type }) => {
            &&& !compat(target.meta@, info)
            &&& obj_name@ == info.name
            &&& obj_type@ == target.meta@.type_info.type_tag
            &&& expected_type@ == info.type_tag
        },
        _ => false,
    }
}

/// Re-derives a typed view from a non-owning reference: an existence check
/// first, the capability cast second. Shared by both reference handles.
pub fn cast_ref<T>(weak_ptr: &WeakRef<AppObject<T>>, base_info: &BaseInfo) -> (r:
    AppContextResult<Arc<AppObject<T>>>)
    ensures
        cast_post(weak_ptr.target(), base_info@, r),
{
    let upgraded = weak_ptr.upgrade();
    match upgraded {
        None => Err(AppContextError::AppContextDropped),
        Some(a) => {
            let cast = a.try_cast_to(base_info);
            match cast {
                Ok(_) => Ok(a),
                Err(e) => Err(e),
            }
        },
    }
}

/// A reference the registry resolved always casts: resolution settles only
/// on compatible metadata, so dereferencing such a reference never reports
/// an unsupported cast. The resolved object itself — or, once the registry
/// is gone, `AppContextDropped` — are the only outcomes.
pub proof fn lemma_resolved_cast_succeeds<T>(
    objs: Seq<Arc<AppObject<T>>>,
    expected: BaseInfoSpec,
    target: Arc<AppObject<T>>,
    r: AppContextResult<Arc<AppObject<T>>>,
    i: int,
)
    requires
        is_first_compat(metas_of(objs), expected, i),
        target == objs[i],
        cast_post(target, expected, r),
    ensures
        match r {
            Ok(a) => a == objs[i],
            Err(AppContextError::AppContextDropped) => true,
            Err(_) => false,
        },
{
    assert(metas_of(objs)[i] == objs[i].meta@);
}

/// The eager reference handle: a non-owning reference resolved at creation
/// time, together with the identity it was resolved against. It never keeps
/// the registry alive.
#[verifier::reject_recursive_types(T)]
pub struct AppObjectRef<T> {
    inner: WeakRef<AppObject<T>>,
    base_info: BaseInfo,
}

impl<T> AppObjectRef<T> {
    /// The object this handle was resolved to.
    pub closed spec fn target(&self) -> Arc<AppObject<T>> {
        self.inner.target()
    }

    /// The identity this handle was resolved against.
    pub closed spec fn info(&self) -> BaseInfoSpec {
        self.base_info@
    }

    /// A handle over an already-resolved non-owning reference.
    pub fn new(arc: WeakRef<AppObject<T>>, base_info: BaseInfo) -> (s: Self)
        ensures
            s.target() == arc.target(),
            s.info() == base_info@,
    {
        AppObjectRef { inner: arc, base_info }
    }

    /// The typed view of the resolved object: a strong reference while the
    /// registry is alive, `AppContextDropped` once it is gone.
    pub fn try_downcast(&self) -> (r: AppContextResult<Arc<AppObject<T>>>)
        ensures
            cast_post(self.target(), self.info(), r),
    {
        cast_ref(&self.inner, &self.base_info)
    }
}

impl<T> Clone for AppObjectRef<T> {
    fn clone(&self) -> (r: Self)
        ensures
            r.target() == self.target(),
            r.info() == self.info(),
    {
        AppObjectRef { inner: self.inner.clone(), base_info: self.base_info.clone() }
    }
}

#[verifier::external_type_specification]
#[verifier::external_body]
#[verifier::reject_recursive_types(T)]
pub struct ExOnceLock<T>(std::sync::OnceLock<T>);

/// What the lazy handle's one-shot resolution may have computed, given the
/// registry core the handle was created from and the requested identity. A
/// non-owning reference comes back only for the first compatible registered
/// object; nothing comes back when no compatible object was registered — or
/// when the whole registry was gone by the time of the first access.
pub open spec fn lazy_post<T>(
    ctx: Arc<AppContextInner<T>>,
    info: BaseInfoSpec,
    r: Option<WeakRef<AppObject<T>>>,
) -> bool {
    &&& r matches Some(w) ==> resolved_ref(ctx.objs(), info, w)
    &&& !has_compat(metas_of(ctx.objs()), info) ==> r is None
}

/// The deferred computation of the lazy handle: check that the registry
/// still exists, then resolve against it exactly as an eager lookup would.
fn lazy_resolve<T>(ctx: &WeakRef<AppContextInner<T>>, base_info: &BaseInfo) -> (r: Option<
    WeakRef<AppObject<T>>,
>)
    ensures
        lazy_post(ctx.target(), base_info@, r),
{
    match ctx.upgrade() {
        None => None,
        Some(inner) => inner.get_and_cache_inner(base_info),
    }
}

/// The lazy reference handle: created with a non-owning reference to the
/// registry core, it performs no resolution until the first dereference,
/// then memoizes that outcome — success or absence — for its whole lifetime,
/// even if the registry goes away afterwards.
#[verifier::reject_recursive_types(T)]
pub struct LazyAppObjectRef<T> {
    inner: std::sync::OnceLock<Option<WeakRef<AppObject<T>>>>,
    ctx: WeakRef<AppContextInner<T>>,
    base_info: BaseInfo,
}

/// Relies on std::sync::OnceLock::new: the cell starts empty, so the first
/// dereference of the handle is what runs the deferred resolution.
#[verifier::external_body]
fn once_empty<T>() -> std::sync::OnceLock<Option<WeakRef<AppObject<T>>>> {
    std::sync::OnceLock::new()
}

impl<T> LazyAppObjectRef<T> {
    /// The registry core this handle defers its resolution to.
    pub closed spec fn ctx_target(&self) -> Arc<AppContextInner<T>> {
        self.ctx.target()
    }

    /// The identity this handle resolves.
    pub closed spec fn info(&self) -> BaseInfoSpec {
        self.base_info@
    }

    /// A handle that will resolve `base_info` against the registry behind
    /// `arc` on first access. Construction itself never fails.
    pub fn lazy_new(arc: WeakRef<AppContextInner<T>>, base_info: BaseInfo) -> (r:
        AppContextResult<Self>)
        ensures
            r matches Ok(l) && l.ctx_target() == arc.target() && l.info() == base_info@,
    {
        Ok(LazyAppObjectRef { inner: once_empty(), ctx: arc, base_info })
    }

    /// Relies on std::sync::OnceLock::get_or_init: the deferred computation
    /// runs at most once, even under a concurrent first access, and every
    /// later call returns the outcome that single run stored. Each possible
    /// outcome satisfies the deferred computation's own contract.
    #[verifier::external_body]
    fn force(&self) -> (r: &Option<WeakRef<AppObject<T>>>)
        ensures
            lazy_post(self.ctx_target(), self.info(), *r),
    {
        self.inner.get_or_init(|| lazy_resolve(&self.ctx, &self.base_info))
    }

    /// The typed view of the lazily resolved object. `ObjectNotFound`
    /// reports — with the requested name and type tag — that the one-shot
    /// resolution found nothing: either no compatible object was ever
    /// registered, or the registry was already gone at first access. When
    /// the memoized resolution found an object, the result is exactly an
    /// eager handle's: the object, or `AppContextDropped` once the registry
    /// has gone away. A cast failure is impossible here: resolution only
    /// ever memoizes compatible objects.
    pub fn try_downcast(&self) -> (r: AppContextResult<Arc<AppObject<T>>>)
        ensures
            r matches Ok(a) ==> exists|i: int|
                #[trigger] is_first_compat(metas_of(self.ctx_target().objs()), self.info(), i)
                    && a == self.ctx_target().objs()[i] && compat(a.meta@, self.info()),
            !has_compat(metas_of(self.ctx_target().objs()), self.info()) ==> (r matches Err(e)
                && e matches AppContextError::ObjectNotFound { obj_name, obj_type }),
            r matches Err(e) ==> match e {
                AppContextError::ObjectNotFound { obj_name, obj_type } => obj_name@
                    == self.info().name && obj_type@ == self.info().type_tag,
                AppContextError::AppContextDropped => true,
                _ => false,
            },
    {
        let memo = self.force();
        match memo {
            None => Err(AppContextError::ObjectNotFound {
                obj_name: self.base_info.name.clone(),
                obj_type: self.base_info.type_tag.clone(),
            }),
            Some(w) => {
                proof {
                    let i = choose|i: int|
                        #[trigger] is_first_compat(
                            metas_of(self.ctx_target().objs()),
                            self.info(),
                            i,
                        ) && w.target() == self.ctx_target().objs()[i];
                    assert(compat(self.ctx_target().objs()[i].meta@, self.info()));
                }
                cast_ref(w, &self.base_info)
            },
        }
    }
}

} // verus!
