use vstd::prelude::*;

use crate::error::AppContextError;
use crate::meta::BaseInfo;
use crate::meta::ObjectMeta;
use crate::meta::compat;

verus! {

/// A registered capability object: the caller's value together with the
/// registration metadata that was attached to it. The registry stores these
/// behind shared, reference-counted handles and never looks at `value`
/// itself; every decision is driven by `meta`.
#[derive(Debug)]
pub struct AppObject<T> {
    pub meta: ObjectMeta,
    pub value: T,
}

impl<T> AppObject<T> {
    /// The metadata this object was registered with.
    pub fn get_meta(&self) -> (m: &ObjectMeta)
        ensures
            m == &self.meta,
    {
        &self.meta
    }

    /// The capability-cast protocol: a view of the stored value is produced
    /// exactly when the requested identity is compatible with the declared
    /// metadata — the object's own identity, or a member of its capability
    /// list. Nothing is copied; failure reports the requested name, the
    /// object's actual type tag and the requested type tag.
    pub fn try_cast_to(&self, expected: &BaseInfo) -> (r: Result<&T, AppContextError>)
        ensures
            compat(self.meta@, expected@) ==> (r matches Ok(v) && v == &self.value),
            !compat(self.meta@, expected@) ==> (r matches Err(e)
                && e matches AppContextError::UnsupportedCast { obj_name, obj_type, expected_type }
                && obj_name@ == expected@.name && obj_type@ == self.meta@.type_info.type_tag
                && expected_type@ == expected@.type_tag),
    {
        if self.meta.compat_with(expected) {
            Ok(&self.value)
        } else {
            Err(AppContextError::UnsupportedCast {
                obj_name: expected.name.clone(),
                obj_type: self.meta.type_info.type_tag.clone(),
                expected_type: expected.type_tag.clone(),
            })
        }
    }
}

/// One record of the constructor collection: registration metadata paired
/// with the already-built object it describes. The surrounding application
/// gathers these into an explicit list and hands the list to the builder.
pub struct ObjDynConstructor<T> {
    pub meta: ObjectMeta,
    pub value: T,
}

} // verus!
