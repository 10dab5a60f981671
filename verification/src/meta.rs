use vstd::prelude::*;

verus! {

/// A type identity: the pair (declared name, type tag) used both as a lookup
/// key and as a metadata field. Two identities are equal iff both fields match.
#[derive(Debug)]
pub struct BaseInfo {
    pub name: String,
    pub type_tag: String,
}

/// The mathematical value of a `BaseInfo`: both fields as character sequences.
pub struct BaseInfoSpec {
    pub name: Seq<char>,
    pub type_tag: Seq<char>,
}

impl View for BaseInfo {
    type V = BaseInfoSpec;

    open spec fn view(&self) -> BaseInfoSpec {
        BaseInfoSpec { name: self.name@, type_tag: self.type_tag@ }
    }
}

impl BaseInfo {
    pub fn new(name: String, type_tag: String) -> (r: BaseInfo)
        ensures
            r@ == (BaseInfoSpec { name: name@, type_tag: type_tag@ }),
    {
        BaseInfo { name, type_tag }
    }
}

impl Clone for BaseInfo {
    fn clone(&self) -> (r: Self)
        ensures
            r == *self,
    {
        BaseInfo { name: self.name.clone(), type_tag: self.type_tag.clone() }
    }
}

impl PartialEq for BaseInfo {
    fn eq(&self, other: &Self) -> (r: bool) {
        self.name == other.name && self.type_tag == other.type_tag
    }
}

impl vstd::std_specs::cmp::PartialEqSpecImpl for BaseInfo {
    open spec fn obeys_eq_spec() -> bool {
        true
    }

    open spec fn eq_spec(&self, other: &Self) -> bool {
        self@ == other@
    }
}

/// The identities of a sequence of `BaseInfo` values.
pub open spec fn infos_of(s: Seq<BaseInfo>) -> Seq<BaseInfoSpec> {
    s.map_values(|b: BaseInfo| b@)
}

/// Per-type registration metadata: the type's own identity, the identities it
/// declares as dependencies (informational only), and the capability
/// identities it can be viewed as.
#[derive(Debug)]
pub struct ObjectMeta {
    pub type_info: BaseInfo,
    pub deps: Vec<BaseInfo>,
    pub can_cast_to: Vec<BaseInfo>,
}

/// The mathematical value of an `ObjectMeta`.
pub struct ObjectMetaSpec {
    pub type_info: BaseInfoSpec,
    pub deps: Seq<BaseInfoSpec>,
    pub can_cast_to: Seq<BaseInfoSpec>,
}

impl View for ObjectMeta {
    type V = ObjectMetaSpec;

    open spec fn view(&self) -> ObjectMetaSpec {
        ObjectMetaSpec {
            type_info: self.type_info@,
            deps: infos_of(self.deps@),
            can_cast_to: infos_of(self.can_cast_to@),
        }
    }
}

impl Clone for ObjectMeta {
    fn clone(&self) -> (r: Self)
        ensures
            r@ == self@,
    {
        ObjectMeta {
            type_info: self.type_info.clone(),
            deps: clone_infos(&self.deps),
            can_cast_to: clone_infos(&self.can_cast_to),
        }
    }
}

fn clone_infos(v: &Vec<BaseInfo>) -> (r: Vec<BaseInfo>)
    ensures
        r@ == v@,
{
    let mut r: Vec<BaseInfo> = Vec::new();
    let mut i: usize = 0;
    while i < v.len()
        invariant
            i <= v@.len(),
            r@ == v@.subrange(0, i as int),
        decreases v@.len() - i,
    {
        r.push(v[i].clone());
        i += 1;
        proof {
            assert(r@ =~= v@.subrange(0, i as int));
        }
    }
    proof {
        assert(r@ =~= v@);
    }
    r
}

/// Compatibility is exactly the declared relation: the requested identity is
/// the metadata's own identity, or appears in its capability list. No closure
/// is implied.
pub open spec fn compat(m: ObjectMetaSpec, expected: BaseInfoSpec) -> bool {
    expected == m.type_info || m.can_cast_to.contains(expected)
}

/// Declared-dependency membership; informational only, never consulted by
/// resolution.
pub open spec fn declares_dep(m: ObjectMetaSpec, expected: BaseInfoSpec) -> bool {
    m.deps.contains(expected)
}

fn info_list_contains(list: &Vec<BaseInfo>, expected: &BaseInfo) -> (r: bool)
    ensures
        r == infos_of(list@).contains(expected@),
{
    let mut i: usize = 0;
    while i < list.len()
        invariant
            i <= list@.len(),
            forall|j: int| 0 <= j < i ==> infos_of(list@)[j] != expected@,
        decreases list@.len() - i,
    {
        if list[i] == *expected {
            assert(infos_of(list@)[i as int] == expected@);
            return true;
        }
        i += 1;
    }
    false
}

impl ObjectMeta {
    /// Whether an object carrying this metadata satisfies the requested
    /// identity.
    pub fn compat_with(&self, expected: &BaseInfo) -> (r: bool)
        ensures
            r == compat(self@, expected@),
    {
        if self.type_info == *expected {
            return true;
        }
        info_list_contains(&self.can_cast_to, expected)
    }

    /// Whether this metadata declares a dependency on the requested identity.
    pub fn depends_on(&self, expected: &BaseInfo) -> (r: bool)
        ensures
            r == declares_dep(self@, expected@),
    {
        info_list_contains(&self.deps, expected)
    }
}

} // verus!
