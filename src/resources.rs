//! The binding registry: named shader resources, each at a `(set, binding)`
//! slot that no other resource of the same schema takes, and named
//! specialization flags.
use vstd::prelude::*;

verus! {

/// A shader-visible slot.
#[derive(Clone, Copy, Debug, PartialEq, Eq, Structural)]
pub struct ShaderBinding {
    pub set: u32,
    pub binding: u32,
}

/// What a binding refers to.
#[derive(Clone, Copy, Debug, PartialEq, Eq, Structural)]
pub enum ResourceKind {
    Uniform,
    Buffer,
    Texture,
}

/// An application asset (a buffer or a texture), by its id.
#[derive(Clone, Copy, Debug, PartialEq, Eq, Structural)]
pub struct Handle {
    pub id: u64,
}

/// What the backend uploads or attaches at a binding.
#[derive(Debug)]
pub enum ShaderResource {
    /// The packed bytes of a uniform block, to be uploaded.
    Uniform(Vec<u8>),
    /// A buffer that already holds a uniform block.
    GpuUniform(Handle),
    Buffer(Handle),
    Texture(Handle),
}

impl ShaderResource {
    /// The kind of binding the resource can be attached at.
    pub open spec fn spec_kind(&self) -> ResourceKind {
        match self {
            ShaderResource::Uniform(_) | ShaderResource::GpuUniform(_) => ResourceKind::Uniform,
            ShaderResource::Buffer(_) => ResourceKind::Buffer,
            ShaderResource::Texture(_) => ResourceKind::Texture,
        }
    }

    /// The kind of binding the resource can be attached at.
    pub fn kind(&self) -> (r: ResourceKind)
        ensures
            r == self.spec_kind(),
    {
        match self {
            ShaderResource::Uniform(_) | ShaderResource::GpuUniform(_) => ResourceKind::Uniform,
            ShaderResource::Buffer(_) => ResourceKind::Buffer,
            ShaderResource::Texture(_) => ResourceKind::Texture,
        }
    }
}

/// A named resource attached at a slot.
#[derive(Debug)]
pub struct Binding {
    pub name: String,
    pub binding: ShaderBinding,
    pub kind: ResourceKind,
}

/// A named boolean that selects a shader variant.
#[derive(Debug)]
pub struct SpecializationFlag {
    pub name: String,
    pub enabled: bool,
}

/// Why a schema's resources were refused.
#[derive(Debug)]
pub enum RegistryError {
    /// `(set, binding)` is already taken by `existing_name`.
    DuplicateBinding { set: u32, binding: u32, existing_name: String, new_name: String },
    /// A specialization flag of this name is already registered.
    DuplicateSpecialization { name: String },
    /// The field carries neither a resource tag nor a specialization tag.
    MissingResourceTag { field_name: String },
    /// The field carries more than one tag.
    ConflictingResourceTags { field_name: String },
}

/// The contents of a resource set: its bindings and its specialization
/// flags, in registration order.
pub type ResourceModel = (Seq<Binding>, Seq<SpecializationFlag>);

/// Some binding of `bs` sits at `slot`.
pub open spec fn binding_taken(bs: Seq<Binding>, slot: ShaderBinding) -> bool {
    exists|i: int| 0 <= i < bs.len() && (#[trigger] bs[i]).binding == slot
}

/// The name of the binding of `bs` at `slot`.
pub open spec fn holder_name(bs: Seq<Binding>, slot: ShaderBinding) -> String {
    bs[choose|i: int| 0 <= i < bs.len() && (#[trigger] bs[i]).binding == slot].name
}

/// Some flag of `fs` is called `name`.
pub open spec fn flag_taken(fs: Seq<SpecializationFlag>, name: Seq<char>) -> bool {
    exists|i: int| 0 <= i < fs.len() && (#[trigger] fs[i]).name@ == name
}

/// No two bindings share a slot and no two flags share a name.
pub open spec fn model_wf(m: ResourceModel) -> bool {
    &&& forall|i: int, j: int|
        0 <= i < j < m.0.len() ==> (#[trigger] m.0[i]).binding != (#[trigger] m.0[j]).binding
    &&& forall|i: int, j: int|
        0 <= i < j < m.1.len() ==> (#[trigger] m.1[i]).name@ != (#[trigger] m.1[j]).name@
}

/// The outcome of registering binding `b` into `m`.
pub open spec fn add_binding(m: ResourceModel, b: Binding) -> Result<ResourceModel, RegistryError> {
    if binding_taken(m.0, b.binding) {
        Err(
            RegistryError::DuplicateBinding {
                set: b.binding.set,
                binding: b.binding.binding,
                existing_name: holder_name(m.0, b.binding),
                new_name: b.name,
            },
        )
    } else {
        Ok((m.0.push(b), m.1))
    }
}

/// The outcome of registering flag `f` into `m`.
pub open spec fn add_specialization(m: ResourceModel, f: SpecializationFlag) -> Result<
    ResourceModel,
    RegistryError,
> {
    if flag_taken(m.1, f.name@) {
        Err(RegistryError::DuplicateSpecialization { name: f.name })
    } else {
        Ok((m.0, m.1.push(f)))
    }
}

/// The tag that says what a schema field is.
#[derive(Debug)]
pub enum ResourceTag {
    Uniform { set: u32, binding: u32 },
    Buffer { set: u32, binding: u32 },
    Texture { set: u32, binding: u32 },
    /// A specialization flag, named `define` when given and after the field
    /// otherwise.
    Specialize { define: Option<String>, enabled: bool },
}

/// A field of a resource schema with the tags declared on it.
#[derive(Debug)]
pub struct ResourceField {
    pub name: String,
    pub tags: Vec<ResourceTag>,
}

/// The outcome of adding schema field `f` to `m`: a field needs exactly one
/// tag, which registers a binding or a specialization flag.
pub open spec fn add_field(m: ResourceModel, f: ResourceField) -> Result<ResourceModel, RegistryError> {
    if f.tags@.len() == 0 {
        Err(RegistryError::MissingResourceTag { field_name: f.name })
    } else if f.tags@.len() > 1 {
        Err(RegistryError::ConflictingResourceTags { field_name: f.name })
    } else {
        match f.tags@[0] {
            ResourceTag::Uniform { set, binding } => add_binding(
                m,
                Binding { name: f.name, binding: ShaderBinding { set, binding }, kind: ResourceKind::Uniform },
            ),
            ResourceTag::Buffer { set, binding } => add_binding(
                m,
                Binding { name: f.name, binding: ShaderBinding { set, binding }, kind: ResourceKind::Buffer },
            ),
            ResourceTag::Texture { set, binding } => add_binding(
                m,
                Binding { name: f.name, binding: ShaderBinding { set, binding }, kind: ResourceKind::Texture },
            ),
            ResourceTag::Specialize { define, enabled } => add_specialization(
                m,
                SpecializationFlag {
                    name: match define {
                        Some(d) => d,
                        None => f.name,
                    },
                    enabled,
                },
            ),
        }
    }
}

/// The outcome of adding the first `k` fields of a schema, in order; the
/// first refusal stops it.
pub open spec fn build_after(fields: Seq<ResourceField>, k: nat) -> Result<ResourceModel, RegistryError>
    decreases k,
{
    if k == 0 || k > fields.len() {
        Ok((Seq::empty(), Seq::empty()))
    } else {
        match build_after(fields, (k - 1) as nat) {
            Ok(m) => add_field(m, fields[k - 1]),
            Err(e) => Err(e),
        }
    }
}

/// The validated resources of one schema. It cannot change once built.
pub struct ResourceSet {
    bindings: Vec<Binding>,
    specializations: Vec<SpecializationFlag>,
}

impl View for ResourceSet {
    type V = ResourceModel;

    closed spec fn view(&self) -> ResourceModel {
        (self.bindings@, self.specializations@)
    }
}

impl ResourceSet {
    /// The bindings, in registration order.
    pub fn bindings(&self) -> (r: &Vec<Binding>)
        ensures
            r@ == self@.0,
    {
        &self.bindings
    }

    /// The specialization flags, in registration order.
    pub fn specializations(&self) -> (r: &Vec<SpecializationFlag>)
        ensures
            r@ == self@.1,
    {
        &self.specializations
    }
}

/// A resource set under construction.
pub struct ResourceRegistry {
    set: ResourceSet,
}

impl View for ResourceRegistry {
    type V = ResourceModel;

    closed spec fn view(&self) -> ResourceModel {
        self.set@
    }
}

impl ResourceRegistry {
    /// An empty registry.
    pub fn new() -> (r: ResourceRegistry)
        ensures
            r@.0 == Seq::<Binding>::empty(),
            r@.1 == Seq::<SpecializationFlag>::empty(),
            model_wf(r@),
    {
        ResourceRegistry { set: ResourceSet { bindings: Vec::new(), specializations: Vec::new() } }
    }

    /// Registers resource `name` of `kind` at `(set, binding)`; refused with
    /// `DuplicateBinding` when the slot is taken.
    pub fn register(&mut self, name: String, set: u32, binding: u32, kind: ResourceKind) -> (r:
        Result<(), RegistryError>)
        requires
            model_wf(old(self)@),
        ensures
            model_wf(final(self)@),
            match add_binding(
                old(self)@,
                (Binding { name, binding: ShaderBinding { set, binding }, kind }),
            ) {
                Ok(m) => r is Ok && final(self)@ == m,
                Err(e) => r == Err::<(), RegistryError>(e) && final(self)@ == old(self)@,
            },
    {
        let slot = ShaderBinding { set, binding };
        let bs = &self.set.bindings;
        let mut i: usize = 0;
        while i < bs.len()
            invariant
                i <= bs@.len(),
                bs@ == old(self)@.0,
                slot == (ShaderBinding { set, binding }),
                self@ == old(self)@,
                model_wf(old(self)@),
                forall|j: int| 0 <= j < i ==> (#[trigger] bs@[j]).binding != slot,
            decreases bs@.len() - i,
        {
            if bs[i].binding == slot {
                let existing_name = bs[i].name.clone();
                proof {
                    assert(binding_taken(bs@, slot));
                    let c = choose|c: int| 0 <= c < bs@.len() && (#[trigger] bs@[c]).binding == slot;
                    if c != i {
                        if c < i {
                            assert(bs@[c].binding != bs@[i as int].binding);
                        } else {
                            assert(bs@[i as int].binding != bs@[c].binding);
                        }
                    }
                    assert(holder_name(bs@, slot) == bs@[i as int].name);
                }
                let e = RegistryError::DuplicateBinding { set, binding, existing_name, new_name: name };
                return Err(e);
            }
            i += 1;
        }
        self.set.bindings.push(Binding { name, binding: slot, kind });
        Ok(())
    }

    /// Registers specialization flag `name`; refused with
    /// `DuplicateSpecialization` when a flag of that name exists.
    pub fn register_specialization(&mut self, name: String, enabled: bool) -> (r: Result<
        (),
        RegistryError,
    >)
        requires
            model_wf(old(self)@),
        ensures
            model_wf(final(self)@),
            match add_specialization(old(self)@, (SpecializationFlag { name, enabled })) {
                Ok(m) => r is Ok && final(self)@ == m,
                Err(e) => r == Err::<(), RegistryError>(e) && final(self)@ == old(self)@,
            },
    {
        let fs = &self.set.specializations;
        let mut i: usize = 0;
        while i < fs.len()
            invariant
                i <= fs@.len(),
                fs@ == old(self)@.1,
                self@ == old(self)@,
                model_wf(old(self)@),
                forall|j: int| 0 <= j < i ==> (#[trigger] fs@[j]).name@ != name@,
            decreases fs@.len() - i,
        {
            if fs[i].name == name {
                assert(flag_taken(fs@, name@)) by {
                    assert(fs@[i as int].name@ == name@);
                }
                return Err(RegistryError::DuplicateSpecialization { name });
            }
            i += 1;
        }
        self.set.specializations.push(SpecializationFlag { name, enabled });
        Ok(())
    }

    /// Adds one schema field by its single tag.
    pub fn register_field(&mut self, field: &ResourceField) -> (r: Result<(), RegistryError>)
        requires
            model_wf(old(self)@),
        ensures
            model_wf(final(self)@),
            match add_field(old(self)@, *field) {
                Ok(m) => r is Ok && final(self)@ == m,
                Err(e) => r == Err::<(), RegistryError>(e) && final(self)@ == old(self)@,
            },
    {
        if field.tags.len() == 0 {
            return Err(RegistryError::MissingResourceTag { field_name: field.name.clone() });
        }
        if field.tags.len() > 1 {
            return Err(RegistryError::ConflictingResourceTags { field_name: field.name.clone() });
        }
        match &field.tags[0] {
            ResourceTag::Uniform { set, binding } => {
                self.register(field.name.clone(), *set, *binding, ResourceKind::Uniform)
            },
            ResourceTag::Buffer { set, binding } => {
                self.register(field.name.clone(), *set, *binding, ResourceKind::Buffer)
            },
            ResourceTag::Texture { set, binding } => {
                self.register(field.name.clone(), *set, *binding, ResourceKind::Texture)
            },
            ResourceTag::Specialize { define, enabled } => {
                let name = match define {
                    Some(d) => d.clone(),
                    None => field.name.clone(),
                };
                self.register_specialization(name, *enabled)
            },
        }
    }

    /// Ends registration; the set holds what was registered.
    pub fn finalize(self) -> (s: ResourceSet)
        ensures
            s@ == self@,
    {
        self.set
    }
}

/// Validates the fields of a resource schema in declaration order and
/// collects their bindings and specialization flags; the first malformed
/// field or colliding slot or flag name refuses the whole schema.
pub fn build_resource_set(fields: &Vec<ResourceField>) -> (r: Result<ResourceSet, RegistryError>)
    ensures
        match build_after(fields@, fields@.len()) {
            Ok(m) => r is Ok && r->Ok_0@ == m && model_wf(m),
            Err(e) => r is Err && r->Err_0 == e,
        },
{
    let mut reg = ResourceRegistry::new();
    let mut k: usize = 0;
    while k < fields.len()
        invariant
            k <= fields@.len(),
            model_wf(reg@),
            build_after(fields@, k as nat) == Ok::<ResourceModel, RegistryError>(reg@),
        decreases fields@.len() - k,
    {
        match reg.register_field(&fields[k]) {
            Ok(()) => {},
            Err(e) => {
                proof {
                    lemma_build_stops(fields@, (k + 1) as nat, fields@.len());
                }
                return Err(e);
            },
        }
        k += 1;
    }
    Ok(reg.finalize())
}

/// A free slot is accepted; registering the same slot again is then refused
/// with `DuplicateBinding` naming the first holder, while another free slot
/// (such as the same binding number in another set) is accepted.
pub proof fn lemma_binding_uniqueness(m: ResourceModel, first: Binding, second: Binding)
    requires
        model_wf(m),
        !binding_taken(m.0, first.binding),
    ensures
        add_binding(m, first) == Ok::<ResourceModel, RegistryError>((m.0.push(first), m.1)),
        second.binding == first.binding ==> add_binding((m.0.push(first), m.1), second) == Err::<
            ResourceModel,
            RegistryError,
        >(
            RegistryError::DuplicateBinding {
                set: second.binding.set,
                binding: second.binding.binding,
                existing_name: first.name,
                new_name: second.name,
            },
        ),
        second.binding != first.binding && !binding_taken(m.0, second.binding) ==> add_binding(
            (m.0.push(first), m.1),
            second,
        ) is Ok,
{
    let bs = m.0.push(first);
    if second.binding == first.binding {
        assert(bs[m.0.len() as int].binding == second.binding);
        let c = choose|c: int| 0 <= c < bs.len() && (#[trigger] bs[c]).binding == second.binding;
        if c < m.0.len() {
            assert(m.0[c].binding == first.binding);
        }
        assert(holder_name(bs, second.binding) == first.name);
    }
    if second.binding != first.binding && !binding_taken(m.0, second.binding) {
        if binding_taken(bs, second.binding) {
            let c = choose|c: int| 0 <= c < bs.len() && (#[trigger] bs[c]).binding == second.binding;
            if c < m.0.len() {
                assert(m.0[c].binding == second.binding);
            }
        }
    }
}

proof fn lemma_build_stops(fields: Seq<ResourceField>, k: nat, n: nat)
    requires
        1 <= k <= n <= fields.len(),
        build_after(fields, k) is Err,
    ensures
        build_after(fields, n) == build_after(fields, k),
    decreases n - k,
{
    if k < n {
        lemma_build_stops(fields, k, (n - 1) as nat);
    }
}

} // verus!
