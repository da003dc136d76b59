//! The type descriptor table: packed size and alignment of every value type
//! that can appear in a uniform block.
use vstd::prelude::*;

verus! {

/// The alignment of 4-byte scalars.
#[derive(Clone, Copy, Debug, Default)]
pub struct Align4;

impl Align4 {
    pub const BYTES: usize = 4;
}

/// The alignment of 8-byte scalars and 2-vectors.
#[derive(Clone, Copy, Debug, Default)]
pub struct Align8;

impl Align8 {
    pub const BYTES: usize = 8;
}

/// The alignment of 3- and 4-vectors, matrices and arrays.
#[derive(Clone, Copy, Debug, Default)]
pub struct Align16;

impl Align16 {
    pub const BYTES: usize = 16;
}

/// A non-array value type of a uniform block.
#[derive(Clone, Copy, Debug, PartialEq, Eq, Structural)]
pub enum BaseType {
    Bool,
    U8,
    U16,
    U32,
    I8,
    I16,
    I32,
    F32,
    F64,
    Vec2,
    Vec3,
    Vec4,
    Quat,
    Mat2,
    Mat3,
    Mat4,
}

/// Packed size in bytes of a base type (narrow integers and booleans are
/// promoted to 32 bits).
pub open spec fn base_size(b: BaseType) -> nat {
    match b {
        BaseType::Bool | BaseType::U8 | BaseType::U16 | BaseType::U32 => 4,
        BaseType::I8 | BaseType::I16 | BaseType::I32 | BaseType::F32 => 4,
        BaseType::F64 | BaseType::Vec2 => 8,
        BaseType::Vec3 => 12,
        BaseType::Vec4 | BaseType::Quat | BaseType::Mat2 => 16,
        BaseType::Mat3 => 48,
        BaseType::Mat4 => 64,
    }
}

/// Required alignment in bytes of a base type.
pub open spec fn base_align(b: BaseType) -> nat {
    match b {
        BaseType::Bool | BaseType::U8 | BaseType::U16 | BaseType::U32 => 4,
        BaseType::I8 | BaseType::I16 | BaseType::I32 | BaseType::F32 => 4,
        BaseType::F64 | BaseType::Vec2 => 8,
        _ => 16,
    }
}

/// `n` rounded up to the next multiple of 16.
pub open spec fn round_up16(n: nat) -> nat {
    ((n + 15) / 16) * 16
}

/// A value type: a base type, or a fixed-size array of a value type.
#[derive(Debug)]
pub enum ValueType {
    Base(BaseType),
    Array(Box<ValueType>, u32),
}

/// Packed size in bytes of a value type. An array of `n` elements takes `n`
/// slots of the element size rounded up to 16.
pub open spec fn type_size(t: ValueType) -> nat
    decreases t,
{
    match t {
        ValueType::Base(b) => base_size(b),
        ValueType::Array(e, n) => (n as nat) * round_up16(type_size(*e)),
    }
}

/// Required alignment in bytes of a value type; arrays are aligned to 16.
pub open spec fn type_align(t: ValueType) -> nat {
    match t {
        ValueType::Base(b) => base_align(b),
        ValueType::Array(_, _) => 16,
    }
}

/// Every size met while describing `t` fits in a `usize`.
pub open spec fn type_fits(t: ValueType) -> bool
    decreases t,
{
    match t {
        ValueType::Base(_) => true,
        ValueType::Array(e, n) => {
            &&& type_fits(*e)
            &&& round_up16(type_size(*e)) <= usize::MAX
            &&& round_up16(type_size(*e)) * n <= usize::MAX
        },
    }
}

/// The per-element layout of an array type.
#[derive(Clone, Copy, Debug, PartialEq, Eq, Structural)]
pub struct ArrayShape {
    /// Number of elements.
    pub len: usize,
    /// Packed size of one element.
    pub element_size: usize,
    /// Distance between the starts of two consecutive elements.
    pub stride: usize,
}

/// Size, alignment and (for arrays) element layout of a value type.
#[derive(Clone, Copy, Debug, PartialEq, Eq, Structural)]
pub struct TypeDescriptor {
    pub packed_size: usize,
    pub alignment: usize,
    pub array: Option<ArrayShape>,
}

impl TypeDescriptor {
    /// The descriptor is internally consistent: alignment is 4, 8 or 16, and
    /// an array's size is its length times a stride that rounds the element
    /// size up to 16.
    pub open spec fn wf(&self) -> bool {
        &&& (self.alignment == 4 || self.alignment == 8 || self.alignment == 16)
        &&& match self.array {
            None => true,
            Some(s) => {
                &&& self.alignment == 16
                &&& s.stride as nat == round_up16(s.element_size as nat)
                &&& self.packed_size as nat == s.len as nat * s.stride as nat
            },
        }
    }

    /// The descriptor is the one of value type `t`.
    pub open spec fn describes(&self, t: ValueType) -> bool {
        &&& self.packed_size as nat == type_size(t)
        &&& self.alignment as nat == type_align(t)
        &&& match t {
            ValueType::Base(_) => self.array.is_none(),
            ValueType::Array(e, n) => self.array == Some(
                ArrayShape {
                    len: n as usize,
                    element_size: type_size(*e) as usize,
                    stride: round_up16(type_size(*e)) as usize,
                },
            ),
        }
    }
}

/// The descriptor of a base type.
pub fn base_descriptor(b: BaseType) -> (d: TypeDescriptor)
    ensures
        d.describes(ValueType::Base(b)),
        d.wf(),
{
    let (size, align): (usize, usize) = match b {
        BaseType::Bool | BaseType::U8 | BaseType::U16 | BaseType::U32 => (4, Align4::BYTES),
        BaseType::I8 | BaseType::I16 | BaseType::I32 | BaseType::F32 => (4, Align4::BYTES),
        BaseType::F64 | BaseType::Vec2 => (8, Align8::BYTES),
        BaseType::Vec3 => (12, Align16::BYTES),
        BaseType::Vec4 | BaseType::Quat | BaseType::Mat2 => (16, Align16::BYTES),
        BaseType::Mat3 => (48, Align16::BYTES),
        BaseType::Mat4 => (64, Align16::BYTES),
    };
    TypeDescriptor { packed_size: size, alignment: align, array: None }
}

/// `n` rounded up to the next multiple of 16.
pub fn round_up_16(n: usize) -> (r: usize)
    requires
        round_up16(n as nat) <= usize::MAX,
    ensures
        r as nat == round_up16(n as nat),
        r % 16 == 0,
        n <= r < n + 16,
{
    let r = if n % 16 == 0 {
        n
    } else {
        n - n % 16 + 16
    };
    assert(r as nat == round_up16(n as nat)) by (nonlinear_arith)
        requires
            r == (if n % 16 == 0 { n as int } else { n - n % 16 + 16 }),
    ;
    r
}

/// The base type at the bottom of a value type.
pub open spec fn base_of(t: ValueType) -> BaseType
    decreases t,
{
    match t {
        ValueType::Base(b) => b,
        ValueType::Array(e, _) => base_of(*e),
    }
}

/// Why a value type could not be described.
#[derive(Clone, Copy, Debug, PartialEq, Eq, Structural)]
pub enum LayoutError {
    /// The base type was never registered in the table.
    UnknownType(BaseType),
    /// The packed size does not fit in a `usize`.
    TooLarge,
}

/// The set of base types that may appear in a schema. It is filled once,
/// before any schema is compiled, and only read afterwards.
pub struct TypeTable {
    registered: Vec<BaseType>,
}

impl View for TypeTable {
    type V = Set<BaseType>;

    closed spec fn view(&self) -> Set<BaseType> {
        self.registered@.to_set()
    }
}

impl TypeTable {
    /// A table with no registered type.
    pub fn new() -> (t: TypeTable)
        ensures
            t@ == Set::<BaseType>::empty(),
    {
        let t = TypeTable { registered: Vec::new() };
        assert(t.registered@.to_set() =~= Set::<BaseType>::empty());
        t
    }

    /// Registers a base type; registering it again changes nothing.
    pub fn register(&mut self, b: BaseType)
        ensures
            final(self)@ == old(self)@.insert(b),
    {
        let ghost before = self.registered@;
        if !self.is_registered(b) {
            self.registered.push(b);
            assert forall|x: BaseType| self.registered@.contains(x) <==> (before.contains(x) || x
                == b) by {
                if before.contains(x) {
                    let j = choose|j: int| 0 <= j < before.len() && before[j] == x;
                    assert(self.registered@[j] == x);
                }
                if self.registered@.contains(x) && x != b {
                    let j = choose|j: int| 0 <= j < self.registered@.len() && self.registered@[j] == x;
                    assert(before[j] == x);
                }
                if x == b {
                    assert(self.registered@[before.len() as int] == x);
                }
            }
        }
        assert(self.registered@.to_set() =~= old(self)@.insert(b));
    }

    /// A table holding every base type.
    pub fn std140() -> (t: TypeTable)
        ensures
            forall|b: BaseType| t@.contains(b),
    {
        let mut t = TypeTable::new();
        t.register(BaseType::Bool);
        t.register(BaseType::U8);
        t.register(BaseType::U16);
        t.register(BaseType::U32);
        t.register(BaseType::I8);
        t.register(BaseType::I16);
        t.register(BaseType::I32);
        t.register(BaseType::F32);
        t.register(BaseType::F64);
        t.register(BaseType::Vec2);
        t.register(BaseType::Vec3);
        t.register(BaseType::Vec4);
        t.register(BaseType::Quat);
        t.register(BaseType::Mat2);
        t.register(BaseType::Mat3);
        t.register(BaseType::Mat4);
        assert forall|b: BaseType| t@.contains(b) by {
            match b {
                BaseType::Bool => {},
                BaseType::U8 => {},
                BaseType::U16 => {},
                BaseType::U32 => {},
                BaseType::I8 => {},
                BaseType::I16 => {},
                BaseType::I32 => {},
                BaseType::F32 => {},
                BaseType::F64 => {},
                BaseType::Vec2 => {},
                BaseType::Vec3 => {},
                BaseType::Vec4 => {},
                BaseType::Quat => {},
                BaseType::Mat2 => {},
                BaseType::Mat3 => {},
                BaseType::Mat4 => {},
            }
        }
        t
    }

    /// Whether `b` has been registered.
    pub fn is_registered(&self, b: BaseType) -> (r: bool)
        ensures
            r == self@.contains(b),
    {
        let mut i: usize = 0;
        while i < self.registered.len()
            invariant
                i <= self.registered@.len(),
                forall|j: int| 0 <= j < i ==> self.registered@[j] != b,
            decreases self.registered@.len() - i,
        {
            if self.registered[i] == b {
                assert(self.registered@.to_set().contains(b)) by {
                    assert(self.registered@.contains(self.registered@[i as int]));
                }
                return true;
            }
            i += 1;
        }
        assert(!self.registered@.contains(b));
        false
    }

    /// The descriptor of `t`; `UnknownType` when its base type was never
    /// registered, and `TooLarge` when a size it takes exceeds `usize`.
    pub fn describe(&self, t: &ValueType) -> (r: Result<TypeDescriptor, LayoutError>)
        ensures
            !self@.contains(base_of(*t)) ==> r == Err::<TypeDescriptor, LayoutError>(
                LayoutError::UnknownType(base_of(*t)),
            ),
            self@.contains(base_of(*t)) && !type_fits(*t) ==> r == Err::<
                TypeDescriptor,
                LayoutError,
            >(LayoutError::TooLarge),
            self@.contains(base_of(*t)) && type_fits(*t) ==> (r matches Ok(d) && d.describes(*t)
                && d.wf()),
        decreases *t,
    {
        match t {
            ValueType::Base(b) => {
                if self.is_registered(*b) {
                    Ok(base_descriptor(*b))
                } else {
                    Err(LayoutError::UnknownType(*b))
                }
            },
            ValueType::Array(e, n) => {
                match self.describe(&**e) {
                    Err(x) => Err(x),
                    Ok(ed) => {
                        if ed.packed_size > usize::MAX - 15 {
                            return Err(LayoutError::TooLarge);
                        }
                        let stride = round_up_16(ed.packed_size);
                        let len = *n as usize;
                        let packed_size = match stride.checked_mul(len) {
                            Some(p) => p,
                            None => return Err(LayoutError::TooLarge),
                        };
                        let d = TypeDescriptor {
                            packed_size,
                            alignment: Align16::BYTES,
                            array: Some(ArrayShape { len, element_size: ed.packed_size, stride }),
                        };
                        assert(d.packed_size as nat == type_size(*t)) by (nonlinear_arith)
                            requires
                                d.packed_size == stride * len,
                                stride as nat == round_up16(type_size(**e)),
                                len as nat == *n as nat,
                                type_size(*t) == (*n as nat) * round_up16(type_size(**e)),
                        ;
                        Ok(d)
                    },
                }
            },
        }
    }
}

} // verus!
