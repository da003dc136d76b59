//! The byte packer: writes field values into a destination buffer at the
//! offsets of a layout plan.
use vstd::prelude::*;
use crate::layout::LayoutPlan;
use crate::types::{BaseType, TypeDescriptor};

verus! {

/// The bytes of one field of a uniform block instance.
pub enum FieldValue {
    /// The native representation of a non-array field, as many bytes as its
    /// packed size.
    Bytes(Vec<u8>),
    /// The native representation of each element of an array field.
    Elements(Vec<Vec<u8>>),
}

/// Why a block could not be packed.
#[derive(Clone, Copy, Debug, PartialEq, Eq, Structural)]
pub enum PackError {
    /// The destination holds fewer bytes than the block needs.
    BufferTooSmall { required: usize, provided: usize },
    /// The values are not one per field, each with the shape of its field.
    ValueMismatch,
}

/// `v` has the shape that descriptor `d` asks for.
pub open spec fn value_fits(v: FieldValue, d: TypeDescriptor) -> bool {
    match d.array {
        None => match v {
            FieldValue::Bytes(b) => b@.len() == d.packed_size,
            FieldValue::Elements(_) => false,
        },
        Some(s) => match v {
            FieldValue::Bytes(_) => false,
            FieldValue::Elements(es) => {
                &&& es@.len() == s.len
                &&& forall|j: int| 0 <= j < es@.len() ==> (#[trigger] es@[j])@.len() == s.element_size
            },
        },
    }
}

/// Each value fits the field of the plan at the same position.
pub open spec fn values_fit(plan: LayoutPlan, values: Seq<FieldValue>) -> bool {
    &&& values.len() == plan.fields@.len()
    &&& forall|i: int|
        0 <= i < values.len() ==> value_fits(#[trigger] values[i], plan.fields@[i].descriptor)
}

/// Byte `q` of the slot of a field holding `v`: for an array, element
/// `q / stride` followed by zeros up to the stride.
pub open spec fn slot_byte(v: FieldValue, d: TypeDescriptor, q: int) -> u8 {
    match v {
        FieldValue::Bytes(b) => b@[q],
        FieldValue::Elements(es) => {
            let s = d.array.unwrap();
            let r = q % (s.stride as int);
            if r < s.element_size {
                es@[q / (s.stride as int)]@[r]
            } else {
                0
            }
        },
    }
}

/// The block after its bytes are zeroed and the first `k` fields written.
pub open spec fn image_after(plan: LayoutPlan, values: Seq<FieldValue>, k: nat) -> Seq<u8>
    decreases k,
{
    if k == 0 {
        Seq::new(plan.total_size as nat, |p: int| 0u8)
    } else {
        let prev = image_after(plan, values, (k - 1) as nat);
        let f = plan.fields@[k - 1];
        Seq::new(
            plan.total_size as nat,
            |p: int|
                if f.offset <= p < f.offset + f.descriptor.packed_size {
                    slot_byte(values[k - 1], f.descriptor, p - f.offset)
                } else {
                    prev[p]
                },
        )
    }
}

/// The packed block: padding is zero, and each field's slot holds its value.
pub open spec fn packed_image(plan: LayoutPlan, values: Seq<FieldValue>) -> Seq<u8> {
    image_after(plan, values, plan.fields@.len())
}

fn slot_byte_at(v: &FieldValue, d: &TypeDescriptor, q: usize) -> (r: u8)
    requires
        value_fits(*v, *d),
        d.wf(),
        q < d.packed_size,
    ensures
        r == slot_byte(*v, *d, q as int),
{
    match v {
        FieldValue::Bytes(b) => b[q],
        FieldValue::Elements(es) => {
            match d.array {
                None => 0,
                Some(s) => {
                    assert(s.stride > 0) by (nonlinear_arith)
                        requires
                            d.packed_size as nat == s.len as nat * s.stride as nat,
                            q < d.packed_size,
                    ;
                    let j = q / s.stride;
                    let r = q % s.stride;
                    assert(j < s.len) by (nonlinear_arith)
                        requires
                            q < s.len as nat * s.stride as nat,
                            j == q / s.stride,
                            s.stride > 0,
                    ;
                    if r < s.element_size {
                        es[j][r]
                    } else {
                        0
                    }
                },
            }
        },
    }
}

/// Packs `values` into `dest` by `plan`: padding bytes become zero, each
/// field's slot receives its value, and bytes past the block are left
/// alone. A destination shorter than the block, or values that do not fit
/// the plan's fields, are refused and `dest` is left as it was.
pub fn pack(plan: &LayoutPlan, values: &Vec<FieldValue>, dest: &mut [u8]) -> (r: Result<
    (),
    PackError,
>)
    requires
        plan.wf(),
    ensures
        old(dest)@.len() < plan.total_size ==> r == Err::<(), PackError>(
            PackError::BufferTooSmall { required: plan.total_size, provided: old(dest)@.len() as usize },
        ),
        old(dest)@.len() >= plan.total_size && !values_fit(*plan, values@) ==> r == Err::<
            (),
            PackError,
        >(PackError::ValueMismatch),
        r is Err ==> final(dest)@ == old(dest)@,
        old(dest)@.len() >= plan.total_size && values_fit(*plan, values@) ==> r is Ok
            && final(dest)@ == packed_image(*plan, values@) + old(dest)@.subrange(
            plan.total_size as int,
            old(dest)@.len() as int,
        ),
{
    let total = plan.total_size;
    if dest.len() < total {
        return Err(PackError::BufferTooSmall { required: total, provided: dest.len() });
    }
    if !values_match(plan, values) {
        return Err(PackError::ValueMismatch);
    }
    let ghost len = dest@.len();
    let ghost rest = dest@.subrange(total as int, len as int);
    let mut p: usize = 0;
    while p < total
        invariant
            p <= total <= dest@.len() == len,
            dest@.subrange(total as int, len as int) == rest,
            forall|x: int| 0 <= x < p ==> dest@[x] == 0u8,
        decreases total - p,
    {
        dest[p] = 0;
        p += 1;
        assert(dest@.subrange(total as int, len as int) =~= rest);
    }
    assert(dest@.subrange(0, total as int) =~= image_after(*plan, values@, 0));
    let n = plan.fields.len();
    let mut k: usize = 0;
    while k < n
        invariant
            k <= n == plan.fields@.len() == values@.len(),
            plan.wf(),
            values_fit(*plan, values@),
            total == plan.total_size <= dest@.len() == len,
            dest@.subrange(total as int, len as int) == rest,
            dest@.subrange(0, total as int) == image_after(*plan, values@, k as nat),
        decreases n - k,
    {
        let f = &plan.fields[k];
        let v = &values[k];
        assert(plan.field_placed(k as int));
        assert(value_fits(values@[k as int], plan.fields@[k as int].descriptor));
        let ghost prev = dest@;
        let mut q: usize = 0;
        while q < f.descriptor.packed_size
            invariant
                q <= f.descriptor.packed_size,
                f.offset + f.descriptor.packed_size <= total <= dest@.len() == prev.len() == len,
                f.descriptor.wf(),
                value_fits(*v, f.descriptor),
                forall|x: int|
                    0 <= x < len ==> dest@[x] == (if f.offset <= x < f.offset + q {
                        slot_byte(*v, f.descriptor, x - f.offset)
                    } else {
                        prev[x]
                    }),
            decreases f.descriptor.packed_size - q,
        {
            let b = slot_byte_at(v, &f.descriptor, q);
            dest[f.offset + q] = b;
            q += 1;
        }
        assert(dest@.subrange(total as int, len as int) =~= rest);
        assert(dest@.subrange(0, total as int) =~= image_after(*plan, values@, (k + 1) as nat));
        k += 1;
    }
    assert(dest@ =~= packed_image(*plan, values@) + rest);
    Ok(())
}

/// Whether every value fits the field of `plan` at the same position.
pub fn values_match(plan: &LayoutPlan, values: &Vec<FieldValue>) -> (r: bool)
    ensures
        r == values_fit(*plan, values@),
{
    if values.len() != plan.fields.len() {
        return false;
    }
    let mut i: usize = 0;
    while i < values.len()
        invariant
            i <= values@.len() == plan.fields@.len(),
            forall|k: int| 0 <= k < i ==> value_fits(#[trigger] values@[k], plan.fields@[k].descriptor),
        decreases values@.len() - i,
    {
        if !value_matches(&values[i], &plan.fields[i].descriptor) {
            return false;
        }
        i += 1;
    }
    true
}

/// Whether `v` has the shape that `d` asks for.
pub fn value_matches(v: &FieldValue, d: &TypeDescriptor) -> (r: bool)
    ensures
        r == value_fits(*v, *d),
{
    match d.array {
        None => match v {
            FieldValue::Bytes(b) => b.len() == d.packed_size,
            FieldValue::Elements(_) => false,
        },
        Some(s) => match v {
            FieldValue::Bytes(_) => false,
            FieldValue::Elements(es) => {
                if es.len() != s.len {
                    return false;
                }
                let mut j: usize = 0;
                while j < es.len()
                    invariant
                        j <= es@.len() == s.len,
                        d.array == Some(s),
                        *v == FieldValue::Elements(*es),
                        forall|k: int| 0 <= k < j ==> (#[trigger] es@[k])@.len() == s.element_size,
                    decreases es@.len() - j,
                {
                    if es[j].len() != s.element_size {
                        return false;
                    }
                    j += 1;
                }
                true
            },
        },
    }
}

/// A value that can be copied, already padded, into a uniform buffer.
pub trait Uniform {
    /// The value is ready to be copied.
    spec fn uniform_wf(&self) -> bool;

    /// The padded bytes of the value.
    spec fn padded_bytes(&self) -> Seq<u8>;

    /// Writes the padded bytes at the start of `s`; the rest of `s` is kept.
    fn copy_padded_to_slice(&self, s: &mut [u8])
        requires
            self.uniform_wf(),
            old(s)@.len() >= self.padded_bytes().len(),
        ensures
            final(s)@ == self.padded_bytes() + old(s)@.subrange(
                self.padded_bytes().len() as int,
                old(s)@.len() as int,
            ),
    ;

    /// The number of padded bytes.
    fn padded_size(&self) -> (r: usize)
        requires
            self.uniform_wf(),
        ensures
            r == self.padded_bytes().len(),
    ;
}

/// A uniform block instance: a layout plan with one value per field.
pub struct UniformBlock {
    plan: LayoutPlan,
    values: Vec<FieldValue>,
}

impl UniformBlock {
    /// The block of `values` laid out by `plan`, or `None` when a value does
    /// not fit its field.
    pub fn new(plan: LayoutPlan, values: Vec<FieldValue>) -> (r: Option<UniformBlock>)
        requires
            plan.wf(),
        ensures
            r is Some <==> values_fit(plan, values@),
            r matches Some(u) ==> u.uniform_wf() && u.padded_bytes() == packed_image(plan, values@),
    {
        if values_match(&plan, &values) {
            Some(UniformBlock { plan, values })
        } else {
            None
        }
    }
}

impl Uniform for UniformBlock {
    closed spec fn uniform_wf(&self) -> bool {
        self.plan.wf() && values_fit(self.plan, self.values@)
    }

    closed spec fn padded_bytes(&self) -> Seq<u8> {
        packed_image(self.plan, self.values@)
    }

    fn copy_padded_to_slice(&self, s: &mut [u8]) {
        proof {
            lemma_image_len(self.plan, self.values@, self.plan.fields@.len());
        }
        let _ = pack(&self.plan, &self.values, s);
    }

    fn padded_size(&self) -> (r: usize) {
        proof {
            lemma_image_len(self.plan, self.values@, self.plan.fields@.len());
        }
        self.plan.total_size
    }
}

/// In a packed block, byte `q` of the slot of field `i` is byte `q` of that
/// field's value (for an array, its element bytes followed by zero
/// padding up to the stride).
pub proof fn lemma_field_in_image(plan: LayoutPlan, values: Seq<FieldValue>, i: int, q: int)
    requires
        plan.wf(),
        0 <= i < plan.fields@.len(),
        0 <= q < plan.fields@[i].descriptor.packed_size,
    ensures
        packed_image(plan, values)[plan.fields@[i].offset + q] == slot_byte(
            values[i],
            plan.fields@[i].descriptor,
            q,
        ),
{
    lemma_image_keeps(plan, values, i, q, plan.fields@.len());
}

/// In a packed block, every byte that lies in no field's slot is zero.
pub proof fn lemma_padding_is_zero(plan: LayoutPlan, values: Seq<FieldValue>, p: int)
    requires
        0 <= p < plan.total_size,
        forall|i: int|
            0 <= i < plan.fields@.len() ==> !(#[trigger] plan.fields@[i].offset <= p < plan.fields@[i].offset
                + plan.fields@[i].descriptor.packed_size),
    ensures
        packed_image(plan, values)[p] == 0,
{
    lemma_padding_kept(plan, values, p, plan.fields@.len());
}

proof fn lemma_padding_kept(plan: LayoutPlan, values: Seq<FieldValue>, p: int, k: nat)
    requires
        0 <= p < plan.total_size,
        k <= plan.fields@.len(),
        forall|i: int|
            0 <= i < plan.fields@.len() ==> !(#[trigger] plan.fields@[i].offset <= p < plan.fields@[i].offset
                + plan.fields@[i].descriptor.packed_size),
    ensures
        image_after(plan, values, k)[p] == 0,
    decreases k,
{
    if k > 0 {
        lemma_padding_kept(plan, values, p, (k - 1) as nat);
        assert(!(plan.fields@[k - 1].offset <= p < plan.fields@[k - 1].offset
            + plan.fields@[k - 1].descriptor.packed_size));
    }
}

proof fn lemma_image_keeps(plan: LayoutPlan, values: Seq<FieldValue>, i: int, q: int, k: nat)
    requires
        plan.wf(),
        0 <= i < k <= plan.fields@.len(),
        0 <= q < plan.fields@[i].descriptor.packed_size,
    ensures
        image_after(plan, values, k)[plan.fields@[i].offset + q] == slot_byte(
            values[i],
            plan.fields@[i].descriptor,
            q,
        ),
    decreases k,
{
    assert(plan.field_placed(i));
    if k > i + 1 {
        lemma_image_keeps(plan, values, i, q, (k - 1) as nat);
        assert(plan.fields@[i].offset + plan.fields@[i].descriptor.packed_size <= plan.fields@[k
            - 1].offset);
    }
}

proof fn lemma_image_len(plan: LayoutPlan, values: Seq<FieldValue>, k: nat)
    ensures
        image_after(plan, values, k).len() == plan.total_size,
    decreases k,
{
    if k > 0 {
        lemma_image_len(plan, values, (k - 1) as nat);
    }
}

/// The four little-endian bytes of `v`.
pub open spec fn le_bytes(v: u32) -> Seq<u8> {
    seq![
        (v % 256) as u8,
        ((v / 256) % 256) as u8,
        ((v / 65536) % 256) as u8,
        (v / 16777216) as u8,
    ]
}

fn to_le_bytes(v: u32) -> (r: Vec<u8>)
    ensures
        r@ == le_bytes(v),
{
    let mut r: Vec<u8> = Vec::new();
    r.push((v % 256) as u8);
    r.push(((v / 256) % 256) as u8);
    r.push(((v / 65536) % 256) as u8);
    r.push((v / 16777216) as u8);
    assert(r@ =~= le_bytes(v));
    r
}

/// A scalar that a uniform block stores as a 32-bit word: narrow integers
/// and booleans are widened first.
pub trait IntoStd140 {
    /// The 32-bit word that stands for the value.
    spec fn std140_word(&self) -> u32;

    /// The base type under which the value is stored.
    fn std140_type() -> (t: BaseType)
        ensures
            crate::types::base_size(t) == 4,
    ;

    /// The stored bytes: the word in little-endian order.
    fn into_std140(&self) -> (r: Vec<u8>)
        ensures
            r@ == le_bytes(self.std140_word()),
    ;
}

impl IntoStd140 for u32 {
    open spec fn std140_word(&self) -> u32 {
        *self
    }

    fn std140_type() -> (t: BaseType) {
        BaseType::U32
    }

    fn into_std140(&self) -> (r: Vec<u8>) {
        to_le_bytes(*self)
    }
}

impl IntoStd140 for u16 {
    open spec fn std140_word(&self) -> u32 {
        *self as u32
    }

    fn std140_type() -> (t: BaseType) {
        BaseType::U16
    }

    fn into_std140(&self) -> (r: Vec<u8>) {
        to_le_bytes(*self as u32)
    }
}

impl IntoStd140 for u8 {
    open spec fn std140_word(&self) -> u32 {
        *self as u32
    }

    fn std140_type() -> (t: BaseType) {
        BaseType::U8
    }

    fn into_std140(&self) -> (r: Vec<u8>) {
        to_le_bytes(*self as u32)
    }
}

impl IntoStd140 for bool {
    open spec fn std140_word(&self) -> u32 {
        if *self {
            1
        } else {
            0
        }
    }

    fn std140_type() -> (t: BaseType) {
        BaseType::Bool
    }

    fn into_std140(&self) -> (r: Vec<u8>) {
        to_le_bytes(
            if *self {
                1
            } else {
                0
            },
        )
    }
}

impl IntoStd140 for i32 {
    open spec fn std140_word(&self) -> u32 {
        *self as u32
    }

    fn std140_type() -> (t: BaseType) {
        BaseType::I32
    }

    fn into_std140(&self) -> (r: Vec<u8>) {
        to_le_bytes(*self as u32)
    }
}

impl IntoStd140 for i16 {
    open spec fn std140_word(&self) -> u32 {
        (*self as i32) as u32
    }

    fn std140_type() -> (t: BaseType) {
        BaseType::I16
    }

    fn into_std140(&self) -> (r: Vec<u8>) {
        to_le_bytes((*self as i32) as u32)
    }
}

impl IntoStd140 for i8 {
    open spec fn std140_word(&self) -> u32 {
        (*self as i32) as u32
    }

    fn std140_type() -> (t: BaseType) {
        BaseType::I8
    }

    fn into_std140(&self) -> (r: Vec<u8>) {
        to_le_bytes((*self as i32) as u32)
    }
}

} // verus!
