//! The layout compiler: byte offsets of the fields of a uniform block.
use vstd::prelude::*;
use vstd::arithmetic::div_mod::{lemma_fundamental_div_mod, lemma_mod_multiples_basic};
use crate::types::{LayoutError, TypeDescriptor, round_up16};

verus! {

/// One field of a schema, in declaration order.
pub struct FieldSpec {
    pub name: String,
    pub descriptor: TypeDescriptor,
}

/// Where one field of a schema lies in the packed block.
pub struct FieldLayout {
    pub name: String,
    pub offset: usize,
    pub descriptor: TypeDescriptor,
}

/// The packed layout of a schema: one entry per field, in declaration
/// order, and the size of the whole block.
pub struct LayoutPlan {
    pub fields: Vec<FieldLayout>,
    pub total_size: usize,
}

/// `n` advanced to the next multiple of `a`.
pub open spec fn align_up(n: nat, a: nat) -> nat {
    if a == 0 {
        n
    } else {
        n + ((a - n % a) as nat) % a
    }
}

/// The cursor after the first `k` fields have been laid out.
pub open spec fn end_of(fields: Seq<FieldSpec>, k: nat) -> nat
    decreases k,
{
    if k == 0 || k > fields.len() {
        0
    } else {
        align_up(end_of(fields, (k - 1) as nat), fields[k - 1].descriptor.alignment as nat)
            + fields[k - 1].descriptor.packed_size as nat
    }
}

/// The offset of field `i`: the cursor before it, aligned to its alignment.
pub open spec fn offset_of(fields: Seq<FieldSpec>, i: nat) -> nat {
    align_up(end_of(fields, i), fields[i as int].descriptor.alignment as nat)
}

/// The size of the packed block: the end of the last field rounded up to 16.
pub open spec fn total_size_of(fields: Seq<FieldSpec>) -> nat {
    round_up16(end_of(fields, fields.len()))
}

/// Every field's descriptor is well formed.
pub open spec fn fields_wf(fields: Seq<FieldSpec>) -> bool {
    forall|i: int| 0 <= i < fields.len() ==> (#[trigger] fields[i]).descriptor.wf()
}

impl LayoutPlan {
    /// The plan is the layout of `fields`.
    pub open spec fn is_plan_of(&self, fields: Seq<FieldSpec>) -> bool {
        &&& self.fields@.len() == fields.len()
        &&& forall|i: int|
            0 <= i < fields.len() ==> {
                &&& (#[trigger] self.fields@[i]).name@ == fields[i].name@
                &&& self.fields@[i].offset == offset_of(fields, i as nat)
                &&& self.fields@[i].descriptor == fields[i].descriptor
            }
        &&& self.total_size == total_size_of(fields)
    }

    /// Both plans hold the same names, offsets, descriptors and total size.
    pub open spec fn same_as(&self, other: &LayoutPlan) -> bool {
        &&& self.fields@.len() == other.fields@.len()
        &&& forall|i: int|
            0 <= i < self.fields@.len() ==> {
                &&& (#[trigger] self.fields@[i]).name@ == other.fields@[i].name@
                &&& self.fields@[i].offset == other.fields@[i].offset
                &&& self.fields@[i].descriptor == other.fields@[i].descriptor
            }
        &&& self.total_size == other.total_size
    }

    /// Field `i` starts at a multiple of its alignment and ends within the block.
    pub open spec fn field_placed(&self, i: int) -> bool {
        let f = self.fields@[i];
        &&& f.descriptor.wf()
        &&& f.offset % f.descriptor.alignment == 0
        &&& f.offset + f.descriptor.packed_size <= self.total_size
    }

    /// The layout invariant: every field is aligned and inside the block,
    /// fields come in declaration order without overlapping, and the block
    /// size is a multiple of 16.
    pub open spec fn wf(&self) -> bool {
        &&& self.total_size % 16 == 0
        &&& forall|i: int| 0 <= i < self.fields@.len() ==> #[trigger] self.field_placed(i)
        &&& forall|i: int, j: int|
            0 <= i < j < self.fields@.len() ==> #[trigger] self.fields@[i].offset
                + self.fields@[i].descriptor.packed_size <= #[trigger] self.fields@[j].offset
    }
}

proof fn lemma_align_up(n: nat, a: nat)
    requires
        a > 0,
    ensures
        align_up(n, a) % a == 0,
        n <= align_up(n, a) < n + a,
{
    lemma_fundamental_div_mod(n as int, a as int);
    if n % a == 0 {
        assert(((a - n % a) as nat) % a == 0) by {
            lemma_mod_multiples_basic(1, a as int);
        }
    } else {
        assert(((a - n % a) as nat) % a == a - n % a) by {
            vstd::arithmetic::div_mod::lemma_small_mod((a - n % a) as nat, a);
        }
        assert(align_up(n, a) == a * (n / a + 1)) by (nonlinear_arith)
            requires
                n == a * (n / a) + n % a,
                align_up(n, a) == n + (a - n % a),
        ;
        lemma_mod_multiples_basic(n as int / a as int + 1, a as int);
    }
}

proof fn lemma_end_step(fields: Seq<FieldSpec>, i: nat)
    requires
        i < fields.len(),
        fields_wf(fields),
    ensures
        end_of(fields, i) <= offset_of(fields, i),
        offset_of(fields, i) % (fields[i as int].descriptor.alignment as nat) == 0,
        offset_of(fields, i) + fields[i as int].descriptor.packed_size == end_of(fields, i + 1),
{
    assert(fields[i as int].descriptor.wf());
    lemma_align_up(end_of(fields, i), fields[i as int].descriptor.alignment as nat);
}

proof fn lemma_end_monotone(fields: Seq<FieldSpec>, i: nat, j: nat)
    requires
        i <= j <= fields.len(),
        fields_wf(fields),
    ensures
        end_of(fields, i) <= end_of(fields, j),
    decreases j - i,
{
    if i < j {
        lemma_end_step(fields, i);
        lemma_end_monotone(fields, i + 1, j);
    }
}

/// The layout invariant holds of every schema: each field's offset is a
/// multiple of its alignment, each field ends no later than the next one
/// starts (so fields are ordered as declared and never overlap), every
/// field lies inside the block, and the block size is a multiple of 16.
pub proof fn lemma_layout_invariant(fields: Seq<FieldSpec>)
    requires
        fields_wf(fields),
    ensures
        total_size_of(fields) % 16 == 0,
        end_of(fields, fields.len()) <= total_size_of(fields),
        forall|i: int|
            0 <= i < fields.len() ==> #[trigger] offset_of(fields, i as nat) % (
            fields[i].descriptor.alignment as nat) == 0 && offset_of(fields, i as nat)
                + fields[i].descriptor.packed_size <= total_size_of(fields),
        forall|i: int, j: int|
            0 <= i < j < fields.len() ==> #[trigger] offset_of(fields, i as nat)
                + fields[i].descriptor.packed_size <= #[trigger] offset_of(fields, j as nat),
{
    let n = fields.len();
    let e = end_of(fields, n);
    assert(round_up16(e) % 16 == 0 && e <= round_up16(e)) by {
        lemma_align_up(e, 16);
        lemma_fundamental_div_mod(e as int, 16);
        lemma_fundamental_div_mod(e + 15int, 16);
    }
    assert forall|i: int| 0 <= i < fields.len() implies #[trigger] offset_of(fields, i as nat) % (
    fields[i].descriptor.alignment as nat) == 0 && offset_of(fields, i as nat)
        + fields[i].descriptor.packed_size <= total_size_of(fields) by {
        lemma_end_step(fields, i as nat);
        lemma_end_monotone(fields, (i + 1) as nat, n);
    }
    assert forall|i: int, j: int| 0 <= i < j < fields.len() implies #[trigger] offset_of(
        fields,
        i as nat,
    ) + fields[i].descriptor.packed_size <= #[trigger] offset_of(fields, j as nat) by {
        lemma_end_step(fields, i as nat);
        lemma_end_step(fields, j as nat);
        lemma_end_monotone(fields, (i + 1) as nat, j as nat);
    }
}

/// Layout is a function of the ordered field list: two plans of the same
/// fields hold the same names, offsets, descriptors and total size.
pub proof fn lemma_compile_deterministic(fields: Seq<FieldSpec>, a: LayoutPlan, b: LayoutPlan)
    requires
        a.is_plan_of(fields),
        b.is_plan_of(fields),
    ensures
        a.same_as(&b),
{
}

/// A schema without fields takes no bytes.
pub proof fn lemma_empty_schema(fields: Seq<FieldSpec>)
    requires
        fields.len() == 0,
    ensures
        total_size_of(fields) == 0,
{
}

/// Lays out `fields` in declaration order: each field is placed at the
/// cursor advanced to its alignment, and the block size is the end of the
/// last field rounded up to 16. Refused with `TooLarge` when the block size
/// exceeds `usize`.
pub fn compile(fields: &Vec<FieldSpec>) -> (r: Result<LayoutPlan, LayoutError>)
    requires
        fields_wf(fields@),
    ensures
        total_size_of(fields@) <= usize::MAX ==> (r matches Ok(plan) && plan.is_plan_of(fields@)
            && plan.wf()),
        total_size_of(fields@) > usize::MAX ==> r == Err::<LayoutPlan, LayoutError>(
            LayoutError::TooLarge,
        ),
{
    proof {
        lemma_layout_invariant(fields@);
    }
    let ghost n = fields@.len();
    let mut out: Vec<FieldLayout> = Vec::new();
    let mut cursor: usize = 0;
    let mut i: usize = 0;
    while i < fields.len()
        invariant
            i <= n == fields@.len(),
            fields_wf(fields@),
            cursor == end_of(fields@, i as nat),
            end_of(fields@, n) <= total_size_of(fields@),
            out@.len() == i,
            forall|j: int|
                0 <= j < i ==> {
                    &&& (#[trigger] out@[j]).name@ == fields@[j].name@
                    &&& out@[j].offset == offset_of(fields@, j as nat)
                    &&& out@[j].descriptor == fields@[j].descriptor
                },
        decreases n - i,
    {
        let f = &fields[i];
        proof {
            lemma_end_step(fields@, i as nat);
            lemma_end_monotone(fields@, (i + 1) as nat, n);
        }
        let a = f.descriptor.alignment;
        let pad = (a - cursor % a) % a;
        let offset = match cursor.checked_add(pad) {
            Some(x) => x,
            None => return Err(LayoutError::TooLarge),
        };
        let end = match offset.checked_add(f.descriptor.packed_size) {
            Some(x) => x,
            None => return Err(LayoutError::TooLarge),
        };
        out.push(FieldLayout { name: f.name.clone(), offset, descriptor: f.descriptor });
        cursor = end;
        i += 1;
    }
    let rem = cursor % 16;
    let total_size = if rem == 0 {
        cursor
    } else {
        match cursor.checked_add(16 - rem) {
            Some(x) => x,
            None => {
                assert(round_up16(cursor as nat) == cursor + 16 - rem) by (nonlinear_arith)
                    requires
                        rem == cursor % 16,
                        rem != 0,
                ;
                return Err(LayoutError::TooLarge);
            },
        }
    };
    assert(total_size as nat == round_up16(cursor as nat)) by (nonlinear_arith)
        requires
            rem == cursor % 16,
            total_size == (if rem == 0 { cursor as int } else { cursor + 16 - rem }),
    ;
    let plan = LayoutPlan { fields: out, total_size };
    assert forall|k: int| 0 <= k < plan.fields@.len() implies #[trigger] plan.field_placed(k) by {
        assert(fields@[k].descriptor.wf());
    }
    Ok(plan)
}

} // verus!
