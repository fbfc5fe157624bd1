//! Layout of C structures: where the members of a structure lie that is shared with a driver.
use vstd::prelude::*;

verus! {

/// Size and alignment of a member.
#[derive(Clone, Copy, Debug, PartialEq, Eq, Structural)]
pub struct Field {
    pub size: usize,
    pub align: usize,
}

/// Layout of a structure.
#[derive(Debug)]
pub struct Layout {
    pub offsets: Vec<usize>,
    pub size: usize,
    pub align: usize,
}

/// The first multiple of `align` from `at` on.
pub open spec fn aligned_up(at: int, align: int) -> int {
    at + (align - at % align) % align
}

/// Where the members end that precede any padding at the end.
pub open spec fn end_of(fields: Seq<Field>) -> int
    decreases fields.len(),
{
    if fields.len() == 0 {
        0
    } else {
        aligned_up(end_of(fields.drop_last()), fields.last().align as int) + fields.last().size
    }
}

/// Where member `i` begins.
pub open spec fn offset_at(fields: Seq<Field>, i: int) -> int {
    aligned_up(end_of(fields.take(i)), fields[i].align as int)
}

/// The largest alignment of a member, 1 without members.
pub open spec fn max_align(fields: Seq<Field>) -> int
    decreases fields.len(),
{
    if fields.len() == 0 {
        1
    } else if fields.last().align > max_align(fields.drop_last()) {
        fields.last().align as int
    } else {
        max_align(fields.drop_last())
    }
}

/// Size of the structure, padded so that it can stand in an array.
pub open spec fn struct_size(fields: Seq<Field>) -> int {
    aligned_up(end_of(fields), max_align(fields))
}

/// Every member has an alignment.
pub open spec fn have_alignment(fields: Seq<Field>) -> bool {
    forall|i: int| 0 <= i < fields.len() ==> (#[trigger] fields[i]).align > 0
}

proof fn lemma_aligned_up(at: int, align: int)
    requires
        at >= 0,
        align > 0,
    ensures
        at <= aligned_up(at, align) < at + align,
        aligned_up(at, align) % align == 0,
{
    let r = at % align;
    vstd::arithmetic::div_mod::lemma_fundamental_div_mod(at, align);
    vstd::arithmetic::div_mod::lemma_mod_bound(at, align);
    if r == 0 {
        vstd::arithmetic::div_mod::lemma_mod_self_0(align);
    } else {
        vstd::arithmetic::div_mod::lemma_small_mod((align - r) as nat, align as nat);
        let q = at / align;
        assert(at + (align - r) == align * (q + 1)) by (nonlinear_arith)
            requires
                at == align * q + r,
        ;
        vstd::arithmetic::div_mod::lemma_mod_multiples_basic(q + 1, align);
        assert((q + 1) * align == align * (q + 1)) by (nonlinear_arith);
    }
}

proof fn lemma_end_grows(fields: Seq<Field>, i: int)
    requires
        have_alignment(fields),
        0 <= i <= fields.len(),
    ensures
        0 <= end_of(fields.take(i)) <= end_of(fields),
        max_align(fields) >= 1,
    decreases fields.len(),
{
    if fields.len() == 0 {
        assert(fields.take(i) =~= fields);
    } else {
        let rest = fields.drop_last();
        assert(have_alignment(rest)) by {
            assert forall|j: int| 0 <= j < rest.len() implies (#[trigger] rest[j]).align > 0 by {
                assert(rest[j] == fields[j]);
            }
        }
        lemma_end_grows(rest, rest.len() as int);
        assert(rest.take(rest.len() as int) =~= rest);
        assert(fields[fields.len() - 1].align > 0);
        lemma_aligned_up(end_of(rest), fields.last().align as int);
        if i == fields.len() {
            assert(fields.take(i) =~= fields);
        } else {
            lemma_end_grows(rest, i);
            assert(rest.take(i) =~= fields.take(i));
        }
    }
}

/// Computes the layout of a structure from its members in order.
pub fn c_layout(fields: &[Field]) -> (l: Layout)
    requires
        have_alignment(fields@),
        struct_size(fields@) <= usize::MAX,
    ensures
        l.offsets@.len() == fields@.len(),
        forall|i: int| 0 <= i < fields@.len() ==> #[trigger] l.offsets@[i] == offset_at(fields@, i),
        l.size == struct_size(fields@),
        l.align == max_align(fields@),
{
    let mut offsets: Vec<usize> = Vec::new();
    let mut end: usize = 0;
    let mut align: usize = 1;
    let mut k: usize = 0;
    proof {
        assert(fields@.take(0) =~= Seq::<Field>::empty());
        lemma_end_grows(fields@, 0);
        lemma_aligned_up(end_of(fields@), max_align(fields@));
    }
    while k < fields.len()
        invariant
            k <= fields@.len(),
            have_alignment(fields@),
            end_of(fields@) <= struct_size(fields@) <= usize::MAX,
            end == end_of(fields@.take(k as int)),
            align == max_align(fields@.take(k as int)),
            offsets@.len() == k,
            forall|i: int| 0 <= i < k ==> #[trigger] offsets@[i] == offset_at(fields@, i),
        decreases fields@.len() - k,
    {
        let f = fields[k];
        proof {
            assert(fields@[k as int].align > 0);
            let next = fields@.take(k + 1);
            assert(next.drop_last() =~= fields@.take(k as int));
            assert(next.last() == f);
            lemma_end_grows(fields@, k + 1);
            lemma_end_grows(fields@, k as int);
            lemma_aligned_up(end as int, f.align as int);
        }
        let at: usize = end + (f.align - end % f.align) % f.align;
        offsets.push(at);
        end = at + f.size;
        if f.align > align {
            align = f.align;
        }
        k = k + 1;
    }
    proof {
        assert(fields@.take(k as int) =~= fields@);
        lemma_end_grows(fields@, 0);
    }
    let size: usize = end + (align - end % align) % align;
    Layout { offsets, size, align }
}

/// Every member begins at a multiple of its alignment.
pub proof fn law_members_are_aligned(fields: Seq<Field>, i: int)
    requires
        have_alignment(fields),
        0 <= i < fields.len(),
    ensures
        offset_at(fields, i) % (fields[i].align as int) == 0,
{
    lemma_end_grows(fields, i);
    assert(fields[i].align > 0);
    lemma_aligned_up(end_of(fields.take(i)), fields[i].align as int);
}

/// A member ends before the next one begins, and the last before the structure ends.
pub proof fn law_members_do_not_overlap(fields: Seq<Field>, i: int, j: int)
    requires
        have_alignment(fields),
        0 <= i < j <= fields.len(),
    ensures
        j < fields.len() ==> offset_at(fields, i) + fields[i].size <= offset_at(fields, j),
        offset_at(fields, i) + fields[i].size <= struct_size(fields),
{
    let upto = fields.take(j);
    assert(have_alignment(upto)) by {
        assert forall|m: int| 0 <= m < upto.len() implies (#[trigger] upto[m]).align > 0 by {
            assert(upto[m] == fields[m]);
        }
    }
    let with_i = fields.take(i + 1);
    assert(with_i.drop_last() =~= fields.take(i));
    assert(with_i.last() == fields[i]);
    assert(end_of(with_i) == offset_at(fields, i) + fields[i].size);
    lemma_end_grows(upto, i + 1);
    assert(upto.take(i + 1) =~= with_i);
    lemma_end_grows(fields, i + 1);
    lemma_end_grows(fields, j);
    lemma_aligned_up(end_of(fields), max_align(fields));
    if j < fields.len() {
        assert(fields[j].align > 0);
        lemma_aligned_up(end_of(upto), fields[j].align as int);
    }
}

/// A computed layout packs its members: each begins at the first multiple of its alignment behind the
/// one before it, and the structure ends at the first multiple of the largest alignment.
pub proof fn law_layouts_are_packed(fields: &[Field], l: Layout, i: int)
    requires
        have_alignment(fields@),
        call_ensures(c_layout, (fields,), l),
        0 <= i < fields@.len(),
    ensures
        l.offsets@.len() == fields@.len(),
        l.offsets@[0] == 0,
        l.offsets@[i] as int % fields@[i].align as int == 0,
        i > 0 ==> 0 <= l.offsets@[i] - (l.offsets@[i - 1] + fields@[i - 1].size) < fields@[i].align,
        l.size as int % l.align as int == 0,
        0 <= l.size - (l.offsets@.last() + fields@.last().size) < l.align,
        fields@[i].align <= l.align,
        exists|j: int| 0 <= j < fields@.len() && #[trigger] fields@[j].align == l.align || l.align == 1,
{
    let f = fields@;
    assert(l.offsets@[i] == offset_at(f, i));
    assert(l.offsets@[0] == offset_at(f, 0));
    assert(f.take(0) =~= Seq::<Field>::empty());
    assert(f[0].align > 0 && f[i].align > 0);
    vstd::arithmetic::div_mod::lemma_mod_self_0(f[0].align as int);
    vstd::arithmetic::div_mod::lemma_small_mod(0, f[0].align as nat);
    law_members_are_aligned(f, i);
    if i > 0 {
        assert(l.offsets@[i - 1] == offset_at(f, i - 1));
        assert(f.take(i).drop_last() =~= f.take(i - 1));
        assert(f.take(i).last() == f[i - 1]);
        lemma_end_grows(f, i);
        lemma_aligned_up(end_of(f.take(i)), f[i].align as int);
    }
    let n = f.len() - 1;
    assert(l.offsets@[n] == offset_at(f, n));
    assert(f.drop_last() =~= f.take(n));
    lemma_end_grows(f, f.len() as int);
    assert(f.take(f.len() as int) =~= f);
    lemma_aligned_up(end_of(f), max_align(f));
    lemma_max_align(f, i);
}

proof fn lemma_max_align(fields: Seq<Field>, i: int)
    requires
        0 <= i < fields.len(),
    ensures
        fields[i].align <= max_align(fields),
        exists|j: int|
            0 <= j < fields.len() && #[trigger] fields[j].align == max_align(fields) || max_align(fields)
                == 1,
    decreases fields.len(),
{
    let rest = fields.drop_last();
    let n = fields.len() - 1;
    if rest.len() == 0 {
        assert(max_align(rest) == 1);
        assert(fields[n].align == max_align(fields) || max_align(fields) == 1);
    } else {
        if i < n {
            lemma_max_align(rest, i);
            assert(rest[i] == fields[i]);
        } else {
            lemma_max_align(rest, 0);
        }
        let j = choose|j: int|
            0 <= j < rest.len() && #[trigger] rest[j].align == max_align(rest) || max_align(rest) == 1;
        if fields[n].align > max_align(rest) {
            assert(fields[n].align == max_align(fields));
        } else if max_align(rest) == 1 {
            assert(fields[n].align == max_align(fields) || max_align(fields) == 1);
        } else {
            assert(rest[j] == fields[j]);
            assert(fields[j].align == max_align(fields));
        }
    }
}

} // verus!
