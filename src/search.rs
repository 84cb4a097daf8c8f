use vstd::prelude::*;
use vstd::utf8::encode_utf8;

use crate::filter::{decimal, push_decimal, Filter, FilterView, FILTER_KINDS};

verus! {

/// A filter group as a mathematical value: one slot per filter kind.
pub type Slots = Seq<Option<FilterView>>;

/// The view of a group's storage.
pub open spec fn slots_view(v: Seq<Option<Filter>>) -> Slots {
    v.map_values(|o: Option<Filter>|
        match o {
            Some(f) => Some(f@),
            None => None,
        })
}

/// A group with one slot per kind, each empty or holding a filter of its kind.
pub open spec fn well_placed(g: Slots) -> bool {
    &&& g.len() == FILTER_KINDS
    &&& forall|i: int| 0 <= i < g.len() && (#[trigger] g[i]) is Some ==> g[i].unwrap().kind() == i
}

/// A group with no filter.
pub open spec fn no_filters() -> Slots {
    Seq::new(FILTER_KINDS as nat, |i: int| None)
}

/// The group with `f` in its kind's slot, whatever was there before.
pub open spec fn put(g: Slots, f: FilterView) -> Slots {
    g.update(f.kind() as int, Some(f))
}

/// Each slot of `theirs` that holds a filter replaces that slot of `mine`.
pub open spec fn overlay(mine: Slots, theirs: Slots) -> Slots {
    Seq::new(
        mine.len(),
        |i: int|
            if theirs[i] is Some {
                theirs[i]
            } else {
                mine[i]
            },
    )
}

/// The number of filters in a group.
pub open spec fn count(g: Slots) -> nat
    decreases g.len(),
{
    if g.len() == 0 {
        0
    } else {
        count(g.drop_last()) + if g.last() is Some {
            1nat
        } else {
            0nat
        }
    }
}

/// The fragments of a group's filters, in slot order.
pub open spec fn encode_slots(g: Slots) -> Seq<u8>
    decreases g.len(),
{
    if g.len() == 0 {
        Seq::empty()
    } else {
        encode_slots(g.drop_last()) + match g.last() {
            Some(f) => f.encode(),
            None => Seq::empty(),
        }
    }
}

/// A negated group on the wire: nothing when it is empty, else its name, its
/// number of filters in decimal, and its filters' fragments.
pub open spec fn section(name: Seq<u8>, g: Slots) -> Seq<u8> {
    if count(g) == 0 {
        Seq::empty()
    } else {
        name + decimal(count(g)) + encode_slots(g)
    }
}

/// The three filter groups of a search.
pub struct SearchFiltersView {
    /// Every one of these must hold of a server.
    pub normal: Slots,
    /// At least one of these must fail.
    pub nand: Slots,
    /// All of these must fail.
    pub nor: Slots,
}

impl SearchFiltersView {
    pub open spec fn wf(self) -> bool {
        well_placed(self.normal) && well_placed(self.nand) && well_placed(self.nor)
    }

    /// The wire payload: the plain group, the `nand` and `nor` sections, a zero byte.
    pub open spec fn encode(self) -> Seq<u8> {
        encode_slots(self.normal) + section(encode_utf8("nand"@), self.nand) + section(
            encode_utf8("nor"@),
            self.nor,
        ) + seq![0u8]
    }
}

/// Query search filters, in three groups with at most one filter of each kind.
///
/// ```
/// use gamedig::filter::Filter;
/// use gamedig::search::SearchFilters;
///
/// let search_filters = SearchFilters::new()
///     .insert(Filter::RunsAppID(440))
///     .insert(Filter::IsEmpty(false))
///     .insert(Filter::CanHavePassword(false));
/// ```
#[derive(Debug, Clone)]
pub struct SearchFilters {
    filters: Vec<Option<Filter>>,
    nor_filters: Vec<Option<Filter>>,
    nand_filters: Vec<Option<Filter>>,
}

impl View for SearchFilters {
    type V = SearchFiltersView;

    closed spec fn view(&self) -> SearchFiltersView {
        SearchFiltersView {
            normal: slots_view(self.filters@),
            nand: slots_view(self.nand_filters@),
            nor: slots_view(self.nor_filters@),
        }
    }
}

/// A group with every slot empty.
fn empty_slots() -> (r: Vec<Option<Filter>>)
    ensures
        slots_view(r@) == no_filters(),
{
    let mut slots: Vec<Option<Filter>> = Vec::new();
    let mut i: usize = 0;
    while i < FILTER_KINDS
        invariant
            i <= FILTER_KINDS,
            slots@.len() == i,
            forall|j: int| 0 <= j < i ==> (#[trigger] slots@[j]) is None,
        decreases FILTER_KINDS - i,
    {
        slots.push(None);
        i = i + 1;
    }
    assert(slots_view(slots@) =~= no_filters());
    slots
}

/// Puts `f` in its kind's slot.
fn put_slot(slots: &mut Vec<Option<Filter>>, f: Filter)
    requires
        well_placed(slots_view(old(slots)@)),
    ensures
        slots_view(final(slots)@) == put(slots_view(old(slots)@), f@),
{
    let k = f.kind_index();
    let ghost fv = f@;
    slots.set(k, Some(f));
    assert(slots_view(slots@) =~= put(slots_view(old(slots)@), fv));
}

/// Copies each filter of `theirs` over the slot of its kind in `mine`.
fn overlay_slots(mine: &mut Vec<Option<Filter>>, theirs: &Vec<Option<Filter>>)
    requires
        well_placed(slots_view(old(mine)@)),
        well_placed(slots_view(theirs@)),
    ensures
        slots_view(final(mine)@) == overlay(slots_view(old(mine)@), slots_view(theirs@)),
{
    let ghost start = slots_view(mine@);
    let ghost other = slots_view(theirs@);
    let mut i: usize = 0;
    while i < FILTER_KINDS
        invariant
            i <= FILTER_KINDS,
            theirs@.len() == FILTER_KINDS,
            mine@.len() == FILTER_KINDS,
            start.len() == FILTER_KINDS,
            other == slots_view(theirs@),
            forall|j: int| 0 <= j < i ==> #[trigger] slots_view(mine@)[j] == overlay(start, other)[j],
            forall|j: int| i <= j < FILTER_KINDS ==> #[trigger] slots_view(mine@)[j] == start[j],
        decreases FILTER_KINDS - i,
    {
        let ghost before = slots_view(mine@);
        if let Some(f) = &theirs[i] {
            let copy = f.duplicate();
            mine.set(i, Some(copy));
            assert(slots_view(mine@) =~= before.update(i as int, other[i as int]));
        } else {
            assert(overlay(start, other)[i as int] == start[i as int]);
        }
        i = i + 1;
    }
    assert(slots_view(mine@) =~= overlay(start, other));
}

/// Appends the fragments of a group's filters.
fn push_slots(out: &mut Vec<u8>, slots: &Vec<Option<Filter>>)
    ensures
        final(out)@ == old(out)@ + encode_slots(slots_view(slots@)),
{
    let mut i: usize = 0;
    while i < slots.len()
        invariant
            i <= slots@.len(),
            out@ == old(out)@ + encode_slots(slots_view(slots@.subrange(0, i as int))),
        decreases slots@.len() - i,
    {
        let ghost prefix = slots_view(slots@.subrange(0, i + 1));
        assert(prefix.drop_last() =~= slots_view(slots@.subrange(0, i as int)));
        if let Some(f) = &slots[i] {
            let fragment = f.to_bytes();
            out.extend_from_slice(fragment.as_slice());
        }
        i = i + 1;
        assert(out@ =~= old(out)@ + encode_slots(slots_view(slots@.subrange(0, i as int))));
    }
    assert(slots@.subrange(0, i as int) =~= slots@);
}

/// The number of filters in a group.
fn count_slots(slots: &Vec<Option<Filter>>) -> (r: usize)
    ensures
        r == count(slots_view(slots@)),
{
    let mut n: usize = 0;
    let mut i: usize = 0;
    while i < slots.len()
        invariant
            i <= slots@.len(),
            n == count(slots_view(slots@.subrange(0, i as int))),
            n <= i,
        decreases slots@.len() - i,
    {
        let ghost prefix = slots_view(slots@.subrange(0, i + 1));
        assert(prefix.drop_last() =~= slots_view(slots@.subrange(0, i as int)));
        if slots[i].is_some() {
            n = n + 1;
        }
        i = i + 1;
    }
    assert(slots@.subrange(0, i as int) =~= slots@);
    n
}

/// Whether two groups hold the same filters, slot for slot.
fn slots_equal(a: &Vec<Option<Filter>>, b: &Vec<Option<Filter>>) -> (r: bool)
    ensures
        r == (slots_view(a@) == slots_view(b@)),
{
    if a.len() != b.len() {
        assert(slots_view(a@).len() != slots_view(b@).len());
        return false;
    }
    let mut i: usize = 0;
    while i < a.len()
        invariant
            a@.len() == b@.len(),
            i <= a@.len(),
            forall|j: int| 0 <= j < i ==> #[trigger] slots_view(a@)[j] == slots_view(b@)[j],
        decreases a@.len() - i,
    {
        let same = match (&a[i], &b[i]) {
            (Some(f), Some(g)) => f.same_as(g),
            (None, None) => true,
            _ => false,
        };
        if !same {
            assert(slots_view(a@)[i as int] != slots_view(b@)[i as int]);
            return false;
        }
        i = i + 1;
    }
    assert(slots_view(a@) =~= slots_view(b@));
    true
}

impl SearchFilters {
    /// The groups' contents are well placed.
    pub open spec fn wf(self) -> bool {
        self@.wf()
    }

    /// Three empty groups.
    pub fn new() -> (r: SearchFilters)
        ensures
            r.wf(),
            r@.normal == no_filters(),
            r@.nand == no_filters(),
            r@.nor == no_filters(),
    {
        SearchFilters { filters: empty_slots(), nor_filters: empty_slots(), nand_filters: empty_slots() }
    }

    /// Takes every filter of `others`, group by group, over the filter of the same kind here.
    pub fn merge_all(self, others: SearchFilters) -> (r: SearchFilters)
        requires
            self.wf(),
            others.wf(),
        ensures
            r.wf(),
            r@.normal == overlay(self@.normal, others@.normal),
            r@.nand == overlay(self@.nand, others@.nand),
            r@.nor == overlay(self@.nor, others@.nor),
    {
        let mut updated = self.merge_normals(&others);
        updated = updated.merge_nors(&others);
        updated = updated.merge_nands(&others);
        updated
    }

    /// Takes every filter of `others`' plain group over the filter of the same kind here.
    pub fn merge_normals(self, others: &SearchFilters) -> (r: SearchFilters)
        requires
            self.wf(),
            others.wf(),
        ensures
            r.wf(),
            r@.normal == overlay(self@.normal, others@.normal),
            r@.nand == self@.nand,
            r@.nor == self@.nor,
    {
        let SearchFilters { filters, nor_filters, nand_filters } = self;
        let mut updated = filters;
        overlay_slots(&mut updated, &others.filters);
        SearchFilters { filters: updated, nor_filters, nand_filters }
    }

    /// Puts `filter` in the plain group, in place of any filter of its kind there.
    pub fn insert(self, filter: Filter) -> (r: SearchFilters)
        requires
            self.wf(),
        ensures
            r.wf(),
            r@.normal == put(self@.normal, filter@),
            r@.nand == self@.nand,
            r@.nor == self@.nor,
    {
        let SearchFilters { filters, nor_filters, nand_filters } = self;
        let mut updated = filters;
        put_slot(&mut updated, filter);
        SearchFilters { filters: updated, nor_filters, nand_filters }
    }

    /// Takes every filter of `others`' `nand` group over the filter of the same kind here.
    pub fn merge_nands(self, others: &SearchFilters) -> (r: SearchFilters)
        requires
            self.wf(),
            others.wf(),
        ensures
            r.wf(),
            r@.normal == self@.normal,
            r@.nand == overlay(self@.nand, others@.nand),
            r@.nor == self@.nor,
    {
        let SearchFilters { filters, nor_filters, nand_filters } = self;
        let mut updated = nand_filters;
        overlay_slots(&mut updated, &others.nand_filters);
        SearchFilters { filters, nor_filters, nand_filters: updated }
    }

    /// Puts `filter` in the `nand` group, in place of any filter of its kind there.
    pub fn insert_nand(self, filter: Filter) -> (r: SearchFilters)
        requires
            self.wf(),
        ensures
            r.wf(),
            r@.normal == self@.normal,
            r@.nand == put(self@.nand, filter@),
            r@.nor == self@.nor,
    {
        let SearchFilters { filters, nor_filters, nand_filters } = self;
        let mut updated = nand_filters;
        put_slot(&mut updated, filter);
        SearchFilters { filters, nor_filters, nand_filters: updated }
    }

    /// Takes every filter of `others`' `nor` group over the filter of the same kind here.
    pub fn merge_nors(self, others: &SearchFilters) -> (r: SearchFilters)
        requires
            self.wf(),
            others.wf(),
        ensures
            r.wf(),
            r@.normal == self@.normal,
            r@.nand == self@.nand,
            r@.nor == overlay(self@.nor, others@.nor),
    {
        let SearchFilters { filters, nor_filters, nand_filters } = self;
        let mut updated = nor_filters;
        overlay_slots(&mut updated, &others.nor_filters);
        SearchFilters { filters, nor_filters: updated, nand_filters }
    }

    /// Puts `filter` in the `nor` group, in place of any filter of its kind there.
    pub fn insert_nor(self, filter: Filter) -> (r: SearchFilters)
        requires
            self.wf(),
        ensures
            r.wf(),
            r@.normal == self@.normal,
            r@.nand == self@.nand,
            r@.nor == put(self@.nor, filter@),
    {
        let SearchFilters { filters, nor_filters, nand_filters } = self;
        let mut updated = nor_filters;
        put_slot(&mut updated, filter);
        SearchFilters { filters, nor_filters: updated, nand_filters }
    }

    /// Appends a negated group: its name, its number of filters and their
    /// fragments, or nothing when it is empty.
    fn special_filter_to_bytes(out: &mut Vec<u8>, name: &str, slots: &Vec<Option<Filter>>)
        requires
            slots@.len() == FILTER_KINDS,
        ensures
            final(out)@ == old(out)@ + section(encode_utf8(name@), slots_view(slots@)),
    {
        let n = count_slots(slots);
        if n > 0 {
            out.extend_from_slice(name.as_bytes());
            push_decimal(out, n as u64);
            push_slots(out, slots);
            assert(final(out)@ =~= old(out)@ + section(encode_utf8(name@), slots_view(slots@)));
        } else {
            assert(final(out)@ =~= old(out)@ + section(encode_utf8(name@), slots_view(slots@)));
        }
    }

    /// The wire payload of the search.
    pub fn to_bytes(&self) -> (r: Vec<u8>)
        requires
            self.wf(),
        ensures
            r@ == self@.encode(),
    {
        let mut bytes: Vec<u8> = Vec::new();
        push_slots(&mut bytes, &self.filters);
        SearchFilters::special_filter_to_bytes(&mut bytes, "nand", &self.nand_filters);
        SearchFilters::special_filter_to_bytes(&mut bytes, "nor", &self.nor_filters);
        bytes.push(0);
        assert(bytes@ =~= self@.encode());
        bytes
    }
}

impl Default for SearchFilters {
    fn default() -> (r: SearchFilters)
        ensures
            r.wf(),
            r@.normal == no_filters(),
            r@.nand == no_filters(),
            r@.nor == no_filters(),
    {
        SearchFilters::new()
    }
}

impl PartialEq for SearchFilters {
    fn eq(&self, other: &SearchFilters) -> (r: bool) {
        slots_equal(&self.filters, &other.filters) && slots_equal(&self.nand_filters, &other.nand_filters)
            && slots_equal(&self.nor_filters, &other.nor_filters)
    }
}

impl vstd::std_specs::cmp::PartialEqSpecImpl for SearchFilters {
    open spec fn obeys_eq_spec() -> bool {
        true
    }

    open spec fn eq_spec(&self, other: &SearchFilters) -> bool {
        self@ == other@
    }
}

/// A group whose slots are all empty has no filter and encodes to nothing.
proof fn lemma_empty_slots(g: Slots)
    requires
        forall|i: int| 0 <= i < g.len() ==> (#[trigger] g[i]) is None,
    ensures
        count(g) == 0,
        encode_slots(g) == Seq::<u8>::empty(),
    decreases g.len(),
{
    if g.len() > 0 {
        lemma_empty_slots(g.drop_last());
    }
}

/// A group whose only filter is `f`, in slot `k`, counts one and encodes to `f`'s fragment.
proof fn lemma_single_slot(g: Slots, k: int, f: FilterView)
    requires
        0 <= k < g.len(),
        g[k] == Some(f),
        forall|i: int| 0 <= i < g.len() && i != k ==> (#[trigger] g[i]) is None,
    ensures
        count(g) == 1,
        encode_slots(g) == f.encode(),
    decreases g.len(),
{
    if k == g.len() - 1 {
        lemma_empty_slots(g.drop_last());
        assert(encode_slots(g) =~= f.encode());
    } else {
        lemma_single_slot(g.drop_last(), k, f);
    }
}

/// Of two filters of one kind put in a group, only the later stays.
pub proof fn insert_keeps_latest(g: Slots, first: FilterView, second: FilterView)
    requires
        well_placed(g),
        first.kind() == second.kind(),
    ensures
        put(put(g, first), second) == put(g, second),
        put(put(g, first), second)[second.kind() as int] == Some(second),
{
    assert(put(put(g, first), second) =~= put(g, second));
}

/// A search with no filter in any group encodes to the single zero byte.
pub proof fn empty_search_encodes_to_terminator(s: SearchFiltersView)
    requires
        s.normal == no_filters(),
        s.nand == no_filters(),
        s.nor == no_filters(),
    ensures
        s.encode() == seq![0u8],
{
    lemma_empty_slots(no_filters());
    assert(s.encode() =~= seq![0u8]);
}

/// With one filter in the `nand` group and none in the `nor` group, the
/// payload holds `nand1` followed by that filter's fragment, and no `nor`
/// section.
pub proof fn single_nand_section(s: SearchFiltersView, f: FilterView)
    requires
        s.wf(),
        s.nand == put(no_filters(), f),
        count(s.nor) == 0,
    ensures
        section(encode_utf8("nor"@), s.nor) == Seq::<u8>::empty(),
        s.encode() == encode_slots(s.normal) + encode_utf8("nand"@) + seq![49u8] + f.encode()
            + seq![0u8],
{
    let k = f.kind() as int;
    assert(forall|i: int| 0 <= i < s.nand.len() && i != k ==> (#[trigger] s.nand[i]) is None);
    lemma_single_slot(s.nand, k, f);
    assert(decimal(1) =~= seq![49u8]);
    assert(s.encode() =~= encode_slots(s.normal) + encode_utf8("nand"@) + seq![49u8] + f.encode()
        + seq![0u8]);
}

} // verus!
