//! Comparison of two versions of a bill of material, component by component.
use vstd::prelude::*;

verus! {

/// One component line of a bill of material, as the comparison reads it.
#[derive(Debug, Clone, Copy, PartialEq, Eq, Structural)]
pub struct BomLine {
    pub product_id: u128,
    pub quantity: i64,
}

/// A bill of material: its identifier and its component lines, in order.
#[derive(Debug, Clone)]
pub struct BomSnapshot {
    pub bom_id: u128,
    pub components: Vec<BomLine>,
}

#[derive(Debug, Clone, Copy, PartialEq, Eq, Structural)]
pub enum ComponentChangeType {
    Added,
    Deleted,
    QuantityChanged,
    Unchanged,
}

#[derive(Debug, Clone, Copy, PartialEq, Eq, Structural)]
pub struct ComponentDiff {
    pub product_id: u128,
    pub change_type: ComponentChangeType,
    pub old_quantity: Option<i64>,
    pub new_quantity: Option<i64>,
}

#[derive(Debug, Clone)]
pub struct BomDiffReport {
    pub source_bom_id: u128,
    pub target_bom_id: u128,
    pub component_changes: Vec<ComponentDiff>,
}

pub struct BomDiffEngine;

/// Some line of `lines` is for product `pid`.
pub open spec fn has_product(lines: Seq<BomLine>, pid: u128) -> bool {
    exists|k: int| 0 <= k < lines.len() && #[trigger] lines[k].product_id == pid
}

/// `j` is the position of the first line of `lines` for product `pid`.
pub open spec fn is_first_match(lines: Seq<BomLine>, pid: u128, j: int) -> bool {
    &&& 0 <= j < lines.len()
    &&& lines[j].product_id == pid
    &&& forall|k: int| 0 <= k < j ==> #[trigger] lines[k].product_id != pid
}

/// The first line of `lines` for product `pid` (meaningful when there is one).
pub open spec fn first_match(lines: Seq<BomLine>, pid: u128) -> BomLine {
    lines[choose|j: int| is_first_match(lines, pid, j)]
}

/// What the report says of one source line, given the target lines.
pub open spec fn source_line_diff(s: BomLine, target: Seq<BomLine>) -> ComponentDiff {
    if has_product(target, s.product_id) {
        let t = first_match(target, s.product_id);
        ComponentDiff {
            product_id: s.product_id,
            change_type: if t.quantity != s.quantity {
                ComponentChangeType::QuantityChanged
            } else {
                ComponentChangeType::Unchanged
            },
            old_quantity: Some(s.quantity),
            new_quantity: Some(t.quantity),
        }
    } else {
        ComponentDiff {
            product_id: s.product_id,
            change_type: ComponentChangeType::Deleted,
            old_quantity: Some(s.quantity),
            new_quantity: None,
        }
    }
}

/// One entry per source line, in source order.
pub open spec fn source_diffs(source: Seq<BomLine>, target: Seq<BomLine>) -> Seq<ComponentDiff> {
    Seq::new(source.len(), |i: int| source_line_diff(source[i], target))
}

pub open spec fn added_diff(t: BomLine) -> ComponentDiff {
    ComponentDiff {
        product_id: t.product_id,
        change_type: ComponentChangeType::Added,
        old_quantity: None,
        new_quantity: Some(t.quantity),
    }
}

/// One `Added` entry per target line whose product the source lacks, in target order.
pub open spec fn added_diffs(source: Seq<BomLine>, target: Seq<BomLine>) -> Seq<ComponentDiff>
    decreases target.len(),
{
    if target.len() == 0 {
        Seq::empty()
    } else {
        let rest = added_diffs(source, target.drop_last());
        if has_product(source, target.last().product_id) {
            rest
        } else {
            rest.push(added_diff(target.last()))
        }
    }
}

/// The full list of changes from `source` to `target`.
pub open spec fn bom_changes(source: Seq<BomLine>, target: Seq<BomLine>) -> Seq<ComponentDiff> {
    source_diffs(source, target) + added_diffs(source, target)
}

proof fn lemma_first_match_unique(lines: Seq<BomLine>, pid: u128, j: int)
    requires
        is_first_match(lines, pid, j),
    ensures
        first_match(lines, pid) == lines[j],
{
    let c = choose|c: int| is_first_match(lines, pid, c);
    assert(is_first_match(lines, pid, c));
    if c < j {
        assert(lines[c].product_id != pid);
    } else if j < c {
        assert(lines[j].product_id != pid);
    }
}


/// Every entry of `added_diffs(s, t)` is an addition.
proof fn lemma_added_diffs_all_added(s: Seq<BomLine>, t: Seq<BomLine>)
    ensures
        forall|i: int| 0 <= i < added_diffs(s, t).len() ==>
            (#[trigger] added_diffs(s, t)[i]).change_type == ComponentChangeType::Added,
    decreases t.len(),
{
    if t.len() > 0 {
        lemma_added_diffs_all_added(s, t.drop_last());
    }
}

/// A product appears among `added_diffs(s, t)` exactly when the target has it
/// and the source does not.
proof fn lemma_added_diffs_member(s: Seq<BomLine>, t: Seq<BomLine>, pid: u128)
    ensures
        (exists|i: int| 0 <= i < added_diffs(s, t).len() && (#[trigger] added_diffs(s, t)[i]).product_id == pid)
            <==> (has_product(t, pid) && !has_product(s, pid)),
    decreases t.len(),
{
    if t.len() > 0 {
        let t0 = t.drop_last();
        lemma_added_diffs_member(s, t0, pid);
        let rest = added_diffs(s, t0);
        let all = added_diffs(s, t);
        let last = t.last();
        let pushed = !has_product(s, last.product_id);
        assert(pushed ==> all == rest.push(added_diff(last)));
        assert(!pushed ==> all == rest);
        if has_product(t, pid) && !has_product(s, pid) {
            let k = choose|k: int| 0 <= k < t.len() && #[trigger] t[k].product_id == pid;
            if k < t.len() - 1 {
                assert(t0[k].product_id == pid);
                assert(has_product(t0, pid));
                let i = choose|i: int| 0 <= i < rest.len() && (#[trigger] rest[i]).product_id == pid;
                assert(all[i] == rest[i]);
            } else {
                assert(pushed);
                assert(all[rest.len() as int].product_id == pid);
            }
        }
        if exists|i: int| 0 <= i < all.len() && (#[trigger] all[i]).product_id == pid {
            let i = choose|i: int| 0 <= i < all.len() && (#[trigger] all[i]).product_id == pid;
            if i < rest.len() {
                assert(rest[i] == all[i]);
                assert(rest[i].product_id == pid);
                let k = choose|k: int| 0 <= k < t0.len() && #[trigger] t0[k].product_id == pid;
                assert(t[k].product_id == pid);
            } else {
                assert(pushed);
                assert(all[i] == added_diff(last));
                assert(t[t.len() - 1].product_id == pid);
            }
        }
    }
}

/// A product is reported `Deleted` exactly when the source has it and the target does not.
proof fn lemma_source_diffs_deleted(s: Seq<BomLine>, t: Seq<BomLine>, pid: u128)
    ensures
        (exists|i: int| 0 <= i < source_diffs(s, t).len()
            && (#[trigger] source_diffs(s, t)[i]).product_id == pid
            && source_diffs(s, t)[i].change_type == ComponentChangeType::Deleted)
            <==> (has_product(s, pid) && !has_product(t, pid)),
{
    if has_product(s, pid) && !has_product(t, pid) {
        let k = choose|k: int| 0 <= k < s.len() && #[trigger] s[k].product_id == pid;
        assert(source_diffs(s, t)[k].product_id == pid);
    }
    if exists|i: int| 0 <= i < source_diffs(s, t).len()
        && (#[trigger] source_diffs(s, t)[i]).product_id == pid
        && source_diffs(s, t)[i].change_type == ComponentChangeType::Deleted {
        let i = choose|i: int| 0 <= i < source_diffs(s, t).len()
            && (#[trigger] source_diffs(s, t)[i]).product_id == pid
            && source_diffs(s, t)[i].change_type == ComponentChangeType::Deleted;
        assert(s[i].product_id == pid);
    }
}

/// Comparing a bill of material with itself reports every component once, in
/// order, and reports nothing as added or deleted; where no product occurs on
/// two lines, every component is reported unchanged.
pub proof fn law_compare_with_itself(b: Seq<BomLine>)
    ensures
        bom_changes(b, b).len() == b.len(),
        forall|i: int| 0 <= i < b.len() ==> {
            &&& (#[trigger] bom_changes(b, b)[i]).product_id == b[i].product_id
            &&& bom_changes(b, b)[i].change_type != ComponentChangeType::Added
            &&& bom_changes(b, b)[i].change_type != ComponentChangeType::Deleted
        },
        (forall|i: int, j: int| 0 <= i < j < b.len() ==> b[i].product_id != b[j].product_id) ==>
            forall|i: int| 0 <= i < b.len() ==>
                (#[trigger] bom_changes(b, b)[i]).change_type == ComponentChangeType::Unchanged,
{
    lemma_added_diffs_all_added(b, b);
    if added_diffs(b, b).len() > 0 {
        let pid = added_diffs(b, b)[0].product_id;
        lemma_added_diffs_member(b, b, pid);
        assert(added_diffs(b, b)[0].product_id == pid);
        let k = choose|k: int| 0 <= k < b.len() && #[trigger] b[k].product_id == pid;
        assert(has_product(b, pid));
    }
    assert forall|i: int| 0 <= i < b.len() implies {
        &&& (#[trigger] bom_changes(b, b)[i]).product_id == b[i].product_id
        &&& bom_changes(b, b)[i].change_type != ComponentChangeType::Added
        &&& bom_changes(b, b)[i].change_type != ComponentChangeType::Deleted
    } by {
        assert(b[i].product_id == b[i].product_id);
        assert(has_product(b, b[i].product_id));
    }
    if forall|i: int, j: int| 0 <= i < j < b.len() ==> b[i].product_id != b[j].product_id {
        assert forall|i: int| 0 <= i < b.len() implies
            (#[trigger] bom_changes(b, b)[i]).change_type == ComponentChangeType::Unchanged by {
            assert(has_product(b, b[i].product_id));
            assert(is_first_match(b, b[i].product_id, i));
            lemma_first_match_unique(b, b[i].product_id, i);
        }
    }
}

/// A product is reported added when going from `a` to `b` exactly when it is
/// reported deleted when going from `b` to `a`.
pub proof fn law_added_mirrors_deleted(a: Seq<BomLine>, b: Seq<BomLine>, pid: u128)
    ensures
        (exists|i: int| 0 <= i < bom_changes(a, b).len()
            && (#[trigger] bom_changes(a, b)[i]).product_id == pid
            && bom_changes(a, b)[i].change_type == ComponentChangeType::Added)
        <==> (exists|i: int| 0 <= i < bom_changes(b, a).len()
            && (#[trigger] bom_changes(b, a)[i]).product_id == pid
            && bom_changes(b, a)[i].change_type == ComponentChangeType::Deleted),
{
    lemma_added_diffs_all_added(a, b);
    lemma_added_diffs_all_added(b, a);
    lemma_added_diffs_member(a, b, pid);
    lemma_added_diffs_member(b, a, pid);
    lemma_source_diffs_deleted(b, a, pid);
    lemma_source_diffs_deleted(a, b, pid);
    let ab = bom_changes(a, b);
    let ba = bom_changes(b, a);
    let sab = source_diffs(a, b);
    let aab = added_diffs(a, b);
    let sba = source_diffs(b, a);
    let aba = added_diffs(b, a);
    // additions in a -> b come only from the added part
    if exists|i: int| 0 <= i < ab.len() && (#[trigger] ab[i]).product_id == pid
        && ab[i].change_type == ComponentChangeType::Added {
        let i = choose|i: int| 0 <= i < ab.len() && (#[trigger] ab[i]).product_id == pid
            && ab[i].change_type == ComponentChangeType::Added;
        if i < sab.len() {
            assert(sab[i] == ab[i]);
            assert(false);
        }
        assert(aab[i - sab.len()] == ab[i]);
        assert(has_product(b, pid) && !has_product(a, pid));
        let j = choose|j: int| 0 <= j < sba.len() && (#[trigger] sba[j]).product_id == pid
            && sba[j].change_type == ComponentChangeType::Deleted;
        assert(ba[j] == sba[j]);
    }
    if exists|i: int| 0 <= i < ba.len() && (#[trigger] ba[i]).product_id == pid
        && ba[i].change_type == ComponentChangeType::Deleted {
        let i = choose|i: int| 0 <= i < ba.len() && (#[trigger] ba[i]).product_id == pid
            && ba[i].change_type == ComponentChangeType::Deleted;
        if i >= sba.len() {
            assert(aba[i - sba.len()] == ba[i]);
            assert(false);
        }
        assert(sba[i] == ba[i]);
        let j = choose|j: int| 0 <= j < aab.len() && (#[trigger] aab[j]).product_id == pid;
        assert(ab[sab.len() + j] == aab[j]);
    }
}

/// Position of the first line of `lines` for `pid`, if any.
fn find_line(lines: &Vec<BomLine>, pid: u128) -> (r: Option<usize>)
    ensures
        match r {
            Some(j) => is_first_match(lines@, pid, j as int),
            None => !has_product(lines@, pid),
        },
{
    let mut j: usize = 0;
    while j < lines.len()
        invariant
            j <= lines.len(),
            forall|k: int| 0 <= k < j ==> #[trigger] lines@[k].product_id != pid,
        decreases lines.len() - j,
    {
        if lines[j].product_id == pid {
            return Some(j);
        }
        j = j + 1;
    }
    None
}

impl BomDiffEngine {
    /// Lists, for every source component, whether the target deletes it, changes
    /// its quantity or keeps it (matched on the first target line of the same
    /// product), then every target component whose product the source lacks.
    pub fn compare(source: &BomSnapshot, target: &BomSnapshot) -> (report: BomDiffReport)
        ensures
            report.source_bom_id == source.bom_id,
            report.target_bom_id == target.bom_id,
            report.component_changes@ == bom_changes(source.components@, target.components@),
    {
        let mut changes: Vec<ComponentDiff> = Vec::new();
        let ghost s = source.components@;
        let ghost t = target.components@;

        let mut i: usize = 0;
        while i < source.components.len()
            invariant
                i <= s.len(),
                s == source.components@,
                t == target.components@,
                changes@ == source_diffs(s, t).take(i as int),
            decreases s.len() - i,
        {
            let sc = source.components[i];
            let d = match find_line(&target.components, sc.product_id) {
                Some(j) => {
                    proof {
                        lemma_first_match_unique(t, sc.product_id, j as int);
                    }
                    let tc = target.components[j];
                    if tc.quantity != sc.quantity {
                        ComponentDiff {
                            product_id: sc.product_id,
                            change_type: ComponentChangeType::QuantityChanged,
                            old_quantity: Some(sc.quantity),
                            new_quantity: Some(tc.quantity),
                        }
                    } else {
                        ComponentDiff {
                            product_id: sc.product_id,
                            change_type: ComponentChangeType::Unchanged,
                            old_quantity: Some(sc.quantity),
                            new_quantity: Some(tc.quantity),
                        }
                    }
                },
                None => ComponentDiff {
                    product_id: sc.product_id,
                    change_type: ComponentChangeType::Deleted,
                    old_quantity: Some(sc.quantity),
                    new_quantity: None,
                },
            };
            assert(d == source_line_diff(s[i as int], t));
            changes.push(d);
            assert(source_diffs(s, t).take(i + 1) =~= source_diffs(s, t).take(i as int).push(d));
            i = i + 1;
        }
        assert(source_diffs(s, t).take(s.len() as int) =~= source_diffs(s, t));

        let ghost prefix = changes@;
        let mut k: usize = 0;
        while k < target.components.len()
            invariant
                k <= t.len(),
                s == source.components@,
                t == target.components@,
                prefix == source_diffs(s, t),
                changes@ == prefix + added_diffs(s, t.take(k as int)),
            decreases t.len() - k,
        {
            let tc = target.components[k];
            assert(t.take(k + 1).drop_last() =~= t.take(k as int));
            assert(t.take(k + 1).last() == tc);
            match find_line(&source.components, tc.product_id) {
                Some(_) => {},
                None => {
                    changes.push(
                        ComponentDiff {
                            product_id: tc.product_id,
                            change_type: ComponentChangeType::Added,
                            old_quantity: None,
                            new_quantity: Some(tc.quantity),
                        },
                    );
                },
            }
            assert(changes@ =~= prefix + added_diffs(s, t.take(k + 1)));
            k = k + 1;
        }
        assert(t.take(t.len() as int) =~= t);

        BomDiffReport {
            source_bom_id: source.bom_id,
            target_bom_id: target.bom_id,
            component_changes: changes,
        }
    }
}

} // verus!
