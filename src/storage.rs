//! Records kept between runs: completed orders and configured projects.
use vstd::prelude::*;

verus! {

/// A completed purchase.
pub struct HistoryItem {
    pub order_id: String,
    pub project_name: String,
    pub price: u32,
    pub time: String,
    pub pay_url: String,
}

/// A project as configured for purchase; an empty `sku_id` marks a project
/// that was viewed but not configured.
pub struct ProjectConfig {
    pub project_id: String,
    pub project_name: String,
    pub screen_id: String,
    pub screen_name: String,
    pub sku_id: String,
    pub sku_name: String,
    pub price: u32,
}

/// A generic entry of the project: viewed, not configured.
pub open spec fn is_generic_of(p: ProjectConfig, project_id: Seq<char>) -> bool {
    p.project_id@ == project_id && p.sku_id@.len() == 0
}

/// A configured entry of the project.
pub open spec fn is_specific_of(p: ProjectConfig, project_id: Seq<char>) -> bool {
    p.project_id@ == project_id && p.sku_id@.len() > 0
}

/// The most project entries kept.
pub const PROJECT_HISTORY_LIMIT: usize = 100;

/// At most the first `n` entries.
pub open spec fn first_n<T>(s: Seq<T>, n: nat) -> Seq<T> {
    if s.len() > n { s.subrange(0, n as int) } else { s }
}

/// The project list after `item` is recorded. A generic item replaces the
/// project's generic entry and goes first, unless the project already has a
/// configured entry. A configured item replaces any entry of its SKU and the
/// project's generic entry, and goes first. At most a hundred entries stay.
pub open spec fn with_project(history: Seq<ProjectConfig>, item: ProjectConfig) -> Seq<ProjectConfig> {
    let pid = item.project_id@;
    let kept = if item.sku_id@.len() == 0 {
        let rest = history.filter(|p: ProjectConfig| !is_generic_of(p, pid));
        if exists|i: int| 0 <= i < rest.len() && is_specific_of(#[trigger] rest[i], pid) {
            rest
        } else {
            seq![item] + rest
        }
    } else {
        seq![item] + history.filter(|p: ProjectConfig| p.sku_id@ != item.sku_id@).filter(
            |p: ProjectConfig| !is_generic_of(p, pid),
        )
    };
    first_n(kept, PROJECT_HISTORY_LIMIT as nat)
}

fn is_empty_text(s: &String) -> (r: bool)
    ensures
        r == (s@.len() == 0),
{
    s.as_str().unicode_len() == 0
}

fn clone_config(p: &ProjectConfig) -> (r: ProjectConfig)
    ensures
        r == *p,
{
    ProjectConfig {
        project_id: p.project_id.clone(),
        project_name: p.project_name.clone(),
        screen_id: p.screen_id.clone(),
        screen_name: p.screen_name.clone(),
        sku_id: p.sku_id.clone(),
        sku_name: p.sku_name.clone(),
        price: p.price,
    }
}

/// The entries other than the project's generic one.
fn without_generic(history: &Vec<ProjectConfig>, pid: &String) -> (r: Vec<ProjectConfig>)
    ensures
        r@ == history@.filter(|p: ProjectConfig| !is_generic_of(p, pid@)),
{
    let ghost pred = |p: ProjectConfig| !is_generic_of(p, pid@);
    let mut out: Vec<ProjectConfig> = Vec::new();
    let mut i: usize = 0;
    while i < history.len()
        invariant
            pred == (|p: ProjectConfig| !is_generic_of(p, pid@)),
            i <= history@.len(),
            out@ == history@.subrange(0, i as int).filter(pred),
        decreases history@.len() - i,
    {
        let p = &history[i];
        proof {
            let whole = history@.subrange(0, i + 1);
            assert(whole.drop_last() =~= history@.subrange(0, i as int));
            assert(whole.last() == history@[i as int]);
            reveal(Seq::filter);
            assert(whole.filter(pred) == if pred(history@[i as int]) {
                history@.subrange(0, i as int).filter(pred).push(history@[i as int])
            } else {
                history@.subrange(0, i as int).filter(pred)
            });
        }
        if !(p.project_id == *pid && is_empty_text(&p.sku_id)) {
            out.push(clone_config(p));
        }
        i += 1;
    }
    assert(history@.subrange(0, i as int) =~= history@);
    out
}

/// The entries of another SKU.
fn without_sku(history: &Vec<ProjectConfig>, sku: &String) -> (r: Vec<ProjectConfig>)
    ensures
        r@ == history@.filter(|p: ProjectConfig| p.sku_id@ != sku@),
{
    let ghost pred = |p: ProjectConfig| p.sku_id@ != sku@;
    let mut out: Vec<ProjectConfig> = Vec::new();
    let mut i: usize = 0;
    while i < history.len()
        invariant
            pred == (|p: ProjectConfig| p.sku_id@ != sku@),
            i <= history@.len(),
            out@ == history@.subrange(0, i as int).filter(pred),
        decreases history@.len() - i,
    {
        let p = &history[i];
        proof {
            let whole = history@.subrange(0, i + 1);
            assert(whole.drop_last() =~= history@.subrange(0, i as int));
            assert(whole.last() == history@[i as int]);
            reveal(Seq::filter);
            assert(whole.filter(pred) == if pred(history@[i as int]) {
                history@.subrange(0, i as int).filter(pred).push(history@[i as int])
            } else {
                history@.subrange(0, i as int).filter(pred)
            });
        }
        if p.sku_id != *sku {
            out.push(clone_config(p));
        }
        i += 1;
    }
    assert(history@.subrange(0, i as int) =~= history@);
    out
}

/// Whether the project has a configured entry.
fn has_specific(history: &Vec<ProjectConfig>, pid: &String) -> (r: bool)
    ensures
        r == exists|i: int| 0 <= i < history@.len() && is_specific_of(#[trigger] history@[i], pid@),
{
    let mut i: usize = 0;
    while i < history.len()
        invariant
            i <= history@.len(),
            forall|j: int| 0 <= j < i ==> !is_specific_of(#[trigger] history@[j], pid@),
        decreases history@.len() - i,
    {
        if history[i].project_id == *pid && !is_empty_text(&history[i].sku_id) {
            return true;
        }
        i += 1;
    }
    false
}

/// `item`, when there is one, ahead of `rest`.
pub open spec fn with_head(item: Option<ProjectConfig>, rest: Seq<ProjectConfig>) -> Seq<ProjectConfig> {
    match item {
        Some(x) => seq![x] + rest,
        None => rest,
    }
}

/// `item` first, then `rest`, cut to the limit.
fn front_then(item: Option<ProjectConfig>, rest: Vec<ProjectConfig>) -> (r: Vec<ProjectConfig>)
    ensures
        r@ == first_n(with_head(item, rest@), PROJECT_HISTORY_LIMIT as nat),
{
    let ghost whole = with_head(item, rest@);
    let ghost head: int = if item is Some { 1 } else { 0 };
    let mut out: Vec<ProjectConfig> = Vec::new();
    if let Some(x) = item {
        out.push(x);
    }
    let mut i: usize = 0;
    while i < rest.len() && out.len() < PROJECT_HISTORY_LIMIT
        invariant
            i <= rest@.len(),
            out@.len() <= PROJECT_HISTORY_LIMIT,
            whole.len() == rest@.len() + head,
            forall|k: int| 0 <= k < rest@.len() ==> whole[k + head] == rest@[k],
            out@ == whole.subrange(0, out@.len() as int),
            out@.len() == i + head,
        decreases rest@.len() - i,
    {
        out.push(clone_config(&rest[i]));
        i += 1;
        assert(out@ =~= whole.subrange(0, out@.len() as int));
    }
    assert(out@ =~= first_n(whole, PROJECT_HISTORY_LIMIT as nat));
    out
}

/// Records `item` in the project list, by the rules of [`with_project`].
pub fn insert_project_config(history: Vec<ProjectConfig>, item: ProjectConfig) -> (r: Vec<ProjectConfig>)
    ensures
        r@ == with_project(history@, item),
{
    let pid = item.project_id.clone();
    if is_empty_text(&item.sku_id) {
        let rest = without_generic(&history, &pid);
        if has_specific(&rest, &pid) {
            front_then(None, rest)
        } else {
            front_then(Some(item), rest)
        }
    } else {
        let other_skus = without_sku(&history, &item.sku_id);
        let rest = without_generic(&other_skus, &pid);
        front_then(Some(item), rest)
    }
}

/// Removes every entry of the project and SKU.
pub fn remove_project_config(history: Vec<ProjectConfig>, project_id: &String, sku_id: &String) -> (r: Vec<ProjectConfig>)
    ensures
        r@ == history@.filter(
            |p: ProjectConfig| !(p.project_id@ == project_id@ && p.sku_id@ == sku_id@),
        ),
{
    let ghost pred = |p: ProjectConfig| !(p.project_id@ == project_id@ && p.sku_id@ == sku_id@);
    let mut out: Vec<ProjectConfig> = Vec::new();
    let mut i: usize = 0;
    while i < history.len()
        invariant
            pred == (|p: ProjectConfig| !(p.project_id@ == project_id@ && p.sku_id@ == sku_id@)),
            i <= history@.len(),
            out@ == history@.subrange(0, i as int).filter(pred),
        decreases history@.len() - i,
    {
        let p = &history[i];
        proof {
            let whole = history@.subrange(0, i + 1);
            assert(whole.drop_last() =~= history@.subrange(0, i as int));
            assert(whole.last() == history@[i as int]);
            reveal(Seq::filter);
            assert(whole.filter(pred) == if pred(history@[i as int]) {
                history@.subrange(0, i as int).filter(pred).push(history@[i as int])
            } else {
                history@.subrange(0, i as int).filter(pred)
            });
        }
        if !(p.project_id == *project_id && p.sku_id == *sku_id) {
            out.push(clone_config(p));
        }
        i += 1;
    }
    assert(history@.subrange(0, i as int) =~= history@);
    out
}

/// Adds a completed order to the front of the order history.
pub fn prepend_history(history: Vec<HistoryItem>, item: HistoryItem) -> (r: Vec<HistoryItem>)
    ensures
        r@ == seq![item] + history@,
{
    let mut h = history;
    h.insert(0, item);
    assert(h@ =~= seq![item] + history@);
    h
}

proof fn lemma_filter_member<A>(s: Seq<A>, pred: spec_fn(A) -> bool, i: int)
    requires
        0 <= i < s.filter(pred).len(),
    ensures
        s.contains(s.filter(pred)[i]),
    decreases s.len(),
{
    reveal(Seq::filter);
    let sub = s.drop_last().filter(pred);
    if pred(s.last()) && i == sub.len() {
        assert(s[s.len() - 1] == s.filter(pred)[i]);
    } else {
        lemma_filter_member(s.drop_last(), pred, i);
        let j = choose|j: int| 0 <= j < s.drop_last().len() && s.drop_last()[j] == sub[i];
        assert(s[j] == s.filter(pred)[i]);
    }
}

/// The project list keeps its rules. It holds at most a hundred entries. A
/// configured item comes first, and no other entry has its SKU or is its
/// project's generic entry. A generic item comes first when the project has
/// no configured entry; when it has one, the list holds no generic entry of
/// the project; either way, no other generic entry of the project remains.
pub proof fn lemma_project_list_rules(history: Seq<ProjectConfig>, item: ProjectConfig)
    ensures
        ({
            let r = with_project(history, item);
            let pid = item.project_id@;
            &&& r.len() <= PROJECT_HISTORY_LIMIT
            &&& item.sku_id@.len() > 0 ==> r[0] == item
            &&& item.sku_id@.len() > 0 ==> forall|i: int|
                1 <= i < r.len() ==> (#[trigger] r[i]).sku_id@ != item.sku_id@ && !is_generic_of(r[i], pid)
            &&& item.sku_id@.len() == 0 ==> forall|i: int|
                0 <= i < r.len() && is_generic_of(#[trigger] r[i], pid) ==> i == 0 && r[0] == item
            &&& item.sku_id@.len() == 0 && (forall|i: int|
                0 <= i < history.len() ==> !is_specific_of(#[trigger] history[i], pid)) ==> r[0] == item
            &&& item.sku_id@.len() == 0 && (exists|i: int|
                0 <= i < history.len() && is_specific_of(#[trigger] history[i], pid)) ==> forall|i: int|
                0 <= i < r.len() ==> !is_generic_of(#[trigger] r[i], pid)
        }),
{
    let pid = item.project_id@;
    let not_generic = |p: ProjectConfig| !is_generic_of(p, pid);
    let other_sku = |p: ProjectConfig| p.sku_id@ != item.sku_id@;
    let r = with_project(history, item);
    if item.sku_id@.len() > 0 {
        let f1 = history.filter(other_sku);
        let f2 = f1.filter(not_generic);
        let kept = seq![item] + f2;
        assert forall|i: int| 1 <= i < r.len() implies (#[trigger] r[i]).sku_id@ != item.sku_id@
            && !is_generic_of(r[i], pid) by {
            assert(r[i] == kept[i]);
            assert(kept[i] == f2[i - 1]);
            f1.lemma_filter_pred(not_generic, i - 1);
            lemma_filter_member(f1, not_generic, i - 1);
            let k = choose|k: int| 0 <= k < f1.len() && f1[k] == f2[i - 1];
            history.lemma_filter_pred(other_sku, k);
        }
    } else {
        let rest = history.filter(not_generic);
        assert forall|i: int| 0 <= i < rest.len() implies !is_generic_of(#[trigger] rest[i], pid) by {
            history.lemma_filter_pred(not_generic, i);
        }
        if exists|i: int| 0 <= i < history.len() && is_specific_of(#[trigger] history[i], pid) {
            let k = choose|k: int| 0 <= k < history.len() && is_specific_of(#[trigger] history[k], pid);
            history.lemma_filter_contains(not_generic, k);
            let j = choose|j: int| 0 <= j < rest.len() && rest[j] == history[k];
            assert(is_specific_of(rest[j], pid));
        }
        if !exists|i: int| 0 <= i < rest.len() && is_specific_of(#[trigger] rest[i], pid) {
            assert forall|i: int| 1 <= i < r.len() implies !is_generic_of(#[trigger] r[i], pid) by {
                assert(r[i] == (seq![item] + rest)[i]);
                assert((seq![item] + rest)[i] == rest[i - 1]);
            }
        } else {
            let j = choose|j: int| 0 <= j < rest.len() && is_specific_of(#[trigger] rest[j], pid);
            lemma_filter_member(history, not_generic, j);
            assert forall|i: int| 0 <= i < r.len() implies !is_generic_of(#[trigger] r[i], pid) by {
                assert(r[i] == rest[i]);
            }
        }
    }
}

} // verus!
