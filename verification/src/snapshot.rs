//! The accessibility snapshot returned by `agent-browser snapshot -i`.
use vstd::prelude::*;
use crate::text::{seq_has_infix, str_contains, str_eq};

verus! {

/// The role and accessible name of one referenced element.
#[derive(Debug, Clone)]
pub struct RefInfo {
    pub role: String,
    pub name: String,
}

/// A snapshot: the plain-text tree and the `eN -> RefInfo` references, in the order
/// the snapshot listed them.
#[derive(Debug, Clone)]
pub struct Snapshot {
    pub snapshot: String,
    pub refs: Vec<(String, RefInfo)>,
    pub origin: Option<String>,
}

/// Options of the `snapshot` command.
#[derive(Debug, Clone)]
pub struct SnapshotOpts {
    pub interactive: bool,
    pub cursor: bool,
    pub compact: bool,
    pub depth: Option<u32>,
    pub scope: Option<String>,
}

impl SnapshotOpts {
    /// No option set.
    pub fn new() -> (r: Self)
        ensures
            !r.interactive && !r.cursor && !r.compact && r.depth is None && r.scope is None,
    {
        SnapshotOpts { interactive: false, cursor: false, compact: false, depth: None, scope: None }
    }
}

/// `i` is the first reference whose info satisfies `p`.
pub open spec fn first_ref_where(refs: Seq<(String, RefInfo)>, i: int, p: spec_fn(RefInfo) -> bool) -> bool {
    0 <= i < refs.len() && p(refs[i].1) && forall|j: int| 0 <= j < i ==> !p(#[trigger] refs[j].1)
}

/// The role is exactly `role`.
pub open spec fn has_role(role: Seq<char>) -> spec_fn(RefInfo) -> bool {
    |info: RefInfo| info.role@ == role
}

/// The name contains `needle`.
pub open spec fn name_contains(needle: Seq<char>) -> spec_fn(RefInfo) -> bool {
    |info: RefInfo| seq_has_infix(info.name@, needle)
}

/// No element id occurs twice among the references, as in the map agent-browser sends.
pub open spec fn refs_unique(refs: Seq<(String, RefInfo)>) -> bool {
    forall|i: int, j: int| 0 <= i < j < refs.len() ==> #[trigger] refs[i].0@ != #[trigger] refs[j].0@
}

/// `j` is the last entry that carries `key`.
pub open spec fn last_entry_for(entries: Seq<(String, RefInfo)>, key: Seq<char>, j: int) -> bool {
    0 <= j < entries.len() && entries[j].0@ == key && forall|k: int| j < k < entries.len() ==> #[trigger] entries[k].0@ != key
}

/// Reference `i` carries the info of the last entry with its id.
pub open spec fn ref_from_last(entries: Seq<(String, RefInfo)>, refs: Seq<(String, RefInfo)>, i: int) -> bool {
    exists|j: int| last_entry_for(entries, refs[i].0@, j) && refs[i].1 == entries[j].1
}

/// The id of entry `j` is among the references.
pub open spec fn entry_listed(entries: Seq<(String, RefInfo)>, refs: Seq<(String, RefInfo)>, j: int) -> bool {
    exists|i: int| 0 <= i < refs.len() && refs[i].0@ == entries[j].0@
}

/// The references read from `entries` as a map reads them: each id once, with the info of
/// its last entry, and every id of the entries present.
pub open spec fn refs_from_entries(entries: Seq<(String, RefInfo)>, refs: Seq<(String, RefInfo)>) -> bool {
    &&& refs_unique(refs)
    &&& forall|i: int| 0 <= i < refs.len() ==> #[trigger] ref_from_last(entries, refs, i)
    &&& forall|j: int| 0 <= j < entries.len() ==> #[trigger] entry_listed(entries, refs, j)
}

/// An entry whose id is already among the references replaces that reference's info.
proof fn lemma_entry_replaces(
    pre: Seq<(String, RefInfo)>,
    e: (String, RefInfo),
    old_refs: Seq<(String, RefInfo)>,
    refs: Seq<(String, RefInfo)>,
    i: int,
)
    requires
        refs_from_entries(pre, old_refs),
        0 <= i < old_refs.len(),
        old_refs[i].0@ == e.0@,
        refs.len() == old_refs.len(),
        refs[i].0@ == e.0@,
        refs[i].1 == e.1,
        forall|a: int| 0 <= a < refs.len() && a != i ==> #[trigger] refs[a] == old_refs[a],
    ensures
        refs_from_entries(pre.push(e), refs),
{
    let post = pre.push(e);
    let n = pre.len() as int;
    assert forall|a: int| 0 <= a < refs.len() implies #[trigger] ref_from_last(post, refs, a) by {
        if a == i {
            assert(last_entry_for(post, refs[a].0@, n));
        } else {
            assert(refs[a] == old_refs[a]);
            assert(ref_from_last(pre, old_refs, a));
            let j = choose|j: int| last_entry_for(pre, old_refs[a].0@, j) && old_refs[a].1 == pre[j].1;
            assert(old_refs[a].0@ != old_refs[i].0@);
            assert(post[j] == pre[j]);
            assert(last_entry_for(post, refs[a].0@, j));
        }
    }
    assert forall|j: int| 0 <= j < post.len() implies #[trigger] entry_listed(post, refs, j) by {
        if j < n {
            assert(post[j] == pre[j]);
            assert(entry_listed(pre, old_refs, j));
            let a = choose|a: int| 0 <= a < old_refs.len() && old_refs[a].0@ == pre[j].0@;
            if a == i {
                assert(refs[i].0@ == old_refs[i].0@);
            } else {
                assert(refs[a] == old_refs[a]);
            }
            assert(refs[a].0@ == post[j].0@);
        } else {
            assert(refs[i].0@ == post[j].0@);
        }
    }
    assert forall|a: int, b: int| 0 <= a < b < refs.len() implies #[trigger] refs[a].0@ != #[trigger] refs[b].0@ by {
        assert(refs[a].0@ == old_refs[a].0@);
        assert(refs[b].0@ == old_refs[b].0@);
    }
}

/// An entry with a new id is added as the last reference.
proof fn lemma_entry_adds(
    pre: Seq<(String, RefInfo)>,
    e: (String, RefInfo),
    old_refs: Seq<(String, RefInfo)>,
    refs: Seq<(String, RefInfo)>,
)
    requires
        refs_from_entries(pre, old_refs),
        forall|k: int| 0 <= k < old_refs.len() ==> (#[trigger] old_refs[k]).0@ != e.0@,
        refs.len() == old_refs.len() + 1,
        forall|a: int| 0 <= a < old_refs.len() ==> #[trigger] refs[a] == old_refs[a],
        refs[old_refs.len() as int].0@ == e.0@,
        refs[old_refs.len() as int].1 == e.1,
    ensures
        refs_from_entries(pre.push(e), refs),
{
    let post = pre.push(e);
    let n = pre.len() as int;
    let m = old_refs.len() as int;
    assert forall|a: int| 0 <= a < refs.len() implies #[trigger] ref_from_last(post, refs, a) by {
        if a == m {
            assert(last_entry_for(post, refs[a].0@, n));
        } else {
            assert(refs[a] == old_refs[a]);
            assert(ref_from_last(pre, old_refs, a));
            let j = choose|j: int| last_entry_for(pre, old_refs[a].0@, j) && old_refs[a].1 == pre[j].1;
            assert(old_refs[a].0@ != e.0@);
            assert(post[j] == pre[j]);
            assert(last_entry_for(post, refs[a].0@, j));
        }
    }
    assert forall|j: int| 0 <= j < post.len() implies #[trigger] entry_listed(post, refs, j) by {
        if j < n {
            assert(post[j] == pre[j]);
            assert(entry_listed(pre, old_refs, j));
            let a = choose|a: int| 0 <= a < old_refs.len() && old_refs[a].0@ == pre[j].0@;
            assert(refs[a] == old_refs[a]);
        } else {
            assert(refs[m].0@ == post[j].0@);
        }
    }
    assert forall|a: int, b: int| 0 <= a < b < refs.len() implies #[trigger] refs[a].0@ != #[trigger] refs[b].0@ by {
        assert(refs[a] == old_refs[a]);
        if b < m {
            assert(refs[b] == old_refs[b]);
        }
    }
}

impl RefInfo {
    /// An equal copy.
    pub fn duplicate(&self) -> (r: Self)
        ensures
            r == *self,
    {
        RefInfo { role: self.role.clone(), name: self.name.clone() }
    }
}

impl Snapshot {
    /// Same text, same references in the same order, same origin.
    pub open spec fn same_as(self, other: Snapshot) -> bool {
        self.snapshot == other.snapshot && self.refs@ == other.refs@ && self.origin == other.origin
    }

    /// Each element id occurs once among the references.
    pub open spec fn wf(self) -> bool {
        refs_unique(self.refs@)
    }

    /// A snapshot whose references are read from `entries` as a map reads them: a later
    /// entry for an id replaces the info of an earlier one.
    pub fn from_entries(snapshot: String, entries: Vec<(String, RefInfo)>, origin: Option<String>) -> (r: Self)
        ensures
            r.wf(),
            refs_from_entries(entries@, r.refs@),
            r.snapshot == snapshot,
            r.origin == origin,
    {
        let mut refs: Vec<(String, RefInfo)> = Vec::new();
        let mut n: usize = 0;
        while n < entries.len()
            invariant
                n <= entries@.len(),
                refs_from_entries(entries@.take(n as int), refs@),
            decreases entries@.len() - n,
        {
            let ghost pre = entries@.take(n as int);
            let ghost post = entries@.take(n + 1);
            let ghost old_refs = refs@;
            assert(post =~= pre.push(entries@[n as int]));
            let key = entries[n].0.as_str();
            let info = entries[n].1.duplicate();
            let mut i: usize = 0;
            while i < refs.len()
                invariant
                    i <= refs@.len(),
                    refs@ == old_refs,
                    forall|k: int| 0 <= k < i ==> (#[trigger] refs@[k]).0@ != key@,
                ensures
                    i <= refs@.len(),
                    refs@ == old_refs,
                    forall|k: int| 0 <= k < i ==> (#[trigger] refs@[k]).0@ != key@,
                    i < refs@.len() ==> refs@[i as int].0@ == key@,
                decreases refs@.len() - i,
            {
                if str_eq(refs[i].0.as_str(), key) {
                    break;
                }
                i = i + 1;
            }
            if i < refs.len() {
                let k = refs[i].0.clone();
                refs.set(i, (k, info));
                proof {
                    lemma_entry_replaces(pre, entries@[n as int], old_refs, refs@, i as int);
                }
            } else {
                refs.push((String::from_str(key), info));
                proof {
                    lemma_entry_adds(pre, entries@[n as int], old_refs, refs@);
                }
            }
            n = n + 1;
        }
        assert(entries@.take(entries@.len() as int) =~= entries@);
        Snapshot { snapshot, refs, origin }
    }

    /// A copy with the same contents.
    pub fn duplicate(&self) -> (r: Self)
        ensures
            r.same_as(*self),
    {
        let mut refs: Vec<(String, RefInfo)> = Vec::new();
        let mut i: usize = 0;
        while i < self.refs.len()
            invariant
                i <= self.refs@.len(),
                refs@ == self.refs@.subrange(0, i as int),
            decreases self.refs@.len() - i,
        {
            let e = &self.refs[i];
            refs.push((e.0.clone(), e.1.duplicate()));
            assert(refs@ =~= self.refs@.subrange(0, i + 1));
            i = i + 1;
        }
        assert(refs@ =~= self.refs@);
        let origin = match &self.origin {
            Some(o) => Some(o.clone()),
            None => None,
        };
        Snapshot { snapshot: self.snapshot.clone(), refs, origin }
    }

    /// The first element whose role is `role`.
    pub fn find_by_role(&self, role: &str) -> (r: Option<(&str, &RefInfo)>)
        ensures
            r matches Some((k, info)) ==> exists|i: int|
                first_ref_where(self.refs@, i, has_role(role@)) && k@ == self.refs@[i].0@ && *info
                    == self.refs@[i].1,
            r is None ==> forall|i: int| 0 <= i < self.refs@.len() ==> !has_role(role@)(#[trigger] self.refs@[i].1),
    {
        let mut i: usize = 0;
        while i < self.refs.len()
            invariant
                i <= self.refs@.len(),
                forall|j: int| 0 <= j < i ==> !has_role(role@)(#[trigger] self.refs@[j].1),
            decreases self.refs@.len() - i,
        {
            if str_eq(self.refs[i].1.role.as_str(), role) {
                let e = &self.refs[i];
                assert(first_ref_where(self.refs@, i as int, has_role(role@)));
                return Some((e.0.as_str(), &e.1));
            }
            i = i + 1;
        }
        None
    }

    /// The first element whose name contains `needle`.
    pub fn find_by_name_contains(&self, needle: &str) -> (r: Option<(&str, &RefInfo)>)
        ensures
            r matches Some((k, info)) ==> exists|i: int|
                first_ref_where(self.refs@, i, name_contains(needle@)) && k@ == self.refs@[i].0@ && *info
                    == self.refs@[i].1,
            r is None ==> forall|i: int|
                0 <= i < self.refs@.len() ==> !name_contains(needle@)(#[trigger] self.refs@[i].1),
    {
        let mut i: usize = 0;
        while i < self.refs.len()
            invariant
                i <= self.refs@.len(),
                forall|j: int| 0 <= j < i ==> !name_contains(needle@)(#[trigger] self.refs@[j].1),
            decreases self.refs@.len() - i,
        {
            if str_contains(self.refs[i].1.name.as_str(), needle) {
                let e = &self.refs[i];
                assert(first_ref_where(self.refs@, i as int, name_contains(needle@)));
                return Some((e.0.as_str(), &e.1));
            }
            i = i + 1;
        }
        None
    }
}

} // verus!
