//! Samples: one raw value per entity, with every entity named once.
//!
//! A collector may list the same entity twice (one volume under two mount
//! points, or the same volume in two successive enumerations). Wherever
//! entries are brought together the last entry for an id wins.

use vstd::prelude::*;
use crate::metric::MetricKind;

verus! {

/// One entity's raw value, with the name the collector gave the entity.
#[derive(Debug, PartialEq, Eq)]
pub struct Entity {
    pub id: Vec<u8>,
    pub value: u64,
}

impl View for Entity {
    type V = (Seq<u8>, u64);

    /// The id and the value.
    open spec fn view(&self) -> (Seq<u8>, u64) {
        (self.id@, self.value)
    }
}

/// The entries of a vector of entities, each as its id and value.
pub open spec fn model(entries: Seq<Entity>) -> Seq<(Seq<u8>, u64)> {
    Seq::new(entries.len(), |i: int| entries[i]@)
}

/// No two entries have the same id.
pub open spec fn distinct_ids(s: Seq<(Seq<u8>, u64)>) -> bool {
    forall|i: int, j: int| 0 <= i < j < s.len() ==> (#[trigger] s[i]).0 != (#[trigger] s[j]).0
}

/// No entry after the `i`-th has its id.
pub open spec fn is_last(s: Seq<(Seq<u8>, u64)>, i: int) -> bool {
    forall|j: int| i < j < s.len() ==> (#[trigger] s[j]).0 != s[i].0
}

/// Of the first `n` entries of `s`, those that no later entry of `s`
/// supersedes, in their order.
pub open spec fn last_wins_upto(s: Seq<(Seq<u8>, u64)>, n: int) -> Seq<(Seq<u8>, u64)>
    decreases n,
{
    if n <= 0 {
        Seq::empty()
    } else {
        let kept = last_wins_upto(s, n - 1);
        if is_last(s, n - 1) {
            kept.push(s[n - 1])
        } else {
            kept
        }
    }
}

/// The entries of `s` that no later entry supersedes, in their order: for
/// every id the last entry that names it.
pub open spec fn last_wins(s: Seq<(Seq<u8>, u64)>) -> Seq<(Seq<u8>, u64)> {
    last_wins_upto(s, s.len() as int)
}

/// The value of the last entry of `s` named `id`, if there is one.
pub open spec fn latest(s: Seq<(Seq<u8>, u64)>, id: Seq<u8>) -> Option<u64>
    decreases s.len(),
{
    if s.len() == 0 {
        None
    } else if s.last().0 == id {
        Some(s.last().1)
    } else {
        latest(s.drop_last(), id)
    }
}

/// An entry is kept exactly if it is the last of its id.
pub proof fn lemma_last_wins_upto_contains(s: Seq<(Seq<u8>, u64)>, n: int, e: (Seq<u8>, u64))
    requires
        0 <= n <= s.len(),
    ensures
        last_wins_upto(s, n).contains(e) <==> exists|i: int|
            0 <= i < n && #[trigger] s[i] == e && is_last(s, i),
    decreases n,
{
    if n > 0 {
        lemma_last_wins_upto_contains(s, n - 1, e);
        let kept = last_wins_upto(s, n - 1);
        if is_last(s, n - 1) {
            let r = kept.push(s[n - 1]);
            if exists|i: int| 0 <= i < n && #[trigger] s[i] == e && is_last(s, i) {
                let i = choose|i: int| 0 <= i < n && #[trigger] s[i] == e && is_last(s, i);
                if i < n - 1 {
                    let k = choose|k: int| 0 <= k < kept.len() && kept[k] == e;
                    assert(r[k] == e);
                } else {
                    assert(r[kept.len() as int] == e);
                }
            }
        }
    }
}

/// What is kept names no id twice.
pub proof fn lemma_last_wins_upto_distinct(s: Seq<(Seq<u8>, u64)>, n: int)
    requires
        0 <= n <= s.len(),
    ensures
        distinct_ids(last_wins_upto(s, n)),
    decreases n,
{
    if n > 0 {
        lemma_last_wins_upto_distinct(s, n - 1);
        let kept = last_wins_upto(s, n - 1);
        if is_last(s, n - 1) {
            let r = kept.push(s[n - 1]);
            assert forall|i: int, j: int| 0 <= i < j < r.len() implies (#[trigger] r[i]).0 != (
            #[trigger] r[j]).0 by {
                if j == kept.len() {
                    lemma_last_wins_upto_contains(s, n - 1, kept[i]);
                }
            }
        }
    }
}

/// Deduplication leaves a sample in which every id is named once.
pub proof fn lemma_last_wins_distinct(s: Seq<(Seq<u8>, u64)>)
    ensures
        distinct_ids(last_wins(s)),
{
    lemma_last_wins_upto_distinct(s, s.len() as int);
}

/// What `latest` finds is the last entry of its id, and it finds nothing only
/// where no entry has the id.
pub proof fn lemma_latest(s: Seq<(Seq<u8>, u64)>, id: Seq<u8>)
    ensures
        match latest(s, id) {
            Some(v) => exists|i: int| 0 <= i < s.len() && #[trigger] s[i] == (id, v) && is_last(s, i),
            None => forall|i: int| 0 <= i < s.len() ==> (#[trigger] s[i]).0 != id,
        },
    decreases s.len(),
{
    if s.len() > 0 {
        let n = s.len() - 1;
        if s.last().0 != id {
            let t = s.drop_last();
            lemma_latest(t, id);
            match latest(t, id) {
                Some(v) => {
                    let i = choose|i: int|
                        0 <= i < t.len() && #[trigger] t[i] == (id, v) && is_last(t, i);
                    assert forall|j: int| i < j < s.len() implies (#[trigger] s[j]).0
                        != s[i].0 by {
                        if j < n {
                            assert(t[j].0 != t[i].0);
                        }
                    }
                },
                None => {
                    assert forall|i: int| 0 <= i < s.len() implies (#[trigger] s[i]).0 != id by {
                        if i < n {
                            assert(t[i].0 != id);
                        }
                    }
                },
            }
        }
    }
}

/// In a sequence that names an id once, `latest` finds that one entry.
pub proof fn lemma_latest_of_distinct(s: Seq<(Seq<u8>, u64)>, k: int)
    requires
        distinct_ids(s),
        0 <= k < s.len(),
    ensures
        latest(s, s[k].0) == Some(s[k].1),
{
    let id = s[k].0;
    lemma_latest(s, id);
    if let Some(v) = latest(s, id) {
        let i = choose|i: int| 0 <= i < s.len() && #[trigger] s[i] == (id, v) && is_last(s, i);
        assert(i == k);
    }
}

/// Last seen wins: after deduplication every id has the value that the last
/// entry naming it had before, and no id appears that was not there.
pub proof fn lemma_last_wins_keeps_latest(s: Seq<(Seq<u8>, u64)>, id: Seq<u8>)
    ensures
        latest(last_wins(s), id) == latest(s, id),
{
    let r = last_wins(s);
    let n = s.len() as int;
    lemma_last_wins_distinct(s);
    lemma_latest(s, id);
    lemma_latest(r, id);
    match latest(s, id) {
        Some(v) => {
            lemma_last_wins_upto_contains(s, n, (id, v));
            let k = choose|k: int| 0 <= k < r.len() && r[k] == (id, v);
            lemma_latest_of_distinct(r, k);
        },
        None => {
            if let Some(w) = latest(r, id) {
                lemma_last_wins_upto_contains(s, n, (id, w));
            }
        },
    }
}

/// Where every id is named once already, deduplication changes nothing.
pub proof fn lemma_last_wins_of_distinct(s: Seq<(Seq<u8>, u64)>)
    requires
        distinct_ids(s),
    ensures
        last_wins(s) == s,
{
    lemma_last_wins_upto_of_distinct(s, s.len() as int);
}

/// Of entries with distinct ids, all of the first `n` are kept.
proof fn lemma_last_wins_upto_of_distinct(s: Seq<(Seq<u8>, u64)>, n: int)
    requires
        distinct_ids(s),
        0 <= n <= s.len(),
    ensures
        last_wins_upto(s, n) == s.take(n),
    decreases n,
{
    if n > 0 {
        lemma_last_wins_upto_of_distinct(s, n - 1);
        assert(is_last(s, n - 1));
    }
}

/// Deduplication keeps at least one entry of a sequence that has one, and
/// never more than there were.
pub proof fn lemma_last_wins_len(s: Seq<(Seq<u8>, u64)>)
    ensures
        last_wins(s).len() <= s.len(),
        s.len() > 0 ==> last_wins(s).len() > 0,
{
    lemma_last_wins_upto_len(s, s.len() as int);
}

/// Of the first `n` entries at most `n` are kept.
proof fn lemma_last_wins_upto_len(s: Seq<(Seq<u8>, u64)>, n: int)
    requires
        0 <= n <= s.len(),
    ensures
        last_wins_upto(s, n).len() <= n,
    decreases n,
{
    if n > 0 {
        lemma_last_wins_upto_len(s, n - 1);
    }
}

/// Whether two ids are the same bytes.
pub fn same_id(a: &Vec<u8>, b: &Vec<u8>) -> (r: bool)
    ensures
        r == (a@ == b@),
{
    if a.len() != b.len() {
        return false;
    }
    let mut i: usize = 0;
    while i < a.len()
        invariant
            i <= a.len(),
            a.len() == b.len(),
            forall|k: int| 0 <= k < i ==> a@[k] == b@[k],
        decreases a.len() - i,
    {
        if a[i] != b[i] {
            return false;
        }
        i = i + 1;
    }
    assert(a@ =~= b@);
    true
}

/// A fresh vector of the same bytes.
pub fn copy_id(id: &Vec<u8>) -> (r: Vec<u8>)
    ensures
        r@ == id@,
{
    let mut r: Vec<u8> = Vec::new();
    let mut i: usize = 0;
    while i < id.len()
        invariant
            i <= id.len(),
            r@ == id@.take(i as int),
        decreases id.len() - i,
    {
        r.push(id[i]);
        i = i + 1;
    }
    r
}

/// Whether an entry after the `i`-th has its id.
fn superseded(entries: &Vec<Entity>, i: usize) -> (r: bool)
    requires
        i < entries.len(),
    ensures
        r == !is_last(model(entries@), i as int),
{
    let ghost s = model(entries@);
    let mut j: usize = i + 1;
    while j < entries.len()
        invariant
            i < j <= entries.len(),
            s == model(entries@),
            forall|k: int| i < k < j ==> (#[trigger] s[k]).0 != s[i as int].0,
        decreases entries.len() - j,
    {
        if same_id(&entries[j].id, &entries[i].id) {
            assert(s[j as int].0 == s[i as int].0);
            return true;
        }
        j = j + 1;
    }
    false
}

/// One raw value per entity, every entity named once, for one metric kind.
#[derive(Debug, PartialEq, Eq)]
pub struct PerEntitySample {
    kind: MetricKind,
    entries: Vec<Entity>,
}

impl PerEntitySample {
    /// Every entity is named once.
    #[verifier::type_invariant]
    spec fn ids_are_distinct(self) -> bool {
        distinct_ids(model(self.entries@))
    }

    /// The entries, each as its id and value.
    pub closed spec fn view(&self) -> Seq<(Seq<u8>, u64)> {
        model(self.entries@)
    }

    /// The kind of metric that the values are readings for.
    pub closed spec fn spec_kind(&self) -> MetricKind {
        self.kind
    }

    /// The sample of `kind` made of `entries`, where an entry supersedes every
    /// earlier one with its id.
    pub fn collect(kind: MetricKind, entries: Vec<Entity>) -> (sample: PerEntitySample)
        ensures
            sample.spec_kind() == kind,
            sample@ == last_wins(model(entries@)),
            distinct_ids(sample@),
    {
        let ghost s = model(entries@);
        let mut kept: Vec<Entity> = Vec::new();
        let mut i: usize = 0;
        while i < entries.len()
            invariant
                i <= entries.len(),
                s == model(entries@),
                model(kept@) == last_wins_upto(s, i as int),
            decreases entries.len() - i,
        {
            if !superseded(&entries, i) {
                kept.push(Entity { id: copy_id(&entries[i].id), value: entries[i].value });
            }
            i = i + 1;
        }
        proof {
            lemma_last_wins_distinct(s);
        }
        PerEntitySample { kind, entries: kept }
    }

    /// This sample with the entries of `later` brought in: an entity that both
    /// name has the value that `later` gives it. The result is of this
    /// sample's kind.
    pub fn merge(&self, later: &PerEntitySample) -> (merged: PerEntitySample)
        ensures
            merged.spec_kind() == self.spec_kind(),
            merged@ == last_wins(self@ + later@),
            distinct_ids(merged@),
    {
        let mut all: Vec<Entity> = Vec::new();
        let mut i: usize = 0;
        while i < self.entries.len()
            invariant
                i <= self.entries.len(),
                model(all@) == model(self.entries@).take(i as int),
            decreases self.entries.len() - i,
        {
            let e = Entity { id: copy_id(&self.entries[i].id), value: self.entries[i].value };
            let ghost before = all@;
            all.push(e);
            assert(model(all@) =~= model(before).push(model(self.entries@)[i as int]));
            i = i + 1;
        }
        let mut j: usize = 0;
        while j < later.entries.len()
            invariant
                j <= later.entries.len(),
                model(all@) == model(self.entries@) + model(later.entries@).take(j as int),
            decreases later.entries.len() - j,
        {
            let e = Entity { id: copy_id(&later.entries[j].id), value: later.entries[j].value };
            let ghost before = all@;
            all.push(e);
            assert(model(all@) =~= model(before).push(model(later.entries@)[j as int]));
            j = j + 1;
        }
        assert(model(all@) =~= self@ + later@);
        PerEntitySample::collect(self.kind, all)
    }

    /// The kind of metric that the values are readings for.
    pub fn kind(&self) -> (kind: MetricKind)
        ensures
            kind == self.spec_kind(),
    {
        self.kind
    }

    /// The number of entities.
    pub fn len(&self) -> (n: usize)
        ensures
            n == self@.len(),
    {
        self.entries.len()
    }

    /// Whether the sample names no entity.
    pub fn is_empty(&self) -> (b: bool)
        ensures
            b == (self@.len() == 0),
    {
        self.entries.len() == 0
    }

    /// The entries as they stand, every id named once.
    pub fn entries(&self) -> (entries: &Vec<Entity>)
        ensures
            model(entries@) == self@,
            distinct_ids(self@),
    {
        proof {
            use_type_invariant(self);
        }
        &self.entries
    }

    /// The value recorded for the entity named `id`, if the sample names it.
    pub fn lookup(&self, id: &Vec<u8>) -> (found: Option<u64>)
        ensures
            found == latest(self@, id@),
            match found {
                Some(v) => self@.contains((id@, v)),
                None => forall|i: int| 0 <= i < self@.len() ==> (#[trigger] self@[i]).0 != id@,
            },
    {
        proof {
            use_type_invariant(self);
        }
        let ghost s = self@;
        let mut i: usize = 0;
        while i < self.entries.len()
            invariant
                i <= self.entries.len(),
                s == model(self.entries@),
                distinct_ids(s),
                forall|k: int| 0 <= k < i ==> (#[trigger] s[k]).0 != id@,
            decreases self.entries.len() - i,
        {
            if same_id(&self.entries[i].id, id) {
                proof {
                    lemma_latest_of_distinct(s, i as int);
                }
                return Some(self.entries[i].value);
            }
            i = i + 1;
        }
        proof {
            lemma_latest(s, id@);
        }
        None
    }
}

} // verus!
