//! The per-application memo of the strategy that worked last: a bounded map
//! that forgets the entry used least recently.

use vstd::prelude::*;

verus! {

/// How many applications the cache remembers.
pub const CAPACITY: usize = 100;

/// The strategy that last gave an application's selection.
#[derive(Debug, Clone, Copy, PartialEq, Eq, Structural)]
pub enum MethodTag {
    /// Accessibility worked.
    Accessibility,
    /// A clipboard copy was needed.
    ClipboardCopy,
}

impl MethodTag {
    /// The tag as a number: 0 for accessibility, 1 for the clipboard copy.
    pub open spec fn spec_tag(self) -> u8 {
        match self {
            MethodTag::Accessibility => 0,
            MethodTag::ClipboardCopy => 1,
        }
    }

    /// The tag as a number: 0 for accessibility, 1 for the clipboard copy.
    #[verifier::when_used_as_spec(spec_tag)]
    pub fn tag(self) -> (r: u8)
        ensures
            r == self.spec_tag(),
    {
        match self {
            MethodTag::Accessibility => 0,
            MethodTag::ClipboardCopy => 1,
        }
    }

    /// The strategy that a number stands for, where it stands for one.
    pub fn from_tag(tag: u8) -> (r: Option<MethodTag>)
        ensures
            r == (if tag == 0 {
                Some(MethodTag::Accessibility)
            } else if tag == 1 {
                Some(MethodTag::ClipboardCopy)
            } else {
                None
            }),
    {
        if tag == 0 {
            Some(MethodTag::Accessibility)
        } else if tag == 1 {
            Some(MethodTag::ClipboardCopy)
        } else {
            None
        }
    }
}

/// The entries of a cache, from the one used least recently to the one used last.
pub type Entries = Seq<(Seq<char>, MethodTag)>;

/// The position of `app_name` among `entries`, where it has one.
pub open spec fn position(entries: Entries, app_name: Seq<char>) -> Option<int>
    decreases entries.len(),
{
    if entries.len() == 0 {
        None
    } else if entries.last().0 == app_name {
        Some(entries.len() - 1)
    } else {
        position(entries.drop_last(), app_name)
    }
}

/// The tag remembered for `app_name`, where one is.
pub open spec fn lookup(entries: Entries, app_name: Seq<char>) -> Option<MethodTag> {
    match position(entries, app_name) {
        Some(i) => Some(entries[i].1),
        None => None,
    }
}

/// No application has two entries.
pub open spec fn distinct(entries: Entries) -> bool {
    forall|i: int, j: int|
        0 <= i < j < entries.len() ==> (#[trigger] entries[i]).0 != (#[trigger] entries[j]).0
}

/// The entries after `app_name` was looked up: its entry, if it has one, is
/// now the one used last.
pub open spec fn touched(entries: Entries, app_name: Seq<char>) -> Entries {
    match position(entries, app_name) {
        Some(i) => entries.remove(i).push(entries[i]),
        None => entries,
    }
}

/// The entries after `tag` was recorded for `app_name`: the new entry is the
/// one used last; an entry that the application had is replaced, and where
/// there was none and the cache was full, the entry used least recently is gone.
pub open spec fn recorded(entries: Entries, app_name: Seq<char>, tag: MethodTag) -> Entries {
    match position(entries, app_name) {
        Some(i) => entries.remove(i).push((app_name, tag)),
        None => if entries.len() >= CAPACITY {
            entries.drop_first().push((app_name, tag))
        } else {
            entries.push((app_name, tag))
        },
    }
}

/// A position that [`position`] gives holds the key, and no position holds a
/// key that it does not find.
pub proof fn lemma_position(entries: Entries, app_name: Seq<char>)
    ensures
        match position(entries, app_name) {
            Some(i) => 0 <= i < entries.len() && entries[i].0 == app_name && forall|j: int|
                i < j < entries.len() ==> (#[trigger] entries[j]).0 != app_name,
            None => forall|j: int| 0 <= j < entries.len() ==> (#[trigger] entries[j]).0 != app_name,
        },
    decreases entries.len(),
{
    if entries.len() > 0 && entries.last().0 != app_name {
        let init = entries.drop_last();
        lemma_position(init, app_name);
        assert forall|j: int| 0 <= j < entries.len() && (position(init, app_name) matches Some(i)
            ==> i < j) implies (#[trigger] entries[j]).0 != app_name by {
            if j < init.len() {
                assert(init[j] == entries[j]);
            }
        }
    }
}

/// Among distinct entries, the position of a key is wherever the key stands.
pub proof fn lemma_position_at(entries: Entries, i: int)
    requires
        distinct(entries),
        0 <= i < entries.len(),
    ensures
        position(entries, entries[i].0) == Some(i),
{
    lemma_position(entries, entries[i].0);
}

/// The entries that a vector of the cache stands for.
pub open spec fn entries_view(v: Seq<(String, MethodTag)>) -> Entries {
    Seq::new(v.len(), |i: int| (v[i].0@, v[i].1))
}

/// The bounded memo from application name to the strategy that worked last.
#[derive(Debug)]
pub struct MethodCache {
    entries: Vec<(String, MethodTag)>,
}

impl View for MethodCache {
    type V = Entries;

    closed spec fn view(&self) -> Entries {
        entries_view(self.entries@)
    }
}

impl MethodCache {
    #[verifier::type_invariant]
    spec fn inv(&self) -> bool {
        self@.len() <= CAPACITY && distinct(self@)
    }

    /// An empty cache.
    pub fn new() -> (r: MethodCache)
        ensures
            r@ == Entries::empty(),
    {
        let r = MethodCache { entries: Vec::new() };
        assert(r@ =~= Entries::empty());
        r
    }

    /// Makes sure that `slot` holds a cache: one that it holds is kept as it
    /// is, and an empty one is made where it holds none.
    pub fn get_or_init(slot: &mut Option<MethodCache>)
        ensures
            *final(slot) matches Some(cache) && cache@ == (match *old(slot) {
                Some(held) => held@,
                None => Entries::empty(),
            }),
    {
        if slot.is_none() {
            *slot = Some(MethodCache::new());
        }
    }

    /// How many applications are remembered: never more than [`CAPACITY`],
    /// and never one twice.
    pub fn len(&self) -> (r: usize)
        ensures
            r == self@.len(),
            r <= CAPACITY,
            distinct(self@),
    {
        proof {
            use_type_invariant(self);
        }
        self.entries.len()
    }

    /// Whether no application is remembered.
    pub fn is_empty(&self) -> (r: bool)
        ensures
            r == (self@.len() == 0),
    {
        self.entries.len() == 0
    }

    /// Forgets every application.
    pub fn clear(&mut self)
        ensures
            final(self)@ == Entries::empty(),
    {
        *self = MethodCache::new();
    }

    /// The place of `app_name` in the vector, where it has one.
    fn find(entries: &Vec<(String, MethodTag)>, app_name: &String) -> (r: Option<usize>)
        ensures
            match r {
                Some(i) => position(entries_view(entries@), app_name@) == Some(i as int) && i
                    < entries@.len(),
                None => position(entries_view(entries@), app_name@) is None,
            },
    {
        let ghost all = entries_view(entries@);
        let mut i: usize = entries.len();
        assert(all.take(i as int) =~= all);
        while i > 0
            invariant
                i <= entries.len(),
                all == entries_view(entries@),
                position(all, app_name@) == position(all.take(i as int), app_name@),
            decreases i,
        {
            i -= 1;
            assert(all.take(i + 1).drop_last() =~= all.take(i as int));
            if entries[i].0 == *app_name {
                return Some(i);
            }
        }
        None
    }

    /// The tag remembered for `app_name`, without counting as a use.
    pub fn peek(&self, app_name: &String) -> (r: Option<MethodTag>)
        ensures
            r == lookup(self@, app_name@),
    {
        match MethodCache::find(&self.entries, app_name) {
            Some(i) => Some(self.entries[i].1),
            None => None,
        }
    }

    /// Moves the entries out, leaving the cache empty.
    fn take(&mut self) -> (r: Vec<(String, MethodTag)>)
        ensures
            entries_view(r@) == old(self)@,
            entries_view(r@).len() <= CAPACITY,
            distinct(entries_view(r@)),
            final(self)@ == Entries::empty(),
    {
        proof {
            use_type_invariant(&*self);
        }
        let mut taken = MethodCache::new();
        core::mem::swap(self, &mut taken);
        taken.entries
    }

    /// The tag remembered for `app_name`; the entry becomes the one used last.
    pub fn get(&mut self, app_name: &String) -> (r: Option<MethodTag>)
        ensures
            r == lookup(old(self)@, app_name@),
            final(self)@ == touched(old(self)@, app_name@),
    {
        let mut entries = self.take();
        let ghost before = entries_view(entries@);
        let found = match MethodCache::find(&entries, app_name) {
            Some(i) => {
                let entry = entries.remove(i);
                let tag = entry.1;
                entries.push(entry);
                proof {
                    assert(entries_view(entries@) =~= before.remove(i as int).push(
                        before[i as int],
                    ));
                    lemma_touched_distinct(before, app_name@);
                }
                Some(tag)
            },
            None => None,
        };
        *self = MethodCache { entries };
        found
    }

    /// Records `tag` for `app_name`; the entry becomes the one used last.
    pub fn put(&mut self, app_name: String, tag: MethodTag)
        ensures
            final(self)@ == recorded(old(self)@, app_name@, tag),
    {
        let mut entries = self.take();
        let ghost before = entries_view(entries@);
        let ghost key = app_name@;
        match MethodCache::find(&entries, &app_name) {
            Some(i) => {
                entries.remove(i);
                entries.push((app_name, tag));
                proof {
                    assert(entries_view(entries@) =~= before.remove(i as int).push((key, tag)));
                }
            },
            None => {
                if entries.len() >= CAPACITY {
                    entries.remove(0);
                    entries.push((app_name, tag));
                    proof {
                        assert(entries_view(entries@) =~= before.drop_first().push((key, tag)));
                    }
                } else {
                    entries.push((app_name, tag));
                    proof {
                        assert(entries_view(entries@) =~= before.push((key, tag)));
                    }
                }
            },
        }
        proof {
            lemma_recorded_distinct(before, key, tag);
        }
        *self = MethodCache { entries };
    }
}

/// Looking a key up keeps the entries distinct and as many as they were.
pub proof fn lemma_touched_distinct(entries: Entries, app_name: Seq<char>)
    requires
        distinct(entries),
    ensures
        distinct(touched(entries, app_name)),
        touched(entries, app_name).len() == entries.len(),
{
    lemma_position(entries, app_name);
}

/// Recording a tag keeps the entries distinct and within the capacity.
pub proof fn lemma_recorded_distinct(entries: Entries, app_name: Seq<char>, tag: MethodTag)
    requires
        distinct(entries),
        entries.len() <= CAPACITY,
    ensures
        distinct(recorded(entries, app_name, tag)),
        recorded(entries, app_name, tag).len() <= CAPACITY,
{
    lemma_position(entries, app_name);
}

/// A key that no entry holds has no position.
pub proof fn lemma_position_none(entries: Entries, app_name: Seq<char>)
    requires
        forall|j: int| 0 <= j < entries.len() ==> (#[trigger] entries[j]).0 != app_name,
    ensures
        position(entries, app_name) is None,
{
    lemma_position(entries, app_name);
}

/// A tag that was recorded is the tag that is remembered.
pub proof fn lemma_lookup_recorded(entries: Entries, app_name: Seq<char>, tag: MethodTag)
    ensures
        lookup(recorded(entries, app_name, tag), app_name) == Some(tag),
{
    let after = recorded(entries, app_name, tag);
    assert(after.last() == (app_name, tag));
}

/// Looking one application up changes what is remembered for none.
pub proof fn lemma_touched_keeps_lookup(entries: Entries, app_name: Seq<char>, other: Seq<char>)
    requires
        distinct(entries),
    ensures
        lookup(touched(entries, app_name), other) == lookup(entries, other),
{
    let after = touched(entries, app_name);
    lemma_position(entries, app_name);
    lemma_position(entries, other);
    lemma_touched_distinct(entries, app_name);
    match position(entries, app_name) {
        None => {},
        Some(i) => {
            let last = entries.len() - 1;
            match position(entries, other) {
                None => {
                    assert forall|j: int| 0 <= j < after.len() implies (#[trigger] after[j]).0
                        != other by {
                        if j < i {
                            assert(after[j] == entries[j]);
                        } else if j < last {
                            assert(after[j] == entries[j + 1]);
                        } else {
                            assert(after[j] == entries[i]);
                        }
                    }
                    lemma_position_none(after, other);
                },
                Some(k) => {
                    let moved = if k < i {
                        k
                    } else if k == i {
                        last
                    } else {
                        k - 1
                    };
                    assert(after[moved] == entries[k]);
                    lemma_position_at(after, moved);
                },
            }
        },
    }
}

/// Looking an application up and then recording a tag for it leaves the
/// cache as recording the tag alone does.
pub proof fn lemma_touch_then_record(entries: Entries, app_name: Seq<char>, tag: MethodTag)
    requires
        distinct(entries),
    ensures
        recorded(touched(entries, app_name), app_name, tag) == recorded(entries, app_name, tag),
{
    let after = touched(entries, app_name);
    lemma_position(entries, app_name);
    lemma_touched_distinct(entries, app_name);
    match position(entries, app_name) {
        None => {},
        Some(i) => {
            let last = entries.len() - 1;
            assert(after[last] == entries[i]);
            lemma_position_at(after, last);
            assert(after.remove(last) =~= entries.remove(i));
        },
    }
}

/// Recording a tag for an application that a full cache does not hold
/// forgets the entry used least recently, and no other: a later lookup for
/// that application misses, and every other entry is remembered as it was.
pub proof fn lemma_full_cache_evicts(entries: Entries, app_name: Seq<char>, tag: MethodTag)
    requires
        distinct(entries),
        entries.len() == CAPACITY,
        lookup(entries, app_name) is None,
    ensures
        lookup(recorded(entries, app_name, tag), entries[0].0) is None,
        forall|i: int|
            1 <= i < entries.len() ==> lookup(
                recorded(entries, app_name, tag),
                (#[trigger] entries[i]).0,
            ) == Some(entries[i].1),
        recorded(entries, app_name, tag).len() == CAPACITY,
{
    let after = recorded(entries, app_name, tag);
    lemma_position(entries, app_name);
    lemma_recorded_distinct(entries, app_name, tag);
    assert(after =~= entries.drop_first().push((app_name, tag)));
    assert forall|j: int| 0 <= j < after.len() implies (#[trigger] after[j]).0
        != entries[0].0 by {
        if j < after.len() - 1 {
            assert(after[j] == entries[j + 1]);
        }
    }
    lemma_position_none(after, entries[0].0);
    assert forall|i: int| 1 <= i < entries.len() implies lookup(
        after,
        (#[trigger] entries[i]).0,
    ) == Some(entries[i].1) by {
        assert(after[i - 1] == entries[i]);
        lemma_position_at(after, i - 1);
    }
}

/// The entries after each of `names` was queried in turn: looked up, which
/// counts as a use, and then given its tag.
pub open spec fn recorded_all(entries: Entries, names: Seq<Seq<char>>, tags: Seq<MethodTag>) -> Entries
    decreases names.len(),
{
    if names.len() == 0 {
        entries
    } else {
        let before = recorded_all(entries, names.drop_last(), tags.drop_last());
        recorded(touched(before, names.last()), names.last(), tags.last())
    }
}

/// The last `count` entries are those of the last `count` of `names`, in order.
pub open spec fn ends_with(entries: Entries, names: Seq<Seq<char>>, count: int) -> bool {
    &&& 0 <= count <= entries.len()
    &&& count <= names.len()
    &&& forall|j: int|
        0 <= j < count ==> (#[trigger] entries[entries.len() - count + j]).0 == names[names.len()
            - count + j]
}

/// After distinct applications were queried, the cache ends with the entries
/// of the last of them, as many as its capacity admits.
pub proof fn lemma_recorded_all_ends(entries: Entries, names: Seq<Seq<char>>, tags: Seq<MethodTag>)
    requires
        distinct(entries),
        entries.len() <= CAPACITY,
        names.no_duplicates(),
        tags.len() == names.len(),
    ensures
        distinct(recorded_all(entries, names, tags)),
        recorded_all(entries, names, tags).len() <= CAPACITY,
        ends_with(
            recorded_all(entries, names, tags),
            names,
            if names.len() <= CAPACITY {
                names.len() as int
            } else {
                CAPACITY as int
            },
        ),
    decreases names.len(),
{
    if names.len() > 0 {
        let init = names.drop_last();
        let n = init.len() as int;
        let name = names.last();
        let tag = tags.last();
        let before = recorded_all(entries, init, tags.drop_last());
        lemma_recorded_all_ends(entries, init, tags.drop_last());
        lemma_touch_then_record(before, name, tag);
        let m = if n <= CAPACITY {
            n
        } else {
            CAPACITY as int
        };
        let after = recorded(before, name, tag);
        let count = if n + 1 <= CAPACITY {
            n + 1
        } else {
            CAPACITY as int
        };
        lemma_recorded_distinct(before, name, tag);
        lemma_position(before, name);
        // The new name is none of the names that the cache ends with.
        assert forall|j: int| 0 <= j < m implies (#[trigger] before[before.len() - m + j]).0
            != name by {
            assert(init[n - m + j] == names[n - m + j]);
        }
        match position(before, name) {
            Some(i) => {
                if i >= before.len() - m {
                    assert(before[before.len() - m + (i - (before.len() - m))].0 != name);
                }
                assert(i < before.len() - m);
                assert(after =~= before.remove(i).push((name, tag)));
                assert forall|j: int| 0 <= j < count implies (#[trigger] after[after.len() - count
                    + j]).0 == names[names.len() - count + j] by {
                    if j < count - 1 {
                        assert(after[after.len() - count + j] == before[before.len() - m + j]);
                        assert(init[n - m + j] == names[n - m + j]);
                    }
                }
            },
            None => {
                if before.len() >= CAPACITY {
                    assert(after =~= before.drop_first().push((name, tag)));
                    assert forall|j: int| 0 <= j < count implies (#[trigger] after[after.len()
                        - count + j]).0 == names[names.len() - count + j] by {
                        if j < count - 1 {
                            assert(after[after.len() - count + j] == before[before.len() - (count
                                - 1) + j]);
                            assert(before[before.len() - m + (m - (count - 1) + j)].0 == init[n - m
                                + (m - (count - 1) + j)]);
                            assert(init[n - (count - 1) + j] == names[n - (count - 1) + j]);
                        }
                    }
                } else {
                    assert(after =~= before.push((name, tag)));
                    assert forall|j: int| 0 <= j < count implies (#[trigger] after[after.len()
                        - count + j]).0 == names[names.len() - count + j] by {
                        if j < count - 1 {
                            assert(after[after.len() - count + j] == before[before.len() - m + j]);
                            assert(init[n - m + j] == names[n - m + j]);
                        }
                    }
                }
            },
        }
    }
}

/// Once more distinct applications were queried than the cache holds, those
/// queried first are forgotten: a lookup for any but the last [`CAPACITY`] of
/// them misses, and the last [`CAPACITY`] are all remembered.
pub proof fn lemma_beyond_capacity(
    entries: Entries,
    names: Seq<Seq<char>>,
    tags: Seq<MethodTag>,
    i: int,
)
    requires
        distinct(entries),
        entries.len() <= CAPACITY,
        names.no_duplicates(),
        tags.len() == names.len(),
        names.len() > CAPACITY,
        0 <= i < names.len(),
    ensures
        i < names.len() - CAPACITY ==> lookup(recorded_all(entries, names, tags), names[i])
            is None,
        i >= names.len() - CAPACITY ==> lookup(recorded_all(entries, names, tags), names[i])
            is Some,
        recorded_all(entries, names, tags).len() == CAPACITY,
{
    let after = recorded_all(entries, names, tags);
    lemma_recorded_all_ends(entries, names, tags);
    let base = names.len() - CAPACITY;
    if i < base {
        assert forall|j: int| 0 <= j < after.len() implies (#[trigger] after[j]).0 != names[i] by {
            assert(after[after.len() - CAPACITY + j].0 == names[base + j]);
        }
        lemma_position_none(after, names[i]);
    } else {
        assert(after[after.len() - CAPACITY + (i - base)].0 == names[base + (i - base)]);
        lemma_position_at(after, i - base);
    }
}


} // verus!
