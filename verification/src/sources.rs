use vstd::prelude::*;

use crate::text::{decimal, decimal_value, lemma_decimal_reads_back, push_decimal};

verus! {

/// The key and value characters of each entry.
pub open spec fn entry_views(entries: Seq<(String, String)>) -> Seq<(Seq<char>, Seq<char>)> {
    entries.map_values(|p: (String, String)| (p.0@, p.1@))
}

/// The map that inserting the entries one after the other gives.
pub open spec fn pairs_map(pairs: Seq<(Seq<char>, Seq<char>)>) -> Map<Seq<char>, Seq<char>>
    decreases pairs.len(),
{
    if pairs.len() == 0 {
        Map::empty()
    } else {
        pairs_map(pairs.drop_last()).insert(pairs.last().0, pairs.last().1)
    }
}

/// No key occurs twice.
pub open spec fn keys_unique(pairs: Seq<(Seq<char>, Seq<char>)>) -> bool {
    forall|i: int, j: int| 0 <= i < pairs.len() && 0 <= j < pairs.len() && i != j ==> #[trigger] pairs[i].0 != #[trigger] pairs[j].0
}

/// With unique keys, the map holds exactly the entries.
proof fn lemma_pairs_map_entries(pairs: Seq<(Seq<char>, Seq<char>)>)
    requires
        keys_unique(pairs),
    ensures
        forall|k: Seq<char>| #[trigger] pairs_map(pairs).contains_key(k) <==> exists|i: int| 0 <= i < pairs.len() && pairs[i].0 == k,
        forall|i: int| 0 <= i < pairs.len() ==> #[trigger] pairs_map(pairs)[pairs[i].0] == pairs[i].1,
    decreases pairs.len(),
{
    if pairs.len() > 0 {
        let init = pairs.drop_last();
        assert(keys_unique(init)) by {
            assert forall|i: int, j: int| 0 <= i < init.len() && 0 <= j < init.len() && i != j implies #[trigger] init[i].0 != #[trigger] init[j].0 by {
                assert(init[i] == pairs[i]);
                assert(init[j] == pairs[j]);
            }
        }
        lemma_pairs_map_entries(init);
        let m = pairs_map(pairs);
        assert forall|k: Seq<char>| #[trigger] m.contains_key(k) <==> exists|i: int| 0 <= i < pairs.len() && pairs[i].0 == k by {
            if m.contains_key(k) && k != pairs.last().0 {
                assert(pairs_map(init).contains_key(k));
                let i = choose|i: int| 0 <= i < init.len() && init[i].0 == k;
                assert(pairs[i] == init[i]);
            }
            if k == pairs.last().0 {
                assert(pairs[pairs.len() - 1].0 == k);
            }
            if exists|i: int| 0 <= i < pairs.len() && pairs[i].0 == k {
                let i = choose|i: int| 0 <= i < pairs.len() && pairs[i].0 == k;
                if i < pairs.len() - 1 {
                    assert(init[i] == pairs[i]);
                    assert(pairs_map(init).contains_key(k));
                }
            }
        }
        assert forall|i: int| 0 <= i < pairs.len() implies #[trigger] m[pairs[i].0] == pairs[i].1 by {
            if i < pairs.len() - 1 {
                assert(init[i] == pairs[i]);
                assert(pairs[i].0 != pairs[pairs.len() - 1].0);
                assert(pairs_map(init)[init[i].0] == init[i].1);
            } else {
                assert(pairs[i] == pairs.last());
            }
        }
    }
}

/// Replacing the value of an existing key is inserting it anew.
proof fn lemma_pairs_map_update(pairs: Seq<(Seq<char>, Seq<char>)>, j: int, v: Seq<char>)
    requires
        keys_unique(pairs),
        0 <= j < pairs.len(),
    ensures
        pairs_map(pairs.update(j, (pairs[j].0, v))) == pairs_map(pairs).insert(pairs[j].0, v),
    decreases pairs.len(),
{
    let k = pairs[j].0;
    let upd = pairs.update(j, (k, v));
    let init = pairs.drop_last();
    if j == pairs.len() - 1 {
        assert(upd.drop_last() =~= init);
        assert(pairs_map(upd) =~= pairs_map(pairs).insert(k, v));
    } else {
        assert(keys_unique(init)) by {
            assert forall|a: int, b: int| 0 <= a < init.len() && 0 <= b < init.len() && a != b implies #[trigger] init[a].0 != #[trigger] init[b].0 by {
                assert(init[a] == pairs[a]);
                assert(init[b] == pairs[b]);
            }
        }
        assert(init[j] == pairs[j]);
        lemma_pairs_map_update(init, j, v);
        assert(upd.drop_last() =~= init.update(j, (k, v)));
        assert(upd.last() == pairs.last());
        assert(pairs.last().0 != k) by {
            assert(pairs[pairs.len() - 1].0 != pairs[j].0);
        }
        assert(pairs_map(upd) =~= pairs_map(pairs).insert(k, v));
    }
}

/// A map from text keys to text values, kept as a vector of entries with
/// unique keys; inserting a present key replaces its value.
#[derive(Debug)]
pub struct StringMap {
    entries: Vec<(String, String)>,
}

impl View for StringMap {
    type V = Map<Seq<char>, Seq<char>>;

    closed spec fn view(&self) -> Map<Seq<char>, Seq<char>> {
        pairs_map(entry_views(self.entries@))
    }
}

impl StringMap {
    /// Every key occurs once.
    #[verifier::type_invariant]
    spec fn unique_keys(&self) -> bool {
        keys_unique(entry_views(self.entries@))
    }

    /// The empty map.
    pub fn new() -> (m: Self)
        ensures
            m@ == Map::<Seq<char>, Seq<char>>::empty(),
    {
        let m = StringMap { entries: Vec::new() };
        assert(entry_views(m.entries@) =~= Seq::<(Seq<char>, Seq<char>)>::empty());
        m
    }

    /// Where `key` is, if present.
    fn find(&self, key: &String) -> (r: Option<usize>)
        ensures
            match r {
                Some(i) => i < self.entries@.len() && self.entries@[i as int].0@ == key@,
                None => forall|i: int| 0 <= i < self.entries@.len() ==> #[trigger] self.entries@[i].0@ != key@,
            },
    {
        let mut i: usize = 0;
        while i < self.entries.len()
            invariant
                i <= self.entries@.len(),
                forall|j: int| 0 <= j < i ==> #[trigger] self.entries@[j].0@ != key@,
            decreases self.entries@.len() - i,
        {
            if self.entries[i].0 == *key {
                return Some(i);
            }
            i = i + 1;
        }
        None
    }

    /// Sets the value of `key` to `value`.
    pub fn insert(&mut self, key: String, value: String)
        ensures
            final(self)@ == old(self)@.insert(key@, value@),
    {
        proof {
            use_type_invariant(&*self);
        }
        let ghost before = entry_views(self.entries@);
        let found = self.find(&key);
        let mut entries: Vec<(String, String)> = Vec::new();
        std::mem::swap(&mut entries, &mut self.entries);
        match found {
            Some(i) => {
                let k = entries[i].0.clone();
                entries.set(i, (k, value));
                proof {
                    assert(before[i as int].0 == key@);
                    lemma_pairs_map_update(before, i as int, value@);
                    assert(entry_views(entries@) =~= before.update(i as int, (key@, value@)));
                }
            },
            None => {
                entries.push((key, value));
                proof {
                    let after = entry_views(entries@);
                    assert(after =~= before.push((key@, value@)));
                    assert(after.drop_last() =~= before);
                    assert forall|a: int, b: int| 0 <= a < after.len() && 0 <= b < after.len() && a != b implies #[trigger] after[a].0 != #[trigger] after[b].0 by {
                        if a < before.len() {
                            assert(after[a] == before[a]);
                            assert(before[a].0 == entries@[a].0@);
                        }
                        if b < before.len() {
                            assert(after[b] == before[b]);
                            assert(before[b].0 == entries@[b].0@);
                        }
                    }
                }
            },
        }
        self.entries = entries;
    }

    /// The value of `key`, if present.
    pub fn get(&self, key: &String) -> (r: Option<String>)
        ensures
            match r {
                Some(v) => self@.contains_key(key@) && self@[key@] == v@,
                None => !self@.contains_key(key@),
            },
    {
        proof {
            use_type_invariant(self);
            lemma_pairs_map_entries(entry_views(self.entries@));
        }
        match self.find(key) {
            Some(i) => {
                assert(entry_views(self.entries@)[i as int].0 == key@);
                Some(self.entries[i].1.clone())
            },
            None => {
                assert forall|i: int| 0 <= i < entry_views(self.entries@).len() implies entry_views(self.entries@)[i].0 != key@ by {
                    assert(self.entries@[i].0@ != key@);
                }
                None
            },
        }
    }

    /// The entries, each key once.
    pub fn into_entries(self) -> (v: Vec<(String, String)>)
        ensures
            keys_unique(entry_views(v@)),
            pairs_map(entry_views(v@)) == self@,
    {
        proof {
            use_type_invariant(&self);
        }
        self.entries
    }
}

/// The map that inserting `pairs` one after the other gives: a key that
/// occurs twice keeps its later value.
pub fn directory_from_pairs(pairs: &Vec<(String, String)>) -> (m: StringMap)
    ensures
        m@ == pairs_map(entry_views(pairs@)),
{
    let mut m = StringMap::new();
    let mut i: usize = 0;
    while i < pairs.len()
        invariant
            i <= pairs@.len(),
                m@ == pairs_map(entry_views(pairs@.take(i as int))),
        decreases pairs@.len() - i,
    {
        proof {
            assert(pairs@.take(i + 1).drop_last() =~= pairs@.take(i as int));
            assert(entry_views(pairs@.take(i + 1)).drop_last() =~= entry_views(pairs@.take(i as int)));
        }
        let k = pairs[i].0.clone();
        let v = pairs[i].1.clone();
        m.insert(k, v);
        i = i + 1;
    }
    assert(pairs@.take(pairs@.len() as int) =~= pairs@);
    m
}

/// An audio input as the sound server lists it.
#[derive(Debug)]
pub struct SourceInfo {
    /// The server's name for the input.
    pub name: String,
    /// A human-readable description, when the server has one.
    pub description: Option<String>,
    /// The server's index of the input.
    pub index: u32,
}

/// The label under which an input is shown: its description, or a
/// placeholder with its index when it has none.
pub open spec fn source_label_of(s: SourceInfo) -> Seq<char> {
    match s.description {
        Some(d) => d@,
        None => "??? [index "@ + decimal(s.index as nat) + "]"@,
    }
}

/// The label under which `source` is shown.
pub fn source_label(source: &SourceInfo) -> (label: String)
    ensures
        label@ == source_label_of(*source),
{
    match &source.description {
        Some(d) => d.clone(),
        None => {
            let mut s = String::from_str("??? [index ");
            push_decimal(&mut s, source.index);
            let s = s.concat("]");
            s
        },
    }
}

/// The map from input name to label, over the inputs in order.
pub open spec fn directory_of(sources: Seq<SourceInfo>) -> Map<Seq<char>, Seq<char>>
    decreases sources.len(),
{
    if sources.len() == 0 {
        Map::empty()
    } else {
        directory_of(sources.drop_last()).insert(sources.last().name@, source_label_of(sources.last()))
    }
}

/// The inputs by name, each with its label; when a name occurs twice, the
/// later input wins.
pub fn source_directory(sources: &Vec<SourceInfo>) -> (m: StringMap)
    ensures
        m@ == directory_of(sources@),
{
    let mut m = StringMap::new();
    let mut i: usize = 0;
    while i < sources.len()
        invariant
            i <= sources@.len(),
                m@ == directory_of(sources@.take(i as int)),
        decreases sources@.len() - i,
    {
        assert(sources@.take(i + 1).drop_last() =~= sources@.take(i as int));
        let label = source_label(&sources[i]);
        m.insert(sources[i].name.clone(), label);
        i = i + 1;
    }
    assert(sources@.take(sources@.len() as int) =~= sources@);
    m
}

/// The map from label to input name, over the inputs.
pub open spec fn choices_of(sources: Seq<SourceInfo>) -> Map<Seq<char>, Seq<char>>
    decreases sources.len(),
{
    if sources.len() == 0 {
        Map::empty()
    } else {
        choices_of(sources.drop_last()).insert(source_label_of(sources.last()), sources.last().name@)
    }
}

/// The labels to offer, in the order of the inputs, and the input name behind
/// each label; when two inputs share a label, the later one wins.
pub fn source_choices(sources: &Vec<SourceInfo>) -> (r: (Vec<String>, StringMap))
    ensures
        r.0@.len() == sources@.len(),
        forall|i: int| 0 <= i < sources@.len() ==> #[trigger] r.0@[i]@ == source_label_of(sources@[i]),
        r.1@ == choices_of(sources@),
{
    let mut labels: Vec<String> = Vec::new();
    let mut m = StringMap::new();
    let mut i: usize = 0;
    while i < sources.len()
        invariant
            i <= sources@.len(),
            labels@.len() == i,
            forall|j: int| 0 <= j < i ==> #[trigger] labels@[j]@ == source_label_of(sources@[j]),
                m@ == choices_of(sources@.take(i as int)),
        decreases sources@.len() - i,
    {
        assert(sources@.take(i + 1).drop_last() =~= sources@.take(i as int));
        let label = source_label(&sources[i]);
        let key = label.clone();
        m.insert(key, sources[i].name.clone());
        labels.push(label);
        i = i + 1;
    }
    assert(sources@.take(sources@.len() as int) =~= sources@);
    (labels, m)
}

/// An input without a description is labelled with its index in decimal,
/// between "??? [index " and "]": the label reads back as the index, so two
/// such inputs with different indices get different labels.
pub proof fn lemma_placeholder_label_shows_index(a: SourceInfo, b: SourceInfo)
    requires
        a.description is None,
        b.description is None,
    ensures
        ({
            let label = source_label_of(a);
            &&& label.len() >= 13
            &&& decimal_value(label.subrange(11, label.len() - 1)) == a.index
        }),
        a.index != b.index ==> source_label_of(a) != source_label_of(b),
{
    reveal_strlit("??? [index ");
    reveal_strlit("]");
    lemma_decimal_reads_back(a.index as nat);
    lemma_decimal_reads_back(b.index as nat);
    let la = source_label_of(a);
    let lb = source_label_of(b);
    assert(la.subrange(11, la.len() - 1) =~= decimal(a.index as nat));
    assert(lb.subrange(11, lb.len() - 1) =~= decimal(b.index as nat));
}

} // verus!
