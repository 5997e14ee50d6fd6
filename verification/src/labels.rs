use vstd::prelude::*;

verus! {

/// The mathematical contents of a list of label entries: later entries
/// shadow earlier ones, but a well-formed `LabelMap` never holds a key twice.
pub open spec fn map_of(entries: Seq<(String, String)>) -> Map<Seq<char>, Seq<char>>
    decreases entries.len(),
{
    if entries.len() == 0 {
        Map::empty()
    } else {
        map_of(entries.drop_last()).insert(entries.last().0@, entries.last().1@)
    }
}

/// No two entries share a key.
pub open spec fn unique_keys(entries: Seq<(String, String)>) -> bool {
    forall|i: int, j: int|
        0 <= i < j < entries.len() ==> entries[i].0@ != entries[j].0@
}

/// A set of labels attached to a metric: string keys mapped to string
/// values, with each key held at most once and insertion order retained.
pub struct LabelMap {
    entries: Vec<(String, String)>,
}

impl View for LabelMap {
    type V = Map<Seq<char>, Seq<char>>;

    closed spec fn view(&self) -> Map<Seq<char>, Seq<char>> {
        map_of(self.entries@)
    }
}

/// A key of `entries` is exactly a key of `map_of(entries)`.
pub proof fn lemma_map_of_contains(entries: Seq<(String, String)>, k: Seq<char>)
    ensures
        map_of(entries).contains_key(k) <==> (exists|i: int|
            0 <= i < entries.len() && entries[i].0@ == k),
    decreases entries.len(),
{
    if entries.len() == 0 {
    } else {
        lemma_map_of_contains(entries.drop_last(), k);
        if entries.last().0@ == k {
            assert(entries[entries.len() - 1].0@ == k);
        } else {
            if exists|i: int| 0 <= i < entries.len() && entries[i].0@ == k {
                let i = choose|i: int| 0 <= i < entries.len() && entries[i].0@ == k;
                assert(entries.drop_last()[i].0@ == k);
            }
            if exists|i: int| 0 <= i < entries.drop_last().len() && entries.drop_last()[i].0@
                == k {
                let i = choose|i: int|
                    0 <= i < entries.drop_last().len() && entries.drop_last()[i].0@ == k;
                assert(entries[i].0@ == k);
            }
        }
    }
}

/// With unique keys, the entry at `i` gives the value `map_of` holds for its key.
pub proof fn lemma_map_of_get(entries: Seq<(String, String)>, i: int)
    requires
        unique_keys(entries),
        0 <= i < entries.len(),
    ensures
        map_of(entries).contains_key(entries[i].0@),
        map_of(entries)[entries[i].0@] == entries[i].1@,
    decreases entries.len(),
{
    if i == entries.len() - 1 {
    } else {
        assert(unique_keys(entries.drop_last())) by {
            assert(forall|a: int, b: int|
                0 <= a < b < entries.drop_last().len() ==> entries.drop_last()[a].0@
                    != entries.drop_last()[b].0@);
        }
        lemma_map_of_get(entries.drop_last(), i);
        assert(entries.drop_last()[i] == entries[i]);
        assert(entries.last().0@ != entries[i].0@);
    }
}

impl LabelMap {
    /// Each key occurs at most once among the entries.
    #[verifier::type_invariant]
    spec fn wf(&self) -> bool {
        unique_keys(self.entries@)
    }

    /// The entries in insertion order.
    pub closed spec fn spec_entries(&self) -> Seq<(String, String)> {
        self.entries@
    }

    /// An empty label map.
    pub fn new() -> (r: LabelMap)
        ensures
            r@ == Map::<Seq<char>, Seq<char>>::empty(),
            r.spec_entries().len() == 0,
    {
        LabelMap { entries: Vec::new() }
    }

    /// Whether a label with this key is present.
    pub fn contains_key(&self, key: &String) -> (r: bool)
        ensures
            r == self@.contains_key(key@),
    {
        let n = self.entries.len();
        let mut i: usize = 0;
        while i < n
            invariant
                n == self.entries@.len(),
                0 <= i <= n,
                forall|j: int| 0 <= j < i ==> self.entries@[j].0@ != key@,
            decreases n - i,
        {
            if self.entries[i].0 == *key {
                proof {
                    lemma_map_of_contains(self.entries@, key@);
                }
                return true;
            }
            i = i + 1;
        }
        proof {
            lemma_map_of_contains(self.entries@, key@);
        }
        false
    }

    /// The value held for this key, if any.
    pub fn get(&self, key: &String) -> (r: Option<&String>)
        ensures
            match r {
                Some(v) => self@.contains_key(key@) && v@ == self@[key@],
                None => !self@.contains_key(key@),
            },
    {
        proof {
            use_type_invariant(&*self);
        }
        let n = self.entries.len();
        let mut i: usize = 0;
        while i < n
            invariant
                unique_keys(self.entries@),
                n == self.entries@.len(),
                0 <= i <= n,
                forall|j: int| 0 <= j < i ==> self.entries@[j].0@ != key@,
            decreases n - i,
        {
            if self.entries[i].0 == *key {
                proof {
                    lemma_map_of_get(self.entries@, i as int);
                }
                return Some(&self.entries[i].1);
            }
            i = i + 1;
        }
        proof {
            lemma_map_of_contains(self.entries@, key@);
        }
        None
    }

    /// Insert the pair unless the key is already present; a present key keeps
    /// its value (first write wins). Reports whether the pair was inserted.
    pub fn insert_if_absent(&mut self, key: String, value: String) -> (r: bool)
        ensures
            r == !old(self)@.contains_key(key@),
            r ==> final(self)@ == old(self)@.insert(key@, value@),
            !r ==> final(self)@ == old(self)@ && final(self).spec_entries() == old(
                self,
            ).spec_entries(),
    {
        proof {
            use_type_invariant(&*self);
        }
        if self.contains_key(&key) {
            false
        } else {
            proof {
                lemma_map_of_contains(self.entries@, key@);
                let pushed = self.entries@.push((key, value));
                assert forall|i: int, j: int|
                    0 <= i < j < pushed.len() implies pushed[i].0@ != pushed[j].0@ by {
                    if j < self.entries@.len() {
                        assert(self.entries@[i].0@ != self.entries@[j].0@);
                    } else {
                        assert(pushed[j] == (key, value));
                        assert(self.entries@[i].0@ != key@);
                    }
                }
                assert(unique_keys(pushed));
            }
            let mut entries: Vec<(String, String)> = Vec::new();
            core::mem::swap(&mut self.entries, &mut entries);
            entries.push((key, value));
            core::mem::swap(&mut self.entries, &mut entries);
            proof {
                assert(self.entries@.drop_last() =~= old(self).entries@);
            }
            true
        }
    }

    /// Fill in every key of `defaults` that is not yet present; present keys
    /// keep their values.
    pub fn fill_missing_from(&mut self, defaults: &LabelMap)
        ensures
            final(self)@ == defaults@.union_prefer_right(old(self)@),
    {
        proof {
            use_type_invariant(&*defaults);
        }
        let n = defaults.entries.len();
        let mut i: usize = 0;
        while i < n
            invariant
                unique_keys(defaults.entries@),
                n == defaults.entries@.len(),
                0 <= i <= n,
                self@ == map_of(defaults.entries@.take(i as int)).union_prefer_right(
                    old(self)@,
                ),
            decreases n - i,
        {
            let k = defaults.entries[i].0.clone();
            let v = defaults.entries[i].1.clone();
            let ghost prev = self@;
            let ghost prefix = defaults.entries@.take(i as int);
            let ghost dk = defaults.entries@[i as int].0@;
            let ghost dv = defaults.entries@[i as int].1@;
            self.insert_if_absent(k, v);
            proof {
                let longer = defaults.entries@.take(i as int + 1);
                assert(longer.drop_last() =~= prefix);
                assert(longer.last() == defaults.entries@[i as int]);
                assert(map_of(longer) == map_of(prefix).insert(dk, dv));
                assert(!map_of(prefix).contains_key(dk)) by {
                    lemma_map_of_contains(prefix, dk);
                }
                if prev.contains_key(dk) {
                    assert(old(self)@.contains_key(dk));
                    assert(self@ =~= map_of(longer).union_prefer_right(old(self)@));
                } else {
                    assert(self@ == prev.insert(dk, dv));
                    assert(self@ =~= map_of(longer).union_prefer_right(old(self)@));
                }
            }
            i = i + 1;
        }
        proof {
            assert(defaults.entries@.take(n as int) =~= defaults.entries@);
        }
    }

    /// How many entries the map holds.
    pub fn num_entries(&self) -> (r: usize)
        ensures
            r == self.spec_entries().len(),
    {
        self.entries.len()
    }

    /// The key of the entry at position `i`.
    pub fn key_at(&self, i: usize) -> (r: &String)
        requires
            i < self.spec_entries().len(),
        ensures
            r@ == self.spec_entries()[i as int].0@,
    {
        &self.entries[i].0
    }

    /// The value of the entry at position `i`.
    pub fn value_at(&self, i: usize) -> (r: &String)
        requires
            i < self.spec_entries().len(),
        ensures
            r@ == self.spec_entries()[i as int].1@,
    {
        &self.entries[i].1
    }
}

impl Clone for LabelMap {
    /// A clone holds the same entries, and so the same mathematical map.
    fn clone(&self) -> (r: Self)
        ensures
            r@ == self@,
            r.spec_entries().len() == self.spec_entries().len(),
    {
        proof {
            use_type_invariant(&*self);
        }
        let n = self.entries.len();
        let mut entries: Vec<(String, String)> = Vec::new();
        let mut i: usize = 0;
        while i < n
            invariant
                n == self.entries@.len(),
                0 <= i <= n,
                entries@ =~= self.entries@.take(i as int),
            decreases n - i,
        {
            entries.push((self.entries[i].0.clone(), self.entries[i].1.clone()));
            proof {
                assert(entries@ =~= self.entries@.take(i as int + 1));
            }
            i = i + 1;
        }
        proof {
            assert(entries@ =~= self.entries@);
            assert(unique_keys(entries@));
        }
        LabelMap { entries }
    }
}

/// The label key under which a caller's plugin identity is recorded.
pub open spec fn plugin_id_key() -> Seq<char> {
    "plugin_id"@
}

/// The merge of caller-supplied labels with configured defaults and the
/// ambient plugin identity: the caller's entries always win; missing keys
/// are filled from the defaults; after that, if requested and known, the
/// plugin id is added under `plugin_id` unless that key is already taken.
pub open spec fn merged_labels(
    caller: Map<Seq<char>, Seq<char>>,
    defaults: Map<Seq<char>, Seq<char>>,
    plugin_id: Option<Seq<char>>,
    include_plugin_id: bool,
) -> Map<Seq<char>, Seq<char>> {
    let base = defaults.union_prefer_right(caller);
    match plugin_id {
        Some(id) => if include_plugin_id && !base.contains_key(plugin_id_key()) {
            base.insert(plugin_id_key(), id)
        } else {
            base
        },
        None => base,
    }
}

/// Law: merging never overwrites a caller-supplied label; a key the caller
/// did not supply is filled from the defaults, and only a key neither the
/// caller nor the defaults supplied can be filled by the plugin identity.
/// No key of either input is ever lost.
pub proof fn lemma_merge_precedence(
    caller: Map<Seq<char>, Seq<char>>,
    defaults: Map<Seq<char>, Seq<char>>,
    plugin_id: Option<Seq<char>>,
    include_plugin_id: bool,
)
    ensures
        forall|k: Seq<char>| #[trigger] caller.contains_key(k) ==> merged_labels(
            caller,
            defaults,
            plugin_id,
            include_plugin_id,
        ).contains_key(k) && merged_labels(caller, defaults, plugin_id, include_plugin_id)[k]
            == caller[k],
        forall|k: Seq<char>|
            !caller.contains_key(k) && #[trigger] defaults.contains_key(k) ==> merged_labels(
                caller,
                defaults,
                plugin_id,
                include_plugin_id,
            ).contains_key(k) && merged_labels(caller, defaults, plugin_id, include_plugin_id)[k]
                == defaults[k],
        (include_plugin_id && plugin_id is Some && !caller.contains_key(plugin_id_key())
            && !defaults.contains_key(plugin_id_key())) ==> merged_labels(
            caller,
            defaults,
            plugin_id,
            include_plugin_id,
        )[plugin_id_key()] == plugin_id.unwrap(),
{
}

} // verus!
