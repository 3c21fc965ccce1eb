//! Dictionaries keyed by name.
//!
//! A [`Dictionary`] holds at most one definition under each name.  Writing a
//! definition under a name that is taken replaces the earlier one, whatever
//! the two hold: definitions are told apart by name alone.
use crate::json::{lemma_object_push, object_model, Json, JsonModel};
use vstd::prelude::*;

verus! {

/// A definition that the analysis section of a mapping lists under its name.
pub trait Definition: DeepView {
    /// The settings by which the engine knows a definition.
    spec fn settings(model: <Self as DeepView>::V) -> JsonModel;

    /// Renders the settings of this definition.
    fn settings_json(&self) -> (j: Json)
        ensures
            j.deep_view() == Self::settings(self.deep_view()),
    ;
}

/// Definitions keyed by name, in the order in which their names first came.
#[derive(Debug)]
pub struct Dictionary<V: DeepView> {
    entries: Vec<(String, V)>,
}

/// The map that a list of named definitions stands for: the definitions
/// written in order into an empty map.
pub open spec fn entries_map<V: DeepView>(entries: Seq<(String, V)>) -> Map<Seq<char>, V::V>
    decreases entries.len(),
{
    if entries.len() == 0 {
        Map::empty()
    } else {
        entries_map(entries.drop_last()).insert(entries.last().0@, entries.last().1.deep_view())
    }
}

/// The names of the entries, in their order.
pub open spec fn entry_names<V>(entries: Seq<(String, V)>) -> Seq<Seq<char>> {
    Seq::new(entries.len(), |i: int| entries[i].0@)
}

/// No name occurs twice.
pub open spec fn names_distinct<V>(entries: Seq<(String, V)>) -> bool {
    forall|i: int, j: int| 0 <= i < j < entries.len() ==> entries[i].0@ != entries[j].0@
}

/// The settings of each definition, under its name.
pub open spec fn settings_map<V: Definition>(m: Map<Seq<char>, V::V>) -> Map<Seq<char>, JsonModel> {
    Map::new(|name: Seq<char>| m.contains_key(name), |name: Seq<char>| V::settings(m[name]))
}

/// A name is in the map exactly if some entry bears it.
pub proof fn lemma_entries_map_dom<V: DeepView>(entries: Seq<(String, V)>, name: Seq<char>)
    ensures
        entries_map(entries).contains_key(name) <==> exists|i: int|
            0 <= i < entries.len() && #[trigger] entries[i].0@ == name,
    decreases entries.len(),
{
    if entries.len() > 0 {
        let front = entries.drop_last();
        lemma_entries_map_dom(front, name);
        if entries_map(entries).contains_key(name) {
            if entries.last().0@ == name {
                assert(entries[entries.len() - 1].0@ == name);
            } else {
                let i = choose|i: int| 0 <= i < front.len() && #[trigger] front[i].0@ == name;
                assert(entries[i].0@ == name);
            }
        }
        if exists|i: int| 0 <= i < entries.len() && #[trigger] entries[i].0@ == name {
            let i = choose|i: int| 0 <= i < entries.len() && #[trigger] entries[i].0@ == name;
            if i < entries.len() - 1 {
                assert(front[i].0@ == name);
            }
        }
    }
}

/// Where no name occurs twice, a new value in the place of an entry is that
/// value written under the entry's name.
pub proof fn lemma_entries_map_update<V: DeepView>(
    entries: Seq<(String, V)>,
    i: int,
    name: String,
    value: V,
)
    requires
        names_distinct(entries),
        0 <= i < entries.len(),
        entries[i].0@ == name@,
    ensures
        entries_map(entries.update(i, (name, value))) == entries_map(entries).insert(
            name@,
            value.deep_view(),
        ),
        names_distinct(entries.update(i, (name, value))),
    decreases entries.len(),
{
    let updated = entries.update(i, (name, value));
    let front = entries.drop_last();
    if i == entries.len() - 1 {
        assert(updated.drop_last() =~= front);
        assert(entries_map(updated) =~= entries_map(entries).insert(name@, value.deep_view()));
    } else {
        assert(updated.drop_last() =~= front.update(i, (name, value)));
        assert(names_distinct(front));
        assert(front[i].0@ == name@);
        lemma_entries_map_update(front, i, name, value);
        assert(entries.last().0@ != name@);
        assert(updated.last() == entries.last());
        assert(entries_map(updated) =~= entries_map(entries).insert(name@, value.deep_view()));
    }
}

/// Where no name occurs twice, the map holds under the name of each entry
/// what the entry holds.
pub proof fn lemma_entries_map_at<V: DeepView>(entries: Seq<(String, V)>, i: int)
    requires
        names_distinct(entries),
        0 <= i < entries.len(),
    ensures
        entries_map(entries).contains_key(entries[i].0@),
        entries_map(entries)[entries[i].0@] == entries[i].1.deep_view(),
    decreases entries.len(),
{
    if i < entries.len() - 1 {
        let front = entries.drop_last();
        assert(names_distinct(front));
        assert(front[i] == entries[i]);
        lemma_entries_map_at(front, i);
        assert(entries[i].0@ != entries[entries.len() - 1].0@);
    }
}

/// Where no name occurs twice, the map has as many keys as there are
/// entries.
pub proof fn lemma_entries_map_len<V: DeepView>(entries: Seq<(String, V)>)
    requires
        names_distinct(entries),
    ensures
        entries_map(entries).dom().finite(),
        entries_map(entries).len() == entries.len(),
    decreases entries.len(),
{
    if entries.len() > 0 {
        let front = entries.drop_last();
        assert(names_distinct(front));
        lemma_entries_map_len(front);
        lemma_entries_map_dom(front, entries.last().0@);
        if entries_map(front).contains_key(entries.last().0@) {
            let i = choose|i: int|
                0 <= i < front.len() && #[trigger] front[i].0@ == entries.last().0@;
            assert(entries[i].0@ == entries[entries.len() - 1].0@);
        }
    }
}

impl<V: DeepView> DeepView for Dictionary<V> {
    type V = Map<Seq<char>, V::V>;

    closed spec fn deep_view(&self) -> Map<Seq<char>, V::V> {
        entries_map(self.entries@)
    }
}

impl<V: DeepView> Dictionary<V> {
    #[verifier::type_invariant]
    spec fn wf(self) -> bool {
        names_distinct(self.entries@)
    }

    /// The names, in the order in which they first came.
    pub closed spec fn names(self) -> Seq<Seq<char>> {
        entry_names(self.entries@)
    }

    /// The dictionary without entries.
    pub fn new() -> (d: Self)
        ensures
            d.deep_view() == Map::<Seq<char>, V::V>::empty(),
            d.names() == Seq::<Seq<char>>::empty(),
    {
        let d = Dictionary { entries: Vec::new() };
        assert(d.names() =~= Seq::<Seq<char>>::empty());
        d
    }

    /// The number of names.
    pub fn len(&self) -> (n: usize)
        ensures
            self.deep_view().dom().finite(),
            n == self.deep_view().len(),
            n == self.names().len(),
    {
        proof {
            use_type_invariant(self);
            lemma_entries_map_len(self.entries@);
        }
        self.entries.len()
    }

    /// The entries: each name once, in the order in which the names first
    /// came.
    pub fn entries(&self) -> (entries: &Vec<(String, V)>)
        ensures
            entry_names(entries@) == self.names(),
            names_distinct(entries@),
            entries_map(entries@) == self.deep_view(),
    {
        proof {
            use_type_invariant(self);
        }
        &self.entries
    }

    /// The definition under `name`, if there is one.
    pub fn get(&self, name: &str) -> (found: Option<&V>)
        ensures
            match found {
                Some(value) => self.deep_view().contains_key(name@) && value.deep_view()
                    == self.deep_view()[name@],
                None => !self.deep_view().contains_key(name@),
            },
    {
        proof {
            use_type_invariant(self);
        }
        let key = name.to_owned();
        match position(&self.entries, &key) {
            Some(i) => {
                proof {
                    lemma_entries_map_at(self.entries@, i as int);
                }
                Some(&self.entries[i].1)
            },
            None => {
                proof {
                    lemma_entries_map_dom(self.entries@, name@);
                }
                None
            },
        }
    }

    /// Writes `value` under `name`.  A definition that stood under that name
    /// is replaced, and the name keeps its place; a new name comes last.
    pub fn insert(&mut self, name: String, value: V)
        ensures
            final(self).deep_view() == old(self).deep_view().insert(name@, value.deep_view()),
            final(self).names() == if old(self).deep_view().contains_key(name@) {
                old(self).names()
            } else {
                old(self).names().push(name@)
            },
    {
        proof {
            use_type_invariant(&*self);
            lemma_entries_map_dom(self.entries@, name@);
        }
        let mut entries: Vec<(String, V)> = Vec::new();
        core::mem::swap(&mut self.entries, &mut entries);
        let ghost before = entries@;
        match position(&entries, &name) {
            Some(i) => {
                proof {
                    lemma_entries_map_update(entries@, i as int, name, value);
                }
                entries[i] = (name, value);
                assert(entry_names(entries@) =~= entry_names(before));
            },
            None => {
                proof {
                    assert(entries@.push((name, value)).drop_last() =~= entries@);
                }
                entries.push((name, value));
                assert(entry_names(entries@) =~= entry_names(before).push(name@));
            },
        }
        core::mem::swap(&mut self.entries, &mut entries);
    }
}

/// The place of the entry that bears `name`, if there is one.
fn position<V>(entries: &Vec<(String, V)>, name: &String) -> (found: Option<usize>)
    ensures
        match found {
            Some(i) => i < entries.len() && entries[i as int].0@ == name@,
            None => forall|k: int| 0 <= k < entries.len() ==> entries[k].0@ != name@,
        },
{
    let mut i: usize = 0;
    while i < entries.len()
        invariant
            i <= entries.len(),
            forall|k: int| 0 <= k < i ==> entries[k].0@ != name@,
        decreases entries.len() - i,
    {
        if entries[i].0 == *name {
            return Some(i);
        }
        i += 1;
    }
    None
}

impl<V: Definition> Dictionary<V> {
    /// The dictionary as an object: the settings of each definition under
    /// its name.
    pub fn to_json(&self) -> (j: Json)
        ensures
            j.deep_view() == JsonModel::Object(settings_map::<V>(self.deep_view())),
    {
        let mut out: Vec<(String, Json)> = Vec::new();
        let mut i: usize = 0;
        while i < self.entries.len()
            invariant
                i <= self.entries.len(),
                object_model(out@) == settings_map::<V>(entries_map(self.entries@.take(i as int))),
            decreases self.entries.len() - i,
        {
            let rendered = self.entries[i].1.settings_json();
            let key = self.entries[i].0.clone();
            proof {
                let all = self.entries@;
                assert(all.take(i + 1).drop_last() =~= all.take(i as int));
                assert(all.take(i + 1).last() == all[i as int]);
                lemma_object_push(out@, key, rendered);
                assert(settings_map::<V>(entries_map(all.take(i + 1))) =~= settings_map::<V>(
                    entries_map(all.take(i as int)),
                ).insert(key@, rendered.deep_view()));
            }
            out.push((key, rendered));
            i += 1;
        }
        assert(self.entries@.take(i as int) =~= self.entries@);
        Json::object(out)
    }
}

} // verus!
