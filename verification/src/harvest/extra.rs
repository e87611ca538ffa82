//! The fields of a package's metadata that only its format has.

use vstd::prelude::*;

use crate::text::same_text;

verus! {

/// `serde_json::Value`: a JSON value. Nothing is known of what a value
/// holds.
#[verifier::external_type_specification]
#[verifier::external_body]
pub struct ExJsonValue(serde_json::Value);

/// `Value::clone`, which `serde_json` derives for its JSON values: the copy
/// is the same value.
#[verifier::external_body]
fn clone_value(value: &serde_json::Value) -> (copy: serde_json::Value)
    ensures
        copy == *value,
{
    value.clone()
}

/// Whether `name` is the name of a field that every package's metadata has.
pub open spec fn is_named_field(name: Seq<char>) -> bool {
    ||| name == "source_format"@
    ||| name == "package_name"@
    ||| name == "version"@
    ||| name == "dependencies"@
    ||| name == "files"@
    ||| name == "capabilities"@
    ||| name == "harvest_timestamp"@
    ||| name == "harvester_version"@
}

/// Whether `name` is the name of a field that every package's metadata has.
pub fn names_field(name: &str) -> (named: bool)
    ensures
        named == is_named_field(name@),
{
    same_text(name, "source_format") || same_text(name, "package_name") || same_text(
        name,
        "version",
    ) || same_text(name, "dependencies") || same_text(name, "files") || same_text(
        name,
        "capabilities",
    ) || same_text(name, "harvest_timestamp") || same_text(name, "harvester_version")
}

/// Fields by name: a map from names to JSON values in which no name is that
/// of a field that every package's metadata has.
#[derive(Debug)]
pub struct ExtraFields {
    entries: Vec<(String, serde_json::Value)>,
}

/// The entry of `entries` at `i` has the name `name`.
pub open spec fn named_at(entries: Seq<(String, serde_json::Value)>, name: Seq<char>, i: int) -> bool {
    0 <= i < entries.len() && entries[i].0@ == name
}

/// The fields that a list of entries holds, where no name occurs twice.
pub open spec fn fields_of(entries: Seq<(String, serde_json::Value)>) -> Map<
    Seq<char>,
    serde_json::Value,
> {
    Map::new(
        |name: Seq<char>| exists|i: int| named_at(entries, name, i),
        |name: Seq<char>| entries[choose|i: int| named_at(entries, name, i)].1,
    )
}

/// No name occurs twice in the entries, and none is the name of a field
/// that every package's metadata has.
pub open spec fn are_extra_fields(entries: Seq<(String, serde_json::Value)>) -> bool {
    &&& forall|i: int| 0 <= i < entries.len() ==> !is_named_field(#[trigger] entries[i].0@)
    &&& forall|i: int, j: int|
        0 <= i < j < entries.len() ==> #[trigger] entries[i].0@ != #[trigger] entries[j].0@
}

impl View for ExtraFields {
    type V = Map<Seq<char>, serde_json::Value>;

    closed spec fn view(&self) -> Map<Seq<char>, serde_json::Value> {
        fields_of(self.entries@)
    }
}

impl Clone for ExtraFields {
    /// The same fields.
    fn clone(&self) -> (copy: Self)
        ensures
            copy@ == self@,
    {
        proof {
            use_type_invariant(self);
        }
        let n: usize = self.entries.len();
        let mut entries: Vec<(String, serde_json::Value)> = Vec::new();
        let mut i: usize = 0;
        while i < n
            invariant
                i <= n,
                n == self.entries@.len(),
                entries@ == self.entries@.take(i as int),
            decreases n - i,
        {
            let name = self.entries[i].0.clone();
            let value = clone_value(&self.entries[i].1);
            entries.push((name, value));
            i += 1;
        }
        assert(entries@ =~= self.entries@);
        ExtraFields { entries }
    }
}

impl ExtraFields {
    #[verifier::type_invariant]
    spec fn well_formed(self) -> bool {
        are_extra_fields(self.entries@)
    }

    /// The position of the entry named `name`, if there is one.
    fn position(&self, name: &str) -> (found: Option<usize>)
        ensures
            match found {
                Some(i) => named_at(self.entries@, name@, i as int),
                None => forall|i: int| !named_at(self.entries@, name@, i),
            },
    {
        let n: usize = self.entries.len();
        let mut i: usize = 0;
        while i < n
            invariant
                i <= n,
                n == self.entries@.len(),
                forall|j: int| 0 <= j < i ==> !named_at(self.entries@, name@, j),
            decreases n - i,
        {
            if same_text(self.entries[i].0.as_str(), name) {
                return Some(i);
            }
            i += 1;
        }
        None
    }

    /// No fields.
    pub fn new() -> (fields: Self)
        ensures
            fields@ == Map::<Seq<char>, serde_json::Value>::empty(),
    {
        ExtraFields { entries: Vec::new() }
    }

    /// Whether there is a field named `name`. There is none where `name` is
    /// the name of a field that every package's metadata has.
    pub fn contains_key(&self, name: &str) -> (found: bool)
        ensures
            found == self@.contains_key(name@),
            is_named_field(name@) ==> !found,
    {
        proof {
            use_type_invariant(self);
        }
        self.position(name).is_some()
    }

    /// The value of the field named `name`, if there is one.
    pub fn get(&self, name: &str) -> (value: Option<&serde_json::Value>)
        ensures
            match value {
                Some(value) => self@.contains_key(name@) && *value == self@[name@],
                None => !self@.contains_key(name@),
            },
    {
        proof {
            use_type_invariant(self);
        }
        match self.position(name) {
            Some(i) => {
                proof {
                    lemma_field_at(self.entries@, i as int);
                }
                Some(&self.entries[i].1)
            },
            None => None,
        }
    }

    /// Sets the field named `name` to `value`, unless `name` is the name of a
    /// field that every package's metadata has: then nothing changes and
    /// the answer is `false`.
    pub fn insert(&mut self, name: String, value: serde_json::Value) -> (inserted: bool)
        ensures
            inserted == !is_named_field(name@),
            inserted ==> final(self)@ == old(self)@.insert(name@, value),
            !inserted ==> final(self)@ == old(self)@,
    {
        proof {
            use_type_invariant(&*self);
        }
        if names_field(name.as_str()) {
            return false;
        }
        let found = self.position(name.as_str());
        let mut taken = ExtraFields { entries: Vec::new() };
        core::mem::swap(self, &mut taken);
        let mut entries = taken.entries;
        let ghost before = entries@;
        match found {
            Some(i) => {
                entries.set(i, (name, value));
                proof {
                    lemma_fields_of_update(before, i as int, name, value);
                }
            },
            None => {
                entries.push((name, value));
                proof {
                    lemma_fields_of_push(before, name, value);
                }
            },
        }
        *self = ExtraFields { entries };
        true
    }

    /// The fields one by one, each once, in no particular order.
    pub fn entries(&self) -> (entries: &Vec<(String, serde_json::Value)>)
        ensures
            are_extra_fields(entries@),
            self@ == fields_of(entries@),
    {
        proof {
            use_type_invariant(self);
        }
        &self.entries
    }
}

/// In entries without a repeated name, the field of a name is the value of
/// the one entry that has the name.
pub proof fn lemma_field_at(entries: Seq<(String, serde_json::Value)>, i: int)
    requires
        are_extra_fields(entries),
        0 <= i < entries.len(),
    ensures
        fields_of(entries).contains_key(entries[i].0@),
        fields_of(entries)[entries[i].0@] == entries[i].1,
{
    let name = entries[i].0@;
    assert(named_at(entries, name, i));
    // No other entry has the name.
    let k = choose|k: int| named_at(entries, name, k);
    assert(k == i);
}

/// Replacing the entry of a name sets the field of that name.
proof fn lemma_fields_of_update(
    entries: Seq<(String, serde_json::Value)>,
    i: int,
    name: String,
    value: serde_json::Value,
)
    requires
        are_extra_fields(entries),
        named_at(entries, name@, i),
    ensures
        are_extra_fields(entries.update(i, (name, value))),
        fields_of(entries.update(i, (name, value))) == fields_of(entries).insert(name@, value),
{
    let after = entries.update(i, (name, value));
    assert forall|j: int| 0 <= j < after.len() implies after[j].0@ == entries[j].0@ by {}
    let left = fields_of(after);
    let right = fields_of(entries).insert(name@, value);
    assert forall|key: Seq<char>| left.contains_key(key) <==> right.contains_key(key) by {
        if left.contains_key(key) {
            let j = choose|j: int| named_at(after, key, j);
            assert(named_at(entries, key, j));
        }
        if right.contains_key(key) {
            if key == name@ {
                assert(named_at(after, key, i));
            } else {
                let j = choose|j: int| named_at(entries, key, j);
                assert(named_at(after, key, j));
            }
        }
    }
    assert forall|key: Seq<char>| left.contains_key(key) implies left[key] == right[key] by {
        let j = choose|j: int| named_at(after, key, j);
        lemma_field_at(after, j);
        if j != i {
            lemma_field_at(entries, j);
        }
    }
}

/// Adding an entry with a new name adds the field of that name.
proof fn lemma_fields_of_push(
    entries: Seq<(String, serde_json::Value)>,
    name: String,
    value: serde_json::Value,
)
    requires
        are_extra_fields(entries),
        !is_named_field(name@),
        forall|i: int| !named_at(entries, name@, i),
    ensures
        are_extra_fields(entries.push((name, value))),
        fields_of(entries.push((name, value))) == fields_of(entries).insert(name@, value),
{
    let after = entries.push((name, value));
    let last = entries.len() as int;
    assert forall|i: int, j: int| 0 <= i < j < after.len() implies after[i].0@ != after[j].0@ by {
        if j == last {
            assert(!named_at(entries, name@, i));
        }
    }
    let left = fields_of(after);
    let right = fields_of(entries).insert(name@, value);
    assert forall|key: Seq<char>| left.contains_key(key) <==> right.contains_key(key) by {
        if left.contains_key(key) {
            let j = choose|j: int| named_at(after, key, j);
            if j != last {
                assert(named_at(entries, key, j));
            }
        }
        if right.contains_key(key) {
            if key == name@ {
                assert(named_at(after, key, last));
            } else {
                let j = choose|j: int| named_at(entries, key, j);
                assert(named_at(after, key, j));
            }
        }
    }
    assert forall|key: Seq<char>| left.contains_key(key) implies left[key] == right[key] by {
        let j = choose|j: int| named_at(after, key, j);
        lemma_field_at(after, j);
        if j != last {
            lemma_field_at(entries, j);
        }
    }
}

} // verus!
