//! Header fields by name: every name at most once, a later value for a name
//! replacing the earlier one.

use vstd::prelude::*;

verus! {

/// A name with its value, both as character sequences.
pub type FieldView = (Seq<char>, Seq<char>);

/// Whether some field of `fields` has this name.
pub open spec fn has_name(fields: Seq<FieldView>, name: Seq<char>) -> bool {
    exists|i: int| 0 <= i < fields.len() && (#[trigger] fields[i]).0 == name
}

/// The place of a field with this name.
pub open spec fn place_of(fields: Seq<FieldView>, name: Seq<char>) -> int {
    choose|i: int| 0 <= i < fields.len() && (#[trigger] fields[i]).0 == name
}

/// Whether no two fields have the same name.
pub open spec fn names_unique(fields: Seq<FieldView>) -> bool {
    forall|i: int, j: int|
        0 <= i < j < fields.len() ==> (#[trigger] fields[i]).0 != (#[trigger] fields[j]).0
}

/// The value that each name has in `fields`.
pub open spec fn fields_map(fields: Seq<FieldView>) -> Map<Seq<char>, Seq<char>> {
    Map::new(|name: Seq<char>| has_name(fields, name), |name: Seq<char>| fields[place_of(fields, name)].1)
}

/// What a list of fields says, as character sequences.
pub open spec fn fields_view(fields: Seq<(String, String)>) -> Seq<FieldView> {
    Seq::new(fields.len(), |i: int| (fields[i].0@, fields[i].1@))
}

/// The value that each name ends up with when the fields are taken in
/// order: for a name that comes more than once, the last value.
pub open spec fn last_wins(fields: Seq<FieldView>) -> Map<Seq<char>, Seq<char>>
    decreases fields.len(),
{
    if fields.len() == 0 {
        Map::empty()
    } else {
        last_wins(fields.drop_last()).insert(fields.last().0, fields.last().1)
    }
}

/// Taken in order, a name has a value exactly where some field has the name.
pub proof fn lemma_last_wins_names(fields: Seq<FieldView>, name: Seq<char>)
    ensures
        last_wins(fields).contains_key(name) <==> has_name(fields, name),
    decreases fields.len(),
{
    if fields.len() > 0 {
        let before = fields.drop_last();
        lemma_last_wins_names(before, name);
        if has_name(before, name) {
            let i = place_of(before, name);
            assert(fields[i].0 == name);
        }
        if fields.last().0 == name {
            assert(fields[fields.len() - 1].0 == name);
        }
        if has_name(fields, name) {
            let i = place_of(fields, name);
            if i < fields.len() - 1 {
                assert(before[i].0 == name);
            }
        }
    }
}

/// Taken in order, a name has the value of the last field with that name.
pub proof fn lemma_last_wins_value(fields: Seq<FieldView>, place: int)
    requires
        0 <= place < fields.len(),
        forall|later: int|
            place < later < fields.len() ==> (#[trigger] fields[later]).0 != fields[place].0,
    ensures
        last_wins(fields).contains_key(fields[place].0),
        last_wins(fields)[fields[place].0] == fields[place].1,
    decreases fields.len(),
{
    if place < fields.len() - 1 {
        let before = fields.drop_last();
        assert(fields[fields.len() - 1].0 != fields[place].0);
        assert forall|later: int| place < later < before.len() implies (#[trigger] before[later]).0
            != before[place].0 by {
            assert(fields[later].0 != fields[place].0);
        }
        lemma_last_wins_value(before, place);
    }
}

/// Header fields by name.
#[derive(Debug)]
pub struct HeaderFields {
    entries: Vec<(String, String)>,
}

impl View for HeaderFields {
    type V = Map<Seq<char>, Seq<char>>;

    closed spec fn view(&self) -> Map<Seq<char>, Seq<char>> {
        fields_map(fields_view(self.entries@))
    }
}

impl HeaderFields {
    #[verifier::type_invariant]
    spec fn names_differ(self) -> bool {
        names_unique(fields_view(self.entries@))
    }

    /// The fields in the order their names first came.
    pub closed spec fn pairs(&self) -> Seq<FieldView> {
        fields_view(self.entries@)
    }

    /// No fields.
    pub fn new() -> (r: HeaderFields)
        ensures
            r@ == Map::<Seq<char>, Seq<char>>::empty(),
            r.pairs().len() == 0,
    {
        let r = HeaderFields { entries: Vec::new() };
        assert(r@ =~= Map::<Seq<char>, Seq<char>>::empty());
        r
    }

    /// How many names there are.
    pub fn len(&self) -> (r: usize)
        ensures
            r == self.pairs().len(),
            names_unique(self.pairs()),
            self@ == fields_map(self.pairs()),
    {
        proof {
            use_type_invariant(self);
        }
        self.entries.len()
    }

    /// The value of a name, if the name is there.
    pub fn get(&self, name: &String) -> (r: Option<String>)
        ensures
            r is Some <==> self@.contains_key(name@),
            r matches Some(value) ==> value@ == self@[name@],
    {
        proof {
            use_type_invariant(self);
        }
        match find_name(&self.entries, name) {
            Some(i) => {
                let value = self.entries[i].1.clone();
                proof {
                    let fields = fields_view(self.entries@);
                    assert(fields[i as int].0 == name@);
                    assert(has_name(fields, name@));
                    assert(place_of(fields, name@) == i);
                }
                Some(value)
            },
            None => None,
        }
    }

    /// Collects fields by name, taking them in order: where a name comes
    /// more than once, its last value stays.
    pub fn from_pairs(pairs: Vec<(String, String)>) -> (r: HeaderFields)
        ensures
            r@ == last_wins(fields_view(pairs@)),
    {
        let ghost given = fields_view(pairs@);
        let mut entries: Vec<(String, String)> = Vec::new();
        let mut i: usize = 0;
        assert(fields_map(fields_view(entries@)) =~= last_wins(given.take(0)));
        while i < pairs.len()
            invariant
                i <= pairs.len(),
                given == fields_view(pairs@),
                names_unique(fields_view(entries@)),
                fields_map(fields_view(entries@)) == last_wins(given.take(i as int)),
            decreases pairs.len() - i,
        {
            let name = pairs[i].0.clone();
            let value = pairs[i].1.clone();
            let ghost before = fields_view(entries@);
            match find_name(&entries, &name) {
                Some(k) => {
                    entries[k] = (name, value);
                    proof {
                        assert(fields_view(entries@) =~= before.update(
                            k as int,
                            (name@, value@),
                        ));
                        lemma_update_field(before, k as int, value@);
                    }
                },
                None => {
                    entries.push((name, value));
                    proof {
                        assert(fields_view(entries@) =~= before.push((name@, value@)));
                        lemma_push_field(before, name@, value@);
                    }
                },
            }
            proof {
                let next = given.take(i + 1);
                assert(next.drop_last() =~= given.take(i as int));
                assert(next.last() == (name@, value@));
            }
            i += 1;
        }
        assert(given.take(pairs.len() as int) =~= given);
        HeaderFields { entries }
    }

    /// The fields as pairs of name and value, each name once.
    pub fn into_pairs(self) -> (r: Vec<(String, String)>)
        ensures
            fields_view(r@) == self.pairs(),
            names_unique(fields_view(r@)),
            fields_map(fields_view(r@)) == self@,
    {
        proof {
            use_type_invariant(&self);
        }
        self.entries
    }
}

/// The place of a field with this name, if there is one.
fn find_name(entries: &Vec<(String, String)>, name: &String) -> (r: Option<usize>)
    ensures
        match r {
            Some(i) => i < entries.len() && entries[i as int].0@ == name@,
            None => !has_name(fields_view(entries@), name@),
        },
{
    let mut i: usize = 0;
    while i < entries.len()
        invariant
            i <= entries.len(),
            forall|j: int| 0 <= j < i ==> entries[j].0@ != name@,
        decreases entries.len() - i,
    {
        if entries[i].0 == *name {
            return Some(i);
        }
        i += 1;
    }
    assert forall|j: int| 0 <= j < entries.len() implies (#[trigger] fields_view(entries@)[j]).0
        != name@ by {}
    None
}

/// Replacing the value of a field leaves the names as they are and gives
/// that one name the new value.
pub proof fn lemma_update_field(fields: Seq<FieldView>, place: int, value: Seq<char>)
    requires
        names_unique(fields),
        0 <= place < fields.len(),
    ensures
        names_unique(fields.update(place, (fields[place].0, value))),
        fields_map(fields.update(place, (fields[place].0, value))) == fields_map(fields).insert(
            fields[place].0,
            value,
        ),
{
    let name = fields[place].0;
    let after = fields.update(place, (name, value));
    assert forall|n: Seq<char>| has_name(after, n) == (has_name(fields, n) || n == name) by {
        if has_name(fields, n) {
            let i = place_of(fields, n);
            assert(after[i].0 == n);
        }
        if n == name {
            assert(after[place].0 == n);
        }
        if has_name(after, n) {
            let i = place_of(after, n);
            assert(fields[i].0 == n);
        }
    }
    assert forall|n: Seq<char>| has_name(after, n) implies #[trigger] fields_map(after)[n]
        == fields_map(fields).insert(name, value)[n] by {
        let i = place_of(after, n);
        assert(fields[i].0 == n);
        let k = place_of(fields, n);
        assert(i == k);
    }
    assert(fields_map(after) =~= fields_map(fields).insert(name, value));
}

/// Adding a field with a name that was not there gives that name its value
/// and leaves the others as they are.
pub proof fn lemma_push_field(fields: Seq<FieldView>, name: Seq<char>, value: Seq<char>)
    requires
        names_unique(fields),
        !has_name(fields, name),
    ensures
        names_unique(fields.push((name, value))),
        fields_map(fields.push((name, value))) == fields_map(fields).insert(name, value),
{
    let after = fields.push((name, value));
    assert forall|i: int, j: int| 0 <= i < j < after.len() implies (#[trigger] after[i]).0 != (
    #[trigger] after[j]).0 by {
        if j == fields.len() {
            assert(fields[i].0 != name);
        }
    }
    assert forall|n: Seq<char>| has_name(after, n) == (has_name(fields, n) || n == name) by {
        if has_name(fields, n) {
            let i = place_of(fields, n);
            assert(after[i].0 == n);
        }
        if n == name {
            assert(after[fields.len() as int].0 == n);
        }
        if has_name(after, n) {
            let i = place_of(after, n);
            if i < fields.len() {
                assert(fields[i].0 == n);
            }
        }
    }
    assert forall|n: Seq<char>| has_name(after, n) implies #[trigger] fields_map(after)[n]
        == fields_map(fields).insert(name, value)[n] by {
        let i = place_of(after, n);
        if n != name {
            assert(i < fields.len());
            assert(fields[i].0 == n);
            let k = place_of(fields, n);
            assert(after[k].0 == n);
            assert(i == k);
        } else {
            if i < fields.len() {
                assert(fields[i].0 == name);
            }
        }
    }
    assert(fields_map(after) =~= fields_map(fields).insert(name, value));
}

} // verus!
