//! Structured records: the shape in which requests go to the gateway and
//! responses come back, as an ordered list of named text fields.

use vstd::prelude::*;
use crate::model::option_view;
use crate::text::owned;
use crate::text::same_text;

verus! {

/// One named field of a record.
#[derive(PartialEq, Eq)]
pub struct Field {
    pub name: String,
    pub value: String,
}

impl View for Field {
    type V = (Seq<char>, Seq<char>);

    open spec fn view(&self) -> (Seq<char>, Seq<char>) {
        (self.name@, self.value@)
    }
}

/// An ordered list of named fields.
#[derive(PartialEq, Eq)]
pub struct Record {
    pub fields: Vec<Field>,
}

impl View for Record {
    type V = Seq<(Seq<char>, Seq<char>)>;

    open spec fn view(&self) -> Seq<(Seq<char>, Seq<char>)> {
        self.fields@.map_values(|f: Field| f@)
    }
}

/// The value of the first field called `name`, if there is one.
pub open spec fn value_of(fields: Seq<(Seq<char>, Seq<char>)>, name: Seq<char>) -> Option<Seq<char>>
    decreases fields.len(),
{
    if fields.len() == 0 {
        None
    } else if fields[0].0 == name {
        Some(fields[0].1)
    } else {
        value_of(fields.drop_first(), name)
    }
}

/// Whether the field at `index` is the first one called `name`.
pub open spec fn is_first_called(fields: Seq<(Seq<char>, Seq<char>)>, name: Seq<char>, index: int) -> bool {
    &&& 0 <= index < fields.len()
    &&& fields[index].0 == name
    &&& forall|j: int| 0 <= j < index ==> (#[trigger] fields[j]).0 != name
}

/// `value_of` gives the value of the field at the least index that carries
/// the name, and nothing where no field carries it.
pub proof fn lemma_value_of_is_first_match(fields: Seq<(Seq<char>, Seq<char>)>, name: Seq<char>)
    ensures
        value_of(fields, name) matches Some(value) ==> exists|i: int|
            is_first_called(fields, name, i) && fields[i].1 == value,
        value_of(fields, name) is None ==> forall|j: int|
            0 <= j < fields.len() ==> (#[trigger] fields[j]).0 != name,
    decreases fields.len(),
{
    if fields.len() == 0 {
    } else if fields[0].0 == name {
        assert(is_first_called(fields, name, 0));
    } else {
        let rest = fields.drop_first();
        lemma_value_of_is_first_match(rest, name);
        assert(forall|j: int| 0 <= j < rest.len() ==> rest[j] == fields[j + 1]);
        match value_of(rest, name) {
            Some(value) => {
                let i = choose|i: int| is_first_called(rest, name, i) && rest[i].1 == value;
                assert forall|j: int| 0 <= j < i + 1 implies (#[trigger] fields[j]).0 != name by {
                    if j > 0 {
                        assert(rest[j - 1] == fields[j]);
                    }
                }
                assert(is_first_called(fields, name, i + 1));
            },
            None => {
                assert forall|j: int| 0 <= j < fields.len() implies (#[trigger] fields[j]).0
                    != name by {
                    if j > 0 {
                        assert(rest[j - 1] == fields[j]);
                    }
                }
            },
        }
    }
}

impl Record {
    /// The record without fields.
    pub fn new() -> (record: Record)
        ensures
            record@ == Seq::<(Seq<char>, Seq<char>)>::empty(),
    {
        let record = Record { fields: Vec::new() };
        assert(record@ =~= Seq::<(Seq<char>, Seq<char>)>::empty());
        record
    }

    /// The number of fields.
    pub fn len(&self) -> (n: usize)
        ensures
            n == self@.len(),
    {
        self.fields.len()
    }

    /// Appends a field.
    pub fn push(&mut self, name: &str, value: &str)
        ensures
            final(self)@ == old(self)@.push((name@, value@)),
    {
        let field = Field { name: owned(name), value: owned(value) };
        self.fields.push(field);
        assert(self@ =~= old(self)@.push((name@, value@)));
    }

    /// The value of the first field called `name`.
    pub fn get(&self, name: &str) -> (found: Option<&str>)
        ensures
            option_view(found) == value_of(self@, name@),
    {
        let mut i: usize = 0;
        assert(self@.skip(0) =~= self@);
        while i < self.fields.len()
            invariant
                i <= self.fields.len(),
                value_of(self@, name@) == value_of(self@.skip(i as int), name@),
            decreases self.fields.len() - i,
        {
            let field = &self.fields[i];
            let ghost rest = self@.skip(i as int);
            assert(rest.len() > 0 && rest[0] == field@);
            if same_text(field.name.as_str(), name) {
                return Some(field.value.as_str());
            }
            assert(rest.drop_first() =~= self@.skip(i as int + 1));
            i += 1;
        }
        assert(self@.skip(i as int).len() == 0);
        None
    }
}

impl Clone for Field {
    fn clone(&self) -> (copy: Field)
        ensures
            copy@ == self@,
    {
        Field { name: self.name.clone(), value: self.value.clone() }
    }
}

impl Clone for Record {
    fn clone(&self) -> (copy: Record)
        ensures
            copy@ == self@,
    {
        let mut fields: Vec<Field> = Vec::new();
        let mut i: usize = 0;
        while i < self.fields.len()
            invariant
                i <= self.fields.len(),
                fields@.len() == i,
                forall|j: int| 0 <= j < i ==> (#[trigger] fields@[j])@ == self.fields@[j]@,
            decreases self.fields.len() - i,
        {
            fields.push(self.fields[i].clone());
            i += 1;
        }
        let copy = Record { fields };
        assert(copy@ =~= self@);
        copy
    }
}

} // verus!
