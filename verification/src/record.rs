//! Attribute records decoded from the alert-zone dataset: named fields in
//! on-disk order. The pipeline only ever distinguishes a character field with
//! text from everything else, so a field value is modelled exactly that far.

use vstd::prelude::*;

verus! {

/// What the pipeline reads of one attribute value: a character field, which
/// may be blank, or a value of any other attribute type.
#[derive(Debug, PartialEq, Eq)]
pub enum FieldValue {
    Character(Option<String>),
    Other,
}

/// The mathematical model of one attribute value.
pub enum FieldModel {
    Text(Seq<char>),
    Blank,
    Other,
}

/// The model of a record: its fields, in on-disk order.
pub type RecordModel = Seq<(Seq<char>, FieldModel)>;

pub open spec fn field_model(v: FieldValue) -> FieldModel {
    match v {
        FieldValue::Character(Some(s)) => FieldModel::Text(s@),
        FieldValue::Character(None) => FieldModel::Blank,
        FieldValue::Other => FieldModel::Other,
    }
}

/// One attribute record of the dataset.
pub struct AttributeRecord {
    fields: Vec<(String, FieldValue)>,
}

impl View for AttributeRecord {
    type V = RecordModel;

    closed spec fn view(&self) -> RecordModel {
        self.fields@.map_values(|p: (String, FieldValue)| (p.0@, field_model(p.1)))
    }
}

/// The value of the first field of the given name, if any.
pub open spec fn field_lookup(fields: RecordModel, name: Seq<char>) -> Option<FieldModel>
    decreases fields.len(),
{
    if fields.len() == 0 {
        None
    } else if fields[0].0 == name {
        Some(fields[0].1)
    } else {
        field_lookup(fields.drop_first(), name)
    }
}

impl AttributeRecord {
    /// A record with no fields.
    pub fn new() -> (r: Self)
        ensures
            r@ == Seq::<(Seq<char>, FieldModel)>::empty(),
    {
        let r = AttributeRecord { fields: Vec::new() };
        proof {
            assert(r@ =~= Seq::<(Seq<char>, FieldModel)>::empty());
        }
        r
    }

    /// Appends one named field.
    pub fn push_field(&mut self, name: String, value: FieldValue)
        ensures
            final(self)@ == old(self)@.push((name@, field_model(value))),
    {
        let ghost name_view = name@;
        let ghost value_model = field_model(value);
        self.fields.push((name, value));
        proof {
            assert(self@ =~= old(self)@.push((name_view, value_model)));
        }
    }

    /// The first field of the given name, if the record has one.
    pub fn get(&self, name: &String) -> (r: Option<&FieldValue>)
        ensures
            match r {
                Some(v) => field_lookup(self@, name@) == Some(field_model(*v)),
                None => field_lookup(self@, name@) is None,
            },
    {
        proof {
            assert(self@.skip(0) =~= self@);
        }
        let mut i: usize = 0;
        while i < self.fields.len()
            invariant
                0 <= i <= self.fields.len(),
                self@.len() == self.fields@.len(),
                field_lookup(self@, name@) == field_lookup(self@.skip(i as int), name@),
            decreases self.fields.len() - i,
        {
            proof {
                assert(self@[i as int] == (self.fields@[i as int].0@, field_model(
                    self.fields@[i as int].1,
                )));
                assert(self@.skip(i as int)[0] == self@[i as int]);
            }
            if self.fields[i].0 == *name {
                return Some(&self.fields[i].1);
            }
            proof {
                assert(self@.skip(i as int).drop_first() =~= self@.skip(i as int + 1));
            }
            i += 1;
        }
        proof {
            assert(self@.skip(i as int) =~= Seq::<(Seq<char>, FieldModel)>::empty());
        }
        None
    }
}

/// A copy of a record whose model is the model of the original.
pub fn clone_record(r: &AttributeRecord) -> (res: AttributeRecord)
    ensures
        res@ == r@,
{
    let mut fields: Vec<(String, FieldValue)> = Vec::new();
    let mut i: usize = 0;
    while i < r.fields.len()
        invariant
            0 <= i <= r.fields.len(),
            fields@ =~= r.fields@.take(i as int),
        decreases r.fields.len() - i,
    {
        let name = r.fields[i].0.clone();
        let value = clone_field(&r.fields[i].1);
        fields.push((name, value));
        i += 1;
    }
    proof {
        assert(fields@ =~= r.fields@);
    }
    let res = AttributeRecord { fields };
    proof {
        assert(res@ =~= r@);
    }
    res
}

/// A copy of a field value equal to the original.
pub fn clone_field(v: &FieldValue) -> (res: FieldValue)
    ensures
        res == *v,
{
    match v {
        FieldValue::Character(Some(s)) => FieldValue::Character(Some(s.clone())),
        FieldValue::Character(None) => FieldValue::Character(None),
        FieldValue::Other => FieldValue::Other,
    }
}

} // verus!
