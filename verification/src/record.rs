//! Rectangles read from records of named, dynamically typed values.

use vstd::prelude::*;
use crate::arith::fits_i32;
use crate::rect::Rect;

verus! {

/// The fields that describe a rectangle in a record.
#[derive(Copy, Clone, Debug, PartialEq, Eq, Structural)]
pub enum Field {
    X0,
    Y0,
    X1,
    Y1,
}

impl Field {
    /// The key under which a record holds the field.
    pub open spec fn spec_name(self) -> Seq<char> {
        match self {
            Field::X0 => "x0"@,
            Field::Y0 => "y0"@,
            Field::X1 => "x1"@,
            Field::Y1 => "y1"@,
        }
    }

    /// The key under which a record holds the field.
    pub fn name(self) -> (key: &'static str)
        ensures
            key@ == self.spec_name(),
    {
        match self {
            Field::X0 => "x0",
            Field::Y0 => "y0",
            Field::X1 => "x1",
            Field::Y1 => "y1",
        }
    }
}

/// No two fields share a key, so a record holds each field on its own.
pub proof fn lemma_field_names_distinct(a: Field, b: Field)
    ensures
        a.spec_name() == b.spec_name() <==> a == b,
{
    reveal_strlit("x0");
    reveal_strlit("y0");
    reveal_strlit("x1");
    reveal_strlit("y1");
    assert("x0"@[0] != "y0"@[0] && "x0"@[1] != "x1"@[1] && "x0"@[1] != "y1"@[1]);
    assert("y0"@[1] != "x1"@[1] && "y0"@[1] != "y1"@[1] && "x1"@[0] != "y1"@[0]);
}

/// Why a record does not describe a rectangle.
#[derive(Copy, Clone, Debug, PartialEq, Eq, Structural)]
pub enum Error {
    /// The record holds nothing under the key of the field.
    FieldMissing(Field),
    /// What the record holds under the key of the field is not an integer
    /// that an `i32` can store.
    TypeConversion(Field),
}

/// A value that a record holds under a key.
#[derive(Debug, PartialEq, Eq)]
pub enum Value {
    Int(i64),
    Text(String),
}

impl Value {
    /// The value as an `i32`, if it is an integer in the range of `i32`.
    /// Text is never read as a number.
    pub open spec fn spec_as_i32(self) -> Option<i32> {
        match self {
            Value::Int(v) => if fits_i32(v as int) {
                Some(v as i32)
            } else {
                None
            },
            Value::Text(_) => None,
        }
    }

    /// The value as an `i32`, if it is an integer in the range of `i32`.
    pub fn as_i32(&self) -> (r: Option<i32>)
        ensures
            r == self.spec_as_i32(),
    {
        match self {
            Value::Int(v) => {
                if i32::MIN as i64 <= *v && *v <= i32::MAX as i64 {
                    Some(*v as i32)
                } else {
                    None
                }
            },
            Value::Text(_) => None,
        }
    }
}

/// The mapping that a list of entries stands for: each entry binds its key
/// to its value and replaces what entries before it bound the key to.
spec fn bindings(entries: Seq<(String, Value)>) -> Map<Seq<char>, Value>
    decreases entries.len(),
{
    if entries.len() == 0 {
        Map::empty()
    } else {
        bindings(entries.drop_last()).insert(entries.last().0@, entries.last().1)
    }
}

/// A record of values under textual keys.
#[derive(Debug)]
pub struct Record {
    entries: Vec<(String, Value)>,
}

impl View for Record {
    type V = Map<Seq<char>, Value>;

    closed spec fn view(&self) -> Map<Seq<char>, Value> {
        bindings(self.entries@)
    }
}

impl Record {
    /// The record that holds nothing.
    pub fn new() -> (record: Record)
        ensures
            record@ == Map::<Seq<char>, Value>::empty(),
    {
        Record { entries: Vec::new() }
    }

    /// Stores `value` under `key`, in place of what the record held there.
    pub fn insert(&mut self, key: &str, value: Value)
        ensures
            final(self)@ == old(self)@.insert(key@, value),
    {
        let ghost before = self.entries@;
        self.entries.push((key.to_owned(), value));
        assert(self.entries@.drop_last() == before);
    }

    /// What the record holds under `key`, if anything.
    pub fn get(&self, key: &str) -> (found: Option<&Value>)
        ensures
            match found {
                Some(value) => self@.contains_key(key@) && *value == self@[key@],
                None => !self@.contains_key(key@),
            },
    {
        let wanted = key.to_owned();
        let mut i: usize = self.entries.len();
        assert(self.entries@.take(i as int) == self.entries@);
        while i > 0
            invariant
                i <= self.entries.len(),
                wanted@ == key@,
                bindings(self.entries@).contains_key(key@) == bindings(
                    self.entries@.take(i as int),
                ).contains_key(key@),
                bindings(self.entries@).contains_key(key@) ==> bindings(self.entries@)[key@]
                    == bindings(self.entries@.take(i as int))[key@],
            decreases i,
        {
            i = i - 1;
            assert(self.entries@.take(i + 1).drop_last() == self.entries@.take(i as int));
            if self.entries[i].0 == wanted {
                return Some(&self.entries[i].1);
            }
        }
        None
    }

    /// The coordinate that the record holds for `field`: what it holds under
    /// the key of the field, as an `i32`. The field is missing if the record
    /// holds nothing under the key, and cannot be converted if what it holds
    /// there is not an integer in the range of `i32`.
    pub fn coordinate(&self, field: Field) -> (r: Result<i32, Error>)
        ensures
            r == spec_coordinate(self@, field),
    {
        match self.get(field.name()) {
            None => Err(Error::FieldMissing(field)),
            Some(value) => match value.as_i32() {
                Some(v) => Ok(v),
                None => Err(Error::TypeConversion(field)),
            },
        }
    }
}

/// The coordinate that a record with the contents `record` holds for
/// `field`.
pub open spec fn spec_coordinate(record: Map<Seq<char>, Value>, field: Field) -> Result<
    i32,
    Error,
> {
    if !record.contains_key(field.spec_name()) {
        Err(Error::FieldMissing(field))
    } else {
        match record[field.spec_name()].spec_as_i32() {
            Some(v) => Ok(v),
            None => Err(Error::TypeConversion(field)),
        }
    }
}

/// The rectangle that `record` describes by its fields `x0`, `y0`, `x1` and
/// `y1`, or the error of the first of them, in this order, that has one.
pub open spec fn spec_rect(record: Map<Seq<char>, Value>) -> Result<Rect, Error> {
    match spec_coordinate(record, Field::X0) {
        Err(e) => Err(e),
        Ok(x0) => match spec_coordinate(record, Field::Y0) {
            Err(e) => Err(e),
            Ok(y0) => match spec_coordinate(record, Field::X1) {
                Err(e) => Err(e),
                Ok(x1) => match spec_coordinate(record, Field::Y1) {
                    Err(e) => Err(e),
                    Ok(y1) => Ok(Rect { x0, y0, x1, y1 }),
                },
            },
        },
    }
}

impl<'a> vstd::std_specs::convert::TryFromSpecImpl<&'a Record> for Rect {
    open spec fn obeys_try_from_spec() -> bool {
        true
    }

    open spec fn try_from_spec(record: &'a Record) -> Result<Rect, Error> {
        spec_rect(record@)
    }
}

impl<'a> TryFrom<&'a Record> for Rect {
    type Error = Error;

    /// Reads a rectangle from the fields `x0`, `y0`, `x1` and `y1` of
    /// `record`, and fails with the error of the first of them, in this
    /// order, that is missing or cannot be converted. Other keys of the
    /// record are ignored.
    fn try_from(record: &'a Record) -> (r: Result<Rect, Error>)
        ensures
            r == spec_rect(record@),
    {
        let x0: i32 = match record.coordinate(Field::X0) {
            Ok(v) => v,
            Err(e) => return Err(e),
        };
        let y0: i32 = match record.coordinate(Field::Y0) {
            Ok(v) => v,
            Err(e) => return Err(e),
        };
        let x1: i32 = match record.coordinate(Field::X1) {
            Ok(v) => v,
            Err(e) => return Err(e),
        };
        let y1: i32 = match record.coordinate(Field::Y1) {
            Ok(v) => v,
            Err(e) => return Err(e),
        };
        Ok(Rect { x0, y0, x1, y1 })
    }
}

} // verus!
