//! Structured documents: the input that templates are decoded from.

use vstd::prelude::*;

verus! {

/// One entry of a record: a key and the value under it.
#[derive(Debug, PartialEq, Eq)]
pub struct Field {
    pub key: String,
    pub value: Document,
}

/// A structured document: a scalar, a sequence of documents, or a record of
/// keyed documents.
#[derive(Debug, PartialEq, Eq)]
pub enum Document {
    Null,
    Bool(bool),
    /// A number, kept as the digits it is written with.
    Number(String),
    Text(String),
    List(Vec<Document>),
    Record(Vec<Field>),
}

/// The value of the first of `fields` whose key is `key`.
pub open spec fn first_under(fields: Seq<Field>, key: Seq<char>) -> Option<Document>
    decreases fields.len(),
{
    if fields.len() == 0 {
        None
    } else if fields[0].key@ == key {
        Some(fields[0].value)
    } else {
        first_under(fields.drop_first(), key)
    }
}

/// Looking past an entry with another key changes nothing.
proof fn lemma_first_under_skips(fields: Seq<Field>, key: Seq<char>, passed: int)
    requires
        0 <= passed < fields.len(),
        fields[passed].key@ != key,
    ensures
        first_under(fields.skip(passed), key) == first_under(fields.skip(passed + 1), key),
{
    assert(fields.skip(passed).drop_first() =~= fields.skip(passed + 1));
}

impl Document {
    /// The value of field `key`: in a record, the value of the first entry
    /// under that key; `None` where there is no such entry, and in every
    /// document that is not a record.
    pub open spec fn field(&self, key: Seq<char>) -> Option<Document> {
        match self {
            Document::Record(fields) => first_under(fields@, key),
            _ => None,
        }
    }

    /// Reads field `key`.
    pub fn get(&self, key: &str) -> (value: Option<&Document>)
        ensures
            match value {
                Some(held) => self.field(key@) == Some(*held),
                None => self.field(key@) is None,
            },
    {
        match self {
            Document::Record(fields) => {
                let wanted: String = key.to_owned();
                let mut at: usize = 0;
                assert(fields@.skip(0) =~= fields@);
                while at < fields.len()
                    invariant
                        wanted@ == key@,
                        at <= fields.len(),
                        self.field(key@) == first_under(fields@.skip(at as int), key@),
                    decreases fields.len() - at,
                {
                    if fields[at].key == wanted {
                        return Some(&fields[at].value);
                    }
                    proof {
                        lemma_first_under_skips(fields@, key@, at as int);
                    }
                    at += 1;
                }
                None
            },
            _ => None,
        }
    }
}

} // verus!
