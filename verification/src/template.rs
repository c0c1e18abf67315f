//! Templates: the plain description of a graph that is still to be built,
//! and how one is decoded from a document.

use vstd::prelude::*;
use crate::document::Document;

verus! {

/// Describes one model: its name.
#[derive(Debug)]
pub struct ModelTemplate {
    pub name: String,
}

/// Describes a schema: its name and its models, in the order they will have.
#[derive(Debug)]
pub struct SchemaTemplate {
    pub name: String,
    pub models: Vec<ModelTemplate>,
}

/// What a schema template says: the name of the schema and the names of its
/// models, in order.
pub struct Description {
    pub name: Seq<char>,
    pub models: Seq<Seq<char>>,
}

impl View for ModelTemplate {
    type V = Seq<char>;

    /// The name of the described model.
    open spec fn view(&self) -> Seq<char> {
        self.name@
    }
}

impl View for SchemaTemplate {
    type V = Description;

    open spec fn view(&self) -> Description {
        Description {
            name: self.name@,
            models: Seq::new(self.models@.len(), |i: int| self.models@[i]@),
        }
    }
}

/// Why a document describes no template.
#[derive(Debug, Clone, Copy, PartialEq, Eq, Structural)]
pub enum DecodeError {
    /// A record lacks a field that a template needs.
    MissingField,
    /// A record, a sequence or a text was needed, and something else is
    /// there.
    WrongShape,
}

/// What reading the text of field `key` of `document` gives: the text, or
/// what is wrong. A document that is no record has the wrong shape; a record
/// without the field misses it; a field that holds no text has the wrong
/// shape.
pub open spec fn text_under(document: Document, key: Seq<char>) -> Result<Seq<char>, DecodeError> {
    match document {
        Document::Record(_) => match document.field(key) {
            None => Err(DecodeError::MissingField),
            Some(Document::Text(text)) => Ok(text@),
            Some(_) => Err(DecodeError::WrongShape),
        },
        _ => Err(DecodeError::WrongShape),
    }
}

/// The model names that `entries` describe, in order, or what is wrong with
/// the first entry that describes no model.
pub open spec fn models_described(entries: Seq<Document>) -> Result<Seq<Seq<char>>, DecodeError>
    decreases entries.len(),
{
    if entries.len() == 0 {
        Ok(Seq::empty())
    } else {
        match models_described(entries.drop_last()) {
            Err(error) => Err(error),
            Ok(names) => match text_under(entries.last(), "name"@) {
                Err(error) => Err(error),
                Ok(name) => Ok(names.push(name)),
            },
        }
    }
}

/// What `document` describes, or what is wrong with it. The name is read
/// first, then the models in order, and the first fault found is the one
/// reported.
pub open spec fn described(document: Document) -> Result<Description, DecodeError> {
    match text_under(document, "name"@) {
        Err(error) => Err(error),
        Ok(name) => match document.field("models"@) {
            None => Err(DecodeError::MissingField),
            Some(Document::List(entries)) => match models_described(entries@) {
                Err(error) => Err(error),
                Ok(models) => Ok(Description { name, models }),
            },
            Some(_) => Err(DecodeError::WrongShape),
        },
    }
}

/// A fault among the first `upto` entries is the fault of the whole sequence.
proof fn lemma_first_fault_stays(entries: Seq<Document>, upto: int)
    requires
        0 <= upto <= entries.len(),
        models_described(entries.take(upto)) is Err,
    ensures
        models_described(entries) == models_described(entries.take(upto)),
    decreases entries.len() - upto,
{
    if upto < entries.len() {
        assert(entries.take(upto + 1).drop_last() =~= entries.take(upto));
        lemma_first_fault_stays(entries, upto + 1);
    } else {
        assert(entries.take(upto) =~= entries);
    }
}

/// Reads the text of field `key`.
fn read_text(document: &Document, key: &str) -> (read: Result<String, DecodeError>)
    ensures
        match read {
            Ok(text) => text_under(*document, key@) matches Ok(held) && held == text@,
            Err(error) => text_under(*document, key@) matches Err(fault) && fault == error,
        },
{
    match document {
        Document::Record(_) => match document.get(key) {
            None => Err(DecodeError::MissingField),
            Some(Document::Text(text)) => Ok(text.clone()),
            Some(_) => Err(DecodeError::WrongShape),
        },
        _ => Err(DecodeError::WrongShape),
    }
}

impl ModelTemplate {
    /// Decodes the description of a model: a record whose field `name` holds
    /// a text.
    pub fn parse(document: &Document) -> (parsed: Result<ModelTemplate, DecodeError>)
        ensures
            match parsed {
                Ok(template) => text_under(*document, "name"@) matches Ok(name) && name
                    == template@,
                Err(error) => text_under(*document, "name"@) matches Err(fault) && fault == error,
            },
    {
        match read_text(document, "name") {
            Ok(name) => Ok(ModelTemplate { name }),
            Err(error) => Err(error),
        }
    }
}

impl SchemaTemplate {
    /// Decodes the description of a schema: a record whose field `name`
    /// holds a text and whose field `models` holds a sequence of model
    /// descriptions. Fields of other names are passed over.
    pub fn parse(document: &Document) -> (parsed: Result<SchemaTemplate, DecodeError>)
        ensures
            match parsed {
                Ok(template) => described(*document) matches Ok(description) && description
                    == template@,
                Err(error) => described(*document) matches Err(fault) && fault == error,
            },
    {
        let name = match read_text(document, "name") {
            Ok(name) => name,
            Err(error) => { return Err(error); },
        };
        let entries = match document.get("models") {
            None => { return Err(DecodeError::MissingField); },
            Some(Document::List(entries)) => entries,
            Some(_) => { return Err(DecodeError::WrongShape); },
        };
        let mut models: Vec<ModelTemplate> = Vec::new();
        let ghost mut names: Seq<Seq<char>> = Seq::empty();
        let mut at: usize = 0;
        while at < entries.len()
            invariant
                text_under(*document, "name"@) matches Ok(held) && held == name@,
                document.field("models"@) == Some(Document::List(*entries)),
                at <= entries.len(),
                models@.len() == at,
                names.len() == at,
                forall|i: int| 0 <= i < at ==> names[i] == (#[trigger] models@[i])@,
                models_described(entries@.take(at as int)) matches Ok(held) && held == names,
            decreases entries.len() - at,
        {
            proof {
                assert(entries@.take(at + 1).drop_last() =~= entries@.take(at as int));
            }
            match ModelTemplate::parse(&entries[at]) {
                Ok(model) => {
                    proof {
                        names = names.push(model@);
                    }
                    models.push(model);
                },
                Err(error) => {
                    proof {
                        lemma_first_fault_stays(entries@, at + 1);
                    }
                    return Err(error);
                },
            }
            at += 1;
        }
        assert(entries@.take(at as int) =~= entries@);
        let template = SchemaTemplate { name, models };
        assert(template@.models =~= names);
        Ok(template)
    }
}

/// A document whose field `models` is missing, or holds anything but a
/// sequence, describes no template.
pub proof fn lemma_models_must_be_listed(document: Document)
    requires
        !(document.field("models"@) matches Some(Document::List(_))),
    ensures
        described(document) is Err,
{
}

} // verus!
