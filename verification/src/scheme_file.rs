//! Reading a scheme from the bytes of a YAML file.

use vstd::prelude::*;
use crate::failure::{Cause, Failure, Kind};
use crate::yaml::{document_fields, field_text, read_document, text_fields, yaml_error_text};
use crate::palette::{field_name, field_names, first_absent, lemma_first_absent, present, SchemeInput, FIELD_COUNT};

verus! {

/// Whether `found` holds, slot by slot, what `fields` has under the names of
/// the scheme file: the value where the name is a key, nothing where it is
/// not.
pub open spec fn found_in(found: Seq<Option<String>>, fields: Map<Seq<char>, Seq<char>>) -> bool {
    &&& found.len() == FIELD_COUNT
    &&& forall|i: int|
        0 <= i < FIELD_COUNT ==> match #[trigger] found[i] {
            Some(text) => fields.contains_key(field_names()[i]) && fields[field_names()[i]] == text@,
            None => !fields.contains_key(field_names()[i]),
        }
}

/// The first slot whose name is no key of `fields`, or the number of fields
/// where every name is one.
pub open spec fn first_missing(fields: Map<Seq<char>, Seq<char>>, limit: int) -> int
    decreases limit,
{
    if limit <= 0 {
        0
    } else if first_missing(fields, limit - 1) < limit - 1 {
        first_missing(fields, limit - 1)
    } else if fields.contains_key(field_names()[limit - 1]) {
        limit
    } else {
        limit - 1
    }
}

/// Whether `fields` has every one of the eighteen names as a key.
pub open spec fn complete(fields: Map<Seq<char>, Seq<char>>) -> bool {
    forall|i: int| 0 <= i < FIELD_COUNT ==> fields.contains_key(#[trigger] field_names()[i])
}

/// Whether the bytes are one YAML document that has a text value under each
/// of the eighteen names.
pub open spec fn holds_scheme(bytes: Seq<u8>) -> bool {
    match document_fields(bytes) {
        Ok(fields) => complete(fields),
        Err(_) => false,
    }
}

/// Why bytes that hold no scheme are refused: the input is malformed, and
/// the diagnostic is the reader's where the bytes are not one YAML document,
/// else the name of the first field that is missing or is not text.
pub open spec fn refusal(bytes: Seq<u8>) -> Cause {
    Cause {
        kind: Kind::MalformedInput,
        detail: match document_fields(bytes) {
            Ok(fields) => field_names()[first_missing(fields, FIELD_COUNT as int)],
            Err(words) => words,
        },
    }
}

/// `first_missing` is the first name that is no key: every name before it is
/// one, and it is the number of names exactly when none is missing.
pub proof fn lemma_first_missing(fields: Map<Seq<char>, Seq<char>>, limit: int)
    requires
        0 <= limit <= FIELD_COUNT,
    ensures
        0 <= first_missing(fields, limit) <= limit,
        forall|i: int|
            0 <= i < first_missing(fields, limit) ==> fields.contains_key(
                #[trigger] field_names()[i],
            ),
        first_missing(fields, limit) < limit ==> !fields.contains_key(
            field_names()[first_missing(fields, limit)],
        ),
        limit == FIELD_COUNT ==> (first_missing(fields, limit) == limit <==> complete(fields)),
    decreases limit,
{
    if limit > 0 {
        lemma_first_missing(fields, limit - 1);
    }
}

/// Where `found` holds what `fields` has, the first slot without a value is
/// the first name that is missing.
proof fn lemma_found_missing(
    found: Seq<Option<String>>,
    fields: Map<Seq<char>, Seq<char>>,
    limit: int,
)
    requires
        found_in(found, fields),
        0 <= limit <= FIELD_COUNT,
    ensures
        first_missing(fields, limit) == first_absent(found, limit),
    decreases limit,
{
    if limit > 0 {
        lemma_found_missing(found, fields, limit - 1);
        assert(present(found, limit - 1) <==> fields.contains_key(field_names()[limit - 1]));
    }
}

/// Looks every field of the scheme file up in the document.
fn lookup_fields(document: &serde_yaml::Value) -> (found: Vec<Option<String>>)
    ensures
        found_in(found@, text_fields(*document)),
{
    let mut found: Vec<Option<String>> = Vec::new();
    let mut index: usize = 0;
    while index < FIELD_COUNT
        invariant
            index <= FIELD_COUNT,
            found@.len() == index,
            forall|i: int|
                0 <= i < index ==> match #[trigger] found@[i] {
                    Some(text) => text_fields(*document).contains_key(field_names()[i])
                        && text_fields(*document)[field_names()[i]] == text@,
                    None => !text_fields(*document).contains_key(field_names()[i]),
                },
        decreases FIELD_COUNT - index,
    {
        let value = field_text(document, field_name(index));
        found.push(value);
        index = index + 1;
    }
    found
}

impl SchemeInput {
    /// Reads a scheme from the bytes of a YAML file.
    ///
    /// Succeeds exactly when the bytes are one YAML document in which each of
    /// the eighteen names is a key with a text value; the scheme then holds
    /// those values. Otherwise the input is malformed: the diagnostic is the
    /// reader's where the bytes are no document, and else the name of the
    /// first field that is missing or is not text.
    pub fn from_yaml(bytes: &[u8]) -> (made: Result<SchemeInput, Failure>)
        ensures
            made is Ok <==> holds_scheme(bytes@),
            match made {
                Ok(scheme) => forall|i: int|
                    0 <= i < FIELD_COUNT ==> #[trigger] scheme.values()[i]
                        == document_fields(bytes@)->Ok_0[field_names()[i]],
                Err(failure) => failure@ == refusal(bytes@),
            },
    {
        match read_document(bytes) {
            Err(error) => Err(Failure::MalformedInput(yaml_error_text(&error))),
            Ok(document) => {
                let found = lookup_fields(&document);
                proof {
                    lemma_found_missing(found@, text_fields(document), FIELD_COUNT as int);
                    lemma_first_missing(text_fields(document), FIELD_COUNT as int);
                    lemma_first_absent(found@, FIELD_COUNT as int);
                }
                SchemeInput::from_fields(&found)
            },
        }
    }
}

} // verus!
