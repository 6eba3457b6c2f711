//! What the library takes on trust of the YAML reader.

use vstd::prelude::*;

verus! {

/// `serde_yaml::Value`: a YAML document as it was read. Nothing is seen inside
/// it but through `field_text`.
#[verifier::external_type_specification]
#[verifier::external_body]
pub struct ExYamlValue(serde_yaml::Value);

/// `serde_yaml::Error`: carried from the reader to its diagnostic.
#[verifier::external_type_specification]
#[verifier::external_body]
pub struct ExYamlError(serde_yaml::Error);

/// The text fields of a YAML document: where the document is a mapping, each
/// of its text keys whose value is text, with that value. A document that is
/// no mapping has none.
pub uninterp spec fn text_fields(document: serde_yaml::Value) -> Map<Seq<char>, Seq<char>>;

/// The words in which an error of the YAML reader describes itself.
pub uninterp spec fn yaml_error_words(error: serde_yaml::Error) -> Seq<char>;

/// The text fields of the one YAML document that the bytes hold, or, where
/// the bytes are not one YAML document, the words of the reader's error.
pub uninterp spec fn document_fields(bytes: Seq<u8>) -> Result<Map<Seq<char>, Seq<char>>, Seq<char>>;

/// `serde_yaml::from_slice` with `serde_yaml::Value` as its target. Trusted:
/// what it returns depends on the bytes alone, so the outcome is named by
/// `document_fields`: the text fields of the value that it returns, or the
/// words of its error.
#[verifier::external_body]
pub(crate) fn read_document(bytes: &[u8]) -> (read: Result<serde_yaml::Value, serde_yaml::Error>)
    ensures
        match read {
            Ok(document) => document_fields(bytes@) matches Ok(fields) && fields == text_fields(
                document,
            ),
            Err(error) => document_fields(bytes@) matches Err(words) && words == yaml_error_words(
                error,
            ),
        },
{
    serde_yaml::from_slice::<serde_yaml::Value>(bytes)
}

/// `serde_yaml::Value::get` with a text key, then `serde_yaml::Value::as_str`
/// on what was found. Trusted: the text comes back exactly for a key that
/// the mapping has with a text value, and `None` for a missing key, for a
/// value of another type and for a document that is no mapping.
#[verifier::external_body]
pub(crate) fn field_text(document: &serde_yaml::Value, name: &str) -> (found: Option<String>)
    ensures
        match found {
            Some(text) => text_fields(*document).contains_key(name@) && text_fields(
                *document,
            )[name@] == text@,
            None => !text_fields(*document).contains_key(name@),
        },
{
    document.get(name).and_then(|value| value.as_str()).map(|text| text.to_string())
}

/// The `Display` text of a `serde_yaml::Error`. Trusted: it is made of the
/// error alone, so it is named by `yaml_error_words`.
#[verifier::external_body]
pub(crate) fn yaml_error_text(error: &serde_yaml::Error) -> (text: String)
    ensures
        text@ == yaml_error_words(*error),
{
    error.to_string()
}

} // verus!
