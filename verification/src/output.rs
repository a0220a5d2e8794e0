//! What is shown for one field of a result.
use vstd::prelude::*;

verus! {

#[verifier::external_type_specification]
#[verifier::external_body]
pub struct ExTantivyDocument(tantivy::TantivyDocument);

/// The first value stored in a document under the field with the given
/// ordinal, where the document has one and it is a text.
pub uninterp spec fn stored_text(document: tantivy::TantivyDocument, field: u32) -> Option<
    Seq<char>,
>;

/// The text shown in place of a field that a document does not hold as text.
pub open spec fn absent_marker() -> Seq<char> {
    "##ERROR##"@
}

/// `TantivyDocument::get_first` and `Value::as_str`: the first value of the
/// field, if the document has one and it is a text.
#[verifier::external_body]
fn first_text(document: &tantivy::TantivyDocument, field: u32) -> (text: Option<String>)
    ensures
        match text {
            Some(text) => stored_text(*document, field) == Some(text@),
            None => stored_text(*document, field) is None,
        },
{
    document.get_first(tantivy::schema::Field::from_field_id(field)).and_then(
        |value| tantivy::schema::Value::as_str(&value).map(|text| text.to_string()),
    )
}

/// The text to show for the field `field` of a fetched document: the stored
/// text, or the absent marker where the document holds none.
pub fn output_field(document: &tantivy::TantivyDocument, field: u32) -> (shown: String)
    ensures
        shown@ == match stored_text(*document, field) {
            Some(text) => text,
            None => absent_marker(),
        },
{
    match first_text(document, field) {
        Some(text) => text,
        None => "##ERROR##".to_string(),
    }
}

} // verus!
