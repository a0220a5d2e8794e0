//! The document engine, as far as an indexing run uses it.
//!
//! Everything in this file is believed, not proved: each function hands its
//! arguments to the engine and states what the engine's documentation and
//! source say of the outcome.  The documents that an index, a writer or a
//! searcher holds are spoken of through the functions without a body below.
use vstd::prelude::*;
use vstd::multiset::Multiset;

verus! {

#[verifier::external_type_specification]
#[verifier::external_body]
pub struct ExIndex(tantivy::Index);

#[verifier::external_type_specification]
#[verifier::external_body]
pub struct ExSchemaBuilder(tantivy::schema::SchemaBuilder);

/// One field of a schema as mathematical values: a text field whose values
/// are indexed in tokens or as one term each, and are stored or not.
pub ghost struct FieldView {
    pub name: Seq<char>,
    pub tokenized: bool,
    pub stored: bool,
}

/// One catalog entry as mathematical values: the texts stored under the
/// first, second and third field of the schema.
pub ghost struct CatalogDocument {
    pub patient_id: Seq<char>,
    pub person_name: Seq<char>,
    pub file_path: Seq<char>,
}

/// The single writer of an index (`tantivy::IndexWriter`).
///
/// The engine's writer is generic over a trait of the engine, which Verus
/// cannot be told of, so the writer is kept behind this struct, and only the
/// functions of this file look inside.
#[verifier::external_body]
pub struct CatalogWriter {
    inner: tantivy::IndexWriter,
}

/// The fields added to a schema builder so far, in order.
pub uninterp spec fn builder_fields(builder: tantivy::schema::SchemaBuilder) -> Seq<FieldView>;

/// The fields of a schema, in the order of their ordinals.
pub uninterp spec fn schema_fields(schema: tantivy::schema::Schema) -> Seq<FieldView>;

/// The fields of the schema that an index was created with.
pub uninterp spec fn index_fields(index: tantivy::Index) -> Seq<FieldView>;

/// The fields of the schema of the index that a writer writes to.
pub uninterp spec fn writer_fields(writer: CatalogWriter) -> Seq<FieldView>;

/// The fields of the schema that a searcher works with.
pub uninterp spec fn searcher_fields(searcher: tantivy::Searcher) -> Seq<FieldView>;

/// The documents committed to an index, each as the texts under its first
/// three fields.
pub uninterp spec fn index_documents(index: tantivy::Index) -> Multiset<CatalogDocument>;

/// The documents committed to the index that a writer writes to.
pub uninterp spec fn writer_published(writer: CatalogWriter) -> Multiset<CatalogDocument>;

/// The documents that a writer's next commit publishes, if it succeeds.
pub uninterp spec fn writer_staged(writer: CatalogWriter) -> Multiset<CatalogDocument>;

/// The documents that a writer took since it was opened: one for each
/// `add_document` that it answered with `Ok`.
pub uninterp spec fn writer_accepted(writer: CatalogWriter) -> Multiset<CatalogDocument>;

/// The documents that a searcher sees.
pub uninterp spec fn searcher_documents(searcher: tantivy::Searcher) -> Multiset<CatalogDocument>;

/// The names that the engine takes for a field: not empty, and not starting
/// with a hyphen.
pub open spec fn valid_field_name(name: Seq<char>) -> bool {
    name.len() > 0 && name[0] != '-'
}

/// No field of `fields` is called `name`.
pub open spec fn name_is_free(fields: Seq<FieldView>, name: Seq<char>) -> bool {
    forall|i: int| 0 <= i < fields.len() ==> (#[trigger] fields[i]).name != name
}

/// `Schema::builder`: a builder without fields.
#[verifier::external_body]
pub(crate) fn new_schema_builder() -> (builder: tantivy::schema::SchemaBuilder)
    ensures
        builder_fields(builder) == Seq::<FieldView>::empty(),
{
    tantivy::schema::Schema::builder()
}

/// `SchemaBuilder::add_text_field` with the options `STRING | STORED`: appends
/// a text field whose values are indexed untokenized, each as one term, and
/// stored, and returns its ordinal, which is the number of fields added
/// before it.  The engine panics on a name that is empty, starts with a
/// hyphen or is the name of a field that the builder already holds, so such a
/// name is not accepted.
#[verifier::external_body]
pub(crate) fn add_stored_string_field(builder: &mut tantivy::schema::SchemaBuilder, name: &str) -> (ordinal: u32)
    requires
        valid_field_name(name@),
        name_is_free(builder_fields(*old(builder)), name@),
        builder_fields(*old(builder)).len() < u32::MAX,
    ensures
        builder_fields(*final(builder)) == builder_fields(*old(builder)).push(
            FieldView { name: name@, tokenized: false, stored: true },
        ),
        ordinal == builder_fields(*old(builder)).len(),
{
    builder.add_text_field(name, tantivy::schema::STRING | tantivy::schema::STORED).field_id()
}

/// `SchemaBuilder::build`: the schema holds the builder's fields.
#[verifier::external_body]
pub(crate) fn build_schema(builder: tantivy::schema::SchemaBuilder) -> (schema: tantivy::schema::Schema)
    ensures
        schema_fields(schema) == builder_fields(builder),
{
    builder.build()
}

/// `Schema::fields`, each field as its ordinal: the ordinals count up from
/// zero, one for each field of the schema.
#[verifier::external_body]
pub(crate) fn field_ordinals(schema: &tantivy::schema::Schema) -> (ordinals: Vec<u32>)
    ensures
        ordinals@.len() == schema_fields(*schema).len(),
        forall|i: int| 0 <= i < ordinals@.len() ==> ordinals@[i] == i,
{
    schema.fields().map(|(field, _)| field.field_id()).collect()
}

/// `Index::create_in_ram`: a new index in memory, with the given schema,
/// which holds no document.
#[verifier::external_body]
pub(crate) fn create_in_ram(schema: &tantivy::schema::Schema) -> (index: tantivy::Index)
    ensures
        index_documents(index) == Multiset::<CatalogDocument>::empty(),
        index_fields(index) == schema_fields(*schema),
{
    tantivy::Index::create_in_ram(schema.clone())
}

/// `Index::writer`: the writer of `index`, with nothing staged.  The engine
/// may refuse: another writer holds the index, or the budget is out of range.
#[verifier::external_body]
pub(crate) fn open_writer(index: tantivy::Index, memory_budget: usize) -> (opened: Result<
    CatalogWriter,
    tantivy::TantivyError,
>)
    ensures
        opened matches Ok(writer) ==> {
            &&& writer_published(writer) == index_documents(index)
            &&& writer_staged(writer) == Multiset::<CatalogDocument>::empty()
            &&& writer_accepted(writer) == Multiset::<CatalogDocument>::empty()
            &&& writer_fields(writer) == index_fields(index)
        },
{
    index.writer(memory_budget).map(|inner| CatalogWriter { inner })
}

/// `IndexWriter::add_document`, on a document that holds `patient_id`,
/// `person_name` and `file_path` as texts under the fields `first`, `second`
/// and `third`, which are the first three fields: only then is the document
/// the triple that the contract speaks of.  (The engine panics on a field
/// ordinal above `u16::MAX`.)  An accepted document is staged and counts as
/// taken; a refused one is neither.  What is committed does not change
/// either way.
#[verifier::external_body]
pub(crate) fn add_document(
    writer: &mut CatalogWriter,
    first: u32,
    second: u32,
    third: u32,
    patient_id: &String,
    person_name: &String,
    file_path: &String,
) -> (added: Result<u64, tantivy::TantivyError>)
    requires
        first == 0,
        second == 1,
        third == 2,
    ensures
        writer_published(*final(writer)) == writer_published(*old(writer)),
        writer_fields(*final(writer)) == writer_fields(*old(writer)),
        added is Ok ==> writer_staged(*final(writer)) == writer_staged(*old(writer)).insert(
            CatalogDocument {
                patient_id: patient_id@,
                person_name: person_name@,
                file_path: file_path@,
            },
        ),
        added is Ok ==> writer_accepted(*final(writer)) == writer_accepted(*old(writer)).insert(
            CatalogDocument {
                patient_id: patient_id@,
                person_name: person_name@,
                file_path: file_path@,
            },
        ),
        added is Err ==> writer_staged(*final(writer)) == writer_staged(*old(writer)),
        added is Err ==> writer_accepted(*final(writer)) == writer_accepted(*old(writer)),
{
    let mut document = tantivy::TantivyDocument::default();
    document.add_text(tantivy::schema::Field::from_field_id(first), patient_id);
    document.add_text(tantivy::schema::Field::from_field_id(second), person_name);
    document.add_text(tantivy::schema::Field::from_field_id(third), file_path);
    writer.inner.add_document(document)
}

/// `IndexWriter::commit`: when it succeeds, what was staged is committed and
/// nothing is staged any more.  When it fails, the engine does not say which
/// of the staged documents it still holds or has committed; what was
/// committed before stays committed, and no document comes from elsewhere
/// than what was committed or staged.  A commit takes no document.
#[verifier::external_body]
pub(crate) fn commit(writer: &mut CatalogWriter) -> (committed: Result<u64, tantivy::TantivyError>)
    ensures
        writer_fields(*final(writer)) == writer_fields(*old(writer)),
        writer_accepted(*final(writer)) == writer_accepted(*old(writer)),
        committed is Ok ==> {
            &&& writer_published(*final(writer)) == writer_published(*old(writer)).add(
                writer_staged(*old(writer)),
            )
            &&& writer_staged(*final(writer)) == Multiset::<CatalogDocument>::empty()
        },
        committed is Err ==> {
            &&& writer_published(*old(writer)).subset_of(writer_published(*final(writer)))
            &&& writer_published(*final(writer)).add(writer_staged(*final(writer))).subset_of(
                writer_published(*old(writer)).add(writer_staged(*old(writer))),
            )
        },
{
    writer.inner.commit()
}

/// `IndexWriter::index`: gives the writer up and hands back its index, which
/// holds what the writer committed.
#[verifier::external_body]
pub(crate) fn close_writer(writer: CatalogWriter) -> (index: tantivy::Index)
    ensures
        index_documents(index) == writer_published(writer),
        index_fields(index) == writer_fields(writer),
{
    writer.inner.index().clone()
}

/// `Index::reader` and `IndexReader::searcher`: a searcher over what is
/// committed to `index` at the time of the call, with the schema of `index`.
#[verifier::external_body]
pub(crate) fn open_searcher(index: &tantivy::Index) -> (opened: Result<
    tantivy::Searcher,
    tantivy::TantivyError,
>)
    ensures
        opened matches Ok(searcher) ==> {
            &&& searcher_documents(searcher) == index_documents(*index)
            &&& searcher_fields(searcher) == index_fields(*index)
        },
{
    index.reader().map(|reader| reader.searcher())
}

/// `Searcher::num_docs`: how many documents the searcher sees.
#[verifier::external_body]
pub(crate) fn document_count(searcher: &tantivy::Searcher) -> (count: u64)
    ensures
        count == searcher_documents(*searcher).len(),
{
    searcher.num_docs()
}

/// `TantivyError::IndexAlreadyExists`: the engine's failure for an index that
/// stands where a new one was to be made.
#[verifier::external_body]
pub(crate) fn index_already_exists() -> (failure: tantivy::TantivyError) {
    tantivy::TantivyError::IndexAlreadyExists
}

/// The message of an engine error (its `Display` text).
#[verifier::external_body]
pub(crate) fn error_message(error: &tantivy::TantivyError) -> (message: String) {
    format!("{error}")
}

} // verus!
