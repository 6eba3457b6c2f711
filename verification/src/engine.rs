//! What the library takes on trust of the template engine.

use vstd::prelude::*;
use crate::render::stands_alone;

verus! {

/// `mustache::Template`: a compiled template, carried from `compile` to
/// `render`.
#[verifier::external_type_specification]
#[verifier::external_body]
pub struct ExTemplate(mustache::Template);

/// `mustache::Data`: the values that a template is filled with.
#[verifier::external_type_specification]
#[verifier::external_body]
pub struct ExData(mustache::Data);

/// `mustache::MapBuilder`: a mapping of the engine while it is filled.
#[verifier::external_type_specification]
#[verifier::external_body]
pub struct ExMapBuilder(mustache::MapBuilder);

/// `mustache::Error`: carried from the engine to its diagnostic.
#[verifier::external_type_specification]
#[verifier::external_body]
pub struct ExEngineError(mustache::Error);

/// The text entries that a builder holds.
pub uninterp spec fn builder_fields(builder: mustache::MapBuilder) -> Map<Seq<char>, Seq<char>>;

/// Whether every entry that a builder holds is text.
pub uninterp spec fn builder_all_text(builder: mustache::MapBuilder) -> bool;

/// The text entries of the mapping that a value of the engine holds.
pub uninterp spec fn data_fields(data: mustache::Data) -> Map<Seq<char>, Seq<char>>;

/// Whether a value of the engine is a mapping whose every entry is text.
pub uninterp spec fn data_all_text(data: mustache::Data) -> bool;

/// The text from which a template was compiled.
pub uninterp spec fn template_source(template: mustache::Template) -> Seq<char>;

/// The words in which an error of the engine describes itself.
pub uninterp spec fn error_words(error: mustache::Error) -> Seq<char>;

/// What the engine objects to in the syntax of a template that stands
/// alone: the words of its error, or `None` where it accepts the text.
pub uninterp spec fn syntax_error(source: Seq<char>) -> Option<Seq<char>>;

/// What the engine makes of a compiled template that stands alone, given a
/// mapping whose entries are all text: the rendered text, or the words of
/// the error that it reports.
pub uninterp spec fn rendering(source: Seq<char>, fields: Map<Seq<char>, Seq<char>>) -> Result<
    Seq<char>,
    Seq<char>,
>;

/// `mustache::MapBuilder::new`. Trusted: the new builder holds no entry.
#[verifier::external_body]
pub(crate) fn new_builder() -> (fresh: mustache::MapBuilder)
    ensures
        builder_fields(fresh) =~= Map::empty(),
        builder_all_text(fresh),
{
    mustache::MapBuilder::new()
}

/// `mustache::MapBuilder::insert_str`. Trusted: the builder that comes back
/// holds the entries of the one given and, under `name`, the text `value`,
/// in place of what stood under that name before; where every entry was
/// text, every entry still is.
#[verifier::external_body]
pub(crate) fn insert_text(builder: mustache::MapBuilder, name: &str, value: &str) -> (grown:
    mustache::MapBuilder)
    ensures
        builder_fields(grown) == builder_fields(builder).insert(name@, value@),
        builder_all_text(builder) ==> builder_all_text(grown),
{
    builder.insert_str(name, value)
}

/// `mustache::MapBuilder::build`. Trusted: the value is a mapping with the
/// builder's entries, all of them text where the builder's were.
#[verifier::external_body]
pub(crate) fn build_data(builder: mustache::MapBuilder) -> (data: mustache::Data)
    ensures
        data_fields(data) == builder_fields(builder),
        builder_all_text(builder) ==> data_all_text(data),
{
    builder.build()
}

/// `mustache::compile_str`. Trusted: for a template that stands alone the
/// engine reads no file, so whether it accepts the syntax, and the error
/// with which it refuses it, depend on the text alone; the template that
/// comes back was compiled from that text. Its sections are no deeper than
/// the text has places at which one may open.
#[verifier::external_body]
pub(crate) fn compile(source: &str) -> (compiled: Result<mustache::Template, mustache::Error>)
    requires
        stands_alone(source@),
    ensures
        match compiled {
            Ok(template) => syntax_error(source@) is None && template_source(template) == source@,
            Err(error) => syntax_error(source@) == Some(error_words(error)),
        },
{
    mustache::compile_str(source)
}

/// `mustache::Template::render_data_to_string`. Trusted: in a template that
/// stands alone every tag that is filled names a field; on a mapping whose
/// entries are all text the engine finds a text or nothing under such a
/// name and halts on neither, its calls nest no deeper than the few
/// sections that such a template opens, and what it renders depends on the
/// template's text and the entries alone.
#[verifier::external_body]
pub(crate) fn render(template: &mustache::Template, data: &mustache::Data) -> (rendered: Result<
    String,
    mustache::Error,
>)
    requires
        stands_alone(template_source(*template)),
        data_all_text(*data),
    ensures
        match rendered {
            Ok(text) => rendering(template_source(*template), data_fields(*data)) matches Ok(
                made,
            ) && made == text@,
            Err(error) => rendering(template_source(*template), data_fields(*data)) matches Err(
                words,
            ) && words == error_words(error),
        },
{
    template.render_data_to_string(data)
}

/// The `Display` text of a `mustache::Error`. Trusted: it is made of the
/// error alone, so it is named by `error_words`.
#[verifier::external_body]
pub(crate) fn engine_error_text(error: &mustache::Error) -> (text: String)
    ensures
        text@ == error_words(*error),
{
    error.to_string()
}

} // verus!
