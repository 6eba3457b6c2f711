//! Rendering one template with the values of a scheme.

use vstd::prelude::*;
use vstd::string::*;
use crate::engine::{
    build_data, builder_all_text, builder_fields, compile, data_all_text, data_fields,
    engine_error_text, insert_text, new_builder, render, rendering, syntax_error,
};
use crate::failure::{Cause, Failure, Kind};
use crate::palette::{context_names, lemma_names_distinct, SchemeOutput, FIELD_COUNT};
use crate::tags::{blank, find_unknown, unknown_name};
use crate::text::chars_of;

verus! {

/// Whether `c` is white space, as the engine trims it from a tag's name:
/// the characters that Unicode classes as `White_Space`.
pub open spec fn is_blank(c: char) -> bool {
    ||| '\u{9}' <= c <= '\u{d}'
    ||| c == ' '
    ||| c == '\u{85}'
    ||| c == '\u{a0}'
    ||| c == '\u{1680}'
    ||| '\u{2000}' <= c <= '\u{200a}'
    ||| c == '\u{2028}'
    ||| c == '\u{2029}'
    ||| c == '\u{202f}'
    ||| c == '\u{205f}'
    ||| c == '\u{3000}'
}

/// Where the run of white space that starts at `from` ends.
pub open spec fn skip_blanks(text: Seq<char>, from: int) -> int
    decreases text.len() - from,
{
    if 0 <= from < text.len() && is_blank(text[from]) {
        skip_blanks(text, from + 1)
    } else {
        from
    }
}

/// Whether, from position `from` on, `text` holds a lone `.` and then a `}`,
/// with nothing but white space before and after the `.`: the way a tag
/// names the value on top of the context instead of a field.
pub open spec fn lone_dot_at(text: Seq<char>, from: int) -> bool {
    let dot = skip_blanks(text, from);
    let close = skip_blanks(text, dot + 1);
    &&& 0 <= dot < text.len()
    &&& text[dot] == '.'
    &&& close < text.len()
    &&& text[close] == '}'
}

/// Whether `c` stands in `text` at position `at`.
pub open spec fn has_at(text: Seq<char>, at: int, c: char) -> bool {
    0 <= at < text.len() && text[at] == c
}

/// Whether a tag that the library does not hand to the engine may start at
/// `at`: after `{{` comes `>` (a partial, which the engine reads from a
/// file), `=` (new delimiters, under which the other two cannot be seen),
/// or a lone `.`, bare or behind `&` or `{` (the context itself where a text
/// is expected, on which the engine halts).
pub open spec fn foreign_tag_at(text: Seq<char>, at: int) -> bool {
    &&& has_at(text, at, '{')
    &&& has_at(text, at + 1, '{')
    &&& {
        ||| has_at(text, at + 2, '>')
        ||| has_at(text, at + 2, '=')
        ||| lone_dot_at(text, at + 2)
        ||| (has_at(text, at + 2, '&') || has_at(text, at + 2, '{')) && lone_dot_at(text, at + 3)
    }
}

/// The most sections that a template may open if the library is to hand it
/// to the engine. The engine renders a section within a section by a call
/// within a call, so the depth of the sections is the depth of its stack.
pub const MAX_SECTIONS: usize = 64;

/// Whether a section may open at `at`: `{{#` or `{{^` stands there.
pub open spec fn section_at(text: Seq<char>, at: int) -> bool {
    &&& has_at(text, at, '{')
    &&& has_at(text, at + 1, '{')
    &&& (has_at(text, at + 2, '#') || has_at(text, at + 2, '^'))
}

/// At how many positions before `end` a section may open.
pub open spec fn sections_before(text: Seq<char>, end: int) -> nat
    decreases end,
{
    if end <= 0 {
        0
    } else if section_at(text, end - 1) {
        sections_before(text, end - 1) + 1
    } else {
        sections_before(text, end - 1)
    }
}

/// Whether a template stands alone: it holds no tag that the library does
/// not hand to the engine, and opens no more sections than the engine is
/// given. The text of such a template, with the scheme's values, decides
/// what the engine makes of it.
pub open spec fn stands_alone(text: Seq<char>) -> bool {
    &&& forall|at: int| 0 <= at < text.len() ==> !foreign_tag_at(text, at)
    &&& sections_before(text, text.len() as int) <= MAX_SECTIONS
}

/// The end of the run of white space that starts at `from`.
fn after_blanks(text: &Vec<char>, from: usize) -> (end: usize)
    requires
        from <= text@.len(),
    ensures
        end == skip_blanks(text@, from as int),
        from <= end <= text@.len(),
{
    let mut end: usize = from;
    while end < text.len() && blank(text[end])
        invariant
            from <= end <= text@.len(),
            skip_blanks(text@, from as int) == skip_blanks(text@, end as int),
        decreases text@.len() - end,
    {
        end = end + 1;
    }
    end
}

/// Tells whether a lone `.` and then a `}` follow from `from` on.
fn lone_dot(text: &Vec<char>, from: usize) -> (yes: bool)
    requires
        from <= text@.len(),
    ensures
        yes == lone_dot_at(text@, from as int),
{
    let dot = after_blanks(text, from);
    if dot >= text.len() || text[dot] != '.' {
        return false;
    }
    let close = after_blanks(text, dot + 1);
    close < text.len() && text[close] == '}'
}

/// Tells whether `c` stands at position `at`.
fn has(text: &Vec<char>, at: usize, c: char) -> (yes: bool)
    ensures
        yes == has_at(text@, at as int, c),
{
    at < text.len() && text[at] == c
}

/// Tells whether a tag that is not handed to the engine may start at `at`.
fn foreign_tag(text: &Vec<char>, at: usize) -> (yes: bool)
    requires
        at < text@.len(),
    ensures
        yes == foreign_tag_at(text@, at as int),
{
    if text[at] != '{' || text.len() - at < 3 || text[at + 1] != '{' {
        return false;
    }
    if has(text, at + 2, '>') || has(text, at + 2, '=') || lone_dot(text, at + 2) {
        return true;
    }
    (has(text, at + 2, '&') || has(text, at + 2, '{')) && lone_dot(text, at + 3)
}

/// Tells whether a template stands alone.
pub fn is_standalone(source: &str) -> (yes: bool)
    ensures
        yes == stands_alone(source@),
{
    let text = chars_of(source);
    let mut sections: usize = 0;
    let mut at: usize = 0;
    while at < text.len()
        invariant
            at <= text@.len(),
            text@ == source@,
            forall|i: int| 0 <= i < at ==> !foreign_tag_at(text@, i),
            sections == sections_before(text@, at as int),
            sections <= at,
        decreases text@.len() - at,
    {
        if foreign_tag(&text, at) {
            return false;
        }
        if has(&text, at, '{') && has(&text, at + 1, '{') && (has(&text, at + 2, '#') || has(
            &text,
            at + 2,
            '^',
        )) {
            sections = sections + 1;
        }
        at = at + 1;
    }
    sections <= MAX_SECTIONS
}

/// The entries of the first `count` pairs, a later pair taking the place of
/// an earlier one of the same name.
pub open spec fn entries_fields(pairs: Seq<(String, String)>, count: int) -> Map<
    Seq<char>,
    Seq<char>,
>
    decreases count,
{
    if count <= 0 {
        Map::empty()
    } else {
        entries_fields(pairs, count - 1).insert(pairs[count - 1].0@, pairs[count - 1].1@)
    }
}

/// The entries of a scheme's pairs are the scheme's context.
proof fn lemma_entries_context(scheme: &SchemeOutput, pairs: Seq<(String, String)>)
    requires
        pairs.len() == FIELD_COUNT,
        forall|i: int|
            0 <= i < FIELD_COUNT ==> (#[trigger] pairs[i]).0@ == context_names()[i] && pairs[i].1@
                == scheme.values()[i],
    ensures
        entries_fields(pairs, FIELD_COUNT as int) == scheme.context(),
{
    lemma_names_distinct();
    lemma_entries_upto(scheme, pairs, FIELD_COUNT as int);
    let built = entries_fields(pairs, FIELD_COUNT as int);
    assert forall|name: Seq<char>| built.contains_key(name) == scheme.context().contains_key(
        name,
    ) by {
        if built.contains_key(name) {
            let i = choose|i: int| 0 <= i < FIELD_COUNT && name == context_names()[i];
            assert(context_names()[i] == name);
        }
        if scheme.context().contains_key(name) {
            let k = context_names().index_of(name);
            assert(context_names()[k] == name);
        }
    }
    assert forall|name: Seq<char>| built.contains_key(name) implies built[name]
        == scheme.context()[name] by {
        let i = choose|i: int| 0 <= i < FIELD_COUNT && name == context_names()[i];
        let k = context_names().index_of(name);
        assert(context_names()[k] == name);
        assert(k == i);
    }
    assert(built =~= scheme.context());
}

/// What the first `count` pairs of a scheme put into the mapping.
proof fn lemma_entries_upto(scheme: &SchemeOutput, pairs: Seq<(String, String)>, count: int)
    requires
        0 <= count <= FIELD_COUNT,
        pairs.len() == FIELD_COUNT,
        context_names().no_duplicates(),
        context_names().len() == FIELD_COUNT,
        forall|i: int|
            0 <= i < FIELD_COUNT ==> (#[trigger] pairs[i]).0@ == context_names()[i] && pairs[i].1@
                == scheme.values()[i],
    ensures
        forall|name: Seq<char>|
            entries_fields(pairs, count).contains_key(name) <==> exists|i: int|
                0 <= i < count && name == context_names()[i],
        forall|i: int|
            0 <= i < count ==> entries_fields(pairs, count)[#[trigger] context_names()[i]]
                == scheme.values()[i],
    decreases count,
{
    if count > 0 {
        lemma_entries_upto(scheme, pairs, count - 1);
        let before = entries_fields(pairs, count - 1);
        let now = entries_fields(pairs, count);
        assert(pairs[count - 1].0@ == context_names()[count - 1]);
        assert forall|name: Seq<char>| now.contains_key(name) implies exists|i: int|
            0 <= i < count && name == context_names()[i] by {
            if name == context_names()[count - 1] {
            } else {
                assert(before.contains_key(name));
                let i = choose|i: int| 0 <= i < count - 1 && name == context_names()[i];
                assert(0 <= i < count && name == context_names()[i]);
            }
        }
        assert forall|name: Seq<char>|
            (exists|i: int| 0 <= i < count && name == context_names()[i]) implies now.contains_key(
            name,
        ) by {
            let i = choose|i: int| 0 <= i < count && name == context_names()[i];
            if i < count - 1 {
                assert(before.contains_key(name));
            }
        }
    }
}

/// The scheme as the engine takes it: a mapping from each name to its text.
fn context_data(scheme: &SchemeOutput) -> (data: mustache::Data)
    ensures
        data_fields(data) == scheme.context(),
        data_all_text(data),
{
    let pairs = scheme.entries();
    let mut builder = new_builder();
    let mut index: usize = 0;
    while index < pairs.len()
        invariant
            index <= pairs@.len(),
            builder_fields(builder) == entries_fields(pairs@, index as int),
            builder_all_text(builder),
        decreases pairs@.len() - index,
    {
        builder = insert_text(builder, pairs[index].0.as_str(), pairs[index].1.as_str());
        index = index + 1;
    }
    proof {
        lemma_entries_context(scheme, pairs@);
    }
    build_data(builder)
}

/// What a rendering returned, as the contracts speak of it: the text, or
/// the kind and the diagnostic of the failure.
pub open spec fn seen(rendered: Result<String, Failure>) -> Result<Seq<char>, Cause> {
    match rendered {
        Ok(text) => Ok(text@),
        Err(failure) => Err(failure@),
    }
}

/// The diagnostic for a tag that names a field which the scheme does not
/// have.
pub open spec fn unknown_detail(name: Seq<char>) -> Seq<char> {
    "no field named "@ + name
}

/// What rendering a template that stands alone gives, for a scheme: a
/// syntax error, with the engine's diagnostic, where the engine refuses the
/// text; else a render error where a tag names a field that the scheme does
/// not have; else the text that the engine renders with the scheme's values
/// under their names, or a render error, with the engine's diagnostic, where
/// it reports one.
pub open spec fn outcome_of(source: Seq<char>, scheme: SchemeOutput) -> Result<Seq<char>, Cause> {
    match syntax_error(source) {
        Some(words) => Err(Cause { kind: Kind::TemplateSyntax, detail: words }),
        None => match unknown_name(source) {
            Some(name) => Err(Cause { kind: Kind::Render, detail: unknown_detail(name) }),
            None => match rendering(source, scheme.context()) {
                Ok(text) => Ok(text),
                Err(words) => Err(Cause { kind: Kind::Render, detail: words }),
            },
        },
    }
}

/// Renders a template that stands alone with the values of `scheme`.
///
/// The engine compiles the text first, so a syntax error comes before any
/// other failure. A template that names a field which the scheme does not
/// have is then refused; the engine would fill such a tag with nothing.
pub fn render_standalone(source: &str, scheme: &SchemeOutput) -> (rendered: Result<String, Failure>)
    requires
        stands_alone(source@),
    ensures
        seen(rendered) == outcome_of(source@, *scheme),
{
    match compile(source) {
        Err(error) => Err(Failure::TemplateSyntax(engine_error_text(&error))),
        Ok(template) => {
            let text = chars_of(source);
            match find_unknown(&text) {
                Some((first, last)) => {
                    let mut detail = String::from_str("no field named ");
                    detail.append(source.substring_char(first, last));
                    Err(Failure::Render(detail))
                },
                None => {
                    let data = context_data(scheme);
                    match render(&template, &data) {
                        Ok(text) => Ok(text),
                        Err(error) => Err(Failure::Render(engine_error_text(&error))),
                    }
                },
            }
        },
    }
}

/// What is made of a rendering that the caller reports for the template
/// `source`: a failure stays as it is; a text stays too, unless a tag of the
/// template names a field that the scheme does not have, which is a render
/// error.
pub open spec fn vetted(source: Seq<char>, rendered: Result<Seq<char>, Cause>) -> Result<
    Seq<char>,
    Cause,
> {
    match rendered {
        Ok(text) => match unknown_name(source) {
            Some(name) => Err(Cause { kind: Kind::Render, detail: unknown_detail(name) }),
            None => Ok(text),
        },
        Err(cause) => Err(cause),
    }
}

/// Looks over a rendering that the caller reports for the template
/// `source`. A failure is kept as it came.
pub fn vet(source: &str, rendered: Result<String, Failure>) -> (checked: Result<String, Failure>)
    ensures
        seen(checked) == vetted(source@, seen(rendered)),
        rendered is Err ==> checked == rendered,
{
    match rendered {
        Err(failure) => Err(failure),
        Ok(made) => {
            let text = chars_of(source);
            match find_unknown(&text) {
                Some((first, last)) => {
                    let mut detail = String::from_str("no field named ");
                    detail.append(source.substring_char(first, last));
                    Err(Failure::Render(detail))
                },
                None => Ok(made),
            }
        },
    }
}

/// Renders the template `source` with the values of `scheme`, if it stands
/// alone; `None` says that it does not.
pub fn render_template(source: &str, scheme: &SchemeOutput) -> (rendered: Option<
    Result<String, Failure>,
>)
    ensures
        match rendered {
            Some(result) => stands_alone(source@) && seen(result) == outcome_of(source@, *scheme),
            None => !stands_alone(source@),
        },
{
    if is_standalone(source) {
        Some(render_standalone(source, scheme))
    } else {
        None
    }
}

} // verus!
