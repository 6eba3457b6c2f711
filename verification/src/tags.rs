//! The fields that the tags of a template name.
//!
//! The tags are read as the engine reads them, character by character. A
//! tag opens where the opening delimiter has been read in full; a first
//! character of the delimiter that the rest does not follow is text, and so
//! is what was read with it. The content of the tag runs to the closing
//! delimiter; where the content begins with `{`, the first `}` belongs to
//! it. A tag whose content begins with `=` sets the delimiters for what
//! comes after it. At first they are `{{` and `}}`.

use vstd::prelude::*;
use vstd::string::*;
use crate::palette::{context_name, context_names, FIELD_COUNT};
use crate::render::is_blank;
use crate::text::{chars_of, occurs_at, stands_at};

verus! {

/// The delimiter that opens a tag at the start of a template.
pub open spec fn first_open() -> Seq<char> {
    seq!['{', '{']
}

/// The delimiter that closes a tag at the start of a template.
pub open spec fn first_close() -> Seq<char> {
    seq!['}', '}']
}

/// Where the content of the next tag starts, reading from `at` with the
/// first `matched` characters of the opening delimiter just read; `None`
/// where no tag opens any more.
pub open spec fn tag_start(text: Seq<char>, at: int, matched: int, open: Seq<char>) -> Option<int>
    decreases text.len() - at,
{
    if at < 0 || at >= text.len() || matched < 0 || matched >= open.len() {
        None
    } else if text[at] == open[matched] {
        if matched + 1 == open.len() {
            Some(at + 1)
        } else {
            tag_start(text, at + 1, matched + 1, open)
        }
    } else {
        tag_start(text, at + 1, 0, open)
    }
}

/// Where the content ends of the tag whose content starts at `start`, and
/// where the text goes on behind the tag, reading the content from `at`;
/// `curly` says that the content began with `{` and its `}` has not come
/// yet. `None` where the tag is not closed as the engine wants it.
///
/// The engine closes a tag at a delimiter of one or two characters only: of
/// a longer one it takes the first two for content.
pub open spec fn tag_end(text: Seq<char>, start: int, at: int, curly: bool, close: Seq<char>) -> Option<
    (int, int),
>
    decreases text.len() - at,
{
    if start < 0 || at < start || at >= text.len() || close.len() == 0 {
        None
    } else if at == start && text[at] == '{' {
        tag_end(text, start, at + 1, true, close)
    } else if curly && text[at] == '}' {
        tag_end(text, start, at + 1, false, close)
    } else if text[at] == close[0] {
        if close.len() == 1 {
            if curly {
                None
            } else {
                Some((at, at + 1))
            }
        } else if at + 1 >= text.len() || text[at + 1] != close[1] {
            None
        } else if close.len() == 2 {
            if curly {
                None
            } else {
                Some((at, at + 2))
            }
        } else {
            tag_end(text, start, at + 2, curly, close)
        }
    } else {
        tag_end(text, start, at + 1, curly, close)
    }
}

/// Where the white space ends that starts at `from`, looking no further
/// than `to`.
pub open spec fn trim_front(text: Seq<char>, from: int, to: int) -> int
    decreases to - from,
{
    if 0 <= from < to <= text.len() && is_blank(text[from]) {
        trim_front(text, from + 1, to)
    } else {
        from
    }
}

/// Where the white space starts that ends at `to`, looking no further back
/// than `from`.
pub open spec fn trim_back(text: Seq<char>, from: int, to: int) -> int
    decreases to - from,
{
    if 0 <= from < to <= text.len() && is_blank(text[to - 1]) {
        trim_back(text, from, to - 1)
    } else {
        to
    }
}

/// The characters from `from` to `to` without the white space at both ends.
pub open spec fn trimmed(text: Seq<char>, from: int, to: int) -> Seq<char> {
    let first = trim_front(text, from, to);
    let last = trim_back(text, first, to);
    if 0 <= first <= last <= text.len() {
        text.subrange(first, last)
    } else {
        Seq::empty()
    }
}

/// The name in the tag whose content runs from `start` to `end`, if the tag
/// has one. A comment, a partial and a change of delimiters have none; the
/// mark of a section or of an unescaped value comes before the name, and
/// white space round the name does not count.
pub open spec fn tag_name(text: Seq<char>, start: int, end: int) -> Option<Seq<char>> {
    if !(0 <= start < end <= text.len()) {
        None
    } else if text[start] == '!' || text[start] == '>' || text[start] == '=' {
        None
    } else if text[start] == '&' || text[start] == '#' || text[start] == '^' || text[start] == '/' {
        Some(trimmed(text, start + 1, end))
    } else if text[start] == '{' {
        if start + 1 < end && text[end - 1] == '}' {
            Some(trimmed(text, start + 1, end - 1))
        } else {
            None
        }
    } else {
        Some(trimmed(text, start, end))
    }
}

/// Whether a tag of this name finds what it names: the name is that of one
/// of the scheme's fields, or the lone `.` that names no field.
pub open spec fn known(name: Seq<char>) -> bool {
    name == seq!['.'] || context_names().contains(name)
}

/// The first white space from `from` on, looking no further than `to`.
pub open spec fn first_blank(text: Seq<char>, from: int, to: int) -> int
    decreases to - from,
{
    if 0 <= from < to <= text.len() && !is_blank(text[from]) {
        first_blank(text, from + 1, to)
    } else {
        from
    }
}

/// The delimiters that a tag sets whose content runs from `start` to `end`:
/// between the `=` at both ends of the content, and without the white space
/// next to them, what comes before the first white space opens a tag from
/// then on, and what comes after that white space closes one.
pub open spec fn new_delimiters(text: Seq<char>, start: int, end: int) -> Option<
    (Seq<char>, Seq<char>),
> {
    let first = trim_front(text, start + 1, end - 1);
    let last = trim_back(text, first, end - 1);
    let gap = first_blank(text, first, last);
    let second = trim_front(text, gap, last);
    if 0 <= start && start + 2 < end <= text.len() && text[start] == '=' && text[end - 1] == '='
        && start < first < gap < second < last < end {
        Some((text.subrange(first, gap), text.subrange(second, last)))
    } else {
        None
    }
}

/// The first name that is not known, in a tag that opens at or after
/// `from`, where `open` and `close` are the delimiters there; `None` where
/// every tag that has a name has a known one. The search ends at a tag that
/// the engine refuses.
pub open spec fn unknown_from(text: Seq<char>, from: int, open: Seq<char>, close: Seq<char>) -> Option<
    Seq<char>,
>
    decreases text.len() - from,
{
    match tag_start(text, from, 0, open) {
        None => None,
        Some(start) => match tag_end(text, start, start, false, close) {
            None => None,
            Some((end, after)) => {
                if after <= from || after > text.len() || !(0 <= start < end < text.len()) {
                    None
                } else if text[start] == '=' {
                    match new_delimiters(text, start, end) {
                        Some((opens, closes)) => unknown_from(text, after, opens, closes),
                        None => None,
                    }
                } else {
                    match tag_name(text, start, end) {
                        Some(name) => if known(name) {
                            unknown_from(text, after, open, close)
                        } else {
                            Some(name)
                        },
                        None => unknown_from(text, after, open, close),
                    }
                }
            },
        },
    }
}

/// The first name in a tag of the template that is not known.
pub open spec fn unknown_name(text: Seq<char>) -> Option<Seq<char>> {
    unknown_from(text, 0, first_open(), first_close())
}

/// Finds where the content of the next tag starts.
fn find_start(text: &Vec<char>, from: usize, open: &Vec<char>) -> (start: Option<usize>)
    requires
        from <= text@.len(),
    ensures
        match start {
            Some(found) => tag_start(text@, from as int, 0, open@) == Some(found as int) && from
                < found <= text@.len(),
            None => tag_start(text@, from as int, 0, open@) is None,
        },
{
    if open.len() == 0 {
        return None;
    }
    let mut at: usize = from;
    let mut matched: usize = 0;
    while at < text.len()
        invariant
            from <= at <= text@.len(),
            matched < open@.len(),
            tag_start(text@, from as int, 0, open@) == tag_start(text@, at as int, matched as int, open@),
        decreases text@.len() - at,
    {
        if text[at] == open[matched] {
            if open.len() - matched == 1 {
                return Some(at + 1);
            }
            matched = matched + 1;
        } else {
            matched = 0;
        }
        at = at + 1;
    }
    None
}

/// Finds where the content of the tag ends that starts at `start`, and
/// where the text goes on behind the tag.
fn find_end(text: &Vec<char>, start: usize, close: &Vec<char>) -> (found: Option<(usize, usize)>)
    requires
        start <= text@.len(),
    ensures
        match found {
            Some((end, after)) => tag_end(text@, start as int, start as int, false, close@) == Some(
                (end as int, after as int),
            ) && start <= end < after <= text@.len(),
            None => tag_end(text@, start as int, start as int, false, close@) is None,
        },
{
    if close.len() == 0 {
        return None;
    }
    let mut at: usize = start;
    let mut curly: bool = false;
    while at < text.len()
        invariant
            start <= at <= text@.len(),
            close@.len() > 0,
            tag_end(text@, start as int, start as int, false, close@) == tag_end(
                text@,
                start as int,
                at as int,
                curly,
                close@,
            ),
        decreases text@.len() - at,
    {
        let c = text[at];
        if at == start && c == '{' {
            curly = true;
            at = at + 1;
        } else if curly && c == '}' {
            curly = false;
            at = at + 1;
        } else if c == close[0] {
            if close.len() == 1 {
                if curly {
                    return None;
                }
                return Some((at, at + 1));
            }
            if text.len() - at < 2 || text[at + 1] != close[1] {
                return None;
            }
            if close.len() == 2 {
                if curly {
                    return None;
                }
                return Some((at, at + 2));
            }
            at = at + 2;
        } else {
            at = at + 1;
        }
    }
    None
}

/// Tells whether `c` is white space.
pub fn blank(c: char) -> (yes: bool)
    ensures
        yes == is_blank(c),
{
    ('\u{9}' <= c && c <= '\u{d}') || c == ' ' || c == '\u{85}' || c == '\u{a0}' || c == '\u{1680}'
        || ('\u{2000}' <= c && c <= '\u{200a}') || c == '\u{2028}' || c == '\u{2029}' || c
        == '\u{202f}' || c == '\u{205f}' || c == '\u{3000}'
}

/// Finds the bounds of the characters from `from` to `to` without the white
/// space at both ends.
fn trim(text: &Vec<char>, from: usize, to: usize) -> (bounds: (usize, usize))
    requires
        from <= to <= text@.len(),
    ensures
        from <= bounds.0 <= bounds.1 <= to,
        bounds.0 == trim_front(text@, from as int, to as int),
        bounds.1 == trim_back(text@, bounds.0 as int, to as int),
        text@.subrange(bounds.0 as int, bounds.1 as int) == trimmed(text@, from as int, to as int),
{
    let mut first: usize = from;
    while first < to && blank(text[first])
        invariant
            from <= first <= to <= text@.len(),
            trim_front(text@, from as int, to as int) == trim_front(text@, first as int, to as int),
        decreases to - first,
    {
        first = first + 1;
    }
    let mut last: usize = to;
    while first < last && blank(text[last - 1])
        invariant
            first <= last <= to <= text@.len(),
            trim_back(text@, first as int, to as int) == trim_back(text@, first as int, last as int),
        decreases last - first,
    {
        last = last - 1;
    }
    (first, last)
}

/// Finds the bounds of the name in the tag whose content runs from `start`
/// to `end`.
fn name_bounds(text: &Vec<char>, start: usize, end: usize) -> (bounds: Option<(usize, usize)>)
    requires
        start <= end <= text@.len(),
    ensures
        match bounds {
            Some((first, last)) => first <= last <= text@.len() && tag_name(
                text@,
                start as int,
                end as int,
            ) == Some(text@.subrange(first as int, last as int)),
            None => tag_name(text@, start as int, end as int) is None,
        },
{
    if start >= end {
        return None;
    }
    let mark = text[start];
    if mark == '!' || mark == '>' || mark == '=' {
        None
    } else if mark == '&' || mark == '#' || mark == '^' || mark == '/' {
        Some(trim(text, start + 1, end))
    } else if mark == '{' {
        if start + 1 < end && text[end - 1] == '}' {
            Some(trim(text, start + 1, end - 1))
        } else {
            None
        }
    } else {
        Some(trim(text, start, end))
    }
}

/// The names of the scheme's fields in the templates, as characters.
fn known_names() -> (names: Vec<Vec<char>>)
    ensures
        names@.len() == FIELD_COUNT,
        forall|i: int| 0 <= i < FIELD_COUNT ==> (#[trigger] names@[i])@ == context_names()[i],
{
    let mut names: Vec<Vec<char>> = Vec::new();
    let mut index: usize = 0;
    while index < FIELD_COUNT
        invariant
            index <= FIELD_COUNT,
            names@.len() == index,
            forall|i: int| 0 <= i < index ==> (#[trigger] names@[i])@ == context_names()[i],
        decreases FIELD_COUNT - index,
    {
        names.push(chars_of(context_name(index)));
        index = index + 1;
    }
    names
}

/// Tells whether the characters from `first` to `last` are a known name.
fn is_known(text: &Vec<char>, first: usize, last: usize, names: &Vec<Vec<char>>) -> (yes: bool)
    requires
        first <= last <= text@.len(),
        names@.len() == FIELD_COUNT,
        forall|i: int| 0 <= i < FIELD_COUNT ==> (#[trigger] names@[i])@ == context_names()[i],
    ensures
        yes == known(text@.subrange(first as int, last as int)),
{
    let ghost name = text@.subrange(first as int, last as int);
    if last - first == 1 && text[first] == '.' {
        assert(name =~= seq!['.']);
        return true;
    }
    assert(name != seq!['.']) by {
        if name == seq!['.'] {
            assert(name.len() == 1);
            assert(name[0] == '.');
        }
    }
    let mut index: usize = 0;
    while index < FIELD_COUNT
        invariant
            index <= FIELD_COUNT,
            first <= last <= text@.len(),
            names@.len() == FIELD_COUNT,
            name == text@.subrange(first as int, last as int),
            forall|i: int| 0 <= i < FIELD_COUNT ==> (#[trigger] names@[i])@ == context_names()[i],
            forall|i: int| 0 <= i < index ==> context_names()[i] != name,
        decreases FIELD_COUNT - index,
    {
        let word = &names[index];
        if word.len() == last - first && stands_at(text, first, word) {
            assert(context_names()[index as int] == name);
            assert(context_names().contains(name));
            return true;
        }
        assert(context_names()[index as int] != name) by {
            if context_names()[index as int] == name {
                assert(word@.len() == last - first);
                assert(occurs_at(text@, first as int, word@));
            }
        }
        index = index + 1;
    }
    assert(context_names().len() == FIELD_COUNT) by {
        crate::palette::lemma_names_distinct();
    }
    assert(!context_names().contains(name));
    false
}

/// A copy of the characters from `from` to `to`.
fn copy_of(text: &Vec<char>, from: usize, to: usize) -> (copy: Vec<char>)
    requires
        from <= to <= text@.len(),
    ensures
        copy@ == text@.subrange(from as int, to as int),
{
    let mut copy: Vec<char> = Vec::new();
    let mut at: usize = from;
    while at < to
        invariant
            from <= at <= to <= text@.len(),
            copy@ == text@.subrange(from as int, at as int),
        decreases to - at,
    {
        copy.push(text[at]);
        at = at + 1;
        assert(copy@ =~= text@.subrange(from as int, at as int));
    }
    copy
}

/// Finds the delimiters that a tag sets whose content runs from `start` to
/// `end`.
fn delimiters(text: &Vec<char>, start: usize, end: usize) -> (found: Option<(Vec<char>, Vec<char>)>)
    requires
        start < end <= text@.len(),
    ensures
        match found {
            Some((opens, closes)) => new_delimiters(text@, start as int, end as int) == Some(
                (opens@, closes@),
            ),
            None => new_delimiters(text@, start as int, end as int) is None,
        },
{
    if end - start < 3 || text[start] != '=' || text[end - 1] != '=' {
        return None;
    }
    let (first, last) = trim(text, start + 1, end - 1);
    let mut gap: usize = first;
    while gap < last && !blank(text[gap])
        invariant
            first <= gap <= last <= text@.len(),
            first_blank(text@, first as int, last as int) == first_blank(
                text@,
                gap as int,
                last as int,
            ),
        decreases last - gap,
    {
        gap = gap + 1;
    }
    let mut second: usize = gap;
    while second < last && blank(text[second])
        invariant
            gap <= second <= last <= text@.len(),
            trim_front(text@, gap as int, last as int) == trim_front(
                text@,
                second as int,
                last as int,
            ),
        decreases last - second,
    {
        second = second + 1;
    }
    if first < gap && gap < second && second < last {
        Some((copy_of(text, first, gap), copy_of(text, second, last)))
    } else {
        None
    }
}

/// Finds the first name in a tag of `text` that is not known, and gives its
/// bounds.
pub fn find_unknown(text: &Vec<char>) -> (found: Option<(usize, usize)>)
    ensures
        match found {
            Some((first, last)) => first <= last <= text@.len() && unknown_name(text@) == Some(
                text@.subrange(first as int, last as int),
            ),
            None => unknown_name(text@) is None,
        },
{
    let names = known_names();
    let mut open: Vec<char> = Vec::new();
    open.push('{');
    open.push('{');
    let mut close: Vec<char> = Vec::new();
    close.push('}');
    close.push('}');
    assert(open@ =~= first_open() && close@ =~= first_close());
    let mut from: usize = 0;
    loop
        invariant
            from <= text@.len(),
            names@.len() == FIELD_COUNT,
            forall|i: int| 0 <= i < FIELD_COUNT ==> (#[trigger] names@[i])@ == context_names()[i],
            unknown_name(text@) == unknown_from(text@, from as int, open@, close@),
        decreases text@.len() - from,
    {
        let start = match find_start(text, from, &open) {
            Some(start) => start,
            None => {
                return None;
            },
        };
        let (end, after) = match find_end(text, start, &close) {
            Some(ends) => ends,
            None => {
                return None;
            },
        };
        if start >= end {
            return None;
        }
        if text[start] == '=' {
            match delimiters(text, start, end) {
                Some((opens, closes)) => {
                    open = opens;
                    close = closes;
                },
                None => {
                    return None;
                },
            }
        } else {
            match name_bounds(text, start, end) {
                Some((first, last)) => {
                    if !is_known(text, first, last, &names) {
                        return Some((first, last));
                    }
                },
                None => {},
            }
        }
        from = after;
    }
}

/// A name is known exactly when it is the lone `.` or the context of a
/// scheme has an entry under it: a tag with any other name finds nothing.
pub proof fn lemma_known_names(scheme: crate::palette::SchemeOutput, name: Seq<char>)
    ensures
        known(name) <==> name == seq!['.'] || scheme.context().contains_key(name),
{
}

/// Over a stretch without the first character of the opening delimiter no
/// tag opens.
proof fn lemma_start_after(text: Seq<char>, from: int, to: int, open: Seq<char>)
    requires
        0 <= from <= to <= text.len(),
        open.len() > 0,
        forall|i: int| from <= i < to ==> text[i] != open[0],
    ensures
        tag_start(text, from, 0, open) == tag_start(text, to, 0, open),
    decreases to - from,
{
    if from < to {
        lemma_start_after(text, from + 1, to, open);
    }
}

/// Over a stretch without `}` the content of a tag does not end, if `}`
/// begins the closing delimiter and the stretch is not the `{` at the start
/// of the content.
proof fn lemma_end_after(text: Seq<char>, start: int, from: int, to: int, close: Seq<char>)
    requires
        0 <= start <= from <= to <= text.len(),
        close.len() > 0,
        close[0] == '}',
        forall|i: int| from <= i < to ==> text[i] != '}',
        from == start && from < to ==> text[from] != '{',
    ensures
        tag_end(text, start, from, false, close) == tag_end(text, start, to, false, close),
    decreases to - from,
{
    if from < to {
        lemma_end_after(text, start, from + 1, to, close);
    }
}

/// How a plain tag is read: in a template that holds `{{`, a name and `}}`
/// after a stretch without `{`, the tag names that name. If the name is not
/// known it is the first unknown name of the template, whatever follows the
/// tag; if it is known, the search goes on behind the tag.
pub proof fn lemma_plain_tag(before: Seq<char>, name: Seq<char>, after: Seq<char>)
    requires
        forall|i: int| 0 <= i < before.len() ==> before[i] != '{',
        forall|i: int| 0 <= i < name.len() ==> name[i] != '}',
        name.len() > 0,
        !is_blank(name[0]),
        !is_blank(name.last()),
        name[0] != '!' && name[0] != '>' && name[0] != '=' && name[0] != '&',
        name[0] != '#' && name[0] != '^' && name[0] != '/' && name[0] != '{',
    ensures
        ({
            let text = before + seq!['{', '{'] + name + seq!['}', '}'] + after;
            let behind = (before.len() + name.len() + 4) as int;
            unknown_name(text) == if known(name) {
                unknown_from(text, behind, first_open(), first_close())
            } else {
                Some(name)
            }
        }),
{
    let text = before + seq!['{', '{'] + name + seq!['}', '}'] + after;
    let open = before.len() as int;
    let start = open + 2;
    let end = start + name.len();
    assert(text[open] == '{' && text[open + 1] == '{');
    assert(text[end] == '}' && text[end + 1] == '}');
    assert forall|i: int| start <= i < end implies text[i] != '}' by {
        assert(text[i] == name[i - start]);
    }
    assert forall|i: int| 0 <= i < open implies text[i] != first_open()[0] by {
        assert(text[i] == before[i]);
    }
    lemma_start_after(text, 0, open, first_open());
    assert(tag_start(text, open + 1, 1, first_open()) == Some(start));
    assert(tag_start(text, open, 0, first_open()) == Some(start));
    assert(text[start] == name[0]);
    lemma_end_after(text, start, start, end, first_close());
    assert(tag_end(text, start, end, false, first_close()) == Some((end, end + 2)));
    assert(text[end - 1] == name.last());
    assert(trim_front(text, start, end) == start);
    assert(trim_back(text, start, end) == end);
    assert(text.subrange(start, end) =~= name);
    assert(tag_name(text, start, end) == Some(name));
}

} // verus!
