//! The colour scheme as it is read, and as the templates see it.

use vstd::prelude::*;
use vstd::string::*;
use vstd::std_specs::convert::FromSpec;
use crate::failure::Failure;

verus! {

/// How many fields a scheme has: its name, its author and sixteen colours.
pub const FIELD_COUNT: usize = 18;

/// The names of a scheme's fields as the scheme file writes them, in slot
/// order. The last six colours are written with a capital letter.
pub open spec fn field_names() -> Seq<Seq<char>> {
    seq![
        "scheme"@,
        "author"@,
        "base00"@,
        "base01"@,
        "base02"@,
        "base03"@,
        "base04"@,
        "base05"@,
        "base06"@,
        "base07"@,
        "base08"@,
        "base09"@,
        "base0A"@,
        "base0B"@,
        "base0C"@,
        "base0D"@,
        "base0E"@,
        "base0F"@,
    ]
}

/// The names under which the templates find the same fields, in the same
/// order.
pub open spec fn context_names() -> Seq<Seq<char>> {
    seq![
        "scheme-name"@,
        "scheme-author"@,
        "base00-hex"@,
        "base01-hex"@,
        "base02-hex"@,
        "base03-hex"@,
        "base04-hex"@,
        "base05-hex"@,
        "base06-hex"@,
        "base07-hex"@,
        "base08-hex"@,
        "base09-hex"@,
        "base0A-hex"@,
        "base0B-hex"@,
        "base0C-hex"@,
        "base0D-hex"@,
        "base0E-hex"@,
        "base0F-hex"@,
    ]
}

/// The name of field `index` in the scheme file.
pub fn field_name(index: usize) -> (name: &'static str)
    requires
        index < FIELD_COUNT,
    ensures
        name@ == field_names()[index as int],
{
    match index {
        0 => "scheme",
        1 => "author",
        2 => "base00",
        3 => "base01",
        4 => "base02",
        5 => "base03",
        6 => "base04",
        7 => "base05",
        8 => "base06",
        9 => "base07",
        10 => "base08",
        11 => "base09",
        12 => "base0A",
        13 => "base0B",
        14 => "base0C",
        15 => "base0D",
        16 => "base0E",
        _ => "base0F",
    }
}

/// The name of field `index` in the templates.
pub fn context_name(index: usize) -> (name: &'static str)
    requires
        index < FIELD_COUNT,
    ensures
        name@ == context_names()[index as int],
{
    match index {
        0 => "scheme-name",
        1 => "scheme-author",
        2 => "base00-hex",
        3 => "base01-hex",
        4 => "base02-hex",
        5 => "base03-hex",
        6 => "base04-hex",
        7 => "base05-hex",
        8 => "base06-hex",
        9 => "base07-hex",
        10 => "base08-hex",
        11 => "base09-hex",
        12 => "base0A-hex",
        13 => "base0B-hex",
        14 => "base0C-hex",
        15 => "base0D-hex",
        16 => "base0E-hex",
        _ => "base0F-hex",
    }
}

/// A colour scheme as the scheme file gives it. The colours are kept as the
/// text that was read: nothing checks that they are colour codes.
#[derive(Debug, Clone)]
pub struct SchemeInput {
    pub scheme: String,
    pub author: String,
    pub base00: String,
    pub base01: String,
    pub base02: String,
    pub base03: String,
    pub base04: String,
    pub base05: String,
    pub base06: String,
    pub base07: String,
    pub base08: String,
    pub base09: String,
    pub base0a: String,
    pub base0b: String,
    pub base0c: String,
    pub base0d: String,
    pub base0e: String,
    pub base0f: String,
}

/// The same scheme under the names that the templates use.
#[derive(Debug, Clone)]
pub struct SchemeOutput {
    pub scheme_name: String,
    pub scheme_author: String,
    pub base00_hex: String,
    pub base01_hex: String,
    pub base02_hex: String,
    pub base03_hex: String,
    pub base04_hex: String,
    pub base05_hex: String,
    pub base06_hex: String,
    pub base07_hex: String,
    pub base08_hex: String,
    pub base09_hex: String,
    pub base0a_hex: String,
    pub base0b_hex: String,
    pub base0c_hex: String,
    pub base0d_hex: String,
    pub base0e_hex: String,
    pub base0f_hex: String,
}

impl SchemeInput {
    /// The eighteen values in slot order.
    pub open spec fn values(&self) -> Seq<Seq<char>> {
        seq![
            self.scheme@,
            self.author@,
            self.base00@,
            self.base01@,
            self.base02@,
            self.base03@,
            self.base04@,
            self.base05@,
            self.base06@,
            self.base07@,
            self.base08@,
            self.base09@,
            self.base0a@,
            self.base0b@,
            self.base0c@,
            self.base0d@,
            self.base0e@,
            self.base0f@,
        ]
    }
}

impl SchemeOutput {
    /// The eighteen values in slot order.
    pub open spec fn values(&self) -> Seq<Seq<char>> {
        seq![
            self.scheme_name@,
            self.scheme_author@,
            self.base00_hex@,
            self.base01_hex@,
            self.base02_hex@,
            self.base03_hex@,
            self.base04_hex@,
            self.base05_hex@,
            self.base06_hex@,
            self.base07_hex@,
            self.base08_hex@,
            self.base09_hex@,
            self.base0a_hex@,
            self.base0b_hex@,
            self.base0c_hex@,
            self.base0d_hex@,
            self.base0e_hex@,
            self.base0f_hex@,
        ]
    }
}

/// Whether `found` has a value for slot `index`.
pub open spec fn present(found: Seq<Option<String>>, index: int) -> bool {
    0 <= index < found.len() && found[index] is Some
}

/// The first slot below `limit` for which `found` has no value, or `limit`
/// where it has one for each.
pub open spec fn first_absent(found: Seq<Option<String>>, limit: int) -> int
    decreases limit,
{
    if limit <= 0 {
        0
    } else if first_absent(found, limit - 1) < limit - 1 {
        first_absent(found, limit - 1)
    } else if present(found, limit - 1) {
        limit
    } else {
        limit - 1
    }
}

/// `first_absent` is a slot without a value, and every slot before it has
/// one.
pub proof fn lemma_first_absent(found: Seq<Option<String>>, limit: int)
    requires
        0 <= limit,
    ensures
        0 <= first_absent(found, limit) <= limit,
        forall|i: int| 0 <= i < first_absent(found, limit) ==> present(found, i),
        first_absent(found, limit) < limit ==> !present(found, first_absent(found, limit)),
    decreases limit,
{
    if limit > 0 {
        lemma_first_absent(found, limit - 1);
    }
}

/// The value that `found` has for slot `index`.
fn value_at(found: &Vec<Option<String>>, index: usize) -> (value: String)
    requires
        present(found@, index as int),
    ensures
        value@ == found@[index as int]->0@,
{
    match &found[index] {
        Some(text) => text.clone(),
        None => String::new(),
    }
}

impl SchemeInput {
    /// Builds the scheme from what was found for each slot, in slot order.
    ///
    /// Succeeds exactly when every one of the eighteen slots has a value;
    /// what `found` holds beyond them is not read. Otherwise the error names
    /// the first field without a value.
    pub fn from_fields(found: &Vec<Option<String>>) -> (made: Result<SchemeInput, Failure>)
        ensures
            made is Ok <==> forall|i: int| 0 <= i < FIELD_COUNT ==> present(found@, i),
            match made {
                Ok(scheme) => forall|i: int|
                    0 <= i < FIELD_COUNT ==> #[trigger] scheme.values()[i] == found@[i]->0@,
                Err(failure) => {
                    &&& first_absent(found@, FIELD_COUNT as int) < FIELD_COUNT
                    &&& failure matches Failure::MalformedInput(detail)
                    &&& detail@ == field_names()[first_absent(found@, FIELD_COUNT as int)]
                },
            },
    {
        let mut index: usize = 0;
        while index < FIELD_COUNT
            invariant
                index <= FIELD_COUNT,
                first_absent(found@, index as int) == index,
            decreases FIELD_COUNT - index,
        {
            let here: bool = index < found.len() && found[index].is_some();
            if !here {
                proof {
                    lemma_absent_stays(found@, index as int, FIELD_COUNT as int);
                    lemma_first_absent(found@, FIELD_COUNT as int);
                }
                return Err(Failure::MalformedInput(String::from_str(field_name(index))));
            }
            index = index + 1;
        }
        proof {
            lemma_first_absent(found@, FIELD_COUNT as int);
        }
        Ok(
            SchemeInput {
                scheme: value_at(found, 0),
                author: value_at(found, 1),
                base00: value_at(found, 2),
                base01: value_at(found, 3),
                base02: value_at(found, 4),
                base03: value_at(found, 5),
                base04: value_at(found, 6),
                base05: value_at(found, 7),
                base06: value_at(found, 8),
                base07: value_at(found, 9),
                base08: value_at(found, 10),
                base09: value_at(found, 11),
                base0a: value_at(found, 12),
                base0b: value_at(found, 13),
                base0c: value_at(found, 14),
                base0d: value_at(found, 15),
                base0e: value_at(found, 16),
                base0f: value_at(found, 17),
            },
        )
    }
}

/// Once a slot without a value is the first below some limit, it stays the
/// first below every larger limit.
proof fn lemma_absent_stays(found: Seq<Option<String>>, slot: int, limit: int)
    requires
        0 <= slot < limit,
        first_absent(found, slot) == slot,
        !present(found, slot),
    ensures
        first_absent(found, limit) == slot,
    decreases limit,
{
    if limit > slot + 1 {
        lemma_absent_stays(found, slot, limit - 1);
    }
}

impl<'a> vstd::std_specs::convert::FromSpecImpl<&'a SchemeInput> for SchemeOutput {
    open spec fn obeys_from_spec() -> bool {
        true
    }

    open spec fn from_spec(value: &'a SchemeInput) -> SchemeOutput {
        SchemeOutput {
            scheme_name: value.scheme,
            scheme_author: value.author,
            base00_hex: value.base00,
            base01_hex: value.base01,
            base02_hex: value.base02,
            base03_hex: value.base03,
            base04_hex: value.base04,
            base05_hex: value.base05,
            base06_hex: value.base06,
            base07_hex: value.base07,
            base08_hex: value.base08,
            base09_hex: value.base09,
            base0a_hex: value.base0a,
            base0b_hex: value.base0b,
            base0c_hex: value.base0c,
            base0d_hex: value.base0d,
            base0e_hex: value.base0e,
            base0f_hex: value.base0f,
        }
    }
}

impl<'a> From<&'a SchemeInput> for SchemeOutput {
    /// Renames every field and changes no value.
    fn from(value: &'a SchemeInput) -> (out: SchemeOutput) {
        SchemeOutput {
            scheme_name: value.scheme.clone(),
            scheme_author: value.author.clone(),
            base00_hex: value.base00.clone(),
            base01_hex: value.base01.clone(),
            base02_hex: value.base02.clone(),
            base03_hex: value.base03.clone(),
            base04_hex: value.base04.clone(),
            base05_hex: value.base05.clone(),
            base06_hex: value.base06.clone(),
            base07_hex: value.base07.clone(),
            base08_hex: value.base08.clone(),
            base09_hex: value.base09.clone(),
            base0a_hex: value.base0a.clone(),
            base0b_hex: value.base0b.clone(),
            base0c_hex: value.base0c.clone(),
            base0d_hex: value.base0d.clone(),
            base0e_hex: value.base0e.clone(),
            base0f_hex: value.base0f.clone(),
        }
    }
}

impl SchemeOutput {
    /// What a template finds under each name: the value of the slot that
    /// the name stands for.
    pub open spec fn context(&self) -> Map<Seq<char>, Seq<char>> {
        Map::new(
            |name: Seq<char>| context_names().contains(name),
            |name: Seq<char>| self.values()[context_names().index_of(name)],
        )
    }

    /// The eighteen names, each with its value, in slot order.
    pub fn entries(&self) -> (pairs: Vec<(String, String)>)
        ensures
            pairs@.len() == FIELD_COUNT,
            forall|i: int|
                0 <= i < FIELD_COUNT ==> (#[trigger] pairs@[i]).0@ == context_names()[i]
                    && pairs@[i].1@ == self.values()[i],
    {
        let mut pairs: Vec<(String, String)> = Vec::new();
        pairs.push((String::from_str("scheme-name"), self.scheme_name.clone()));
        pairs.push((String::from_str("scheme-author"), self.scheme_author.clone()));
        pairs.push((String::from_str("base00-hex"), self.base00_hex.clone()));
        pairs.push((String::from_str("base01-hex"), self.base01_hex.clone()));
        pairs.push((String::from_str("base02-hex"), self.base02_hex.clone()));
        pairs.push((String::from_str("base03-hex"), self.base03_hex.clone()));
        pairs.push((String::from_str("base04-hex"), self.base04_hex.clone()));
        pairs.push((String::from_str("base05-hex"), self.base05_hex.clone()));
        pairs.push((String::from_str("base06-hex"), self.base06_hex.clone()));
        pairs.push((String::from_str("base07-hex"), self.base07_hex.clone()));
        pairs.push((String::from_str("base08-hex"), self.base08_hex.clone()));
        pairs.push((String::from_str("base09-hex"), self.base09_hex.clone()));
        pairs.push((String::from_str("base0A-hex"), self.base0a_hex.clone()));
        pairs.push((String::from_str("base0B-hex"), self.base0b_hex.clone()));
        pairs.push((String::from_str("base0C-hex"), self.base0c_hex.clone()));
        pairs.push((String::from_str("base0D-hex"), self.base0d_hex.clone()));
        pairs.push((String::from_str("base0E-hex"), self.base0e_hex.clone()));
        pairs.push((String::from_str("base0F-hex"), self.base0f_hex.clone()));
        pairs
    }
}

/// No two fields share a name, in the scheme file or in the templates.
pub proof fn lemma_names_distinct()
    ensures
        field_names().len() == FIELD_COUNT,
        context_names().len() == FIELD_COUNT,
        field_names().no_duplicates(),
        context_names().no_duplicates(),
{
    reveal_strlit("scheme");
    reveal_strlit("author");
    reveal_strlit("base00");
    reveal_strlit("base01");
    reveal_strlit("base02");
    reveal_strlit("base03");
    reveal_strlit("base04");
    reveal_strlit("base05");
    reveal_strlit("base06");
    reveal_strlit("base07");
    reveal_strlit("base08");
    reveal_strlit("base09");
    reveal_strlit("base0A");
    reveal_strlit("base0B");
    reveal_strlit("base0C");
    reveal_strlit("base0D");
    reveal_strlit("base0E");
    reveal_strlit("base0F");
    reveal_strlit("scheme-name");
    reveal_strlit("scheme-author");
    reveal_strlit("base00-hex");
    reveal_strlit("base01-hex");
    reveal_strlit("base02-hex");
    reveal_strlit("base03-hex");
    reveal_strlit("base04-hex");
    reveal_strlit("base05-hex");
    reveal_strlit("base06-hex");
    reveal_strlit("base07-hex");
    reveal_strlit("base08-hex");
    reveal_strlit("base09-hex");
    reveal_strlit("base0A-hex");
    reveal_strlit("base0B-hex");
    reveal_strlit("base0C-hex");
    reveal_strlit("base0D-hex");
    reveal_strlit("base0E-hex");
    reveal_strlit("base0F-hex");
    assert forall|i: int, j: int|
        0 <= i < field_names().len() && 0 <= j < field_names().len() && i != j implies field_names()[i]
        != field_names()[j] by {
        let a = field_names()[i];
        let b = field_names()[j];
        if a.len() == b.len() && a.len() == 6 && a[0] == 'b' && b[0] == 'b' {
            assert(a[5] != b[5]);
        } else if a.len() == b.len() {
            assert(a[0] != b[0]);
        }
    }
    assert forall|i: int, j: int|
        0 <= i < context_names().len() && 0 <= j < context_names().len() && i != j implies context_names()[i]
        != context_names()[j] by {
        let a = context_names()[i];
        let b = context_names()[j];
        if a.len() == b.len() {
            assert(a[5] != b[5]);
        }
    }
}

/// The projection is a renaming: the templates' context has exactly the
/// eighteen names, and under the name of each slot stands the value that the
/// scheme has in that slot, unchanged.
pub proof fn lemma_projection_renames(scheme: SchemeInput)
    ensures
        SchemeOutput::from_spec(&scheme).values() == scheme.values(),
        forall|name: Seq<char>|
            SchemeOutput::from_spec(&scheme).context().contains_key(name) <==> exists|i: int|
                0 <= i < FIELD_COUNT && name == #[trigger] context_names()[i],
        forall|i: int|
            0 <= i < FIELD_COUNT ==> SchemeOutput::from_spec(&scheme).context()[#[trigger] context_names()[i]]
                == scheme.values()[i],
        forall|i: int, j: int|
            0 <= i < FIELD_COUNT && 0 <= j < FIELD_COUNT && context_names()[i] == context_names()[j]
                ==> i == j,
{
    lemma_names_distinct();
    let out = SchemeOutput::from_spec(&scheme);
    assert(out.values() =~= scheme.values());
    assert forall|i: int| 0 <= i < FIELD_COUNT implies out.context()[#[trigger] context_names()[i]]
        == scheme.values()[i] by {
        let name = context_names()[i];
        assert(context_names().contains(name));
        let k = context_names().index_of(name);
        assert(context_names()[k] == name);
    }
    assert forall|name: Seq<char>| out.context().contains_key(name) implies exists|i: int|
        0 <= i < FIELD_COUNT && name == #[trigger] context_names()[i] by {
        let k = context_names().index_of(name);
        assert(context_names()[k] == name);
    }
}

} // verus!
