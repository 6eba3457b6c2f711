//! Which files are templates, and where the text rendered from one goes.
//!
//! A path is taken as text in which `/` parts the components, as the scan
//! writes it on Unix. On a system whose scan writes another separator no
//! path would be told apart into directory and name here.

use vstd::prelude::*;
use vstd::string::*;
use crate::failure::Failure;
use crate::scan::{open_scan, pattern_error_text, pattern_fault};
use crate::text::{chars_of, occurs_at, stands_at};

verus! {

/// What the name of every template file begins with.
pub open spec fn template_prefix() -> Seq<char> {
    "base16-templater"@
}

/// What the name of every template file ends with.
pub open spec fn template_suffix() -> Seq<char> {
    ".mustache"@
}

/// What is added to a directory to search it: any depth below it, then the
/// shape of a template's name.
pub open spec fn pattern_tail() -> Seq<char> {
    "/**/base16-templater*.mustache"@
}

/// The pattern that finds the templates under `dir`.
pub open spec fn search_pattern_of(dir: Seq<char>) -> Seq<char> {
    dir + pattern_tail()
}

/// Where the file name starts in the first `end` characters of `path`: after
/// their last `/`, or at 0 where they hold none.
pub open spec fn name_start(path: Seq<char>, end: int) -> int
    decreases end,
{
    if end <= 0 {
        0
    } else if path[end - 1] == '/' {
        end
    } else {
        name_start(path, end - 1)
    }
}

/// The last component of `path`: what follows its last `/`.
pub open spec fn file_name(path: Seq<char>) -> Seq<char> {
    path.subrange(name_start(path, path.len() as int), path.len() as int)
}

/// Whether a file of this name is a template: the name begins with the
/// prefix and ends with the suffix, and the two do not overlap.
pub open spec fn is_template_name(name: Seq<char>) -> bool {
    &&& template_prefix().len() + template_suffix().len() <= name.len()
    &&& occurs_at(name, 0, template_prefix())
    &&& occurs_at(name, name.len() - template_suffix().len(), template_suffix())
}

/// Whether `path` leads to a template. Only its last component counts.
pub open spec fn is_template_at(path: Seq<char>) -> bool {
    is_template_name(file_name(path))
}

/// Where the stem of the file name ends, looking at the first `at`
/// characters of `path` from their end: at the last `.` of the file name,
/// unless the name begins with it; at the end of `path` where the name has no
/// such `.`.
pub open spec fn stem_end(path: Seq<char>, at: int) -> int
    decreases at,
{
    if at <= 0 || path[at - 1] == '/' {
        path.len() as int
    } else if path[at - 1] == '.' {
        if at - 1 == 0 || path[at - 2] == '/' {
            path.len() as int
        } else {
            at - 1
        }
    } else {
        stem_end(path, at - 1)
    }
}

/// The path of the rendered file: `path` without the last extension of its
/// file name.
pub open spec fn output_path_of(path: Seq<char>) -> Seq<char> {
    path.subrange(0, stem_end(path, path.len() as int))
}

/// The pattern that finds the templates under `dir`, at any depth.
pub fn search_pattern(dir: &str) -> (pattern: String)
    ensures
        pattern@ == search_pattern_of(dir@),
{
    let mut pattern = String::from_str(dir);
    pattern.append("/**/base16-templater*.mustache");
    pattern
}

/// Starts the scan for the templates under `dir`. The scan lists the
/// directories only as its entries are taken.
///
/// Fails exactly when the pattern made from `dir` is not one that the scan
/// accepts, which a directory name with unbalanced brackets can cause; the
/// diagnostic is the scan's.
pub fn find_templates(dir: &str) -> (scan: Result<glob::Paths, Failure>)
    ensures
        match scan {
            Ok(_) => pattern_fault(search_pattern_of(dir@)) is None,
            Err(failure) => failure is InvalidSearchPattern && pattern_fault(
                search_pattern_of(dir@),
            ) == Some(failure.detail()),
        },
{
    let pattern = search_pattern(dir);
    match open_scan(pattern.as_str()) {
        Ok(paths) => Ok(paths),
        Err(error) => Err(Failure::InvalidSearchPattern(pattern_error_text(&error))),
    }
}

/// Finds where the file name starts in `path`.
fn find_name_start(path: &Vec<char>) -> (start: usize)
    ensures
        start == name_start(path@, path@.len() as int),
        start <= path@.len(),
{
    let mut end: usize = path.len();
    while end > 0 && path[end - 1] != '/'
        invariant
            end <= path@.len(),
            name_start(path@, path@.len() as int) == name_start(path@, end as int),
        decreases end,
    {
        end = end - 1;
    }
    end
}

/// Tells whether `path` leads to a template.
pub fn is_template_path(path: &str) -> (yes: bool)
    ensures
        yes == is_template_at(path@),
{
    let chars = chars_of(path);
    let prefix = chars_of("base16-templater");
    let suffix = chars_of(".mustache");
    let start = find_name_start(&chars);
    let length: usize = chars.len() - start;
    if length < prefix.len() || length - prefix.len() < suffix.len() {
        return false;
    }
    let ghost name = file_name(path@);
    let begins = stands_at(&chars, start, &prefix);
    let ends = stands_at(&chars, chars.len() - suffix.len(), &suffix);
    proof {
        assert(name.subrange(0, prefix@.len() as int) =~= chars@.subrange(
            start as int,
            start + prefix@.len(),
        ));
        assert(name.subrange(name.len() - suffix@.len(), name.len() as int) =~= chars@.subrange(
            chars@.len() - suffix@.len(),
            chars@.len() as int,
        ));
    }
    begins && ends
}

/// Finds where the stem of the file name ends in `path`.
fn find_stem_end(path: &Vec<char>) -> (end: usize)
    ensures
        end == stem_end(path@, path@.len() as int),
        end <= path@.len(),
{
    let mut at: usize = path.len();
    while at > 0
        invariant
            at <= path@.len(),
            stem_end(path@, path@.len() as int) == stem_end(path@, at as int),
        decreases at,
    {
        let c = path[at - 1];
        if c == '/' {
            return path.len();
        }
        if c == '.' {
            if at - 1 > 0 && path[at - 2] != '/' {
                return at - 1;
            }
            return path.len();
        }
        at = at - 1;
    }
    path.len()
}

/// The path to which the text rendered from the template at `path` goes.
pub fn output_path(path: &str) -> (output: String)
    ensures
        output@ == output_path_of(path@),
{
    let chars = chars_of(path);
    let end = find_stem_end(&chars);
    String::from_str(path.substring_char(0, end))
}

/// The last component of `path`.
pub fn file_name_of(path: &str) -> (name: String)
    ensures
        name@ == file_name(path@),
{
    let chars = chars_of(path);
    let start = find_name_start(&chars);
    String::from_str(path.substring_char(start, chars.len()))
}

/// A template that was found: the path of the template, the path to which
/// the text rendered from it goes, and the file name in that path. The
/// second is always the output path of the first, and the third its last
/// component.
#[derive(Debug)]
pub struct TemplateRef {
    source: String,
    output: String,
    name: String,
}

impl TemplateRef {
    #[verifier::type_invariant]
    spec fn derived(self) -> bool {
        &&& is_template_at(self.source@)
        &&& self.output@ == output_path_of(self.source@)
        &&& self.name@ == file_name(self.output@)
    }

    /// The path of the template.
    pub closed spec fn source_path(&self) -> Seq<char> {
        self.source@
    }

    /// The template at `path`, if `path` leads to one.
    pub fn at(path: String) -> (found: Option<TemplateRef>)
        ensures
            found is Some == is_template_at(path@),
            found matches Some(template) ==> template.source_path() == path@,
    {
        if is_template_path(path.as_str()) {
            let output = output_path(path.as_str());
            let name = file_name_of(output.as_str());
            Some(TemplateRef { source: path, output: output, name: name })
        } else {
            None
        }
    }

    /// The path of the template.
    pub fn source(&self) -> (path: &str)
        ensures
            path@ == self.source_path(),
            is_template_at(path@),
    {
        proof {
            use_type_invariant(self);
        }
        self.source.as_str()
    }

    /// A second reference to the same template.
    pub fn duplicate(&self) -> (copy: TemplateRef)
        ensures
            copy.source_path() == self.source_path(),
    {
        proof {
            use_type_invariant(self);
        }
        TemplateRef {
            source: self.source.clone(),
            output: self.output.clone(),
            name: self.name.clone(),
        }
    }

    /// The path to which the rendered text goes.
    pub fn output(&self) -> (path: &str)
        ensures
            path@ == output_path_of(self.source_path()),
    {
        proof {
            use_type_invariant(self);
        }
        self.output.as_str()
    }

    /// The name of the file to which the rendered text goes, in the
    /// directory of the template.
    pub fn output_name(&self) -> (name: &str)
        ensures
            name@ == file_name(output_path_of(self.source_path())),
    {
        proof {
            use_type_invariant(self);
        }
        self.name.as_str()
    }
}

/// Taking the extension off gives back the name it was put on: for every
/// text that ends within a file name, the output path of that text followed
/// by the suffix of templates is the text itself, dots and all.
pub proof fn lemma_output_strips_suffix(stem: Seq<char>)
    requires
        stem.len() > 0,
        stem.last() != '/',
    ensures
        output_path_of(stem + template_suffix()) == stem,
{
    reveal_strlit(".mustache");
    let path = stem + template_suffix();
    let n = stem.len() as int;
    assert(path.len() == n + 9);
    assert(path[n] == '.' && path[n - 1] == stem.last());
    assert(path[n + 1] == 'm' && path[n + 2] == 'u' && path[n + 3] == 's' && path[n + 4] == 't');
    assert(path[n + 5] == 'a' && path[n + 6] == 'c' && path[n + 7] == 'h' && path[n + 8] == 'e');
    reveal_with_fuel(stem_end, 10);
    assert(stem_end(path, n + 9) == n);
    assert(path.subrange(0, n) =~= stem);
}

/// The file name of a path starts after a `/` or at the path's start, and
/// holds no `/`.
pub proof fn lemma_name_start(path: Seq<char>, end: int)
    requires
        0 <= end <= path.len(),
    ensures
        0 <= name_start(path, end) <= end,
        name_start(path, end) > 0 ==> path[name_start(path, end) - 1] == '/',
        forall|i: int| name_start(path, end) <= i < end ==> path[i] != '/',
    decreases end,
{
    if end > 0 && path[end - 1] != '/' {
        lemma_name_start(path, end - 1);
    }
}

/// The output path of a template is its path without the suffix of
/// templates: the directory and the rest of the name stay as they are.
pub proof fn lemma_template_output(path: Seq<char>)
    requires
        is_template_at(path),
    ensures
        template_suffix().len() <= path.len(),
        output_path_of(path) == path.subrange(0, path.len() - template_suffix().len()),
        output_path_of(path) + template_suffix() == path,
        name_start(output_path_of(path), output_path_of(path).len() as int) == name_start(
            path,
            path.len() as int,
        ),
        file_name(output_path_of(path)) + template_suffix() == file_name(path),
{
    reveal_strlit(".mustache");
    reveal_strlit("base16-templater");
    lemma_name_start(path, path.len() as int);
    let start = name_start(path, path.len() as int);
    let name = file_name(path);
    let stem = path.subrange(0, path.len() - 9);
    assert(name.len() >= 25);
    assert(path.subrange(path.len() - 9, path.len() as int) =~= name.subrange(
        name.len() - 9,
        name.len() as int,
    ));
    assert(stem + template_suffix() =~= path);
    assert(stem.last() == path[path.len() - 10]);
    lemma_output_strips_suffix(stem);
    assert forall|i: int| start <= i < path.len() implies path[i] != '/' by {}
    lemma_name_walk(path, stem.len() as int, path.len() as int);
    lemma_same_start(path, stem, stem.len() as int);
    assert(file_name(stem) + template_suffix() =~= file_name(path));
}

/// The start of the file name in the first `end` characters is the same in
/// two texts that agree on them.
proof fn lemma_same_start(path: Seq<char>, front: Seq<char>, end: int)
    requires
        0 <= end <= front.len() <= path.len(),
        forall|i: int| 0 <= i < end ==> front[i] == path[i],
    ensures
        name_start(front, end) == name_start(path, end),
    decreases end,
{
    if end > 0 && path[end - 1] != '/' {
        lemma_same_start(path, front, end - 1);
    }
}

/// Depth does not count: a file is a template by its name alone, whatever
/// directory it lies in.
pub proof fn lemma_depth_free(dir: Seq<char>, name: Seq<char>)
    requires
        !name.contains('/'),
    ensures
        is_template_at(name) == is_template_name(name),
        is_template_at(dir + seq!['/'] + name) == is_template_name(name),
{
    lemma_file_name_of(Seq::empty(), name);
    assert(Seq::<char>::empty() + name =~= name);
    lemma_file_name_of(dir + seq!['/'], name);
}

/// The file name of `front + name` is `name`, where `name` holds no `/` and
/// `front` is empty or ends in one.
proof fn lemma_file_name_of(front: Seq<char>, name: Seq<char>)
    requires
        !name.contains('/'),
        front.len() == 0 || front.last() == '/',
    ensures
        file_name(front + name) == name,
{
    let path = front + name;
    lemma_name_walk(path, front.len() as int, path.len() as int);
    assert(name_start(path, front.len() as int) == front.len());
    assert(path.subrange(front.len() as int, path.len() as int) =~= name);
}

/// Over a stretch without `/`, the start of the file name does not move.
proof fn lemma_name_walk(path: Seq<char>, from: int, end: int)
    requires
        0 <= from <= end <= path.len(),
        forall|i: int| from <= i < end ==> path[i] != '/',
    ensures
        name_start(path, end) == name_start(path, from),
    decreases end - from,
{
    if from < end {
        lemma_name_walk(path, from, end - 1);
    }
}

} // verus!
