//! The ways in which a run can fail.

use vstd::prelude::*;
use vstd::string::*;

verus! {

/// The kinds of failure, without their diagnostics.
#[derive(Debug, Clone, Copy, PartialEq, Eq, Structural)]
pub enum Kind {
    MalformedInput,
    InvalidSearchPattern,
    UnreadableTemplate,
    TemplateSyntax,
    Render,
    Write,
}

/// A failure as the contracts speak of it: its kind and its diagnostic.
pub struct Cause {
    pub kind: Kind,
    pub detail: Seq<char>,
}

/// A failure that ends a run. Each variant carries a diagnostic for the
/// operator.
#[derive(Debug, Clone)]
pub enum Failure {
    /// The scheme file is not a record with the eighteen text fields.
    MalformedInput(String),
    /// The search pattern made from the directory is not a valid pattern.
    InvalidSearchPattern(String),
    /// A template that was found could not be read.
    UnreadableTemplate(String),
    /// The template engine refused the template's syntax.
    TemplateSyntax(String),
    /// The template could not be filled with the scheme's values.
    Render(String),
    /// The rendered text could not be written.
    Write(String),
}

impl View for Failure {
    type V = Cause;

    open spec fn view(&self) -> Cause {
        Cause { kind: self.kind_of(), detail: self.detail() }
    }
}

impl Failure {
    /// The kind of the failure.
    pub open spec fn kind_of(&self) -> Kind {
        match self {
            Failure::MalformedInput(_) => Kind::MalformedInput,
            Failure::InvalidSearchPattern(_) => Kind::InvalidSearchPattern,
            Failure::UnreadableTemplate(_) => Kind::UnreadableTemplate,
            Failure::TemplateSyntax(_) => Kind::TemplateSyntax,
            Failure::Render(_) => Kind::Render,
            Failure::Write(_) => Kind::Write,
        }
    }

    /// The kind of the failure.
    pub fn kind(&self) -> (kind: Kind)
        ensures
            kind == self.kind_of(),
    {
        match self {
            Failure::MalformedInput(_) => Kind::MalformedInput,
            Failure::InvalidSearchPattern(_) => Kind::InvalidSearchPattern,
            Failure::UnreadableTemplate(_) => Kind::UnreadableTemplate,
            Failure::TemplateSyntax(_) => Kind::TemplateSyntax,
            Failure::Render(_) => Kind::Render,
            Failure::Write(_) => Kind::Write,
        }
    }

    /// A second failure equal to this one.
    pub fn duplicate(&self) -> (copy: Failure)
        ensures
            copy == *self,
    {
        match self {
            Failure::MalformedInput(d) => Failure::MalformedInput(d.clone()),
            Failure::InvalidSearchPattern(d) => Failure::InvalidSearchPattern(d.clone()),
            Failure::UnreadableTemplate(d) => Failure::UnreadableTemplate(d.clone()),
            Failure::TemplateSyntax(d) => Failure::TemplateSyntax(d.clone()),
            Failure::Render(d) => Failure::Render(d.clone()),
            Failure::Write(d) => Failure::Write(d.clone()),
        }
    }

    /// The diagnostic carried by the failure.
    pub open spec fn detail(&self) -> Seq<char> {
        match self {
            Failure::MalformedInput(d) => d@,
            Failure::InvalidSearchPattern(d) => d@,
            Failure::UnreadableTemplate(d) => d@,
            Failure::TemplateSyntax(d) => d@,
            Failure::Render(d) => d@,
            Failure::Write(d) => d@,
        }
    }

    /// The fixed words that name the variant.
    pub open spec fn label(&self) -> Seq<char> {
        match self {
            Failure::MalformedInput(_) => "malformed scheme"@,
            Failure::InvalidSearchPattern(_) => "invalid search pattern"@,
            Failure::UnreadableTemplate(_) => "unreadable template"@,
            Failure::TemplateSyntax(_) => "template syntax error"@,
            Failure::Render(_) => "render error"@,
            Failure::Write(_) => "write error"@,
        }
    }

    /// The text shown to the operator: the label, a colon and a space, then
    /// the diagnostic.
    pub fn message(&self) -> (text: String)
        ensures
            text@ == self.label() + ": "@ + self.detail(),
    {
        let (label, detail): (&str, &String) = match self {
            Failure::MalformedInput(d) => ("malformed scheme", d),
            Failure::InvalidSearchPattern(d) => ("invalid search pattern", d),
            Failure::UnreadableTemplate(d) => ("unreadable template", d),
            Failure::TemplateSyntax(d) => ("template syntax error", d),
            Failure::Render(d) => ("render error", d),
            Failure::Write(d) => ("write error", d),
        };
        let mut text = String::from_str(label);
        text.append(": ");
        text.append(detail.as_str());
        text
    }
}

} // verus!
