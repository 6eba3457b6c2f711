//! The order of a run: what is done next, given what happened last.
//!
//! The caller scans the directory, reads and writes the files and prints the
//! paths; the run decides. It is started with `Run::new`, the caller begins
//! by scanning, and after that performs each action that `Run::step` hands
//! back and reports what came of it as the next event.
//!
//! A template that stands alone is rendered by the run itself. Any other is
//! handed back to the caller, who calls the engine where it may read the
//! files of partials and where a halt of the engine ends the program.

use vstd::prelude::*;
use vstd::string::*;
use vstd::std_specs::convert::FromSpec;
use crate::failure::{Cause, Failure, Kind};
use crate::locate::{file_name, is_template_at, output_path_of, TemplateRef};
use crate::palette::{SchemeInput, SchemeOutput};
use crate::engine::syntax_error;
use crate::render::{
    outcome_of, render_template, seen, stands_alone, vet, vetted,
};
use crate::tags::unknown_name;

verus! {

/// What the caller reports to the run.
#[derive(Debug)]
pub enum Event {
    /// The scan yielded this path.
    Found(String),
    /// The scan met an entry that it could not read.
    Unreadable,
    /// The scan has nothing more to yield.
    Exhausted,
    /// The template that was asked for has this text.
    Text(String),
    /// The template that was asked for could not be read; the diagnostic.
    ReadFailed(String),
    /// What the engine made of the template that was handed back.
    Rendered(Result<String, Failure>),
    /// The write that was asked for failed; the diagnostic.
    WriteFailed(String),
}

/// What the run asks of the caller.
#[derive(Debug)]
pub enum Action {
    /// Take the next entry of the scan and report it.
    Scan,
    /// Read the template at this path and report its text.
    Read(String),
    /// Render this template with the engine and the run's scheme, and
    /// report what came of it.
    Render(String),
    /// Print `path`; if `write` is set, write `text` to the file `name` in
    /// the directory of the template, which is the file at `path`, and
    /// report a failure of that write; then go on as for `Scan`.
    Emit { path: String, name: String, text: String, write: bool },
    /// Stop: every template that was found has been handled.
    Finish,
    /// Stop with this failure.
    Abort(Failure),
}

/// Where a run stands.
#[derive(Debug)]
pub enum Phase {
    /// Waiting for the next entry of the scan.
    Scanning,
    /// Waiting for the text of this template.
    Reading(TemplateRef),
    /// Waiting for the caller to render this template, whose text is `text`.
    Rendering { template: TemplateRef, text: String },
    /// Finished without a failure.
    Done,
    /// Ended by this failure.
    Failed(Failure),
}

/// A run: the scheme as the templates see it, whether files are written, and
/// where the run stands.
#[derive(Debug)]
pub struct Run {
    pub scheme: SchemeOutput,
    pub dry_run: bool,
    pub phase: Phase,
}

/// A phase as the contracts speak of it.
pub enum Stage {
    Scanning,
    Reading(Seq<char>),
    Rendering { path: Seq<char>, text: Seq<char> },
    Done,
    Failed(Cause),
}

/// An action as the contracts speak of it.
pub enum Step {
    Scan,
    Read(Seq<char>),
    Render(Seq<char>),
    Emit { path: Seq<char>, name: Seq<char>, text: Seq<char>, write: bool },
    Finish,
    Abort(Cause),
}

impl View for Phase {
    type V = Stage;

    open spec fn view(&self) -> Stage {
        match self {
            Phase::Scanning => Stage::Scanning,
            Phase::Reading(template) => Stage::Reading(template.source_path()),
            Phase::Rendering { template, text } => Stage::Rendering {
                path: template.source_path(),
                text: text@,
            },
            Phase::Done => Stage::Done,
            Phase::Failed(failure) => Stage::Failed(failure@),
        }
    }
}

impl View for Action {
    type V = Step;

    open spec fn view(&self) -> Step {
        match self {
            Action::Scan => Step::Scan,
            Action::Read(path) => Step::Read(path@),
            Action::Render(text) => Step::Render(text@),
            Action::Emit { path, name, text, write } => Step::Emit {
                path: path@,
                name: name@,
                text: text@,
                write: *write,
            },
            Action::Finish => Step::Finish,
            Action::Abort(failure) => Step::Abort(failure@),
        }
    }
}

/// What follows the rendering of the template at `template`: the text goes
/// to the template's output path, that is to the file of that name in the
/// template's directory, written unless the run is dry, and the scan goes
/// on; a failure ends the run.
pub open spec fn after_render(template: Seq<char>, rendered: Result<Seq<char>, Cause>, dry_run: bool) -> (
    Stage,
    Step,
) {
    match rendered {
        Ok(text) => (
            Stage::Scanning,
            Step::Emit {
                path: output_path_of(template),
                name: file_name(output_path_of(template)),
                text: text,
                write: !dry_run,
            },
        ),
        Err(cause) => (Stage::Failed(cause), Step::Abort(cause)),
    }
}

/// The stage that follows `stage` on `event`, and the action asked for.
///
/// While scanning, a path that leads to a template is read, any other path
/// and an unreadable entry are passed over, and the end of the scan ends the
/// run; a write reported as failed ends it with a failure. A template that
/// was read is rendered if it stands alone, and handed back to be rendered
/// if not; either way its text is then emitted, unless one of its tags
/// names a field that the scheme does not have. A failure to read or to
/// render ends the run. An event that does not answer the last action
/// changes nothing: the action is asked for again. A run that has ended
/// stays as it is.
pub open spec fn step_of(stage: Stage, dry_run: bool, scheme: SchemeOutput, event: Event) -> (
    Stage,
    Step,
) {
    match stage {
        Stage::Scanning => match event {
            Event::Found(path) => if is_template_at(path@) {
                (Stage::Reading(path@), Step::Read(path@))
            } else {
                (Stage::Scanning, Step::Scan)
            },
            Event::Unreadable => (Stage::Scanning, Step::Scan),
            Event::Exhausted => (Stage::Done, Step::Finish),
            Event::WriteFailed(detail) => (
                Stage::Failed(Cause { kind: Kind::Write, detail: detail@ }),
                Step::Abort(Cause { kind: Kind::Write, detail: detail@ }),
            ),
            _ => (Stage::Scanning, Step::Scan),
        },
        Stage::Reading(template) => match event {
            Event::Text(text) => if stands_alone(text@) {
                after_render(template, outcome_of(text@, scheme), dry_run)
            } else {
                (Stage::Rendering { path: template, text: text@ }, Step::Render(text@))
            },
            Event::ReadFailed(detail) => (
                Stage::Failed(Cause { kind: Kind::UnreadableTemplate, detail: detail@ }),
                Step::Abort(Cause { kind: Kind::UnreadableTemplate, detail: detail@ }),
            ),
            _ => (Stage::Reading(template), Step::Read(template)),
        },
        Stage::Rendering { path, text } => match event {
            Event::Rendered(rendered) => after_render(path, vetted(text, seen(rendered)), dry_run),
            _ => (Stage::Rendering { path: path, text: text }, Step::Render(text)),
        },
        Stage::Done => (Stage::Done, Step::Finish),
        Stage::Failed(cause) => (Stage::Failed(cause), Step::Abort(cause)),
    }
}

/// Decides what follows the rendering of `template`, given what the
/// rendering returned. A failure is kept as it came.
pub fn conclude(template: &TemplateRef, rendered: Result<String, Failure>, dry_run: bool) -> (next: (
    Phase,
    Action,
))
    ensures
        (next.0@, next.1@) == after_render(template.source_path(), seen(rendered), dry_run),
        rendered matches Err(failure) ==> next.0 == Phase::Failed(failure) && next.1
            == Action::Abort(failure),
{
    match rendered {
        Ok(text) => (
            Phase::Scanning,
            Action::Emit {
                path: String::from_str(template.output()),
                name: String::from_str(template.output_name()),
                text: text,
                write: !dry_run,
            },
        ),
        Err(failure) => {
            let copy = failure.duplicate();
            (Phase::Failed(failure), Action::Abort(copy))
        },
    }
}

impl Run {
    /// A run that has not begun: it waits for the first entry of the scan.
    pub fn new(scheme: &SchemeInput, dry_run: bool) -> (run: Run)
        ensures
            run.scheme == SchemeOutput::from_spec(scheme),
            run.dry_run == dry_run,
            run.phase is Scanning,
    {
        Run { scheme: SchemeOutput::from(scheme), dry_run: dry_run, phase: Phase::Scanning }
    }

    /// Takes an event and says what to do next.
    ///
    /// The scheme and the dry-run setting never change. A failure that the
    /// caller reports for a rendering is kept as it came.
    pub fn step(&mut self, event: Event) -> (action: Action)
        ensures
            final(self).scheme == old(self).scheme,
            final(self).dry_run == old(self).dry_run,
            (final(self).phase@, action@) == step_of(
                old(self).phase@,
                old(self).dry_run,
                old(self).scheme,
                event,
            ),
            final(self).phase matches Phase::Failed(failure) ==> action == Action::Abort(failure),
            old(self).phase matches Phase::Failed(failure) ==> final(self).phase == old(self).phase,
            old(self).phase is Rendering ==> (event matches Event::Rendered(Err(failure))
                ==> final(self).phase == Phase::Failed(failure)),
    {
        let (next, action): (Option<Phase>, Action) = match &self.phase {
            Phase::Done => (None, Action::Finish),
            Phase::Failed(failure) => (None, Action::Abort(failure.duplicate())),
            Phase::Scanning => match event {
                Event::Found(path) => match TemplateRef::at(path) {
                    Some(template) => {
                        let asked = String::from_str(template.source());
                        (Some(Phase::Reading(template)), Action::Read(asked))
                    },
                    None => (None, Action::Scan),
                },
                Event::Exhausted => (Some(Phase::Done), Action::Finish),
                Event::WriteFailed(detail) => {
                    let failure = Failure::Write(detail);
                    let copy = failure.duplicate();
                    (Some(Phase::Failed(failure)), Action::Abort(copy))
                },
                _ => (None, Action::Scan),
            },
            Phase::Reading(template) => match event {
                Event::Text(text) => match render_template(text.as_str(), &self.scheme) {
                    Some(rendered) => {
                        let (phase, action) = conclude(template, rendered, self.dry_run);
                        (Some(phase), action)
                    },
                    None => {
                        let asked = text.clone();
                        (
                            Some(Phase::Rendering { template: template.duplicate(), text: text }),
                            Action::Render(asked),
                        )
                    },
                },
                Event::ReadFailed(detail) => {
                    let failure = Failure::UnreadableTemplate(detail);
                    let copy = failure.duplicate();
                    (Some(Phase::Failed(failure)), Action::Abort(copy))
                },
                _ => (None, Action::Read(String::from_str(template.source()))),
            },
            Phase::Rendering { template, text } => match event {
                Event::Rendered(rendered) => {
                    let checked = vet(text.as_str(), rendered);
                    let (phase, action) = conclude(template, checked, self.dry_run);
                    (Some(phase), action)
                },
                _ => (None, Action::Render(text.clone())),
            },
        };
        if let Some(phase) = next {
            self.phase = phase;
        }
        action
    }
}

impl Step {
    /// The same action with nothing written.
    pub open spec fn unwritten(self) -> Step {
        match self {
            Step::Emit { path, name, text, write } => Step::Emit {
                path: path,
                name: name,
                text: text,
                write: false,
            },
            other => other,
        }
    }

    /// Whether the action writes a file.
    pub open spec fn writes(self) -> bool {
        self matches Step::Emit { write, .. } && write
    }

    /// The output path that the action reports, if it reports one.
    pub open spec fn reported(self) -> Option<Seq<char>> {
        match self {
            Step::Emit { path, .. } => Some(path),
            _ => None,
        }
    }
}

/// The actions that a run at `stage` asks for as it takes `events` in turn.
pub open spec fn steps_of(stage: Stage, dry_run: bool, scheme: SchemeOutput, events: Seq<Event>) -> Seq<
    Step,
>
    decreases events.len(),
{
    if events.len() == 0 {
        Seq::empty()
    } else {
        let (next, step) = step_of(stage, dry_run, scheme, events[0]);
        seq![step] + steps_of(next, dry_run, scheme, events.drop_first())
    }
}

/// A dry run asks for what the run that writes asks for, action by action,
/// and reports the same output paths; only it writes nothing.
pub proof fn lemma_dry_run_reports_same(stage: Stage, scheme: SchemeOutput, events: Seq<Event>)
    ensures
        steps_of(stage, true, scheme, events).len() == events.len(),
        steps_of(stage, false, scheme, events).len() == events.len(),
        forall|i: int|
            0 <= i < events.len() ==> {
                let dry = #[trigger] steps_of(stage, true, scheme, events)[i];
                let wet = steps_of(stage, false, scheme, events)[i];
                &&& dry == wet.unwritten()
                &&& dry.reported() == wet.reported()
                &&& !dry.writes()
            },
    decreases events.len(),
{
    if events.len() > 0 {
        let (next, _) = step_of(stage, true, scheme, events[0]);
        lemma_dry_run_reports_same(next, scheme, events.drop_first());
    }
}

/// A template that cannot be rendered ends the run, whether the run
/// rendered it or the caller did: the run fails and asks for nothing but
/// that the caller stop.
pub proof fn lemma_render_failure_aborts(
    template: Seq<char>,
    dry_run: bool,
    scheme: SchemeOutput,
    text: String,
    rendered: Result<String, Failure>,
)
    ensures
        stands_alone(text@) && outcome_of(text@, scheme) is Err ==> {
            let next = step_of(Stage::Reading(template), dry_run, scheme, Event::Text(text));
            next.0 is Failed && next.1 is Abort
        },
        rendered is Err ==> {
            let next = step_of(
                Stage::Rendering { path: template, text: text@ },
                dry_run,
                scheme,
                Event::Rendered(rendered),
            );
            next.0 is Failed && next.1 is Abort
        },
{
}

/// A template that names a field which the scheme does not have ends the
/// run with a render error: where the template stands alone and its syntax
/// is sound, the run fails and asks for nothing but that the caller stop.
pub proof fn lemma_unknown_field_aborts(
    template: Seq<char>,
    dry_run: bool,
    scheme: SchemeOutput,
    text: String,
)
    requires
        stands_alone(text@),
        syntax_error(text@) is None,
        unknown_name(text@) is Some,
    ensures
        ({
            let next = step_of(Stage::Reading(template), dry_run, scheme, Event::Text(text));
            &&& next.0 matches Stage::Failed(cause) && cause.kind == Kind::Render
            &&& next.1 == Step::Abort(next.0->Failed_0)
        }),
{
}

/// The same holds of a template that the caller rendered: whatever text the
/// engine made of it, a tag that names a field which the scheme does not
/// have ends the run with a render error.
pub proof fn lemma_unknown_field_aborts_after_caller(
    template: Seq<char>,
    dry_run: bool,
    scheme: SchemeOutput,
    text: Seq<char>,
    made: String,
)
    requires
        unknown_name(text) is Some,
    ensures
        ({
            let next = step_of(
                Stage::Rendering { path: template, text: text },
                dry_run,
                scheme,
                Event::Rendered(Ok(made)),
            );
            &&& next.0 matches Stage::Failed(cause) && cause.kind == Kind::Render
            &&& next.1 == Step::Abort(next.0->Failed_0)
        }),
{
}

/// Nothing follows a failure: once a run has asked the caller to stop with
/// a failure, it asks for the same on every later event, so no template
/// after the one that failed is read, rendered or written.
pub proof fn lemma_nothing_after_abort(
    stage: Stage,
    dry_run: bool,
    scheme: SchemeOutput,
    events: Seq<Event>,
    first: int,
    later: int,
)
    requires
        0 <= first <= later < events.len(),
        steps_of(stage, dry_run, scheme, events)[first] is Abort,
    ensures
        steps_of(stage, dry_run, scheme, events)[later] == steps_of(
            stage,
            dry_run,
            scheme,
            events,
        )[first],
    decreases events.len(),
{
    let (next, step) = step_of(stage, dry_run, scheme, events[0]);
    let rest = events.drop_first();
    lemma_steps_len(next, dry_run, scheme, rest);
    if first > 0 {
        lemma_nothing_after_abort(next, dry_run, scheme, rest, first - 1, later - 1);
    } else if later > 0 {
        lemma_failed_stays(next, dry_run, scheme, rest, later - 1);
    }
}

/// A run takes one action for each event.
proof fn lemma_steps_len(stage: Stage, dry_run: bool, scheme: SchemeOutput, events: Seq<Event>)
    ensures
        steps_of(stage, dry_run, scheme, events).len() == events.len(),
    decreases events.len(),
{
    if events.len() > 0 {
        let (next, _) = step_of(stage, dry_run, scheme, events[0]);
        lemma_steps_len(next, dry_run, scheme, events.drop_first());
    }
}

/// A run that has failed answers every event with the same failure.
proof fn lemma_failed_stays(
    stage: Stage,
    dry_run: bool,
    scheme: SchemeOutput,
    events: Seq<Event>,
    at: int,
)
    requires
        stage is Failed,
        0 <= at < events.len(),
    ensures
        steps_of(stage, dry_run, scheme, events)[at] == Step::Abort(stage->Failed_0),
    decreases events.len(),
{
    let rest = events.drop_first();
    lemma_steps_len(stage, dry_run, scheme, rest);
    if at > 0 {
        lemma_failed_stays(stage, dry_run, scheme, rest, at - 1);
    }
}

/// What a scan yields at one place: an entry that it cannot read, or a
/// path, with the text that the caller reads there and with what the engine
/// returns to the caller for that text, should the run hand it back.
pub enum Entry {
    Unreadable,
    File { path: String, text: String, made: Result<String, Failure> },
}

impl Entry {
    /// Whether the entry is a template.
    pub open spec fn is_template(self) -> bool {
        self matches Entry::File { path, .. } && is_template_at(path@)
    }

    /// What the caller reports for the entry: that it is unreadable, or its
    /// path and, for a template, the text that the run then asks for, and
    /// what the engine made of it where the run hands it back.
    pub open spec fn events(self) -> Seq<Event> {
        match self {
            Entry::Unreadable => seq![Event::Unreadable],
            Entry::File { path, text, made } => if !is_template_at(path@) {
                seq![Event::Found(path)]
            } else if stands_alone(text@) {
                seq![Event::Found(path), Event::Text(text)]
            } else {
                seq![Event::Found(path), Event::Text(text), Event::Rendered(made)]
            },
        }
    }

    /// What rendering makes of the entry's text: the run's own outcome for
    /// a text that stands alone, and else what the caller reports, looked
    /// over by the run.
    pub open spec fn rendered(self, scheme: SchemeOutput) -> Result<Seq<char>, Cause> {
        match self {
            Entry::File { path, text, made } => if stands_alone(text@) {
                outcome_of(text@, scheme)
            } else {
                vetted(text@, seen(made))
            },
            Entry::Unreadable => Ok(Seq::empty()),
        }
    }

    /// Whether the entry, if it is a template, renders.
    pub open spec fn renders(self, scheme: SchemeOutput) -> bool {
        self.is_template() ==> self.rendered(scheme) is Ok
    }

    /// What the run emits for the entry: for a template its output path and
    /// the text rendered from it, for anything else nothing.
    pub open spec fn emits(self, scheme: SchemeOutput, dry_run: bool) -> Seq<Step> {
        match self {
            Entry::File { path, text, made } => if is_template_at(path@) {
                seq![
                    Step::Emit {
                        path: output_path_of(path@),
                        name: file_name(output_path_of(path@)),
                        text: self.rendered(scheme)->Ok_0,
                        write: !dry_run,
                    },
                ]
            } else {
                Seq::empty()
            },
            Entry::Unreadable => Seq::empty(),
        }
    }
}

/// What the caller reports over a whole scan: the events of each entry in
/// turn, then that the scan is exhausted.
pub open spec fn scan_events(entries: Seq<Entry>) -> Seq<Event>
    decreases entries.len(),
{
    if entries.len() == 0 {
        seq![Event::Exhausted]
    } else {
        entries[0].events() + scan_events(entries.drop_first())
    }
}

/// What a run emits over a whole scan in which every template renders.
pub open spec fn scan_emits(entries: Seq<Entry>, scheme: SchemeOutput, dry_run: bool) -> Seq<Step>
    decreases entries.len(),
{
    if entries.len() == 0 {
        Seq::empty()
    } else {
        entries[0].emits(scheme, dry_run) + scan_emits(entries.drop_first(), scheme, dry_run)
    }
}

/// How many of the entries are templates.
pub open spec fn template_count(entries: Seq<Entry>) -> nat
    decreases entries.len(),
{
    if entries.len() == 0 {
        0
    } else if entries[0].is_template() {
        1 + template_count(entries.drop_first())
    } else {
        template_count(entries.drop_first())
    }
}

/// The actions among `steps` that emit a text, in order.
pub open spec fn emits_in(steps: Seq<Step>) -> Seq<Step>
    decreases steps.len(),
{
    if steps.len() == 0 {
        Seq::empty()
    } else if steps[0] is Emit {
        seq![steps[0]] + emits_in(steps.drop_first())
    } else {
        emits_in(steps.drop_first())
    }
}

/// Every template of a scan is rendered, once, and nothing else is: over a
/// scan in which every template renders, by the run or by the caller, the
/// run emits one text for each entry that is a template, at whatever depth
/// it lies, in the order of the scan and to the template's output path; it
/// emits nothing for the other entries, and it ends without a failure. A
/// scan without templates emits nothing and ends the same way.
pub proof fn lemma_scan_renders_each_template(
    entries: Seq<Entry>,
    scheme: SchemeOutput,
    dry_run: bool,
)
    requires
        forall|i: int| 0 <= i < entries.len() ==> (#[trigger] entries[i]).renders(scheme),
    ensures
        ({
            let steps = steps_of(Stage::Scanning, dry_run, scheme, scan_events(entries));
            &&& emits_in(steps) == scan_emits(entries, scheme, dry_run)
            &&& emits_in(steps).len() == template_count(entries)
            &&& steps.len() > 0 && steps.last() == Step::Finish
        }),
    decreases entries.len(),
{
    let events = scan_events(entries);
    if entries.len() == 0 {
        lemma_steps_first(Stage::Scanning, dry_run, scheme, Event::Exhausted, Seq::empty());
        assert(seq![Event::Exhausted] + Seq::<Event>::empty() =~= events);
        let steps = steps_of(Stage::Scanning, dry_run, scheme, events);
        assert(steps =~= seq![Step::Finish]);
        lemma_emits_first(Step::Finish, Seq::empty());
        assert(seq![Step::Finish] + Seq::<Step>::empty() =~= steps);
    } else {
        let rest = entries.drop_first();
        let later = scan_events(rest);
        assert forall|i: int| 0 <= i < rest.len() implies (#[trigger] rest[i]).renders(scheme) by {
            assert(rest[i] == entries[i + 1]);
        }
        lemma_scan_renders_each_template(rest, scheme, dry_run);
        let behind = steps_of(Stage::Scanning, dry_run, scheme, later);
        assert(entries[0].renders(scheme));
        match entries[0] {
            Entry::Unreadable => {
                lemma_steps_first(Stage::Scanning, dry_run, scheme, Event::Unreadable, later);
                lemma_emits_first(Step::Scan, behind);
                assert(Seq::<Step>::empty() + scan_emits(rest, scheme, dry_run) =~= scan_emits(
                    rest,
                    scheme,
                    dry_run,
                ));
                assert((seq![Step::Scan] + behind).last() == behind.last());
            },
            Entry::File { path, text, made } => {
                if !is_template_at(path@) {
                    lemma_steps_first(Stage::Scanning, dry_run, scheme, Event::Found(path), later);
                    lemma_emits_first(Step::Scan, behind);
                    assert(Seq::<Step>::empty() + scan_emits(rest, scheme, dry_run)
                        =~= scan_emits(rest, scheme, dry_run));
                    assert((seq![Step::Scan] + behind).last() == behind.last());
                } else if stands_alone(text@) {
                    let read = Step::Read(path@);
                    let emit = entries[0].emits(scheme, dry_run)[0];
                    assert(seq![Event::Found(path), Event::Text(text)] + later =~= seq![
                        Event::Found(path),
                    ] + (seq![Event::Text(text)] + later));
                    lemma_steps_first(
                        Stage::Scanning,
                        dry_run,
                        scheme,
                        Event::Found(path),
                        seq![Event::Text(text)] + later,
                    );
                    lemma_steps_first(
                        Stage::Reading(path@),
                        dry_run,
                        scheme,
                        Event::Text(text),
                        later,
                    );
                    lemma_emits_first(read, seq![emit] + behind);
                    lemma_emits_first(emit, behind);
                    assert((seq![read] + (seq![emit] + behind)).last() == behind.last());
                } else {
                    let read = Step::Read(path@);
                    let hand = Step::Render(text@);
                    let emit = entries[0].emits(scheme, dry_run)[0];
                    let waiting = Stage::Rendering { path: path@, text: text@ };
                    assert(seq![Event::Found(path), Event::Text(text), Event::Rendered(made)] + later
                        =~= seq![Event::Found(path)] + (seq![Event::Text(text)] + (seq![
                        Event::Rendered(made),
                    ] + later)));
                    lemma_steps_first(
                        Stage::Scanning,
                        dry_run,
                        scheme,
                        Event::Found(path),
                        seq![Event::Text(text)] + (seq![Event::Rendered(made)] + later),
                    );
                    lemma_steps_first(
                        Stage::Reading(path@),
                        dry_run,
                        scheme,
                        Event::Text(text),
                        seq![Event::Rendered(made)] + later,
                    );
                    lemma_steps_first(waiting, dry_run, scheme, Event::Rendered(made), later);
                    lemma_emits_first(read, seq![hand] + (seq![emit] + behind));
                    lemma_emits_first(hand, seq![emit] + behind);
                    lemma_emits_first(emit, behind);
                    assert((seq![read] + (seq![hand] + (seq![emit] + behind))).last()
                        == behind.last());
                }
            },
        }
    }
}

/// The actions on a first event and the events after it: the action on the
/// first, then the actions on the others from the stage that follows.
proof fn lemma_steps_first(
    stage: Stage,
    dry_run: bool,
    scheme: SchemeOutput,
    event: Event,
    rest: Seq<Event>,
)
    ensures
        steps_of(stage, dry_run, scheme, seq![event] + rest) == seq![
            step_of(stage, dry_run, scheme, event).1,
        ] + steps_of(step_of(stage, dry_run, scheme, event).0, dry_run, scheme, rest),
{
    let events = seq![event] + rest;
    assert(events[0] == event);
    assert(events.drop_first() =~= rest);
}

/// The emits among a first action and the actions after it.
proof fn lemma_emits_first(step: Step, rest: Seq<Step>)
    ensures
        emits_in(seq![step] + rest) == if step is Emit {
            seq![step] + emits_in(rest)
        } else {
            emits_in(rest)
        },
{
    let steps = seq![step] + rest;
    assert(steps[0] == step);
    assert(steps.drop_first() =~= rest);
}

} // verus!
