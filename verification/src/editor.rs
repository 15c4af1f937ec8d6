//! The suspendable editor: its construction and the decisions of one read.
//!
//! A read is a dialogue. The driver blocks on the engine and hands what came
//! back to [`SuspendableReedline::read_line`], which either ends the read or
//! asks for a suspension. The driver then stops the process and hands the
//! report of that to [`SuspendableReedline::resume`], which ends the read.

use crate::keymap::{
    char_bindings, clone_table, default_emacs_table, emits_no_host_command,
    lemma_remap_isolates_marker, only_suspend_key_emits, remap_suspend_key, with_suspend_key,
};
use reedline::{Emacs, Keybindings, Reedline, ReedlineError};
use vstd::prelude::*;
use vstd::string::StringExecFns;

verus! {

/// The editing engine, carried as an opaque value.
#[verifier::external_type_specification]
#[verifier::external_body]
pub struct ExReedline(reedline::Reedline);

/// The Emacs edit mode of the engine, carried as an opaque value.
#[verifier::external_type_specification]
#[verifier::external_body]
pub struct ExEmacs(reedline::Emacs);

/// The engine's error, carried as an opaque value.
#[verifier::external_type_specification]
#[verifier::external_body]
pub struct ExReedlineError(reedline::ReedlineError);

/// The reserved text that the suspend chord submits in place of a line.
pub const INTERNAL_SUSPEND_MARKER: &'static str = ":::SUSPENDABLE_REEDLINE_SUSPEND:::";

/// What precedes the reason in the message of a failed suspension.
pub const SUSPEND_FAILURE_PREFIX: &'static str = "Failed to send SIGTSTP: ";

/// What the driver prints once the process runs again.
pub const RESUMED_NOTICE: &'static str = "Resumed.";

/// Why a read failed.
#[derive(Debug)]
pub enum SuspendableError {
    /// The engine failed; its error is handed on unchanged.
    Reedline(ReedlineError),
    /// The stop signal could not be delivered; the text says why.
    Suspend(String),
}

/// The mathematical value of a [`SuspendableError`].
pub enum SuspendableErrorView {
    Reedline(ReedlineError),
    Suspend(Seq<char>),
}

impl View for SuspendableError {
    type V = SuspendableErrorView;

    open spec fn view(&self) -> SuspendableErrorView {
        match self {
            SuspendableError::Reedline(error) => SuspendableErrorView::Reedline(*error),
            SuspendableError::Suspend(message) => SuspendableErrorView::Suspend(message@),
        }
    }
}

pub type SuspendableResult<T> = Result<T, SuspendableError>;

/// How a read that did not fail ended.
#[derive(Debug)]
pub enum ReadResult {
    /// The user submitted this text.
    Success(String),
    /// The user interrupted the read or the input ended.
    Aborted,
    /// The user pressed the suspend chord.
    Suspended,
}

/// The mathematical value of a [`ReadResult`].
pub enum ReadResultView {
    Success(Seq<char>),
    Aborted,
    Suspended,
}

impl View for ReadResult {
    type V = ReadResultView;

    open spec fn view(&self) -> ReadResultView {
        match self {
            ReadResult::Success(text) => ReadResultView::Success(text@),
            ReadResult::Aborted => ReadResultView::Aborted,
            ReadResult::Suspended => ReadResultView::Suspended,
        }
    }
}

/// The mathematical value of the result of a read.
pub type Outcome = Result<ReadResultView, SuspendableErrorView>;

/// The outcome that `result` stands for.
pub open spec fn outcome_of(result: SuspendableResult<ReadResult>) -> Outcome {
    match result {
        Ok(read) => Ok(read@),
        Err(error) => Err(error@),
    }
}

/// What the engine handed back from one blocking read.
#[derive(Debug)]
pub enum EditorReply {
    /// A submitted line.
    Line(String),
    /// The text of a host command that a chord emitted.
    HostCommand(String),
    /// The user interrupted the read.
    Interrupt,
    /// The input ended.
    EndOfInput,
    /// The read was broken off from outside; the text is what the buffer
    /// held then.
    ExternalBreak(String),
    /// The engine ended the read in a way that it has no name for here.
    Other,
    /// The engine failed.
    Failed(ReedlineError),
}

/// The mathematical value of an [`EditorReply`].
pub enum EditorReplyView {
    Line(Seq<char>),
    HostCommand(Seq<char>),
    Interrupt,
    EndOfInput,
    ExternalBreak(Seq<char>),
    Other,
    Failed(ReedlineError),
}

impl View for EditorReply {
    type V = EditorReplyView;

    open spec fn view(&self) -> EditorReplyView {
        match self {
            EditorReply::Line(text) => EditorReplyView::Line(text@),
            EditorReply::HostCommand(text) => EditorReplyView::HostCommand(text@),
            EditorReply::Interrupt => EditorReplyView::Interrupt,
            EditorReply::EndOfInput => EditorReplyView::EndOfInput,
            EditorReply::ExternalBreak(text) => EditorReplyView::ExternalBreak(text@),
            EditorReply::Other => EditorReplyView::Other,
            EditorReply::Failed(error) => EditorReplyView::Failed(*error),
        }
    }
}

/// What the driver reports after it was asked to stop the process.
#[derive(Debug)]
pub enum SuspendReport {
    /// The process was stopped and runs again.
    Resumed,
    /// The platform has no way to stop a process; nothing was done.
    Unsupported,
    /// The stop signal could not be delivered, for this reason.
    Failed(String),
}

/// The mathematical value of a [`SuspendReport`].
pub enum SuspendReportView {
    Resumed,
    Unsupported,
    Failed(Seq<char>),
}

impl View for SuspendReport {
    type V = SuspendReportView;

    open spec fn view(&self) -> SuspendReportView {
        match self {
            SuspendReport::Resumed => SuspendReportView::Resumed,
            SuspendReport::Unsupported => SuspendReportView::Unsupported,
            SuspendReport::Failed(reason) => SuspendReportView::Failed(reason@),
        }
    }
}

/// What follows the engine's reply.
#[derive(Debug)]
pub enum ReadStep {
    /// The read is over, with this result.
    Done(SuspendableResult<ReadResult>),
    /// The driver is to flush pending output, stop the process where the
    /// platform can, and report how that went.
    Suspend,
}

/// The mathematical value of a [`ReadStep`].
pub enum ReadStepView {
    Done(Outcome),
    Suspend,
}

impl View for ReadStep {
    type V = ReadStepView;

    open spec fn view(&self) -> ReadStepView {
        match self {
            ReadStep::Done(result) => ReadStepView::Done(outcome_of(*result)),
            ReadStep::Suspend => ReadStepView::Suspend,
        }
    }
}

/// How a read ends after a suspension was asked for.
#[derive(Debug)]
pub struct Resumption {
    /// What the driver prints as a line of its own before it goes on, if
    /// anything.
    pub notice: Option<String>,
    /// The result of the read.
    pub result: SuspendableResult<ReadResult>,
}

/// The step that follows a text that came out of the engine: the marker asks
/// for a suspension and never counts as text, any other text is the text
/// read.
pub open spec fn step_for_text(marker: Seq<char>, text: Seq<char>) -> ReadStepView {
    if text == marker {
        ReadStepView::Suspend
    } else {
        ReadStepView::Done(Ok(ReadResultView::Success(text)))
    }
}

/// The step that follows `reply` where the marker is `marker`. A submitted
/// line and the text of a host command are texts alike. An interrupt and the
/// end of the input abort, and so does a read that was broken off or that
/// ended in a way without a name. A failure of the engine is handed on.
pub open spec fn step_for(marker: Seq<char>, reply: EditorReplyView) -> ReadStepView {
    match reply {
        EditorReplyView::Line(text) => step_for_text(marker, text),
        EditorReplyView::HostCommand(text) => step_for_text(marker, text),
        EditorReplyView::Interrupt => ReadStepView::Done(Ok(ReadResultView::Aborted)),
        EditorReplyView::EndOfInput => ReadStepView::Done(Ok(ReadResultView::Aborted)),
        EditorReplyView::ExternalBreak(_) => ReadStepView::Done(Ok(ReadResultView::Aborted)),
        EditorReplyView::Other => ReadStepView::Done(Ok(ReadResultView::Aborted)),
        EditorReplyView::Failed(error) => ReadStepView::Done(
            Err(SuspendableErrorView::Reedline(error)),
        ),
    }
}

/// The outcome of a read whose suspension went as `report` says.
pub open spec fn outcome_after_suspend(report: SuspendReportView) -> Outcome {
    match report {
        SuspendReportView::Resumed => Ok(ReadResultView::Suspended),
        SuspendReportView::Unsupported => Ok(ReadResultView::Suspended),
        SuspendReportView::Failed(reason) => Err(
            SuspendableErrorView::Suspend(SUSPEND_FAILURE_PREFIX@ + reason),
        ),
    }
}

/// The notice that is due after a suspension that went as `report` says:
/// one once the process runs again, none where nothing was done.
pub open spec fn notice_after_suspend(report: SuspendReportView) -> Option<Seq<char>> {
    match report {
        SuspendReportView::Resumed => Some(RESUMED_NOTICE@),
        SuspendReportView::Unsupported => None,
        SuspendReportView::Failed(_) => None,
    }
}

/// The outcome of one whole read: `reply` is what the engine handed back, and
/// `report` is what the driver reports if a suspension is asked for.
pub open spec fn read_outcome(
    marker: Seq<char>,
    reply: EditorReplyView,
    report: SuspendReportView,
) -> Outcome {
    match step_for(marker, reply) {
        ReadStepView::Done(outcome) => outcome,
        ReadStepView::Suspend => outcome_after_suspend(report),
    }
}

/// Any line other than the marker is read as the text it is, unchanged, and
/// no suspension is asked for.
pub proof fn lemma_text_is_preserved(
    marker: Seq<char>,
    text: Seq<char>,
    report: SuspendReportView,
)
    requires
        text != marker,
    ensures
        step_for(marker, EditorReplyView::Line(text)) == ReadStepView::Done(
            Ok(ReadResultView::Success(text)),
        ),
        read_outcome(marker, EditorReplyView::Line(text), report) == Ok::<
            ReadResultView,
            SuspendableErrorView,
        >(ReadResultView::Success(text)),
        read_outcome(marker, EditorReplyView::HostCommand(text), report) == Ok::<
            ReadResultView,
            SuspendableErrorView,
        >(ReadResultView::Success(text)),
{
}

/// The marker never comes out of a read as text, whatever the engine handed
/// back and however a suspension went.
pub proof fn lemma_marker_never_leaks(
    marker: Seq<char>,
    reply: EditorReplyView,
    report: SuspendReportView,
)
    ensures
        step_for(marker, reply) != ReadStepView::Done(Ok(ReadResultView::Success(marker))),
        read_outcome(marker, reply, report) != Ok::<ReadResultView, SuspendableErrorView>(
            ReadResultView::Success(marker),
        ),
{
}

/// A text equal to the marker, submitted as a line or emitted as a host
/// command, asks for a suspension, and the read ends as suspended unless the
/// stop signal could not be delivered.
pub proof fn lemma_marker_suspends(marker: Seq<char>, report: SuspendReportView)
    requires
        !(report is Failed),
    ensures
        step_for(marker, EditorReplyView::Line(marker)) == ReadStepView::Suspend,
        step_for(marker, EditorReplyView::HostCommand(marker)) == ReadStepView::Suspend,
        read_outcome(marker, EditorReplyView::Line(marker), report) == Ok::<
            ReadResultView,
            SuspendableErrorView,
        >(ReadResultView::Suspended),
        read_outcome(marker, EditorReplyView::HostCommand(marker), report) == Ok::<
            ReadResultView,
            SuspendableErrorView,
        >(ReadResultView::Suspended),
{
}

/// Where the platform cannot stop a process, a press of the suspend key is
/// inert: the read ends as suspended and nothing is printed.
pub proof fn lemma_suspend_without_job_control_is_inert(marker: Seq<char>)
    ensures
        read_outcome(
            marker,
            EditorReplyView::HostCommand(marker),
            SuspendReportView::Unsupported,
        ) == Ok::<ReadResultView, SuspendableErrorView>(ReadResultView::Suspended),
        read_outcome(marker, EditorReplyView::Line(marker), SuspendReportView::Unsupported)
            == Ok::<ReadResultView, SuspendableErrorView>(ReadResultView::Suspended),
        notice_after_suspend(SuspendReportView::Unsupported) is None,
{
}

/// An interrupt and the end of the input both end the read as aborted, and
/// in no other way.
pub proof fn lemma_interrupt_and_end_of_input_abort(
    marker: Seq<char>,
    report: SuspendReportView,
)
    ensures
        step_for(marker, EditorReplyView::Interrupt) == ReadStepView::Done(
            Ok(ReadResultView::Aborted),
        ),
        step_for(marker, EditorReplyView::EndOfInput) == ReadStepView::Done(
            Ok(ReadResultView::Aborted),
        ),
        read_outcome(marker, EditorReplyView::Interrupt, report) == Ok::<
            ReadResultView,
            SuspendableErrorView,
        >(ReadResultView::Aborted),
        read_outcome(marker, EditorReplyView::EndOfInput, report) == Ok::<
            ReadResultView,
            SuspendableErrorView,
        >(ReadResultView::Aborted),
{
}

/// The marker together with the table that emits it.
struct SuspendKey {
    keybindings: Keybindings,
    suspend_marker: String,
}

impl SuspendKey {
    /// The marker is the reserved one, both forms of the suspend chord emit
    /// it, and no other character chord emits a host command.
    #[verifier::type_invariant]
    closed spec fn well_formed(&self) -> bool {
        &&& self.suspend_marker@ == INTERNAL_SUSPEND_MARKER@
        &&& only_suspend_key_emits(char_bindings(self.keybindings), self.suspend_marker@)
    }
}

/// A line editor whose suspend chord submits a reserved marker.
pub struct SuspendableReedline {
    editor: Reedline,
    suspend_key: SuspendKey,
}

/// The character chords of the key table that an Emacs edit mode holds, as
/// [`char_bindings`] gives them.
pub uninterp spec fn mode_bindings(mode: Emacs) -> Map<(u8, char), Option<Seq<char>>>;

/// The character chords of the key table of the edit mode that an engine is
/// in, as [`char_bindings`] gives them.
pub uninterp spec fn engine_bindings(engine: Reedline) -> Map<(u8, char), Option<Seq<char>>>;

/// Calls `Reedline::create`. Nothing is claimed of the engine.
#[verifier::external_body]
fn new_engine() -> Reedline {
    Reedline::create()
}

/// Calls `Emacs::new`.
///
/// Trusted: the edit mode holds the table that it was given.
#[verifier::external_body]
fn emacs_mode(table: Keybindings) -> (mode: Emacs)
    ensures
        mode_bindings(mode) == char_bindings(table),
{
    Emacs::new(table)
}

/// Calls `Reedline::with_edit_mode` with the edit mode in a box.
///
/// Trusted: the engine that comes back is in the edit mode that it was
/// given.
#[verifier::external_body]
fn with_edit_mode(engine: Reedline, mode: Emacs) -> (made: Reedline)
    ensures
        engine_bindings(made) == mode_bindings(mode),
{
    engine.with_edit_mode(Box::new(mode))
}

impl SuspendableReedline {
    /// The marker that this editor takes for a press of the suspend chord.
    pub closed spec fn marker(&self) -> Seq<char> {
        self.suspend_key.suspend_marker@
    }

    /// The character chords of the table that this editor keeps.
    pub closed spec fn bindings(&self) -> Map<(u8, char), Option<Seq<char>>> {
        char_bindings(self.suspend_key.keybindings)
    }

    /// The engine that this editor owns.
    pub closed spec fn engine(&self) -> Reedline {
        self.editor
    }

    /// The marker is the reserved one, both forms of the suspend chord emit
    /// it, and no other character chord emits a host command. This holds of
    /// every editor.
    pub open spec fn wf(&self) -> bool {
        &&& self.marker() == INTERNAL_SUSPEND_MARKER@
        &&& only_suspend_key_emits(self.bindings(), self.marker())
    }

    /// Makes an editor over the default Emacs table with the suspend chord
    /// remapped. Its engine is in an edit mode over the table that the
    /// editor keeps.
    pub fn create() -> (editor: Self)
        ensures
            editor.wf(),
            engine_bindings(editor.engine()) == editor.bindings(),
    {
        Self::over_table(default_emacs_table())
    }

    /// Makes an editor over `table` with the suspend chord remapped: the
    /// editor keeps the remapped table, and its engine is in an edit mode
    /// over a copy of it. No chord of `table` may emit a host command.
    pub fn over_table(table: Keybindings) -> (editor: Self)
        requires
            emits_no_host_command(char_bindings(table)),
        ensures
            editor.wf(),
            editor.bindings() == with_suspend_key(
                char_bindings(table),
                INTERNAL_SUSPEND_MARKER@,
            ),
            engine_bindings(editor.engine()) == editor.bindings(),
    {
        let mut keybindings = table;
        let suspend_marker = String::from_str(INTERNAL_SUSPEND_MARKER);
        remap_suspend_key(&mut keybindings, suspend_marker.as_str());
        proof {
            lemma_remap_isolates_marker(char_bindings(table), suspend_marker@);
        }
        let editor = with_edit_mode(new_engine(), emacs_mode(clone_table(&keybindings)));
        SuspendableReedline { editor, suspend_key: SuspendKey { keybindings, suspend_marker } }
    }

    /// The engine, for the driver to block on. Whatever the driver does with
    /// it, the marker and the table stay as they are.
    pub fn editor_mut(&mut self) -> (engine: &mut Reedline)
        ensures
            *engine == old(self).engine(),
            final(self).engine() == *final(engine),
            final(self).marker() == old(self).marker(),
            final(self).bindings() == old(self).bindings(),
            final(self).wf(),
    {
        proof {
            use_type_invariant(&self.suspend_key);
        }
        &mut self.editor
    }

    /// The table that this editor keeps.
    pub fn keybindings(&self) -> (table: &Keybindings)
        ensures
            self.wf(),
            char_bindings(*table) == self.bindings(),
    {
        proof {
            use_type_invariant(&self.suspend_key);
        }
        &self.suspend_key.keybindings
    }

    /// The marker as text.
    pub fn suspend_marker(&self) -> (marker: &str)
        ensures
            self.wf(),
            marker@ == INTERNAL_SUSPEND_MARKER@,
    {
        proof {
            use_type_invariant(&self.suspend_key);
        }
        self.suspend_key.suspend_marker.as_str()
    }

    /// Decides what follows the engine's reply to one blocking read.
    pub fn read_line(&self, reply: EditorReply) -> (step: ReadStep)
        ensures
            self.wf(),
            step@ == step_for(INTERNAL_SUSPEND_MARKER@, reply@),
    {
        proof {
            use_type_invariant(&self.suspend_key);
        }
        match reply {
            EditorReply::Line(buffer) => self.read_text(buffer),
            EditorReply::HostCommand(command) => self.read_text(command),
            EditorReply::Interrupt => ReadStep::Done(Ok(ReadResult::Aborted)),
            EditorReply::EndOfInput => ReadStep::Done(Ok(ReadResult::Aborted)),
            EditorReply::ExternalBreak(_) => ReadStep::Done(Ok(ReadResult::Aborted)),
            EditorReply::Other => ReadStep::Done(Ok(ReadResult::Aborted)),
            EditorReply::Failed(error) => ReadStep::Done(Err(SuspendableError::Reedline(error))),
        }
    }

    /// Decides what follows a text that came out of the engine.
    fn read_text(&self, buffer: String) -> (step: ReadStep)
        ensures
            step@ == step_for_text(INTERNAL_SUSPEND_MARKER@, buffer@),
    {
        proof {
            use_type_invariant(&self.suspend_key);
        }
        if buffer == self.suspend_key.suspend_marker {
            ReadStep::Suspend
        } else {
            ReadStep::Done(Ok(ReadResult::Success(buffer)))
        }
    }

    /// Ends a read for which a suspension was asked, from the driver's
    /// report of it. Where the platform cannot stop a process the read ends
    /// as suspended and nothing else is done.
    pub fn resume(&self, report: SuspendReport) -> (resumption: Resumption)
        ensures
            outcome_of(resumption.result) == outcome_after_suspend(report@),
            match resumption.notice {
                Some(notice) => notice_after_suspend(report@) == Some(notice@),
                None => notice_after_suspend(report@) is None,
            },
    {
        match report {
            SuspendReport::Resumed => Resumption {
                notice: Some(String::from_str(RESUMED_NOTICE)),
                result: Ok(ReadResult::Suspended),
            },
            SuspendReport::Unsupported => Resumption {
                notice: None,
                result: Ok(ReadResult::Suspended),
            },
            SuspendReport::Failed(reason) => {
                let message = String::from_str(SUSPEND_FAILURE_PREFIX).concat(reason.as_str());
                Resumption { notice: None, result: Err(SuspendableError::Suspend(message)) }
            },
        }
    }
}

} // verus!
