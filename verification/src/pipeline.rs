//! The conversion pipeline as a step machine. Each `convert` attempt is a
//! linear run: validate the paths, check the source, read it, render and
//! assemble the document, write the scratch file, prepare the destination
//! directory, run the external renderer, clean the scratch file up, report.
//! The machine takes every decision; the caller performs the filesystem and
//! subprocess work one action at a time and hands the outcome back as the
//! next event. The machine itself is stateless across attempts: one
//! `Pipeline` value is one attempt.

use vstd::prelude::*;

use crate::outcome::ConversionResult;
use crate::render::assemble_document;
use crate::render::assembled_doc;
use crate::render::html_of;
use crate::render::render_markdown;
use crate::theme::css_of;
use crate::theme::Theme;

verus! {

/// Where one conversion attempt stands: which outcome it waits for next.
#[derive(Debug, PartialEq, Eq, Clone, Copy, Structural)]
pub enum Phase {
    /// Nothing has happened yet.
    Init,
    /// Waiting to hear whether the source path exists and is a regular file.
    AwaitSourceStatus,
    /// Waiting for the source file's text.
    AwaitRead,
    /// Waiting for the scratch HTML file to be written.
    AwaitScratchWrite,
    /// Waiting for the destination's parent directories to be created.
    AwaitDestDir,
    /// Waiting for the external renderer to finish or fail to launch.
    AwaitRender,
    /// Waiting for the scratch file's best-effort removal.
    AwaitCleanup,
    /// The attempt is over; `outcome` holds the result.
    Finished,
}

/// What the caller reports back after performing an action.
#[derive(Debug)]
pub enum Event {
    /// Begins the attempt.
    Start,
    /// Whether the source path exists, and whether it names a regular file.
    SourceStatus { exists: bool, is_file: bool },
    /// The source file's text, or the read error's message.
    ReadOutcome(Result<String, String>),
    /// Whether writing the scratch file succeeded, or the error's message.
    WriteOutcome(Result<(), String>),
    /// Whether creating the destination's parent directories succeeded, or
    /// the error's message.
    DirOutcome(Result<(), String>),
    /// The external renderer could not be launched; carries the OS error
    /// text.
    LaunchFailed(String),
    /// The external renderer ran to completion with the given exit status
    /// and captured output.
    Exited { success: bool, stdout: String, stderr: String },
    /// The scratch file's removal was attempted (best effort; a failure is
    /// ignored and never escalated).
    Removed,
}

/// What the caller must do next. The paths and the document text the action
/// concerns are read from the `Pipeline`'s fields.
#[derive(Debug, PartialEq, Eq, Clone, Copy, Structural)]
pub enum Action {
    /// Report whether the request's source exists and is a regular file.
    CheckSource,
    /// Read the text of the request's source.
    ReadSource,
    /// Write `document` to the `scratch` path.
    WriteScratch,
    /// Create the parent directories of the request's destination as far as
    /// needed.
    PrepareDestDir,
    /// Run the external renderer with `scratch` as input and the request's
    /// destination as output, and wait for it.
    RunRenderer,
    /// Best-effort delete the `scratch` file.
    RemoveScratch,
    /// The attempt is over; read `outcome` and show it.
    Report,
}

/// One conversion request: created fresh per attempt, never persisted.
pub struct ConversionRequest {
    /// The Markdown source path; must name an existing regular file.
    pub source: String,
    /// The PDF destination path, created or overwritten.
    pub dest: String,
    /// The selected theme.
    pub theme: Theme,
}

/// One conversion attempt: the request it was made for and where it stands.
pub struct Pipeline {
    /// The request this attempt was made for.
    pub request: ConversionRequest,
    /// The scratch file path this attempt owns, chosen by the caller; must
    /// be unique per attempt under concurrent use.
    pub scratch: String,
    /// Where the attempt stands.
    pub phase: Phase,
    /// The assembled HTML document, once the source has been read.
    pub document: String,
    /// The result, once the attempt has finished.
    pub outcome: Option<ConversionResult>,
    /// The result to deliver after the scratch file's cleanup.
    pub pending: Option<ConversionResult>,
    /// Whether a scratch file was written whose removal has not yet been
    /// requested.
    pub scratch_live: bool,
}

/// Well-formedness of an attempt: a finished attempt has an outcome and no
/// outstanding scratch file; an unfinished one has no outcome yet; a scratch
/// file is outstanding exactly between its write and its cleanup; an attempt
/// waiting for cleanup knows what it will report.
pub open spec fn wf(p: Pipeline) -> bool {
    &&& (p.phase is Finished ==> p.outcome is Some && !p.scratch_live)
    &&& (!(p.phase is Finished) ==> p.outcome is None)
    &&& (p.phase is AwaitCleanup ==> p.pending is Some)
    &&& (p.scratch_live <==> (p.phase is AwaitDestDir || p.phase is AwaitRender
        || p.phase is AwaitCleanup))
}

/// Whether an event is the one the phase waits for.
pub open spec fn event_fits(phase: Phase, ev: Event) -> bool {
    match (phase, ev) {
        (Phase::Init, Event::Start) => true,
        (Phase::AwaitSourceStatus, Event::SourceStatus { .. }) => true,
        (Phase::AwaitRead, Event::ReadOutcome(_)) => true,
        (Phase::AwaitScratchWrite, Event::WriteOutcome(_)) => true,
        (Phase::AwaitDestDir, Event::DirOutcome(_)) => true,
        (Phase::AwaitRender, Event::LaunchFailed(_)) => true,
        (Phase::AwaitRender, Event::Exited { .. }) => true,
        (Phase::AwaitCleanup, Event::Removed) => true,
        _ => false,
    }
}

/// The request and the scratch path never change over an attempt.
pub open spec fn same_request(pre: Pipeline, post: Pipeline) -> bool {
    &&& post.request == pre.request
    &&& post.scratch == pre.scratch
}

/// The attempt finishes at once with result `r`: nothing is outstanding.
pub open spec fn reports(pre: Pipeline, post: Pipeline, act: Action, r: ConversionResult) -> bool {
    &&& post.phase is Finished
    &&& post.outcome == Some(r)
    &&& !post.scratch_live
    &&& post.document == pre.document
    &&& act is Report
}

/// The attempt will finish with result `r` once the scratch file's removal
/// has been requested.
pub open spec fn defers(pre: Pipeline, post: Pipeline, act: Action, r: ConversionResult) -> bool {
    &&& post.phase is AwaitCleanup
    &&& post.pending == Some(r)
    &&& post.outcome is None
    &&& post.scratch_live == pre.scratch_live
    &&& post.document == pre.document
    &&& act is RemoveScratch
}

/// The transition relation of one step: given the phase and the event, it
/// pins the new state and the action handed back.
pub open spec fn step_rel(pre: Pipeline, ev: Event, post: Pipeline, act: Action) -> bool {
    &&& same_request(pre, post)
    &&& match (pre.phase, ev) {
        (Phase::Init, Event::Start) => {
            if pre.request.source@.len() == 0 || pre.request.dest@.len() == 0 {
                reports(pre, post, act, ConversionResult::InvalidInput)
            } else {
                &&& post.phase is AwaitSourceStatus
                &&& post.outcome is None
                &&& post.scratch_live == pre.scratch_live
                &&& post.document == pre.document
                &&& post.pending == pre.pending
                &&& act is CheckSource
            }
        },
        (Phase::AwaitSourceStatus, Event::SourceStatus { exists, is_file }) => {
            if !exists {
                reports(pre, post, act, ConversionResult::SourceNotFound)
            } else if !is_file {
                reports(pre, post, act, ConversionResult::SourceNotAFile)
            } else {
                &&& post.phase is AwaitRead
                &&& post.outcome is None
                &&& post.scratch_live == pre.scratch_live
                &&& post.document == pre.document
                &&& post.pending == pre.pending
                &&& act is ReadSource
            }
        },
        (Phase::AwaitRead, Event::ReadOutcome(res)) => match res {
            Result::Err(e) => reports(pre, post, act, ConversionResult::ReadError(e)),
            Result::Ok(text) => {
                &&& post.phase is AwaitScratchWrite
                &&& post.outcome is None
                &&& post.scratch_live == pre.scratch_live
                &&& post.document@ == assembled_doc(css_of(pre.request.theme), html_of(text@))
                &&& post.pending == pre.pending
                &&& act is WriteScratch
            },
        },
        (Phase::AwaitScratchWrite, Event::WriteOutcome(res)) => match res {
            Result::Err(e) => reports(pre, post, act, ConversionResult::ScratchWriteError(e)),
            Result::Ok(_) => {
                &&& post.phase is AwaitDestDir
                &&& post.outcome is None
                &&& post.scratch_live
                &&& post.document == pre.document
                &&& post.pending == pre.pending
                &&& act is PrepareDestDir
            },
        },
        (Phase::AwaitDestDir, Event::DirOutcome(res)) => match res {
            Result::Err(e) => defers(pre, post, act, ConversionResult::DestDirError(e)),
            Result::Ok(_) => {
                &&& post.phase is AwaitRender
                &&& post.outcome is None
                &&& post.scratch_live == pre.scratch_live
                &&& post.document == pre.document
                &&& post.pending == pre.pending
                &&& act is RunRenderer
            },
        },
        (Phase::AwaitRender, Event::LaunchFailed(e)) => defers(
            pre,
            post,
            act,
            ConversionResult::LauncherError(e),
        ),
        (Phase::AwaitRender, Event::Exited { success, stdout, stderr }) => {
            if success {
                defers(pre, post, act, ConversionResult::Success)
            } else {
                defers(pre, post, act, ConversionResult::RenderError { stderr, stdout })
            }
        },
        (Phase::AwaitCleanup, Event::Removed) => {
            &&& post.phase is Finished
            &&& post.outcome == pre.pending
            &&& !post.scratch_live
            &&& post.document == pre.document
            &&& act is Report
        },
        _ => false,
    }
}

impl Pipeline {
    /// Begins a fresh attempt for one request. The caller supplies the
    /// scratch path the attempt will own.
    pub fn new(request: ConversionRequest, scratch: String) -> (p: Pipeline)
        ensures
            p.request == request,
            p.scratch == scratch,
            p.phase is Init,
            p.outcome is None,
            p.pending is None,
            !p.scratch_live,
            wf(p),
    {
        Pipeline {
            request,
            scratch,
            phase: Phase::Init,
            document: String::new(),
            outcome: None,
            pending: None,
            scratch_live: false,
        }
    }

    /// Whether this attempt is well-formed, as `wf` states.
    pub fn well_formed(&self) -> (b: bool)
        ensures
            b == wf(*self),
    {
        let phase_ok = match self.phase {
            Phase::Finished => self.outcome.is_some() && !self.scratch_live,
            _ => self.outcome.is_none(),
        };
        let pending_ok = match self.phase {
            Phase::AwaitCleanup => self.pending.is_some(),
            _ => true,
        };
        let in_scratch_phase = match self.phase {
            Phase::AwaitDestDir | Phase::AwaitRender | Phase::AwaitCleanup => true,
            _ => false,
        };
        let scratch_ok = self.scratch_live == in_scratch_phase;
        phase_ok && pending_ok && scratch_ok
    }

    /// Whether `step` may be called with this event now.
    pub fn accepts(&self, ev: &Event) -> (b: bool)
        ensures
            b == (event_fits(self.phase, *ev) && !(self.phase is Finished)),
    {
        match (self.phase, ev) {
            (Phase::Init, Event::Start) => true,
            (Phase::AwaitSourceStatus, Event::SourceStatus { .. }) => true,
            (Phase::AwaitRead, Event::ReadOutcome(_)) => true,
            (Phase::AwaitScratchWrite, Event::WriteOutcome(_)) => true,
            (Phase::AwaitDestDir, Event::DirOutcome(_)) => true,
            (Phase::AwaitRender, Event::LaunchFailed(_)) => true,
            (Phase::AwaitRender, Event::Exited { .. }) => true,
            (Phase::AwaitCleanup, Event::Removed) => true,
            _ => false,
        }
    }

    /// Takes one step: consumes the outcome of the previous action and hands
    /// back the next one. `Report` is handed back exactly when the attempt
    /// has finished.
    pub fn step(&mut self, ev: Event) -> (act: Action)
        requires
            wf(*old(self)),
            !(old(self).phase is Finished),
            event_fits(old(self).phase, ev),
        ensures
            step_rel(*old(self), ev, *final(self), act),
            wf(*final(self)),
            (act is Report) == (final(self).phase is Finished),
    {
        match (self.phase, ev) {
            (Phase::Init, Event::Start) => {
                if self.request.source.as_str().unicode_len() == 0
                    || self.request.dest.as_str().unicode_len() == 0 {
                    self.phase = Phase::Finished;
                    self.outcome = Some(ConversionResult::InvalidInput);
                    Action::Report
                } else {
                    self.phase = Phase::AwaitSourceStatus;
                    Action::CheckSource
                }
            },
            (Phase::AwaitSourceStatus, Event::SourceStatus { exists, is_file }) => {
                if !exists {
                    self.phase = Phase::Finished;
                    self.outcome = Some(ConversionResult::SourceNotFound);
                    Action::Report
                } else if !is_file {
                    self.phase = Phase::Finished;
                    self.outcome = Some(ConversionResult::SourceNotAFile);
                    Action::Report
                } else {
                    self.phase = Phase::AwaitRead;
                    Action::ReadSource
                }
            },
            (Phase::AwaitRead, Event::ReadOutcome(res)) => match res {
                Result::Err(e) => {
                    self.phase = Phase::Finished;
                    self.outcome = Some(ConversionResult::ReadError(e));
                    Action::Report
                },
                Result::Ok(text) => {
                    let body = render_markdown(text.as_str());
                    self.document = assemble_document(self.request.theme.stylesheet(), body.as_str());
                    self.phase = Phase::AwaitScratchWrite;
                    Action::WriteScratch
                },
            },
            (Phase::AwaitScratchWrite, Event::WriteOutcome(res)) => match res {
                Result::Err(e) => {
                    self.phase = Phase::Finished;
                    self.outcome = Some(ConversionResult::ScratchWriteError(e));
                    Action::Report
                },
                Result::Ok(_) => {
                    self.scratch_live = true;
                    self.phase = Phase::AwaitDestDir;
                    Action::PrepareDestDir
                },
            },
            (Phase::AwaitDestDir, Event::DirOutcome(res)) => match res {
                Result::Err(e) => {
                    self.pending = Some(ConversionResult::DestDirError(e));
                    self.phase = Phase::AwaitCleanup;
                    Action::RemoveScratch
                },
                Result::Ok(_) => {
                    self.phase = Phase::AwaitRender;
                    Action::RunRenderer
                },
            },
            (Phase::AwaitRender, Event::LaunchFailed(e)) => {
                self.pending = Some(ConversionResult::LauncherError(e));
                self.phase = Phase::AwaitCleanup;
                Action::RemoveScratch
            },
            (Phase::AwaitRender, Event::Exited { success, stdout, stderr }) => {
                if success {
                    self.pending = Some(ConversionResult::Success);
                } else {
                    self.pending = Some(ConversionResult::RenderError { stderr, stdout });
                }
                self.phase = Phase::AwaitCleanup;
                Action::RemoveScratch
            },
            (Phase::AwaitCleanup, Event::Removed) => {
                self.outcome = self.pending.take();
                self.scratch_live = false;
                self.phase = Phase::Finished;
                Action::Report
            },
            _ => {
                proof {
                    assert(false);
                }
                Action::Report
            },
        }
    }
}

/// Law: when an attempt has finished, it has an outcome and no scratch file
/// is outstanding — on every path, success or failure, a scratch file that
/// was written has had its removal requested before the attempt reports.
/// (A failure before the scratch write finishes with no scratch file ever
/// outstanding.)
pub proof fn lemma_finished_leaves_no_scratch(p: Pipeline)
    requires
        wf(p),
        p.phase is Finished,
    ensures
        p.outcome is Some,
        !p.scratch_live,
{
}

/// Law: an empty source or destination path is rejected at the first step
/// with `InvalidInput`; the attempt finishes at once, so no filesystem
/// action is ever handed to the caller.
pub proof fn lemma_empty_paths_rejected(pre: Pipeline, post: Pipeline, act: Action)
    requires
        pre.phase is Init,
        pre.request.source@.len() == 0 || pre.request.dest@.len() == 0,
        step_rel(pre, Event::Start, post, act),
    ensures
        post.outcome == Some(ConversionResult::InvalidInput),
        post.phase is Finished,
        act is Report,
{
}

/// Law: a source path that exists but does not name a regular file is
/// rejected with `SourceNotAFile`, and the attempt finishes at once.
pub proof fn lemma_directory_source_rejected(pre: Pipeline, ev: Event, post: Pipeline, act: Action)
    requires
        pre.phase is AwaitSourceStatus,
        ev == (Event::SourceStatus { exists: true, is_file: false }),
        step_rel(pre, ev, post, act),
    ensures
        post.outcome == Some(ConversionResult::SourceNotAFile),
        post.phase is Finished,
        act is Report,
{
}

/// Law: when the external renderer cannot be launched, the first action
/// handed back is the scratch file's removal, and the attempt finishes with
/// `LauncherError` carrying the OS error text — no scratch file is left
/// outstanding.
pub proof fn lemma_launch_failure_cleans_up(
    pre: Pipeline,
    e: String,
    mid: Pipeline,
    a1: Action,
    post: Pipeline,
    a2: Action,
)
    requires
        wf(pre),
        pre.phase is AwaitRender,
        step_rel(pre, Event::LaunchFailed(e), mid, a1),
        step_rel(mid, Event::Removed, post, a2),
    ensures
        pre.scratch_live,
        a1 is RemoveScratch,
        post.outcome == Some(ConversionResult::LauncherError(e)),
        post.phase is Finished,
        !post.scratch_live,
        a2 is Report,
{
}

/// Law: once the external renderer has run, the attempt's outcome follows
/// its exit status exactly — `Success` when it exited zero, otherwise
/// `RenderError` carrying its stderr and stdout verbatim — and the scratch
/// file's removal is requested first in either case.
pub proof fn lemma_outcome_follows_renderer_exit(
    pre: Pipeline,
    success: bool,
    stdout: String,
    stderr: String,
    mid: Pipeline,
    a1: Action,
    post: Pipeline,
    a2: Action,
)
    requires
        wf(pre),
        pre.phase is AwaitRender,
        step_rel(pre, Event::Exited { success, stdout, stderr }, mid, a1),
        step_rel(mid, Event::Removed, post, a2),
    ensures
        pre.scratch_live,
        a1 is RemoveScratch,
        post.phase is Finished,
        !post.scratch_live,
        a2 is Report,
        success ==> post.outcome == Some(ConversionResult::Success),
        !success ==> post.outcome == Some(
            ConversionResult::RenderError { stderr, stdout },
        ),
{
}

} // verus!

