//! The decisions of link execution, as a machine that a caller drives.
//!
//! A job never touches the filesystem. It says which action comes next; the
//! caller performs it and reports what happened; the job moves on. A link
//! to a file first clears a destination that is a regular file, then links
//! if the source is a regular file. A link to a directory leaves the
//! destination alone and links if the source is a directory.

use vstd::prelude::*;
use crate::probe::{is_dir, is_file, PathStatus};
use crate::request::LinkKind;
use crate::resolve::ResolvedLinkRequest;

verus! {

/// How a job ended.
#[derive(Debug, PartialEq, Eq)]
pub enum Outcome {
    /// The link was made.
    Linked,
    /// The source was not there, or not of the right sort: nothing was
    /// linked, and that is no error.
    Skipped,
    /// The system refused to make the link, for the cause given.
    Failed(String),
}

/// Where a job stands.
#[derive(Debug, PartialEq, Eq)]
pub enum Stage {
    /// The destination is to be looked at.
    CheckDestination,
    /// The destination is a regular file and is to be removed.
    ClearDestination,
    /// The source is to be looked at.
    CheckSource,
    /// The link is to be made.
    CreateLink,
    /// Nothing is left to do.
    Done(Outcome),
}

/// What the caller is to do next.
#[derive(Debug, PartialEq, Eq)]
pub enum Action {
    /// Look at the path and report its status.
    Probe(String),
    /// Remove the file at the path, and report that it was tried.
    RemoveFile(String),
    /// Make the link of the kind from the source to the destination.
    CreateLink { kind: LinkKind, src: String, dst: String },
    /// Nothing: the job is done.
    Stop,
}

/// What the caller reports back.
#[derive(Debug, PartialEq, Eq)]
pub enum Event {
    /// The status of the path that was to be looked at.
    Probed(PathStatus),
    /// The removal was tried. Whether it succeeded is not asked: a file
    /// that is still there makes the link fail, and that is reported.
    Removed,
    /// The link was made.
    Linked,
    /// The system refused to make the link, for the cause given.
    LinkFailed(String),
}

impl Action {
    /// Whether the action changes the filesystem.
    pub open spec fn mutates(self) -> bool {
        self is RemoveFile || self is CreateLink
    }

    /// Whether the action changes the filesystem.
    pub fn is_mutation(&self) -> (mutation: bool)
        ensures
            mutation == self.mutates(),
    {
        match self {
            Action::RemoveFile(_) => true,
            Action::CreateLink { .. } => true,
            _ => false,
        }
    }
}

/// The stage at which a job of the kind begins.
pub open spec fn first_stage(kind: LinkKind) -> Stage {
    if kind.links_file() {
        Stage::CheckDestination
    } else {
        Stage::CheckSource
    }
}

/// Whether a source of this status can be linked by a link of the kind: a
/// regular file for a link to a file, a directory for a link to a
/// directory.
pub open spec fn source_fits(kind: LinkKind, status: PathStatus) -> bool {
    if kind.links_file() {
        status.spec_is_file()
    } else {
        status.spec_is_dir()
    }
}

/// The stage that follows `stage` on `event`. An event that answers no
/// action of the stage changes nothing.
pub open spec fn next_stage(kind: LinkKind, stage: Stage, event: Event) -> Stage {
    match (stage, event) {
        (Stage::CheckDestination, Event::Probed(status)) => if status.spec_is_file() {
            Stage::ClearDestination
        } else {
            Stage::CheckSource
        },
        (Stage::ClearDestination, Event::Removed) => Stage::CheckSource,
        (Stage::CheckSource, Event::Probed(status)) => if source_fits(kind, status) {
            Stage::CreateLink
        } else {
            Stage::Done(Outcome::Skipped)
        },
        (Stage::CreateLink, Event::Linked) => Stage::Done(Outcome::Linked),
        (Stage::CreateLink, Event::LinkFailed(cause)) => Stage::Done(Outcome::Failed(cause)),
        (stage, _) => stage,
    }
}

/// The action that a job on `request` asks for at `stage`.
pub open spec fn action_at(stage: Stage, request: ResolvedLinkRequest) -> Action {
    match stage {
        Stage::CheckDestination => Action::Probe(request.dst),
        Stage::ClearDestination => Action::RemoveFile(request.dst),
        Stage::CheckSource => Action::Probe(request.src),
        Stage::CreateLink => Action::CreateLink {
            kind: request.kind,
            src: request.src,
            dst: request.dst,
        },
        Stage::Done(_) => Action::Stop,
    }
}

/// Whether a job of the kind can stand at the stage: a link to a directory
/// never looks at its destination and never clears it.
pub open spec fn stage_fits(kind: LinkKind, stage: Stage) -> bool {
    kind.links_file() || !(stage is CheckDestination || stage is ClearDestination)
}

/// The stage that a job reaches from `stage` in `steps` steps, where the
/// world answers each action as `answers` says.
pub open spec fn stage_after(
    request: ResolvedLinkRequest,
    stage: Stage,
    answers: spec_fn(Action) -> Event,
    steps: nat,
) -> Stage
    decreases steps,
{
    if steps == 0 {
        stage
    } else {
        stage_after(
            request,
            next_stage(request.kind, stage, answers(action_at(stage, request))),
            answers,
            (steps - 1) as nat,
        )
    }
}

/// A job that is done stays done, whatever is reported.
pub proof fn lemma_done_stays_done(
    request: ResolvedLinkRequest,
    end: Outcome,
    answers: spec_fn(Action) -> Event,
    steps: nat,
)
    ensures
        stage_after(request, Stage::Done(end), answers, steps) == Stage::Done(end),
    decreases steps,
{
    if steps > 0 {
        lemma_done_stays_done(request, end, answers, (steps - 1) as nat);
    }
}

/// A step leads from a stage at which a job of the kind can stand to
/// another such stage.
pub proof fn lemma_step_keeps_stage_fitting(kind: LinkKind, stage: Stage, event: Event)
    requires
        stage_fits(kind, stage),
    ensures
        stage_fits(kind, next_stage(kind, stage, event)),
{
}

/// A link to a directory never asks for a removal, whatever the world
/// answers: the destination is left as it is.
pub proof fn lemma_directory_link_never_removes(
    request: ResolvedLinkRequest,
    answers: spec_fn(Action) -> Event,
    steps: nat,
)
    requires
        !request.kind.links_file(),
    ensures
        !(action_at(stage_after(request, first_stage(request.kind), answers, steps), request)
            is RemoveFile),
{
    lemma_stage_fits_throughout(request, first_stage(request.kind), answers, steps);
}

/// From a stage at which a job of the kind can stand, only such stages are
/// reached.
pub proof fn lemma_stage_fits_throughout(
    request: ResolvedLinkRequest,
    stage: Stage,
    answers: spec_fn(Action) -> Event,
    steps: nat,
)
    requires
        stage_fits(request.kind, stage),
    ensures
        stage_fits(request.kind, stage_after(request, stage, answers, steps)),
    decreases steps,
{
    if steps > 0 {
        lemma_stage_fits_throughout(
            request,
            next_stage(request.kind, stage, answers(action_at(stage, request))),
            answers,
            (steps - 1) as nat,
        );
    }
}

/// A link to a directory whose source is no directory changes nothing: the
/// job looks at the source, ends as skipped, and at no step asks for a
/// removal or a link.
pub proof fn lemma_directory_link_skips_unfit_source(
    request: ResolvedLinkRequest,
    answers: spec_fn(Action) -> Event,
    source: PathStatus,
    steps: nat,
)
    requires
        !request.kind.links_file(),
        answers(Action::Probe(request.src)) == Event::Probed(source),
        !source.spec_is_dir(),
    ensures
        !action_at(
            stage_after(request, first_stage(request.kind), answers, steps),
            request,
        ).mutates(),
        steps >= 1 ==> stage_after(request, first_stage(request.kind), answers, steps)
            == Stage::Done(Outcome::Skipped),
{
    if steps >= 1 {
        lemma_done_stays_done(request, Outcome::Skipped, answers, (steps - 1) as nat);
    }
}

/// A link to a file whose source is no regular file, and whose destination
/// is none either, changes nothing and raises no error: the job looks at
/// both, ends as skipped, and at no step asks for a removal or a link.
pub proof fn lemma_file_link_skips_unfit_source(
    request: ResolvedLinkRequest,
    answers: spec_fn(Action) -> Event,
    destination: PathStatus,
    source: PathStatus,
    steps: nat,
)
    requires
        request.kind.links_file(),
        answers(Action::Probe(request.dst)) == Event::Probed(destination),
        !destination.spec_is_file(),
        answers(Action::Probe(request.src)) == Event::Probed(source),
        !source.spec_is_file(),
    ensures
        !action_at(
            stage_after(request, first_stage(request.kind), answers, steps),
            request,
        ).mutates(),
        steps >= 2 ==> stage_after(request, first_stage(request.kind), answers, steps)
            == Stage::Done(Outcome::Skipped),
{
    reveal_with_fuel(stage_after, 3);
    if steps >= 2 {
        lemma_done_stays_done(request, Outcome::Skipped, answers, (steps - 2) as nat);
    }
}

/// A link to a file clears a destination that is a regular file before it
/// looks at the source: the removal is asked for whatever the source is.
pub proof fn lemma_file_link_clears_destination_first(
    request: ResolvedLinkRequest,
    answers: spec_fn(Action) -> Event,
    destination: PathStatus,
)
    requires
        request.kind.links_file(),
        answers(Action::Probe(request.dst)) == Event::Probed(destination),
        destination.spec_is_file(),
    ensures
        action_at(stage_after(request, first_stage(request.kind), answers, 1), request)
            == Action::RemoveFile(request.dst),
{
    reveal_with_fuel(stage_after, 2);
}

/// Running a link to a file a second time replaces the link of the first
/// run. In the world `before` the destination is no regular file; in the
/// world `after` it is one, as the first run left it. Where the source is
/// a regular file and the system makes the link, the first run links in
/// three steps; the second removes the destination, asks for the very
/// same link, and ends as linked too.
pub proof fn lemma_second_run_replaces_link(
    request: ResolvedLinkRequest,
    before: spec_fn(Action) -> Event,
    after: spec_fn(Action) -> Event,
    absent: PathStatus,
    present: PathStatus,
    source: PathStatus,
)
    requires
        request.kind.links_file(),
        source.spec_is_file(),
        !absent.spec_is_file(),
        present.spec_is_file(),
        before(Action::Probe(request.dst)) == Event::Probed(absent),
        before(Action::Probe(request.src)) == Event::Probed(source),
        before(action_at(Stage::CreateLink, request)) == Event::Linked,
        after(Action::Probe(request.dst)) == Event::Probed(present),
        after(Action::RemoveFile(request.dst)) == Event::Removed,
        after(Action::Probe(request.src)) == Event::Probed(source),
        after(action_at(Stage::CreateLink, request)) == Event::Linked,
    ensures
        stage_after(request, first_stage(request.kind), before, 2) == Stage::CreateLink,
        stage_after(request, first_stage(request.kind), before, 3) == Stage::Done(
            Outcome::Linked,
        ),
        stage_after(request, first_stage(request.kind), after, 1) == Stage::ClearDestination,
        stage_after(request, first_stage(request.kind), after, 3) == Stage::CreateLink,
        stage_after(request, first_stage(request.kind), after, 4) == Stage::Done(
            Outcome::Linked,
        ),
{
    reveal_with_fuel(stage_after, 5);
}

/// A job as a mathematical value.
pub struct LinkJobView {
    pub request: ResolvedLinkRequest,
    pub stage: Stage,
}

/// One link request on its way through execution.
#[derive(Debug)]
pub struct LinkJob {
    request: ResolvedLinkRequest,
    stage: Stage,
}

impl View for LinkJob {
    type V = LinkJobView;

    closed spec fn view(&self) -> LinkJobView {
        LinkJobView { request: self.request, stage: self.stage }
    }
}

impl LinkJob {
    #[verifier::type_invariant]
    spec fn stage_possible(self) -> bool {
        stage_fits(self.request.kind, self.stage)
    }

    /// Begins the execution of a request.
    pub fn start(request: ResolvedLinkRequest) -> (job: LinkJob)
        ensures
            job@.request == request,
            job@.stage == first_stage(request.kind),
    {
        let stage = if request.kind.is_file_link() {
            Stage::CheckDestination
        } else {
            Stage::CheckSource
        };
        LinkJob { request, stage }
    }

    /// The request that the job works on.
    pub fn request(&self) -> (request: &ResolvedLinkRequest)
        ensures
            *request == self@.request,
    {
        &self.request
    }

    /// The stage at which the job stands: one at which a job of its kind
    /// can stand.
    pub fn stage(&self) -> (stage: &Stage)
        ensures
            *stage == self@.stage,
            stage_fits(self@.request.kind, self@.stage),
    {
        proof {
            use_type_invariant(self);
        }
        &self.stage
    }

    /// The action that the caller is to perform now. A link to a directory
    /// never asks for a removal.
    pub fn next_action(&self) -> (action: Action)
        ensures
            action == action_at(self@.stage, self@.request),
            !self@.request.kind.links_file() ==> !(action is RemoveFile),
    {
        proof {
            use_type_invariant(self);
        }
        match &self.stage {
            Stage::CheckDestination => Action::Probe(self.request.dst.clone()),
            Stage::ClearDestination => Action::RemoveFile(self.request.dst.clone()),
            Stage::CheckSource => Action::Probe(self.request.src.clone()),
            Stage::CreateLink => Action::CreateLink {
                kind: self.request.kind,
                src: self.request.src.clone(),
                dst: self.request.dst.clone(),
            },
            Stage::Done(_) => Action::Stop,
        }
    }

    /// Takes in what the caller reports and moves to the next stage.
    pub fn advance(&mut self, event: Event)
        ensures
            final(self)@.request == old(self)@.request,
            final(self)@.stage == next_stage(old(self)@.request.kind, old(self)@.stage, event),
    {
        proof {
            use_type_invariant(&*self);
        }
        let kind = self.request.kind;
        match event {
            Event::Probed(status) => {
                match &self.stage {
                    Stage::CheckDestination => {
                        if is_file(&status) {
                            self.stage = Stage::ClearDestination;
                        } else {
                            self.stage = Stage::CheckSource;
                        }
                    },
                    Stage::CheckSource => {
                        let fits = if kind.is_file_link() {
                            is_file(&status)
                        } else {
                            is_dir(&status)
                        };
                        if fits {
                            self.stage = Stage::CreateLink;
                        } else {
                            self.stage = Stage::Done(Outcome::Skipped);
                        }
                    },
                    _ => {},
                }
            },
            Event::Removed => {
                match &self.stage {
                    Stage::ClearDestination => {
                        self.stage = Stage::CheckSource;
                    },
                    _ => {},
                }
            },
            Event::Linked => {
                match &self.stage {
                    Stage::CreateLink => {
                        self.stage = Stage::Done(Outcome::Linked);
                    },
                    _ => {},
                }
            },
            Event::LinkFailed(cause) => {
                match &self.stage {
                    Stage::CreateLink => {
                        self.stage = Stage::Done(Outcome::Failed(cause));
                    },
                    _ => {},
                }
            },
        }
    }

    /// How the job ended, once it has.
    pub fn outcome(&self) -> (outcome: Option<&Outcome>)
        ensures
            match outcome {
                Some(end) => self@.stage == Stage::Done(*end),
                None => !(self@.stage is Done),
            },
    {
        match &self.stage {
            Stage::Done(end) => Some(end),
            _ => None,
        }
    }
}

} // verus!
