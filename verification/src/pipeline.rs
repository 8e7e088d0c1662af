//! The build pipeline: a fixed stage sequence, decided once per run from
//! the configuration, executed strictly in order and short-circuited on the
//! first failure.
//!
//! The stages themselves are external collaborators (style compiler,
//! bundler, server compiler) or filesystem work done by the caller. The
//! pipeline state tracks which stage is due next and records each stage's
//! outcome; once a stage has failed, no further stage is ever due.

use vstd::prelude::*;

verus! {

/// One stage of the build pipeline.
#[derive(Debug, Clone, Copy, PartialEq, Eq, Structural)]
pub enum Stage {
    /// Clear the previous build's output directory.
    CleanOutput,
    /// Invoke the style-compilation collaborator.
    CompileStyles,
    /// Read and parse the HTML entry-point template.
    ReadTemplate,
    /// Bundle the browser-only client target.
    BundleBrowser,
    /// Bundle the hydrating-client target.
    BundleHydrate,
    /// Generate the static HTML artifact embedding the bundle reference.
    GenerateHtml,
    /// Generate the server-side entry-point artifact.
    GenerateRust,
    /// Invoke the server-compilation collaborator.
    CompileServer,
}

/// Why a stage, and with it the whole run, failed.
#[derive(Debug, Clone, Copy, PartialEq, Eq, Structural)]
pub enum Cause {
    /// Bad or missing configuration.
    ConfigError,
    /// A build-stage subprocess failed or returned nonzero.
    CollaboratorError,
    /// The HTML entry-point template is missing or malformed.
    TemplateError,
    /// The event bus was unexpectedly closed.
    ChannelError,
    /// A filesystem operation failed.
    IoError,
}

/// What one stage reported.
#[derive(Debug, Clone, Copy, PartialEq, Eq, Structural)]
pub enum StageOutcome {
    Success,
    Failure(Cause),
}

/// What a whole pipeline run reported: success, or the first failing stage
/// together with its cause.
#[derive(Debug, Clone, Copy, PartialEq, Eq, Structural)]
pub enum BuildOutcome {
    Success,
    Failure(Stage, Cause),
}

/// A filesystem error observed while clearing the output directory, reduced
/// to what the cleanup policy distinguishes.
#[derive(Debug, Clone, Copy, PartialEq, Eq, Structural)]
pub enum FsError {
    /// The path does not exist.
    NotFound,
    /// Any other filesystem failure.
    Other,
}

/// Classify the result of clearing the output directory. A directory that
/// does not exist is nothing to clear: cleanup is idempotent and that case
/// succeeds; every other filesystem failure fails the stage.
pub fn cleanup_outcome(r: &Result<(), FsError>) -> (o: StageOutcome)
    ensures
        o == (match *r {
            Ok(()) => StageOutcome::Success,
            Err(FsError::NotFound) => StageOutcome::Success,
            Err(FsError::Other) => StageOutcome::Failure(Cause::IoError),
        }),
{
    match r {
        Ok(()) => StageOutcome::Success,
        Err(FsError::NotFound) => StageOutcome::Success,
        Err(FsError::Other) => StageOutcome::Failure(Cause::IoError),
    }
}

/// The stage sequence for one pipeline run: clean, styles, template, then
/// the bundling implied by the mode, then — unless in csr mode — the server
/// compile. A full (build-everything) pass in hydrate mode additionally
/// bundles the browser-only target.
pub open spec fn plan_spec(csr: bool, full: bool) -> Seq<Stage> {
    if csr {
        seq![
            Stage::CleanOutput,
            Stage::CompileStyles,
            Stage::ReadTemplate,
            Stage::BundleBrowser,
            Stage::GenerateHtml,
        ]
    } else if full {
        seq![
            Stage::CleanOutput,
            Stage::CompileStyles,
            Stage::ReadTemplate,
            Stage::BundleHydrate,
            Stage::GenerateRust,
            Stage::BundleBrowser,
            Stage::CompileServer,
        ]
    } else {
        seq![
            Stage::CleanOutput,
            Stage::CompileStyles,
            Stage::ReadTemplate,
            Stage::BundleHydrate,
            Stage::GenerateRust,
            Stage::CompileServer,
        ]
    }
}

/// The stage sequence for one run, as a vector the caller can walk.
pub fn plan_for(csr: bool, full: bool) -> (v: Vec<Stage>)
    ensures
        v@ == plan_spec(csr, full),
{
    let mut v: Vec<Stage> = Vec::new();
    v.push(Stage::CleanOutput);
    v.push(Stage::CompileStyles);
    v.push(Stage::ReadTemplate);
    if csr {
        v.push(Stage::BundleBrowser);
        v.push(Stage::GenerateHtml);
    } else {
        v.push(Stage::BundleHydrate);
        v.push(Stage::GenerateRust);
        if full {
            v.push(Stage::BundleBrowser);
        }
        v.push(Stage::CompileServer);
    }
    proof {
        assert(v@ =~= plan_spec(csr, full));
    }
    v
}

/// The state of one pipeline run: the fixed plan, how far it has advanced,
/// and the first failure if one occurred.
pub struct PipelineState {
    csr: bool,
    full: bool,
    plan: Vec<Stage>,
    pos: usize,
    failure: Option<(Stage, Cause)>,
}

impl PipelineState {
    /// The mode the plan was decided from.
    pub closed spec fn csr(&self) -> bool {
        self.csr
    }

    /// Whether this is a full (build-everything) pass.
    pub closed spec fn full(&self) -> bool {
        self.full
    }

    /// The fixed stage sequence of this run.
    pub closed spec fn plan(&self) -> Seq<Stage> {
        self.plan@
    }

    /// How many stages have completed successfully.
    pub closed spec fn pos(&self) -> nat {
        self.pos as nat
    }

    /// The first failure, if a stage has failed.
    pub closed spec fn failure(&self) -> Option<(Stage, Cause)> {
        self.failure
    }

    /// Well-formedness: the plan is the one its mode dictates, progress
    /// stays within it, and a recorded failure names the stage it stopped
    /// at.
    pub closed spec fn wf(&self) -> bool {
        &&& self.plan@ == plan_spec(self.csr, self.full)
        &&& self.pos <= self.plan@.len()
        &&& match self.failure {
            Some((st, _)) => self.pos < self.plan@.len() && st == self.plan@[self.pos as int],
            None => true,
        }
    }

    /// The stage that is due next: `None` once the run has failed or every
    /// stage has completed.
    pub open spec fn current_spec(&self) -> Option<Stage> {
        if self.failure() is None && self.pos() < self.plan().len() {
            Some(self.plan()[self.pos() as int])
        } else {
            None
        }
    }

    /// A fresh run: the plan decided by the mode, no progress, no failure.
    pub fn new(csr: bool, full: bool) -> (r: PipelineState)
        ensures
            r.wf(),
            r.csr() == csr,
            r.full() == full,
            r.plan() == plan_spec(csr, full),
            r.pos() == 0,
            r.failure() is None,
    {
        PipelineState { csr, full, plan: plan_for(csr, full), pos: 0, failure: None }
    }

    /// Whether this run's plan was decided for csr mode.
    pub fn is_csr(&self) -> (r: bool)
        ensures
            r == self.csr(),
    {
        self.csr
    }

    /// The stage that is due next, if any.
    pub fn current(&self) -> (r: Option<Stage>)
        requires
            self.wf(),
        ensures
            r == self.current_spec(),
    {
        if self.failure.is_none() && self.pos < self.plan.len() {
            Some(self.plan[self.pos])
        } else {
            None
        }
    }

    /// Record the outcome of the stage that was due. Success advances to
    /// the next stage; a failure pins the run at the failing stage, and from
    /// then on no stage is due any more: the remaining stages are never
    /// invoked.
    pub fn record(&mut self, outcome: StageOutcome)
        requires
            old(self).wf(),
            old(self).current_spec() is Some,
        ensures
            final(self).wf(),
            final(self).csr() == old(self).csr(),
            final(self).full() == old(self).full(),
            final(self).plan() == old(self).plan(),
            match outcome {
                StageOutcome::Success => {
                    &&& final(self).pos() == old(self).pos() + 1
                    &&& final(self).failure() is None
                },
                StageOutcome::Failure(c) => {
                    &&& final(self).pos() == old(self).pos()
                    &&& final(self).failure() == Some(
                        (old(self).plan()[old(self).pos() as int], c),
                    )
                    &&& final(self).current_spec() is None
                },
            },
    {
        match outcome {
            StageOutcome::Success => {
                self.pos = self.pos + 1;
            },
            StageOutcome::Failure(c) => {
                self.failure = Some((self.plan[self.pos], c));
            },
        }
    }

    /// The run's result: `None` while stages are still due, the first
    /// failure once a stage has failed, success once every stage completed.
    pub fn outcome(&self) -> (r: Option<BuildOutcome>)
        requires
            self.wf(),
        ensures
            r == (match self.failure() {
                Some((st, c)) => Some(BuildOutcome::Failure(st, c)),
                None => if self.pos() == self.plan().len() {
                    Some(BuildOutcome::Success)
                } else {
                    None::<BuildOutcome>
                },
            }),
            r is None <==> self.current_spec() is Some,
    {
        match self.failure {
            Some((st, c)) => Some(BuildOutcome::Failure(st, c)),
            None => if self.pos == self.plan.len() {
                Some(BuildOutcome::Success)
            } else {
                None
            },
        }
    }
}

/// Any stage failure aborts the remaining stages of the run: a pipeline
/// that has recorded a failure never has another stage due, so the
/// collaborators of the later stages are never invoked.
pub proof fn lemma_failure_short_circuits(p: PipelineState)
    requires
        p.wf(),
        p.failure() is Some,
    ensures
        p.current_spec() is None,
{
}

} // verus!
