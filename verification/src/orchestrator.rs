//! Build orchestration as an explicit state machine.  The library decides
//! each step; the embedding program performs the filesystem, subprocess and
//! inspection work and hands the observations back:
//!
//! * `CheckCache`: observe the output directory; a valid completed build
//!   short-circuits the whole run (idempotence).
//! * `Stage`: create the output directory and copy the source tree into
//!   it, never overwriting (see `layout::staging_action`).
//! * `RunTool`: run the external build tool in the output directory with
//!   the given arguments, the target-triple environment variable removed
//!   (`layout::scrubbed_env_var`) and both output streams redirected to the
//!   log files, because the tool is extremely verbose.
//! * `Validate`: observe the output directory again after a clean exit.
//! * `Finished`: the deliverables, or the error.

use vstd::prelude::*;

use crate::config::{build_args_spec, BuildEnvironment, Configuration};
use crate::error::Error;
use crate::inspect::ArtifactInspection;
use crate::report::BuildConfigReport;

verus! {

/// The validated bundle a successful build (or a reused prior build)
/// returns: an inspection for each requested artifact, and the parsed
/// build-config report.
#[derive(Debug, Clone, PartialEq, Eq)]
pub struct Deliverables {
    /// Present exactly when a static artifact was requested.
    pub static_artifact: Option<ArtifactInspection>,
    /// Present exactly when a shared artifact was requested.
    pub shared_artifact: Option<ArtifactInspection>,
    /// What the external tool says it decided.
    pub report: BuildConfigReport,
}

/// What the embedding program observed in one output directory: the parsed
/// report (or the error parsing it), and the inspection of each artifact
/// file, `None` where the file does not exist.  The two paths name the
/// places the artifacts were looked for.
#[derive(Debug, PartialEq, Eq)]
pub struct OutDirObservation {
    pub report: Result<BuildConfigReport, Error>,
    pub static_artifact: Option<ArtifactInspection>,
    pub shared_artifact: Option<ArtifactInspection>,
    pub static_path: String,
    pub shared_path: String,
}

/// The phases of one build, in order; see the module comment.
#[derive(Debug, PartialEq, Eq)]
pub enum BuildState {
    CheckCache,
    Stage,
    RunTool { args: Vec<String> },
    Validate,
    Finished { result: Result<Deliverables, Error> },
}

/// Whether an observation is a valid completed build for this
/// configuration, and if so which deliverables it yields:
///
/// * a report that could not be parsed propagates its error;
/// * a report whose Fortran-unavailable marker is set while LAPACK was
///   requested is a policy failure, `FortranCompilerNotFound`, even though
///   the external tool exited cleanly — a build that silently dropped a
///   requested capability is a failure, not a degraded success;
/// * a requested artifact whose file is missing is `LibraryNotExist`;
/// * otherwise the deliverables hold an inspection for each requested
///   artifact and the report.
pub open spec fn evaluate_spec(c: Configuration, obs: OutDirObservation) -> Result<
    Deliverables,
    Error,
> {
    match obs.report {
        Err(e) => Err(e),
        Ok(rep) => {
            if c.include_lapack && rep.fortran_unavailable {
                Err(Error::FortranCompilerNotFound)
            } else if c.include_static && obs.static_artifact is None {
                Err(Error::LibraryNotExist { path: obs.static_path })
            } else if c.include_shared && obs.shared_artifact is None {
                Err(Error::LibraryNotExist { path: obs.shared_path })
            } else {
                Ok(
                    Deliverables {
                        static_artifact: if c.include_static {
                            obs.static_artifact
                        } else {
                            None
                        },
                        shared_artifact: if c.include_shared {
                            obs.shared_artifact
                        } else {
                            None
                        },
                        report: rep,
                    },
                )
            }
        },
    }
}

/// What the cache check does with an observation: finish with the prior
/// build's deliverables, or go on to staging.
pub open spec fn cache_step_spec(c: Configuration, obs: OutDirObservation) -> BuildState {
    match evaluate_spec(c, obs) {
        Ok(d) => BuildState::Finished { result: Ok(d) },
        Err(_) => BuildState::Stage,
    }
}

/// One build: the desired configuration and the environment it runs in.
#[derive(Debug, Clone, PartialEq, Eq)]
pub struct Orchestrator {
    pub config: Configuration,
    pub env: BuildEnvironment,
}

impl Configuration {
    /// Validates an observation of the output directory; see
    /// `evaluate_spec` for the rules.
    pub fn evaluate(&self, obs: OutDirObservation) -> (r: Result<Deliverables, Error>)
        ensures
            r == evaluate_spec(*self, obs),
    {
        let OutDirObservation { report, static_artifact, shared_artifact, static_path, shared_path } =
            obs;
        match report {
            Err(e) => Err(e),
            Ok(rep) => {
                if self.include_lapack && rep.fortran_unavailable {
                    Err(Error::FortranCompilerNotFound)
                } else if self.include_static && static_artifact.is_none() {
                    Err(Error::LibraryNotExist { path: static_path })
                } else if self.include_shared && shared_artifact.is_none() {
                    Err(Error::LibraryNotExist { path: shared_path })
                } else {
                    Ok(
                        Deliverables {
                            static_artifact: if self.include_static {
                                static_artifact
                            } else {
                                None
                            },
                            shared_artifact: if self.include_shared {
                                shared_artifact
                            } else {
                                None
                            },
                            report: rep,
                        },
                    )
                }
            },
        }
    }
}

impl Orchestrator {
    /// Every build begins by looking for a completed prior build.
    pub fn start(&self) -> (r: BuildState)
        ensures
            r == BuildState::CheckCache,
    {
        BuildState::CheckCache
    }

    /// A valid completed build short-circuits: the external tool is not run
    /// again, and the prior deliverables are returned as they are.
    pub fn on_cache_checked(&self, obs: OutDirObservation) -> (r: BuildState)
        ensures
            r == cache_step_spec(self.config, obs),
    {
        match self.config.evaluate(obs) {
            Ok(d) => BuildState::Finished { result: Ok(d) },
            Err(_) => BuildState::Stage,
        }
    }

    /// After staging, the tool runs with the synthesized arguments followed
    /// by the `all` goal — unless cross-compilation needs a piece that is
    /// missing, which ends the build instead.
    pub fn on_staged(&self) -> (r: BuildState)
        ensures
            build_args_spec(self.config, self.env) matches Some(args) ==> (r matches BuildState::RunTool {
                args: a,
            } && a.deep_view() == args.push("all"@)),
            build_args_spec(self.config, self.env) is None ==> (r matches BuildState::Finished {
                result,
            } && (result matches Err(e) && (e matches Error::MissingCrossCompileInfo { info }
                && info@ == "cross C compiler"@))),
    {
        match self.config.to_build_arguments(&self.env) {
            Ok(mut args) => {
                args.push(String::from_str("all"));
                proof {
                    assert(args.deep_view() =~= build_args_spec(self.config, self.env)->0.push(
                        "all"@,
                    ));
                }
                BuildState::RunTool { args }
            },
            Err(e) => BuildState::Finished { result: Err(e) },
        }
    }

    /// Classifies the subprocess outcome.  A tool that could not start at
    /// all is `SubprocessCannotStart`; a tool that ran and exited non-zero
    /// is `NonZeroExitStatus`, carrying the captured error log so the
    /// failure can be diagnosed without re-running; a clean exit goes on to
    /// validation.  `detail` is the start error's message, or the captured
    /// error log, respectively.
    pub fn on_tool_exit(&self, started: bool, success: bool, code: Option<i32>, detail: String) -> (r:
        BuildState)
        ensures
            !started ==> r == (BuildState::Finished {
                result: Err::<Deliverables, Error>(Error::SubprocessCannotStart { error: detail }),
            }),
            started && !success ==> r == (BuildState::Finished {
                result: Err::<Deliverables, Error>(
                    Error::NonZeroExitStatus {
                        status: if code is Some {
                            code->0
                        } else {
                            -1i32
                        },
                        stderr: detail,
                    },
                ),
            }),
            started && success ==> r == BuildState::Validate,
    {
        if !started {
            BuildState::Finished { result: Err(Error::SubprocessCannotStart { error: detail }) }
        } else if !success {
            let status = match code {
                Some(c) => c,
                None => -1,
            };
            BuildState::Finished {
                result: Err(Error::NonZeroExitStatus { status, stderr: detail }),
            }
        } else {
            BuildState::Validate
        }
    }

    /// After a clean tool exit, the fresh observation of the output
    /// directory decides the final result, by the same rules as the cache
    /// check.
    pub fn on_validated(&self, obs: OutDirObservation) -> (r: BuildState)
        ensures
            r == (BuildState::Finished { result: evaluate_spec(self.config, obs) }),
    {
        BuildState::Finished { result: self.config.evaluate(obs) }
    }
}

/// Idempotence of orchestration: when a run has finished with deliverables
/// `d` under an observation, a second run with the same configuration whose
/// cache check sees the same observation finishes at once with those same
/// deliverables — it never reaches the tool-running state, so the external
/// tool is not invoked a second time.
pub proof fn lemma_orchestration_idempotent(
    config: Configuration,
    obs: OutDirObservation,
    d: Deliverables,
)
    requires
        evaluate_spec(config, obs) == Ok::<Deliverables, Error>(d),
    ensures
        cache_step_spec(config, obs) == (BuildState::Finished {
            result: Ok::<Deliverables, Error>(d),
        }),
{
}

/// The Fortran policy: a report carrying the Fortran-unavailable marker,
/// under a configuration that requests LAPACK, makes the build fail with
/// `FortranCompilerNotFound` — whatever the artifacts look like and even
/// though the external tool itself exited cleanly.
pub proof fn lemma_fortran_policy(
    config: Configuration,
    obs: OutDirObservation,
    rep: BuildConfigReport,
)
    requires
        obs.report == Ok::<BuildConfigReport, Error>(rep),
        config.include_lapack,
        rep.fortran_unavailable,
    ensures
        evaluate_spec(config, obs) == Err::<Deliverables, Error>(Error::FortranCompilerNotFound),
{
}

} // verus!
