//! The transcription state machine. One `Transcribe` run is a sequence of
//! decisions — which command to run next, which directory to create, when
//! to allocate and when to release the workspace, and how each failure is
//! classified. All of those decisions live in [`Driver::next`]; the process
//! shell merely performs the returned [`Action`] and reports an [`Event`]
//! back.
//!
//! The shell loop is: build a driver, feed it [`Event::Go`], perform each
//! returned action, and feed back what happened, until [`Action::Stop`];
//! then read [`Driver::outcome`].

use crate::cmd::build_args;
use crate::cmd::build_command;
use crate::cmd::check_dependencies;
use crate::cmd::clone_args;
use crate::cmd::clone_command;
use crate::cmd::download_args;
use crate::cmd::download_command;
use crate::cmd::engine_args;
use crate::cmd::engine_command;
use crate::cmd::engine_program;
use crate::cmd::normalize_args;
use crate::cmd::normalize_command;
use crate::cmd::probe_args;
use crate::cmd::rename_args;
use crate::cmd::rename_command;
use crate::cmd::CommandLine;
use crate::model::Error;
use crate::model::ModelId;
use crate::model::OutputFormat;
use crate::paths::app_data_dir;
use crate::paths::file_name;
use crate::paths::file_name_spec;
use crate::paths::join;
use crate::paths::join_spec;
use crate::paths::repository_under;
use crate::paths::wav_name;
use crate::paths::wav_name_spec;
use vstd::prelude::*;

verus! {

/// The phase a run is in. A run walks the phases in order; every failure
/// jumps to `Failed`, through `Cleanup` when a workspace is open.
#[derive(Clone, Copy, Debug)]
pub enum Phase {
    /// Nothing has happened yet.
    Start,
    /// The transcoder probe is running.
    Probing,
    /// The application-data directory is being created.
    EnsuringDataDir,
    /// The checkout is being tested for a `.git` child.
    CheckingCheckout,
    /// The checkout directory is being created ahead of a clone.
    CreatingCheckoutDir,
    /// The engine source is being cloned.
    Cloning,
    /// The model weights are being downloaded.
    Downloading,
    /// The engine is being built.
    Building,
    /// The built binary is being renamed to its per-model name.
    Renaming,
    /// The temporary workspace is being allocated.
    CreatingWorkspace,
    /// The input is being transcoded to 16 kHz WAV in the workspace.
    Normalizing,
    /// The engine is transcribing the normalized file.
    Transcribing,
    /// The workspace is being released; `pending` is the failure to
    /// surface afterwards, if any.
    Cleanup { pending: Option<Error> },
    /// The run succeeded.
    Done,
    /// The run failed with the recorded error.
    Failed { error: Error },
}

/// What the process shell reports back after performing an action.
pub enum Event {
    /// Starts the run.
    Go,
    /// A command was performed: whether its process could be spawned, and
    /// whether it exited successfully.
    Ran { spawned: bool, success: bool },
    /// A directory creation was performed.
    Made { ok: bool },
    /// A path existence test was performed.
    Found { yes: bool },
    /// A workspace allocation was performed: its path, if it succeeded.
    Workspace { path: Option<String> },
    /// The workspace was released.
    Dropped,
}

/// What the process shell is asked to do next.
pub enum Action {
    /// Run the command and report spawn and exit outcome.
    Run(CommandLine),
    /// Create the directory and all missing parents.
    MakeDirs(String),
    /// Report whether the path exists.
    CheckFor(String),
    /// Allocate a fresh temporary directory.
    NewWorkspace,
    /// Remove the workspace at the given path.
    DropWorkspace(String),
    /// The run is over; read the outcome.
    Stop,
}

/// The state of one transcription run.
pub struct Driver {
    /// The input media path.
    pub input: String,
    /// The directory the transcript is placed in.
    pub output_dir: String,
    /// The requested model.
    pub model: ModelId,
    /// The requested transcript format.
    pub format: OutputFormat,
    /// The resolved application-data directory, if the host has one.
    pub data_dir: Option<String>,
    /// The engine checkout path beneath the data directory.
    pub checkout: Option<String>,
    /// The open workspace path, while one exists.
    pub workspace: Option<String>,
    /// The name of the normalized file, `<stem>.wav`, once derived.
    pub wav_name: Option<String>,
    /// The current phase.
    pub phase: Phase,
}

/// Phases that lie past a successful dependency probe. Every filesystem
/// mutation is emitted from one of them.
pub open spec fn past_probe(p: Phase) -> bool {
    match p {
        Phase::Start => false,
        Phase::Probing => false,
        Phase::Failed { .. } => false,
        _ => true,
    }
}

/// The event kind each phase expects from the shell.
pub open spec fn expects(p: Phase, e: Event) -> bool {
    match p {
        Phase::Start => e is Go,
        Phase::Probing => e is Ran,
        Phase::EnsuringDataDir => e is Made,
        Phase::CheckingCheckout => e is Found,
        Phase::CreatingCheckoutDir => e is Made,
        Phase::Cloning => e is Ran,
        Phase::Downloading => e is Ran,
        Phase::Building => e is Ran,
        Phase::Renaming => e is Ran,
        Phase::CreatingWorkspace => e is Workspace,
        Phase::Normalizing => e is Ran,
        Phase::Transcribing => e is Ran,
        Phase::Cleanup { .. } => e is Dropped,
        Phase::Done => false,
        Phase::Failed { .. } => false,
    }
}

/// The run failed with `k` and the shell is told to stop.
pub open spec fn failed_with(post: Driver, a: Action, k: Error) -> bool {
    &&& post.phase matches Phase::Failed { error } && error == k
    &&& a is Stop
}

/// Neither the workspace nor the derived wav name changed.
pub open spec fn ws_kept(pre: Driver, post: Driver) -> bool {
    &&& post.workspace == pre.workspace
    &&& post.wav_name == pre.wav_name
}

/// The request and the resolved paths never change over a run.
pub open spec fn config_kept(pre: Driver, post: Driver) -> bool {
    &&& post.input == pre.input
    &&& post.output_dir == pre.output_dir
    &&& post.model == pre.model
    &&& post.format == pre.format
    &&& post.data_dir == pre.data_dir
    &&& post.checkout == pre.checkout
}

/// The transition relation of the state machine: from state `pre` on event
/// `e`, the run moves to state `post` and asks the shell to perform `a`.
pub open spec fn next_rel(pre: Driver, e: Event, post: Driver, a: Action) -> bool {
    &&& config_kept(pre, post)
    &&& match pre.phase {
        Phase::Start => {
            &&& post.phase is Probing
            &&& ws_kept(pre, post)
            &&& a matches Action::Run(c) && c.is_cmd("ffmpeg"@, probe_args())
        },
        Phase::Probing => {
            &&& e matches Event::Ran { spawned, .. }
            &&& if !spawned {
                &&& failed_with(post, a, Error::DependencyMissing)
                &&& ws_kept(pre, post)
            } else if pre.data_dir is None {
                &&& failed_with(post, a, Error::EnvironmentError)
                &&& ws_kept(pre, post)
            } else {
                &&& post.phase is EnsuringDataDir
                &&& ws_kept(pre, post)
                &&& a matches Action::MakeDirs(p) && p@ == pre.data_dir->0@
            }
        },
        Phase::EnsuringDataDir => {
            &&& e matches Event::Made { ok }
            &&& if ok {
                &&& post.phase is CheckingCheckout
                &&& ws_kept(pre, post)
                &&& a matches Action::CheckFor(p) && p@ == join_spec(pre.checkout->0@, ".git"@)
            } else {
                &&& failed_with(post, a, Error::IoError)
                &&& ws_kept(pre, post)
            }
        },
        Phase::CheckingCheckout => {
            &&& e matches Event::Found { yes }
            &&& ws_kept(pre, post)
            &&& if yes {
                &&& post.phase is Downloading
                &&& a matches Action::Run(c) && c.is_cmd(
                    "bash"@,
                    download_args(pre.checkout->0@, pre.model),
                )
            } else {
                &&& post.phase is CreatingCheckoutDir
                &&& a matches Action::MakeDirs(p) && p@ == pre.checkout->0@
            }
        },
        Phase::CreatingCheckoutDir => {
            &&& e matches Event::Made { ok }
            &&& ws_kept(pre, post)
            &&& if ok {
                &&& post.phase is Cloning
                &&& a matches Action::Run(c) && c.is_cmd("git"@, clone_args(pre.checkout->0@))
            } else {
                failed_with(post, a, Error::IoError)
            }
        },
        Phase::Cloning => {
            &&& e matches Event::Ran { spawned, success }
            &&& ws_kept(pre, post)
            &&& if spawned && success {
                &&& post.phase is Downloading
                &&& a matches Action::Run(c) && c.is_cmd(
                    "bash"@,
                    download_args(pre.checkout->0@, pre.model),
                )
            } else {
                failed_with(post, a, Error::CloneFailed)
            }
        },
        Phase::Downloading => {
            &&& e matches Event::Ran { spawned, success }
            &&& ws_kept(pre, post)
            &&& if spawned && success {
                &&& post.phase is Building
                &&& a matches Action::Run(c) && c.is_cmd(
                    "make"@,
                    build_args(pre.checkout->0@),
                )
            } else {
                failed_with(post, a, Error::DownloadFailed)
            }
        },
        Phase::Building => {
            &&& e matches Event::Ran { spawned, success }
            &&& ws_kept(pre, post)
            &&& if spawned && success {
                &&& post.phase is Renaming
                &&& a matches Action::Run(c) && c.is_cmd(
                    "mv"@,
                    rename_args(pre.checkout->0@, pre.model),
                )
            } else {
                failed_with(post, a, Error::BuildFailed)
            }
        },
        Phase::Renaming => {
            &&& e matches Event::Ran { spawned, success }
            &&& ws_kept(pre, post)
            &&& if spawned && success {
                &&& post.phase is CreatingWorkspace
                &&& a is NewWorkspace
            } else {
                failed_with(post, a, Error::BuildFailed)
            }
        },
        Phase::CreatingWorkspace => {
            &&& e matches Event::Workspace { path }
            &&& match path {
                None => {
                    &&& failed_with(post, a, Error::IoError)
                    &&& ws_kept(pre, post)
                },
                Some(w) => {
                    if file_name_spec(pre.input@) is None {
                        &&& post.phase matches Phase::Cleanup { pending } && pending == Some(
                            Error::NormalizationFailed,
                        )
                        &&& post.workspace == Some(w)
                        &&& post.wav_name == pre.wav_name
                        &&& a matches Action::DropWorkspace(p) && p@ == w@
                    } else {
                        &&& post.phase is Normalizing
                        &&& post.workspace == Some(w)
                        &&& post.wav_name matches Some(n) && n@ == wav_name_spec(
                            file_name_spec(pre.input@)->0,
                        )
                        &&& a matches Action::Run(c) && c.is_cmd(
                            "ffmpeg"@,
                            normalize_args(
                                pre.input@,
                                join_spec(w@, wav_name_spec(file_name_spec(pre.input@)->0)),
                            ),
                        )
                    }
                },
            }
        },
        Phase::Normalizing => {
            &&& e matches Event::Ran { spawned, success }
            &&& if spawned && success {
                &&& post.phase is Transcribing
                &&& ws_kept(pre, post)
                &&& a matches Action::Run(c) && c.is_cmd(
                    engine_program(pre.checkout->0@, pre.model),
                    engine_args(
                        pre.checkout->0@,
                        pre.model,
                        join_spec(pre.workspace->0@, pre.wav_name->0@),
                        pre.format,
                        join_spec(pre.output_dir@, pre.wav_name->0@),
                    ),
                )
            } else {
                &&& post.phase matches Phase::Cleanup { pending } && pending == Some(
                    Error::NormalizationFailed,
                )
                &&& ws_kept(pre, post)
                &&& a matches Action::DropWorkspace(p) && p@ == pre.workspace->0@
            }
        },
        Phase::Transcribing => {
            &&& e matches Event::Ran { spawned, success }
            &&& ws_kept(pre, post)
            &&& a matches Action::DropWorkspace(p) && p@ == pre.workspace->0@
            &&& if spawned && success {
                post.phase matches Phase::Cleanup { pending } && pending is None
            } else {
                post.phase matches Phase::Cleanup { pending } && pending == Some(
                    Error::TranscriptionFailed,
                )
            }
        },
        Phase::Cleanup { pending } => {
            &&& post.workspace is None
            &&& post.wav_name == pre.wav_name
            &&& a is Stop
            &&& match pending {
                None => post.phase is Done,
                Some(k) => post.phase matches Phase::Failed { error } && error == k,
            }
        },
        Phase::Done => false,
        Phase::Failed { .. } => false,
    }
}

impl Driver {
    /// Well-formedness: the resolved paths are linked, the workspace is
    /// open exactly in the phases that use it, and the derived wav name
    /// matches the input's filename.
    pub open spec fn wf(self) -> bool {
        &&& (self.checkout is Some <==> self.data_dir is Some)
        &&& (self.data_dir is Some ==> self.checkout->0@ == join_spec(
            self.data_dir->0@,
            "whisper.cpp"@,
        ))
        &&& (past_probe(self.phase) ==> self.data_dir is Some)
        &&& (self.workspace is Some <==> (self.phase is Normalizing || self.phase is Transcribing
            || self.phase matches Phase::Cleanup { .. }))
        &&& ((self.phase is Normalizing || self.phase is Transcribing) ==> self.wav_name is Some)
        &&& (self.wav_name matches Some(n) ==> file_name_spec(self.input@) is Some && n@
            == wav_name_spec(file_name_spec(self.input@)->0))
    }

    /// Builds the driver for one request, resolving the application-data
    /// directory and the checkout path beneath it.
    pub fn new(input: String, output_dir: String, model: ModelId, format: OutputFormat) -> (d:
        Driver)
        ensures
            d.wf(),
            d.phase is Start,
            d.input == input,
            d.output_dir == output_dir,
            d.model == model,
            d.format == format,
            d.workspace is None,
            d.wav_name is None,
    {
        let data_dir = app_data_dir();
        let checkout = match &data_dir {
            Some(dd) => Some(repository_under(dd.as_str())),
            None => None,
        };
        Driver {
            input,
            output_dir,
            model,
            format,
            data_dir,
            checkout,
            workspace: None,
            wav_name: None,
            phase: Phase::Start,
        }
    }

    /// True when the driver's current phase expects this event.
    pub fn accepts(&self, event: &Event) -> (r: bool)
        ensures
            r == expects(self.phase, *event),
    {
        match self.phase {
            Phase::Start => matches!(event, Event::Go),
            Phase::Probing => matches!(event, Event::Ran { .. }),
            Phase::EnsuringDataDir => matches!(event, Event::Made { .. }),
            Phase::CheckingCheckout => matches!(event, Event::Found { .. }),
            Phase::CreatingCheckoutDir => matches!(event, Event::Made { .. }),
            Phase::Cloning => matches!(event, Event::Ran { .. }),
            Phase::Downloading => matches!(event, Event::Ran { .. }),
            Phase::Building => matches!(event, Event::Ran { .. }),
            Phase::Renaming => matches!(event, Event::Ran { .. }),
            Phase::CreatingWorkspace => matches!(event, Event::Workspace { .. }),
            Phase::Normalizing => matches!(event, Event::Ran { .. }),
            Phase::Transcribing => matches!(event, Event::Ran { .. }),
            Phase::Cleanup { .. } => matches!(event, Event::Dropped),
            Phase::Done => false,
            Phase::Failed { .. } => false,
        }
    }

    /// The run's result once it stopped: `Ok` after `Done`, the recorded
    /// error after `Failed`, `None` while the run is still going.
    pub fn outcome(&self) -> (r: Option<Result<(), Error>>)
        ensures
            self.phase is Done ==> r == Some(Result::<(), Error>::Ok(())),
            self.phase matches Phase::Failed { error } ==> r == Some(
                Result::<(), Error>::Err(error),
            ),
            !(self.phase is Done) && !(self.phase matches Phase::Failed { .. }) ==> r is None,
    {
        match self.phase {
            Phase::Done => Some(Ok(())),
            Phase::Failed { error } => Some(Err(error)),
            _ => None,
        }
    }

    fn checkout_clone(&self) -> (c: String)
        requires
            self.checkout is Some,
        ensures
            c@ == self.checkout->0@,
    {
        match &self.checkout {
            Some(c) => c.clone(),
            None => {
                proof {
                    assert(false);
                }
                String::new()
            },
        }
    }

    fn workspace_clone(&self) -> (c: String)
        requires
            self.workspace is Some,
        ensures
            c@ == self.workspace->0@,
    {
        match &self.workspace {
            Some(c) => c.clone(),
            None => {
                proof {
                    assert(false);
                }
                String::new()
            },
        }
    }

    /// One step of the run: consumes the shell's report on the previous
    /// action and returns the next action, as [`next_rel`] states.
    pub fn next(&mut self, event: Event) -> (a: Action)
        requires
            old(self).wf(),
            expects(old(self).phase, event),
        ensures
            final(self).wf(),
            next_rel(*old(self), event, *final(self), a),
    {
        let ph = self.phase;
        match ph {
            Phase::Start => {
                self.phase = Phase::Probing;
                Action::Run(check_dependencies())
            },
            Phase::Probing => match event {
                Event::Ran { spawned, .. } => {
                    if !spawned {
                        self.phase = Phase::Failed { error: Error::DependencyMissing };
                        Action::Stop
                    } else {
                        match &self.data_dir {
                            None => {
                                self.phase = Phase::Failed { error: Error::EnvironmentError };
                                Action::Stop
                            },
                            Some(d) => {
                                let p = d.clone();
                                self.phase = Phase::EnsuringDataDir;
                                Action::MakeDirs(p)
                            },
                        }
                    }
                },
                _ => {
                    proof {
                        assert(false);
                    }
                    Action::Stop
                },
            },
            Phase::EnsuringDataDir => match event {
                Event::Made { ok } => {
                    if ok {
                        let co = self.checkout_clone();
                        let p = join(co.as_str(), ".git");
                        self.phase = Phase::CheckingCheckout;
                        Action::CheckFor(p)
                    } else {
                        self.phase = Phase::Failed { error: Error::IoError };
                        Action::Stop
                    }
                },
                _ => {
                    proof {
                        assert(false);
                    }
                    Action::Stop
                },
            },
            Phase::CheckingCheckout => match event {
                Event::Found { yes } => {
                    let co = self.checkout_clone();
                    if yes {
                        self.phase = Phase::Downloading;
                        Action::Run(download_command(co.as_str(), &self.model))
                    } else {
                        self.phase = Phase::CreatingCheckoutDir;
                        Action::MakeDirs(co)
                    }
                },
                _ => {
                    proof {
                        assert(false);
                    }
                    Action::Stop
                },
            },
            Phase::CreatingCheckoutDir => match event {
                Event::Made { ok } => {
                    if ok {
                        let co = self.checkout_clone();
                        self.phase = Phase::Cloning;
                        Action::Run(clone_command(co.as_str()))
                    } else {
                        self.phase = Phase::Failed { error: Error::IoError };
                        Action::Stop
                    }
                },
                _ => {
                    proof {
                        assert(false);
                    }
                    Action::Stop
                },
            },
            Phase::Cloning => match event {
                Event::Ran { spawned, success } => {
                    if spawned && success {
                        let co = self.checkout_clone();
                        self.phase = Phase::Downloading;
                        Action::Run(download_command(co.as_str(), &self.model))
                    } else {
                        self.phase = Phase::Failed { error: Error::CloneFailed };
                        Action::Stop
                    }
                },
                _ => {
                    proof {
                        assert(false);
                    }
                    Action::Stop
                },
            },
            Phase::Downloading => match event {
                Event::Ran { spawned, success } => {
                    if spawned && success {
                        let co = self.checkout_clone();
                        self.phase = Phase::Building;
                        Action::Run(build_command(co.as_str()))
                    } else {
                        self.phase = Phase::Failed { error: Error::DownloadFailed };
                        Action::Stop
                    }
                },
                _ => {
                    proof {
                        assert(false);
                    }
                    Action::Stop
                },
            },
            Phase::Building => match event {
                Event::Ran { spawned, success } => {
                    if spawned && success {
                        let co = self.checkout_clone();
                        self.phase = Phase::Renaming;
                        Action::Run(rename_command(co.as_str(), &self.model))
                    } else {
                        self.phase = Phase::Failed { error: Error::BuildFailed };
                        Action::Stop
                    }
                },
                _ => {
                    proof {
                        assert(false);
                    }
                    Action::Stop
                },
            },
            Phase::Renaming => match event {
                Event::Ran { spawned, success } => {
                    if spawned && success {
                        self.phase = Phase::CreatingWorkspace;
                        Action::NewWorkspace
                    } else {
                        self.phase = Phase::Failed { error: Error::BuildFailed };
                        Action::Stop
                    }
                },
                _ => {
                    proof {
                        assert(false);
                    }
                    Action::Stop
                },
            },
            Phase::CreatingWorkspace => match event {
                Event::Workspace { path } => match path {
                    None => {
                        self.phase = Phase::Failed { error: Error::IoError };
                        Action::Stop
                    },
                    Some(w) => match file_name(self.input.as_str()) {
                        None => {
                            let p = w.clone();
                            self.workspace = Some(w);
                            self.phase = Phase::Cleanup {
                                pending: Some(Error::NormalizationFailed),
                            };
                            Action::DropWorkspace(p)
                        },
                        Some(name) => {
                            let n = wav_name(name.as_str());
                            let wav_path = join(w.as_str(), n.as_str());
                            let c = normalize_command(self.input.as_str(), wav_path.as_str());
                            self.workspace = Some(w);
                            self.wav_name = Some(n);
                            self.phase = Phase::Normalizing;
                            Action::Run(c)
                        },
                    },
                },
                _ => {
                    proof {
                        assert(false);
                    }
                    Action::Stop
                },
            },
            Phase::Normalizing => match event {
                Event::Ran { spawned, success } => {
                    if spawned && success {
                        let co = self.checkout_clone();
                        let ws = self.workspace_clone();
                        let wn = match &self.wav_name {
                            Some(n) => n.clone(),
                            None => {
                                proof {
                                    assert(false);
                                }
                                String::new()
                            },
                        };
                        let wav_path = join(ws.as_str(), wn.as_str());
                        let out_base = join(self.output_dir.as_str(), wn.as_str());
                        let c = engine_command(
                            co.as_str(),
                            &self.model,
                            wav_path.as_str(),
                            &self.format,
                            out_base.as_str(),
                        );
                        self.phase = Phase::Transcribing;
                        Action::Run(c)
                    } else {
                        let ws = self.workspace_clone();
                        self.phase = Phase::Cleanup { pending: Some(Error::NormalizationFailed) };
                        Action::DropWorkspace(ws)
                    }
                },
                _ => {
                    proof {
                        assert(false);
                    }
                    Action::Stop
                },
            },
            Phase::Transcribing => match event {
                Event::Ran { spawned, success } => {
                    let ws = self.workspace_clone();
                    if spawned && success {
                        self.phase = Phase::Cleanup { pending: None };
                    } else {
                        self.phase = Phase::Cleanup { pending: Some(Error::TranscriptionFailed) };
                    }
                    Action::DropWorkspace(ws)
                },
                _ => {
                    proof {
                        assert(false);
                    }
                    Action::Stop
                },
            },
            Phase::Cleanup { pending } => match event {
                Event::Dropped => {
                    self.workspace = None;
                    match pending {
                        None => {
                            self.phase = Phase::Done;
                        },
                        Some(k) => {
                            self.phase = Phase::Failed { error: k };
                        },
                    }
                    Action::Stop
                },
                _ => {
                    proof {
                        assert(false);
                    }
                    Action::Stop
                },
            },
            Phase::Done => {
                proof {
                    assert(false);
                }
                Action::Stop
            },
            Phase::Failed { .. } => {
                proof {
                    assert(false);
                }
                Action::Stop
            },
        }
    }
}


/// Actions that mutate the filesystem: every directory creation, workspace
/// allocation or release, and every command except the transcoder probe
/// (which only reports a version).
pub open spec fn mutating(a: Action) -> bool {
    match a {
        Action::Run(c) => !(c.program@ == "ffmpeg"@ && c.argv() == probe_args()),
        Action::MakeDirs(_) => true,
        Action::CheckFor(_) => false,
        Action::NewWorkspace => true,
        Action::DropWorkspace(_) => true,
        Action::Stop => false,
    }
}

/// Law: a run that has stopped — successfully or not — holds no
/// workspace: every exit path has released it.
pub proof fn lemma_terminal_releases_workspace(d: Driver)
    requires
        d.wf(),
        d.phase is Done || d.phase matches Phase::Failed { .. },
    ensures
        d.workspace is None,
{
}

/// Law: the dependency probe precedes every filesystem mutation. A
/// mutating action is only emitted by the probe-success transition or from
/// a phase past the probe, and the only transition entering the phases
/// past the probe is a probe whose spawn succeeded.
pub proof fn lemma_probe_precedes_mutation(pre: Driver, e: Event, post: Driver, a: Action)
    requires
        pre.wf(),
        expects(pre.phase, e),
        next_rel(pre, e, post, a),
    ensures
        mutating(a) ==> past_probe(pre.phase) || ({
            &&& pre.phase is Probing
            &&& e matches Event::Ran { spawned, .. }
            &&& spawned
        }),
        past_probe(post.phase) && !past_probe(pre.phase) ==> ({
            &&& pre.phase is Probing
            &&& e matches Event::Ran { spawned, .. }
            &&& spawned
        }),
{
}

/// Law: the pipeline keeps its order. The engine runs only after a
/// successful normalization, normalization starts only from a freshly
/// allocated workspace, and a run is done only after its workspace was
/// released with no failure pending.
pub proof fn lemma_pipeline_order(pre: Driver, e: Event, post: Driver, a: Action)
    requires
        pre.wf(),
        expects(pre.phase, e),
        next_rel(pre, e, post, a),
    ensures
        post.phase is Transcribing ==> ({
            &&& pre.phase is Normalizing
            &&& e matches Event::Ran { spawned, success }
            &&& spawned
            &&& success
        }),
        post.phase is Normalizing ==> pre.phase is CreatingWorkspace,
        post.phase is Done ==> ({
            &&& pre.phase matches Phase::Cleanup { pending }
            &&& pending is None
            &&& e is Dropped
        }),
{
}


/// Law: provisioning is idempotent about the clone. A clone command is
/// emitted only from the phase entered when a missing `.git` was reported,
/// so a run that observes an existing checkout never clones.
pub proof fn lemma_clone_only_for_missing_checkout(pre: Driver, e: Event, post: Driver, a: Action)
    requires
        pre.wf(),
        expects(pre.phase, e),
        next_rel(pre, e, post, a),
    ensures
        (a matches Action::Run(c) && c.program@ == "git"@) ==> pre.phase is CreatingCheckoutDir,
        post.phase is CreatingCheckoutDir ==> ({
            &&& pre.phase is CheckingCheckout
            &&& e matches Event::Found { yes }
            &&& !yes
        }),
{
    reveal_strlit("git");
    reveal_strlit("ffmpeg");
    reveal_strlit("bash");
    reveal_strlit("make");
    reveal_strlit("mv");
    reveal_strlit("/main-");
    assert("git"@.len() == 3);
    assert("ffmpeg"@.len() == 6);
    assert("bash"@.len() == 4);
    assert("make"@.len() == 4);
    assert("mv"@.len() == 2);
    assert("/main-"@.len() == 6);
    if pre.phase is Normalizing {
        assert(engine_program(pre.checkout->0@, pre.model).len() >= 6);
    }
}

} // verus!
