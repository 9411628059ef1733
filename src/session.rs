use vstd::prelude::*;
use crate::config::EnvSetupConfig;
use crate::exec::{execute_cmd_list, Execution, Platform};
use crate::git::{string_views, check_if_in_repo, git_config_valid, git_plan, process_git_cmds, repo_check_command, validate_git_conf};
use crate::probe::{ensure_tool_present, locate_command};
use crate::toolchains::{container_of, language_of, validate_container_system, validate_language, ContainerSystem, Language};

verus! {

/// Where a run of the setup stands.
#[derive(Clone, Copy, Debug, PartialEq, Eq, Structural)]
pub enum Stage {
    /// Waiting for the probe of the language's toolchain.
    ProbeToolchain,
    /// Waiting for the language's default command.
    LanguageDefaults,
    /// Waiting for the probe of the container engine.
    ProbeContainer,
    /// Waiting for the check whether the working directory is a checkout.
    CheckRepository,
    /// Running the git commands.
    GitCommands,
    /// Running the setup commands.
    SetupCommands,
    /// The configuration was refused; nothing more runs.
    Rejected,
    /// Every command has run.
    Finished,
}

/// What the caller is to do next.
#[derive(Debug, PartialEq, Eq)]
pub enum Action {
    /// Run this command to answer a question about the host, and report
    /// whether it succeeded.
    Query(String),
    /// Run this step of the setup, and report whether it succeeded.
    Run(String),
    /// The run is over.
    Done,
}

/// An [`Action`] with its command taken by its characters.
pub enum Step {
    Query(Seq<char>),
    Run(Seq<char>),
    Done,
}

impl View for Action {
    type V = Step;

    open spec fn view(&self) -> Step {
        match self {
            Action::Query(c) => Step::Query(c@),
            Action::Run(c) => Step::Run(c@),
            Action::Done => Step::Done,
        }
    }
}

/// The stage after the language is accepted and its default command, if
/// any, has succeeded: the git section is checked, then the container name.
pub open spec fn after_defaults(cfg: EnvSetupConfig) -> Stage {
    if !git_config_valid(cfg.git@) {
        Stage::Rejected
    } else {
        match cfg.container_system {
            None => Stage::CheckRepository,
            Some(name) => if container_of(name@) is Some {
                Stage::ProbeContainer
            } else {
                Stage::Rejected
            },
        }
    }
}

/// The stage after the toolchain probe found the tool.
pub open spec fn after_toolchain(cfg: EnvSetupConfig) -> Stage {
    match language_of(cfg.language@) {
        Some(l) => if l.default_action() is Some {
            Stage::LanguageDefaults
        } else {
            after_defaults(cfg)
        },
        None => Stage::Rejected,
    }
}

/// The first stage: an unsupported language is refused before any probe.
pub open spec fn first_stage(cfg: EnvSetupConfig) -> Stage {
    if language_of(cfg.language@) is Some {
        Stage::ProbeToolchain
    } else {
        Stage::Rejected
    }
}

/// The stage that runs the setup commands, if there are any.
pub open spec fn setup_stage(cfg: EnvSetupConfig) -> Stage {
    if cfg.setup_plan().len() > 0 {
        Stage::SetupCommands
    } else {
        Stage::Finished
    }
}

/// The stage after the repository check: inside a checkout the git commands
/// are skipped; the setup commands run either way.
pub open spec fn after_repository_check(cfg: EnvSetupConfig, inside: bool) -> Stage {
    if !inside && git_plan(cfg.git@).len() > 0 {
        Stage::GitCommands
    } else {
        setup_stage(cfg)
    }
}

/// The stage that runs the setup commands, or the end when there are none.
fn stage_for_setup(setup: &Execution) -> (s: Stage)
    requires
        setup.wf(),
        setup.results().len() == 0,
    ensures
        s == if setup.commands().len() > 0 {
            Stage::SetupCommands
        } else {
            Stage::Finished
        },
{
    if setup.is_finished() {
        Stage::Finished
    } else {
        Stage::SetupCommands
    }
}

/// A run of the whole setup over one configuration: validation, the
/// repository check, the git commands, then the setup commands. The caller
/// performs each action that `next_action` names and reports its success to
/// `advance`.
pub struct Session {
    config: EnvSetupConfig,
    platform: Platform,
    stage: Stage,
    git: Execution,
    setup: Execution,
}

impl Session {
    pub closed spec fn config(&self) -> EnvSetupConfig {
        self.config
    }

    pub closed spec fn platform(&self) -> Platform {
        self.platform
    }

    pub closed spec fn stage(&self) -> Stage {
        self.stage
    }

    /// The run of the git commands.
    pub closed spec fn git_run(&self) -> Execution {
        self.git
    }

    /// The run of the setup commands.
    pub closed spec fn setup_run(&self) -> Execution {
        self.setup
    }

    /// The session's parts agree with each other and with its stage.
    pub closed spec fn wf(&self) -> bool {
        &&& self.config.wf()
        &&& self.git.wf()
        &&& self.setup.wf()
        &&& self.git.commands() == git_plan(self.config.git@)
        &&& self.setup.commands() == self.config.setup_plan()
        &&& (self.stage == Stage::ProbeToolchain ==> language_of(self.config.language@) is Some)
        &&& (self.stage == Stage::LanguageDefaults ==> {
            &&& language_of(self.config.language@) is Some
            &&& language_of(self.config.language@)->0.default_action() is Some
        })
        &&& (self.stage == Stage::ProbeContainer ==> {
            &&& self.config.container_system is Some
            &&& container_of(self.config.container_system->0@) is Some
        })
        &&& (self.stage == Stage::GitCommands ==> !self.git.finished())
        &&& (self.stage == Stage::SetupCommands ==> !self.setup.finished())
        &&& (self.stage != Stage::GitCommands && self.stage != Stage::SetupCommands && self.stage
            != Stage::Finished ==> self.git.results().len() == 0)
        &&& (self.stage != Stage::SetupCommands && self.stage != Stage::Finished
            ==> self.setup.results().len() == 0)
    }

    /// Whether the session still waits for an outcome.
    pub open spec fn pending(&self) -> bool {
        self.stage() != Stage::Rejected && self.stage() != Stage::Finished
    }

    /// What the session asks for in its present stage.
    pub open spec fn expected_step(&self) -> Step {
        let cfg = self.config();
        match self.stage() {
            Stage::ProbeToolchain => Step::Query(
                locate_command(self.platform(), language_of(cfg.language@)->0.toolchain()),
            ),
            Stage::LanguageDefaults => Step::Run(
                language_of(cfg.language@)->0.default_action()->0,
            ),
            Stage::ProbeContainer => Step::Query(
                locate_command(self.platform(), container_of(cfg.container_system->0@)->0.engine()),
            ),
            Stage::CheckRepository => Step::Query(repo_check_command("."@)),
            Stage::GitCommands => Step::Run(self.git_run().commands()[self.git_run().position()]),
            Stage::SetupCommands => Step::Run(
                self.setup_run().commands()[self.setup_run().position()],
            ),
            _ => Step::Done,
        }
    }

    /// The stage that follows the present one when its action reports `ok`.
    pub open spec fn next_stage(&self, ok: bool) -> Stage {
        let cfg = self.config();
        match self.stage() {
            Stage::ProbeToolchain => if ok {
                after_toolchain(cfg)
            } else {
                Stage::Rejected
            },
            Stage::LanguageDefaults => if ok {
                after_defaults(cfg)
            } else {
                Stage::Rejected
            },
            Stage::ProbeContainer => if ok {
                Stage::CheckRepository
            } else {
                Stage::Rejected
            },
            Stage::CheckRepository => after_repository_check(cfg, ok),
            Stage::GitCommands => if self.git_run().position() + 1 < self.git_run().commands().len() {
                Stage::GitCommands
            } else {
                setup_stage(cfg)
            },
            Stage::SetupCommands => if self.setup_run().position() + 1
                < self.setup_run().commands().len() {
                Stage::SetupCommands
            } else {
                Stage::Finished
            },
            other => other,
        }
    }

    /// The stage the run is in.
    pub fn current_stage(&self) -> (r: Stage)
        ensures
            r == self.stage(),
    {
        self.stage
    }

    /// One success flag per git command run so far, in order.
    pub fn git_results(&self) -> (r: &Vec<bool>)
        ensures
            r@ == self.git_run().results(),
    {
        self.git.results_so_far()
    }

    /// One success flag per setup command run so far, in order.
    pub fn setup_results(&self) -> (r: &Vec<bool>)
        ensures
            r@ == self.setup_run().results(),
    {
        self.setup.results_so_far()
    }

    /// The action to perform now.
    pub fn next_action(&self) -> (r: Action)
        requires
            self.wf(),
        ensures
            r@ == self.expected_step(),
    {
        match self.stage {
            Stage::ProbeToolchain => {
                let language = Language::from_tag(self.config.language.as_str());
                match language {
                    Some(l) => Action::Query(ensure_tool_present(l.toolchain_tool(), self.platform)),
                    None => Action::Done,
                }
            },
            Stage::LanguageDefaults => {
                let language = Language::from_tag(self.config.language.as_str());
                match language {
                    Some(l) => match l.default_command() {
                        Some(c) => Action::Run(c),
                        None => Action::Done,
                    },
                    None => Action::Done,
                }
            },
            Stage::ProbeContainer => {
                match &self.config.container_system {
                    Some(name) => match ContainerSystem::from_name(name.as_str()) {
                        Some(engine) => Action::Query(
                            ensure_tool_present(engine.engine_tool(), self.platform),
                        ),
                        None => Action::Done,
                    },
                    None => Action::Done,
                }
            },
            Stage::CheckRepository => Action::Query(check_if_in_repo(".")),
            Stage::GitCommands => match self.git.next_command() {
                Some(c) => Action::Run(c.clone()),
                None => Action::Done,
            },
            Stage::SetupCommands => match self.setup.next_command() {
                Some(c) => Action::Run(c.clone()),
                None => Action::Done,
            },
            _ => Action::Done,
        }
    }

    /// The stage after the language and its default command were accepted.
    fn stage_after_defaults(config: &EnvSetupConfig) -> (s: Stage)
        requires
            config.wf(),
        ensures
            s == after_defaults(*config),
    {
        if !validate_git_conf(&config.git) {
            return Stage::Rejected;
        }
        match &config.container_system {
            None => Stage::CheckRepository,
            Some(name) => if ContainerSystem::from_name(name.as_str()).is_some() {
                Stage::ProbeContainer
            } else {
                Stage::Rejected
            },
        }
    }

    /// Takes the outcome of the action that `next_action` named and moves on.
    /// A failed probe or default command refuses the configuration; a failed
    /// git or setup command is recorded and the next one still runs.
    pub fn advance(&mut self, succeeded: bool)
        requires
            old(self).wf(),
            old(self).pending(),
        ensures
            final(self).wf(),
            final(self).config() == old(self).config(),
            final(self).platform() == old(self).platform(),
            final(self).stage() == old(self).next_stage(succeeded),
            final(self).git_run().commands() == old(self).git_run().commands(),
            final(self).setup_run().commands() == old(self).setup_run().commands(),
            final(self).git_run().results() == if old(self).stage() == Stage::GitCommands {
                old(self).git_run().results().push(succeeded)
            } else {
                old(self).git_run().results()
            },
            final(self).setup_run().results() == if old(self).stage() == Stage::SetupCommands {
                old(self).setup_run().results().push(succeeded)
            } else {
                old(self).setup_run().results()
            },
    {
        match self.stage {
            Stage::ProbeToolchain => {
                if !validate_language(self.config.language.as_str(), succeeded) {
                    self.stage = Stage::Rejected;
                } else {
                    let language = Language::from_tag(self.config.language.as_str());
                    match language {
                        Some(l) => {
                            if l.default_command().is_some() {
                                self.stage = Stage::LanguageDefaults;
                            } else {
                                self.stage = Self::stage_after_defaults(&self.config);
                            }
                        },
                        None => {
                            self.stage = Stage::Rejected;
                        },
                    }
                }
            },
            Stage::LanguageDefaults => {
                if succeeded {
                    self.stage = Self::stage_after_defaults(&self.config);
                } else {
                    self.stage = Stage::Rejected;
                }
            },
            Stage::ProbeContainer => {
                let accepted = match &self.config.container_system {
                    Some(name) => validate_container_system(name.as_str(), succeeded),
                    None => false,
                };
                if accepted {
                    self.stage = Stage::CheckRepository;
                } else {
                    self.stage = Stage::Rejected;
                }
            },
            Stage::CheckRepository => {
                if !succeeded && !self.git.is_finished() {
                    self.stage = Stage::GitCommands;
                } else {
                    self.stage = stage_for_setup(&self.setup);
                }
            },
            Stage::GitCommands => {
                self.git.record(succeeded);
                if self.git.is_finished() {
                    self.stage = stage_for_setup(&self.setup);
                }
            },
            Stage::SetupCommands => {
                self.setup.record(succeeded);
                if self.setup.is_finished() {
                    self.stage = Stage::Finished;
                }
            },
            _ => {},
        }
    }
}

/// Starts the setup described by `conf` on `platform`. The git commands are
/// derived now; nothing has run yet. An unsupported language refuses the
/// configuration before any probe.
pub fn run(conf: EnvSetupConfig, platform: Platform) -> (s: Session)
    requires
        conf.wf(),
    ensures
        s.wf(),
        s.config() == conf,
        s.platform() == platform,
        s.stage() == first_stage(conf),
        s.git_run().commands() == git_plan(conf.git@),
        s.git_run().results().len() == 0,
        s.setup_run().commands() == conf.setup_plan(),
        s.setup_run().results().len() == 0,
{
    let git = Execution::start(process_git_cmds(&conf.git));
    let setup = match &conf.setup_cmds {
        Some(cmds) => execute_cmd_list(cmds.as_slice()),
        None => Execution::start(Vec::new()),
    };
    proof {
        assert(string_views(Seq::<String>::empty()) =~= Seq::<Seq<char>>::empty());
    }
    let stage = if Language::from_tag(conf.language.as_str()).is_some() {
        Stage::ProbeToolchain
    } else {
        Stage::Rejected
    };
    Session { config: conf, platform, stage, git, setup }
}

} // verus!
