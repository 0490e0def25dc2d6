use vstd::prelude::*;

use indexmap::IndexMap;

use crate::bootstrap::{must_bootstrap, spec_must_bootstrap};
use crate::composer::{in_index_order, task_lookup, WsBuildData, WsTask};
use crate::vars::{map_entries, map_insert, map_new, put, Entries};
use crate::error::BError;
use crate::text::{joined, same_text};
use crate::workspace::Mode;

verus! {

/// The build config `name` may be used: the supported list is empty (no
/// restriction) or names it.
pub open spec fn spec_valid_config(supported: Seq<Seq<char>>, name: Seq<char>) -> bool {
    supported.len() == 0 || supported.contains(name)
}

/// Whether the build config `name` may be used.
pub fn valid_config(supported: &Vec<String>, name: &str) -> (r: bool)
    ensures
        r == spec_valid_config(supported.deep_view(), name@),
{
    if supported.len() == 0 {
        return true;
    }
    let mut i: usize = 0;
    while i < supported.len()
        invariant
            i <= supported@.len(),
            forall|j: int| 0 <= j < i ==> supported.deep_view()[j] != name@,
        decreases supported@.len() - i,
    {
        if same_text(supported[i].as_str(), name) {
            assert(supported.deep_view()[i as int] == name@);
            return true;
        }
        i = i + 1;
    }
    false
}

/// The message for a build config that the workspace does not support.
pub open spec fn unsupported_msg(name: Seq<char>) -> Seq<char> {
    "Unsupported build config '"@ + name + "'"@
}

fn unsupported(name: &str) -> (r: BError)
    ensures
        r matches BError::CliError(m) && m@ == unsupported_msg(name@),
{
    let a = joined("Unsupported build config '", name);
    BError::CliError(joined(a.as_str(), "'"))
}

/// `KEY=VALUE` split at its first `=`; `None` where there is none.
pub open spec fn split_assignment(s: Seq<char>) -> Option<(Seq<char>, Seq<char>)> {
    if exists|i: int| 0 <= i < s.len() && s[i] == '=' {
        let i = choose|i: int| 0 <= i < s.len() && s[i] == '=' && forall|j: int| 0 <= j < i ==> s[j] != '=';
        Some((s.subrange(0, i), s.subrange(i + 1, s.len() as int)))
    } else {
        None
    }
}

/// The variables that `KEY=VALUE` arguments set, in order; a later one wins,
/// and an argument without `=` sets nothing.
pub open spec fn assignments(args: Seq<Seq<char>>) -> Entries
    decreases args.len(),
{
    if args.len() == 0 {
        Seq::empty()
    } else {
        let before = assignments(args.drop_last());
        match split_assignment(args.last()) {
            Some((k, v)) => put(before, k, v),
            None => before,
        }
    }
}

fn split_at_equals(s: &str) -> (r: Option<(String, String)>)
    ensures
        r matches Some(p) ==> split_assignment(s@) == Some((p.0@, p.1@)),
        r is None ==> split_assignment(s@) is None,
{
    let c = crate::text::chars_of(s);
    let mut i: usize = 0;
    while i < c.len()
        invariant
            c@ == s@,
            i <= c@.len(),
            forall|j: int| 0 <= j < i ==> c@[j] != '=',
        decreases c@.len() - i,
    {
        if c[i] == '=' {
            let k = crate::text::slice_chars(&c, 0, i);
            let v = crate::text::slice_chars(&c, i + 1, c.len());
            proof {
                let w = choose|w: int| 0 <= w < s@.len() && s@[w] == '=' && forall|j: int| 0 <= j < w ==> s@[j] != '=';
                assert(w == i as int) by {
                    if w < i {
                    } else if w > i {
                        assert(s@[i as int] == '=');
                    }
                }
            }
            return Some((crate::text::string_of(&k), crate::text::string_of(&v)));
        }
        i = i + 1;
    }
    None
}

/// The context variables that `--context KEY=VALUE` arguments give.
pub fn context_args(args: &Vec<String>) -> (r: IndexMap<String, String>)
    ensures
        map_entries(r) == assignments(args.deep_view()),
{
    let mut m = map_new();
    let mut i: usize = 0;
    while i < args.len()
        invariant
            i <= args@.len(),
            map_entries(m) == assignments(args.deep_view().subrange(0, i as int)),
        decreases args@.len() - i,
    {
        let ghost prefix = args.deep_view().subrange(0, i + 1);
        assert(prefix.drop_last() =~= args.deep_view().subrange(0, i as int));
        assert(prefix.last() == args[i as int]@);
        if let Some((k, v)) = split_at_equals(args[i].as_str()) {
            map_insert(&mut m, k, v);
        }
        i = i + 1;
    }
    assert(args.deep_view().subrange(0, args@.len() as int) =~= args.deep_view());
    m
}

/// What a command does once its checks pass.
#[derive(Debug, Clone, Copy, PartialEq, Eq, Structural)]
pub enum Step {
    /// Hand the command line over to the container.
    Bootstrap,
    /// Run the command here.
    RunInPlace,
}

/// A sub-command: its name, whether it runs in the container, and whether it
/// runs interactively there.
pub struct BBaseCommand {
    pub cmd_str: String,
    pub interactive: bool,
    pub require_docker: bool,
}

/// The step for a command whose checks passed.
fn step_for(require_docker: bool, docker_disabled: bool, inside_docker: bool) -> (r: Step)
    ensures
        r == (if spec_must_bootstrap(docker_disabled, require_docker, inside_docker) {
            Step::Bootstrap
        } else {
            Step::RunInPlace
        }),
{
    if must_bootstrap(docker_disabled, require_docker, inside_docker) {
        Step::Bootstrap
    } else {
        Step::RunInPlace
    }
}

/// The checks of a command that works on a build (clean, upload): the build
/// config must be supported, the workspace must not be in setup mode, and then
/// the command goes to the container or runs here.
fn checked_build_step(
    base: &BBaseCommand,
    config: &str,
    supported: &Vec<String>,
    mode: Mode,
    docker_disabled: bool,
    inside_docker: bool,
) -> (r: Result<Step, BError>)
    ensures
        !spec_valid_config(supported.deep_view(), config@) ==> (r matches Err(BError::CliError(m))
            && m@ == unsupported_msg(config@)),
        spec_valid_config(supported.deep_view(), config@) && mode == Mode::SETUP ==> (r matches Err(
            BError::CmdInsideWorkspace(c),
        ) && c@ == base.cmd_str@),
        spec_valid_config(supported.deep_view(), config@) && mode != Mode::SETUP ==> r == Ok::<
            Step,
            BError,
        >(
            if spec_must_bootstrap(docker_disabled, base.require_docker, inside_docker) {
                Step::Bootstrap
            } else {
                Step::RunInPlace
            },
        ),
{
    if !valid_config(supported, config) {
        return Err(unsupported(config));
    }
    if mode == Mode::SETUP {
        return Err(BError::CmdInsideWorkspace(base.cmd_str.clone()));
    }
    Ok(step_for(base.require_docker, docker_disabled, inside_docker))
}

/// Cleans one or all tasks of a build config.
pub struct CleanCommand {
    pub cmd: BBaseCommand,
}

impl CleanCommand {
    pub fn new() -> (r: Self)
        ensures
            r.cmd.cmd_str@ == "clean"@,
            r.cmd.require_docker,
            r.cmd.interactive,
    {
        CleanCommand {
            cmd: BBaseCommand { cmd_str: String::from_str("clean"), interactive: true, require_docker: true },
        }
    }

    pub fn cmd_str(&self) -> (r: &str)
        ensures
            r@ == self.cmd.cmd_str@,
    {
        self.cmd.cmd_str.as_str()
    }

    pub fn is_docker_required(&self) -> (r: bool)
        ensures
            r == self.cmd.require_docker,
    {
        self.cmd.require_docker
    }

    /// The checks before cleaning: the config is supported, the workspace is not
    /// in setup mode; then to the container or here.
    pub fn step(
        &self,
        config: &str,
        supported: &Vec<String>,
        mode: Mode,
        docker_disabled: bool,
        inside_docker: bool,
    ) -> (r: Result<Step, BError>)
        ensures
            !spec_valid_config(supported.deep_view(), config@) ==> (r matches Err(BError::CliError(m))
                && m@ == unsupported_msg(config@)),
            spec_valid_config(supported.deep_view(), config@) && mode == Mode::SETUP ==> r matches Err(
                BError::CmdInsideWorkspace(_),
            ),
            spec_valid_config(supported.deep_view(), config@) && mode != Mode::SETUP ==> r == Ok::<
                Step,
                BError,
            >(
                if spec_must_bootstrap(docker_disabled, self.cmd.require_docker, inside_docker) {
                    Step::Bootstrap
                } else {
                    Step::RunInPlace
                },
            ),
    {
        checked_build_step(&self.cmd, config, supported, mode, docker_disabled, inside_docker)
    }
}

/// The task list names every task: it is the single name `all`.
pub open spec fn names_all(names: Seq<Seq<char>>) -> bool {
    names.len() == 1 && names[0] == "all"@
}

impl CleanCommand {
    /// The tasks to clean: every task, in index order, for `all`; else the
    /// named ones in the order given; an error where a named task does not exist.
    pub fn selected_tasks(&self, data: &WsBuildData, names: &Vec<String>) -> (r: Result<Vec<WsTask>, BError>)
        ensures
            r is Ok <==> names_all(names.deep_view()) || forall|i: int|
                0 <= i < names@.len() ==> task_lookup(data.tasks@, #[trigger] names.deep_view()[i]) is Some,
            names_all(names.deep_view()) ==> (r matches Ok(v) && in_index_order(v@) && v@.to_multiset()
                == data.tasks@.to_multiset()),
            !names_all(names.deep_view()) ==> (r matches Ok(v) ==> v@.len() == names@.len()
                && forall|i: int|
                0 <= i < names@.len() ==> task_lookup(data.tasks@, #[trigger] names.deep_view()[i])
                    == Some(v@[i])),
    {
        if names.len() == 1 && same_text(names[0].as_str(), "all") {
            return Ok(data.ordered_tasks());
        }
        let mut picked: Vec<WsTask> = Vec::new();
        let mut i: usize = 0;
        while i < names.len()
            invariant
                !names_all(names.deep_view()),
                i <= names@.len(),
                picked@.len() == i,
                forall|j: int|
                    0 <= j < i ==> task_lookup(data.tasks@, #[trigger] names.deep_view()[j]) == Some(picked@[j]),
            decreases names@.len() - i,
        {
            match data.task(names[i].as_str()) {
                Ok(t) => {
                    picked.push(t.copy());
                },
                Err(e) => {
                    assert(task_lookup(data.tasks@, names.deep_view()[i as int]) is None);
                    return Err(e);
                },
            }
            i = i + 1;
        }
        Ok(picked)
    }
}

/// Uploads the artifacts of a build config.
pub struct UploadCommand {
    pub cmd: BBaseCommand,
}

impl UploadCommand {
    pub fn new() -> (r: Self)
        ensures
            r.cmd.cmd_str@ == "upload"@,
            r.cmd.require_docker,
            r.cmd.interactive,
    {
        UploadCommand {
            cmd: BBaseCommand { cmd_str: String::from_str("upload"), interactive: true, require_docker: true },
        }
    }

    pub fn cmd_str(&self) -> (r: &str)
        ensures
            r@ == self.cmd.cmd_str@,
    {
        self.cmd.cmd_str.as_str()
    }

    pub fn is_docker_required(&self) -> (r: bool)
        ensures
            r == self.cmd.require_docker,
    {
        self.cmd.require_docker
    }

    /// The checks before uploading, as for cleaning.
    pub fn step(
        &self,
        config: &str,
        supported: &Vec<String>,
        mode: Mode,
        docker_disabled: bool,
        inside_docker: bool,
    ) -> (r: Result<Step, BError>)
        ensures
            !spec_valid_config(supported.deep_view(), config@) ==> (r matches Err(BError::CliError(m))
                && m@ == unsupported_msg(config@)),
            spec_valid_config(supported.deep_view(), config@) && mode == Mode::SETUP ==> r matches Err(
                BError::CmdInsideWorkspace(_),
            ),
            spec_valid_config(supported.deep_view(), config@) && mode != Mode::SETUP ==> r == Ok::<
                Step,
                BError,
            >(
                if spec_must_bootstrap(docker_disabled, self.cmd.require_docker, inside_docker) {
                    Step::Bootstrap
                } else {
                    Step::RunInPlace
                },
            ),
    {
        checked_build_step(&self.cmd, config, supported, mode, docker_disabled, inside_docker)
    }
}

/// Sets up a workspace.
pub struct SetupCommand {
    pub cmd: BBaseCommand,
}

impl SetupCommand {
    pub fn new() -> (r: Self)
        ensures
            r.cmd.cmd_str@ == "setup"@,
            r.cmd.require_docker,
            r.cmd.interactive,
    {
        SetupCommand {
            cmd: BBaseCommand { cmd_str: String::from_str("setup"), interactive: true, require_docker: true },
        }
    }

    pub fn cmd_str(&self) -> (r: &str)
        ensures
            r@ == self.cmd.cmd_str@,
    {
        self.cmd.cmd_str.as_str()
    }

    pub fn is_docker_required(&self) -> (r: bool)
        ensures
            r == self.cmd.require_docker,
    {
        self.cmd.require_docker
    }

    /// The checks before setting up: without `force` the workspace must be
    /// empty; then to the container, or (here) the config must be supported.
    /// `ws_empty` is what probing the work dir gave.
    pub fn step(
        &self,
        config: &str,
        supported: &Vec<String>,
        work_dir: &str,
        force: bool,
        ws_empty: Result<bool, String>,
        docker_disabled: bool,
        inside_docker: bool,
    ) -> (r: Result<Step, BError>)
        ensures
            !force && ws_empty is Err ==> (r matches Err(BError::IOError(m)) && m@
                == "Failed to check for empty workspace, "@ + ws_empty->Err_0@),
            !force && ws_empty == Ok::<bool, String>(false) ==> (r matches Err(BError::WorkspaceNotEmpty(d))
                && d@ == work_dir@),
            (force || ws_empty == Ok::<bool, String>(true)) && spec_must_bootstrap(
                docker_disabled,
                self.cmd.require_docker,
                inside_docker,
            ) ==> r == Ok::<Step, BError>(Step::Bootstrap),
            (force || ws_empty == Ok::<bool, String>(true)) && !spec_must_bootstrap(
                docker_disabled,
                self.cmd.require_docker,
                inside_docker,
            ) && spec_valid_config(supported.deep_view(), config@) ==> r == Ok::<Step, BError>(
                Step::RunInPlace,
            ),
            (force || ws_empty == Ok::<bool, String>(true)) && !spec_must_bootstrap(
                docker_disabled,
                self.cmd.require_docker,
                inside_docker,
            ) && !spec_valid_config(supported.deep_view(), config@) ==> (r matches Err(
                BError::CliError(m),
            ) && m@ == unsupported_msg(config@)),
    {
        if !force {
            match ws_empty {
                Ok(true) => {},
                Ok(false) => {
                    return Err(BError::WorkspaceNotEmpty(String::from_str(work_dir)));
                },
                Err(e) => {
                    return Err(
                        BError::IOError(joined("Failed to check for empty workspace, ", e.as_str())),
                    );
                },
            }
        }
        if must_bootstrap(docker_disabled, self.cmd.require_docker, inside_docker) {
            return Ok(Step::Bootstrap);
        }
        if !valid_config(supported, config) {
            return Err(unsupported(config));
        }
        Ok(Step::RunInPlace)
    }
}

/// Lists the build configs, or the tasks or context of one.
pub struct ListCommand {
    pub cmd: BBaseCommand,
}

/// What `list` shows.
#[derive(Debug, Clone, Copy, PartialEq, Eq, Structural)]
pub enum Listing {
    /// Every build config of the workspace.
    Configs,
    /// The tasks of the build config.
    Tasks,
    /// The context variables of the build config.
    Context,
}

impl ListCommand {
    pub fn new() -> (r: Self)
        ensures
            r.cmd.cmd_str@ == "list"@,
            !r.cmd.require_docker,
            r.cmd.interactive,
    {
        ListCommand {
            cmd: BBaseCommand { cmd_str: String::from_str("list"), interactive: true, require_docker: false },
        }
    }

    pub fn cmd_str(&self) -> (r: &str)
        ensures
            r@ == self.cmd.cmd_str@,
    {
        self.cmd.cmd_str.as_str()
    }

    pub fn is_docker_required(&self) -> (r: bool)
        ensures
            r == self.cmd.require_docker,
    {
        self.cmd.require_docker
    }

    /// What to list: all configs where none is named (`NA`), else the context
    /// or the tasks of a supported config.
    pub fn listing(&self, config: &str, supported: &Vec<String>, ctx: bool) -> (r: Result<Listing, BError>)
        ensures
            config@ == "NA"@ ==> r == Ok::<Listing, BError>(Listing::Configs),
            config@ != "NA"@ && spec_valid_config(supported.deep_view(), config@) ==> r == Ok::<
                Listing,
                BError,
            >(if ctx { Listing::Context } else { Listing::Tasks }),
            config@ != "NA"@ && !spec_valid_config(supported.deep_view(), config@) ==> (r matches Err(
                BError::CliError(m),
            ) && m@ == unsupported_msg(config@)),
    {
        if same_text(config, "NA") {
            return Ok(Listing::Configs);
        }
        if !valid_config(supported, config) {
            return Err(unsupported(config));
        }
        if ctx {
            Ok(Listing::Context)
        } else {
            Ok(Listing::Tasks)
        }
    }
}

} // verus!
