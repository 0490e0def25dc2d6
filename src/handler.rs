use indexmap::IndexMap;
use vstd::prelude::*;

use crate::composer::{
    same_header, subcmds_after, task_dir, tasks_after, WsBuildData, WsSubCmd, WsTask,
};
use crate::constants::BkryConstants;
use crate::context::Context;
use crate::error::BError;
use crate::json::TextField;
use crate::context::failure_msg;
use crate::json::parsed;
use crate::settings::{
    expanded_settings, first_failure, json_expand_ok, json_expanded_from, json_settings_ok, settings_expand,
    settings_from, SettingsDoc, WsSettings,
};
use crate::text::joined;
use crate::context::put_all;
use crate::vars::{map_entries, map_insert, map_new, put, Entries};
use crate::workspace::{join, join_path, ws_path, WsSettingsHandler};

verus! {

/// Where a build config comes from.
pub enum ConfigSource {
    /// The file at this path.
    File(String),
    /// The built-in configuration for listing.
    Dummy,
}

/// The message for a build config that cannot be found.
pub open spec fn no_config_msg(name: Seq<char>) -> Seq<char> {
    "No such build config: '"@ + name + ".json"@ + "' does not exist!"@
}

/// The settings document that holds only a version: every other member takes its default.
pub open spec fn default_doc(d: SettingsDoc) -> bool {
    &&& d.version matches TextField::Text(v) && v@ == "6"@
    &&& d.configs_dir is Absent
    &&& d.include_dir is Absent
    &&& d.builds_dir is Absent
    &&& d.artifacts_dir is Absent
    &&& d.layers_dir is Absent
    &&& d.scripts_dir is Absent
    &&& d.docker_dir is Absent
    &&& d.cache_dir is Absent
    &&& d.mode is Absent
    &&& d.docker_disabled is Absent
    &&& d.docker_image is Absent
    &&& d.docker_tag is Absent
    &&& d.docker_registry is Absent
    &&& d.docker_top_dir is Absent
    &&& d.docker_work_dir is Absent
    &&& d.supported is Absent
    &&& d.docker_args is Absent
}

/// The variables known before any build config is loaded, as set in order;
/// those that a build config defines are present and empty.
pub open spec fn default_vars(work_dir: Seq<char>, home_cfg_dir: Seq<char>) -> Entries {
    let e = Seq::empty();
    let e = put(e, "BKRY_OPT_DIR"@, BkryConstants::OPT_DIR@);
    let e = put(e, "BKRY_OPT_SCRIPTS_DIR"@, BkryConstants::OPT_SCRIPTS_DIR@);
    let e = put(e, "BKRY_CFG_DIR"@, BkryConstants::CFG_DIR@);
    let e = put(e, "BKRY_BIN_DIR"@, BkryConstants::BIN_DIR@);
    let e = put(e, "BKRY_HOME_CFG_DIR"@, home_cfg_dir);
    let e = put(e, "BKRY_WORK_DIR"@, work_dir);
    let e = put(e, "BKRY_WORKSPACE_DIR"@, work_dir);
    let e = put(e, "BKRY_MACHINE"@, ""@);
    let e = put(e, "BKRY_ARCH"@, ""@);
    let e = put(e, "BKRY_DISTRO"@, ""@);
    let e = put(e, "BKRY_PRODUCT_NAME"@, ""@);
    let e = put(e, "BKRY_NAME"@, ""@);
    let e = put(e, "BKRY_CONFIG_NAME"@, ""@);
    let e = put(e, "BKRY_BUILD_CONFIG"@, ""@);
    let e = put(e, "BKRY_PROJECT_NAME"@, ""@);
    let e = put(e, "BKRY_BB_BUILD_DIR"@, ""@);
    let e = put(e, "BKRY_BB_DEPLOY_DIR"@, ""@);
    let e = put(e, "BKRY_ARTIFACTS_DIR"@, ""@);
    let e = put(e, "BKRY_LAYERS_DIR"@, ""@);
    let e = put(e, "BKRY_SCRIPTS_DIR"@, ""@);
    let e = put(e, "BKRY_BUILDS_DIR"@, ""@);
    let e = put(e, "BKRY_PLATFORM_VERSION"@, ""@);
    let e = put(e, "BKRY_PLATFORM_RELEASE"@, ""@);
    let e = put(e, "BKRY_BUILD_ID"@, ""@);
    let e = put(e, "BKRY_BRANCH"@, ""@);
    e
}

/// The context entries known before any build config is loaded.
pub open spec fn default_entries(work_dir: Seq<char>, home_cfg_dir: Seq<char>) -> Entries {
    put_all(Seq::empty(), default_vars(work_dir, home_cfg_dir))
}

/// The variables that a build config defines, but its name.
pub open spec fn config_vars(arch: Seq<char>, machine: Seq<char>, name: Seq<char>) -> Entries {
    let e = Seq::empty();
    let e = put(e, "BKRY_ARCH"@, arch);
    let e = put(e, "BKRY_MACHINE"@, machine);
    let e = put(e, "BKRY_PRODUCT_NAME"@, name);
    put(e, "BKRY_CONFIG_NAME"@, name)
}

/// The context entries for the second-pass expansion of a build config:
/// the defaults, then the config's variables, then its name.
pub open spec fn config_entries(
    work_dir: Seq<char>,
    home_cfg_dir: Seq<char>,
    arch: Seq<char>,
    machine: Seq<char>,
    name: Seq<char>,
) -> Entries {
    put_all(
        put_all(default_entries(work_dir, home_cfg_dir), config_vars(arch, machine, name)),
        put(Seq::empty(), "BKRY_NAME"@, name),
    )
}

fn put_var(m: &mut IndexMap<String, String>, k: &str, v: &str)
    ensures
        map_entries(*final(m)) == put(map_entries(*old(m)), k@, v@),
{
    map_insert(m, String::from_str(k), String::from_str(v));
}

/// The variables known before any build config is loaded; those that a build
/// config defines are present and empty, so that a reference to them is left
/// as written.
fn default_context_vars(work_dir: &str, home_cfg_dir: &str) -> (r: IndexMap<String, String>)
    ensures
        map_entries(r) == default_vars(work_dir@, home_cfg_dir@),
{
    let mut m = map_new();
    put_var(&mut m, "BKRY_OPT_DIR", BkryConstants::OPT_DIR);
    put_var(&mut m, "BKRY_OPT_SCRIPTS_DIR", BkryConstants::OPT_SCRIPTS_DIR);
    put_var(&mut m, "BKRY_CFG_DIR", BkryConstants::CFG_DIR);
    put_var(&mut m, "BKRY_BIN_DIR", BkryConstants::BIN_DIR);
    put_var(&mut m, "BKRY_HOME_CFG_DIR", home_cfg_dir);
    put_var(&mut m, "BKRY_WORK_DIR", work_dir);
    put_var(&mut m, "BKRY_WORKSPACE_DIR", work_dir);
    put_var(&mut m, "BKRY_MACHINE", "");
    put_var(&mut m, "BKRY_ARCH", "");
    put_var(&mut m, "BKRY_DISTRO", "");
    put_var(&mut m, "BKRY_PRODUCT_NAME", "");
    put_var(&mut m, "BKRY_NAME", "");
    put_var(&mut m, "BKRY_CONFIG_NAME", "");
    put_var(&mut m, "BKRY_BUILD_CONFIG", "");
    put_var(&mut m, "BKRY_PROJECT_NAME", "");
    put_var(&mut m, "BKRY_BB_BUILD_DIR", "");
    put_var(&mut m, "BKRY_BB_DEPLOY_DIR", "");
    put_var(&mut m, "BKRY_ARTIFACTS_DIR", "");
    put_var(&mut m, "BKRY_LAYERS_DIR", "");
    put_var(&mut m, "BKRY_SCRIPTS_DIR", "");
    put_var(&mut m, "BKRY_BUILDS_DIR", "");
    put_var(&mut m, "BKRY_PLATFORM_VERSION", "");
    put_var(&mut m, "BKRY_PLATFORM_RELEASE", "");
    put_var(&mut m, "BKRY_BUILD_ID", "");
    put_var(&mut m, "BKRY_BRANCH", "");
    m
}

/// A composed build config: its data, the settings expanded against it, and
/// the context that expanded them.
pub struct WsBuildConfigHandler {
    data: WsBuildData,
    settings: WsSettingsHandler,
    context: Context,
}

impl WsBuildConfigHandler {
    pub closed spec fn spec_data(&self) -> WsBuildData {
        self.data
    }

    pub closed spec fn spec_settings(&self) -> WsSettingsHandler {
        self.settings
    }

    pub closed spec fn spec_context(&self) -> Context {
        self.context
    }

    pub fn build_data(&self) -> (r: &WsBuildData)
        ensures
            *r == self.spec_data(),
    {
        &self.data
    }

    pub fn settings(&self) -> (r: &WsSettingsHandler)
        ensures
            *r == self.spec_settings(),
    {
        &self.settings
    }

    pub fn context(&self) -> (r: &Context)
        ensures
            *r == self.spec_context(),
    {
        &self.context
    }

    pub fn tasks(&self) -> (r: &Vec<WsTask>)
        ensures
            r@ == self.spec_data().tasks@,
    {
        &self.data.tasks
    }

    pub fn subcmds(&self) -> (r: &Vec<WsSubCmd>)
        ensures
            r@ == self.spec_data().subcmds@,
    {
        &self.data.subcmds
    }

    /// Where `t` builds: its own dir under the work dir, or the product's dir
    /// under the builds dir.
    pub fn task_build_dir(&self, t: &WsTask) -> (r: String)
        ensures
            r@ == task_dir(
                *t,
                self.spec_data().name@,
                self.spec_settings().spec_work_dir(),
                ws_path(
                    self.spec_settings().spec_work_dir(),
                    self.spec_settings().spec_settings().builds_dir@,
                ),
            ),
    {
        if t.build_dir.as_str().unicode_len() == 0 {
            let builds = self.settings.builds_dir();
            join(builds.as_str(), self.data.name.as_str())
        } else {
            let work = self.settings.work_dir();
            join(work.as_str(), t.build_dir.as_str())
        }
    }
}

/// Finds the workspace settings and the build configs, and composes them.
pub struct WsConfigFileHandler {
    work_dir: String,
    bkry_home_cfg_dir: String,
    bkry_cfg_dir: String,
}

impl WsConfigFileHandler {
    pub closed spec fn spec_work_dir(&self) -> Seq<char> {
        self.work_dir@
    }

    pub closed spec fn spec_home_cfg_dir(&self) -> Seq<char> {
        self.bkry_home_cfg_dir@
    }

    pub closed spec fn spec_cfg_dir(&self) -> Seq<char> {
        self.bkry_cfg_dir@
    }

    /// The places searched, in order, for `workspace.json`.
    pub open spec fn spec_settings_paths(&self) -> Seq<Seq<char>> {
        seq![
            join_path(self.spec_work_dir(), "workspace.json"@),
            join_path(self.spec_home_cfg_dir(), "workspace.json"@),
            join_path(self.spec_cfg_dir(), "workspace.json"@),
        ]
    }

    /// A handler for the work dir and home dir given.
    pub fn new(work_dir: &str, home_dir: &str) -> (r: Self)
        ensures
            r.spec_work_dir() == work_dir@,
            r.spec_home_cfg_dir() == join_path(home_dir@, ".bakery"@),
            r.spec_cfg_dir() == "/etc/bakery"@,
    {
        WsConfigFileHandler {
            work_dir: String::from_str(work_dir),
            bkry_home_cfg_dir: join(home_dir, ".bakery"),
            bkry_cfg_dir: String::from_str("/etc/bakery"),
        }
    }

    /// The places searched for `workspace.json`: the work dir, then
    /// `~/.bakery`, then `/etc/bakery`.
    pub fn settings_paths(&self) -> (r: Vec<String>)
        ensures
            r@.len() == 3,
            forall|i: int| 0 <= i < 3 ==> r@[i]@ == self.spec_settings_paths()[i],
    {
        let mut r: Vec<String> = Vec::new();
        r.push(join(self.work_dir.as_str(), BkryConstants::WS_SETTINGS));
        r.push(join(self.bkry_home_cfg_dir.as_str(), BkryConstants::WS_SETTINGS));
        r.push(join(self.bkry_cfg_dir.as_str(), BkryConstants::WS_SETTINGS));
        proof {
            reveal_strlit("workspace.json");
        }
        r
    }

    /// Which of the searched places to read: the first that exists, given
    /// whether each exists, in search order.
    pub fn settings_choice(exists: &Vec<bool>) -> (r: Option<usize>)
        ensures
            r matches Some(i) ==> i < exists@.len() && exists@[i as int] && forall|j: int|
                0 <= j < i ==> !exists@[j],
            r is None ==> forall|j: int| 0 <= j < exists@.len() ==> !exists@[j],
    {
        let mut i: usize = 0;
        while i < exists.len()
            invariant
                i <= exists@.len(),
                forall|j: int| 0 <= j < i ==> !exists@[j],
            decreases exists@.len() - i,
        {
            if exists[i] {
                return Some(i);
            }
            i = i + 1;
        }
        None
    }

    /// Fails with the missing-workspace error where none of the searched places
    /// holds `workspace.json`.
    pub fn verify_ws(&self, exists: &Vec<bool>) -> (r: Result<(), BError>)
        ensures
            r is Ok <==> exists|j: int| 0 <= j < exists@.len() && exists@[j],
            r matches Err(e) ==> e is InvalidWorkspaceError,
    {
        match WsConfigFileHandler::settings_choice(exists) {
            Some(_) => Ok(()),
            None => Err(BError::InvalidWorkspaceError),
        }
    }

    /// The settings of the workspace: those read from `loaded` (the path and
    /// text of the first settings file found), with their first-pass expansion,
    /// or the defaults where no file was found.
    pub fn ws_settings(&self, loaded: Option<(String, String)>) -> (r: Result<WsSettingsHandler, BError>)
        ensures
            loaded is None ==> (r matches Ok(h) && h.wf() && h.spec_work_dir() == self.spec_work_dir()
                && exists|d: SettingsDoc| default_doc(d) && settings_from(d, h.spec_settings())),
            r matches Ok(h) ==> h.wf() && h.spec_work_dir() == self.spec_work_dir(),
            loaded matches Some(l) ==> (r is Ok <==> (parsed(l.1@) matches Some(j) && json_settings_ok(j)
                && json_expand_ok(default_entries(self.spec_work_dir(), self.spec_home_cfg_dir()), j))),
            loaded matches Some(l) ==> (r matches Ok(h) ==> h.spec_path() == l.0@ && json_expanded_from(
                default_entries(self.spec_work_dir(), self.spec_home_cfg_dir()),
                parsed(l.1@).unwrap(),
                h.spec_settings(),
            )),
    {
        match loaded {
            Some((path, text)) => {
                let settings = WsSettings::from_str(text.as_str())?;
                let mut handler = WsSettingsHandler::new(self.work_dir.clone(), settings, Some(path));
                let vars = default_context_vars(self.work_dir.as_str(), self.bkry_home_cfg_dir.as_str());
                let ctx = Context::new(&vars);
                match handler.expand_ctx(&ctx) {
                    Ok(()) => Ok(handler),
                    Err(e) => Err(e),
                }
            },
            None => {
                let doc = SettingsDoc {
                    version: TextField::Text(String::from_str("6")),
                    configs_dir: TextField::Absent,
                    include_dir: TextField::Absent,
                    builds_dir: TextField::Absent,
                    artifacts_dir: TextField::Absent,
                    layers_dir: TextField::Absent,
                    scripts_dir: TextField::Absent,
                    docker_dir: TextField::Absent,
                    cache_dir: TextField::Absent,
                    mode: TextField::Absent,
                    docker_disabled: TextField::Absent,
                    docker_image: TextField::Absent,
                    docker_tag: TextField::Absent,
                    docker_registry: TextField::Absent,
                    docker_top_dir: TextField::Absent,
                    docker_work_dir: TextField::Absent,
                    supported: crate::json::ListField::Absent,
                    docker_args: crate::json::ListField::Absent,
                };
                let settings = WsSettings::from_doc(&doc)?;
                assert(default_doc(doc) && settings_from(doc, settings));
                Ok(WsSettingsHandler::new(self.work_dir.clone(), settings, None))
            },
        }
    }

    /// The two places where the build config `name` may be: the work dir, then
    /// the configs dir.
    pub fn build_config_paths(&self, name: &str, settings: &WsSettingsHandler) -> (r: (String, String))
        ensures
            r.0@ == join_path(settings.spec_work_dir(), name@ + ".json"@),
            r.1@ == join_path(
                ws_path(settings.spec_work_dir(), settings.spec_settings().configs_dir@),
                name@ + ".json"@,
            ),
    {
        let file = joined(name, ".json");
        let work = settings.work_dir();
        let configs = settings.configs_dir();
        (join(work.as_str(), file.as_str()), join(configs.as_str(), file.as_str()))
    }

    /// Where the build config `name` comes from, given whether it is in the
    /// work dir and whether it is in the configs dir: the first of these, else
    /// the built-in listing config for `NA`, else an error naming the file.
    pub fn build_config(
        &self,
        name: &str,
        settings: &WsSettingsHandler,
        in_work_dir: bool,
        in_configs_dir: bool,
    ) -> (r: Result<ConfigSource, BError>)
        ensures
            in_work_dir ==> (r matches Ok(ConfigSource::File(p)) && p@ == join_path(
                settings.spec_work_dir(),
                name@ + ".json"@,
            )),
            !in_work_dir && in_configs_dir ==> (r matches Ok(ConfigSource::File(p)) && p@ == join_path(
                ws_path(settings.spec_work_dir(), settings.spec_settings().configs_dir@),
                name@ + ".json"@,
            )),
            !in_work_dir && !in_configs_dir && name@ == "NA"@ ==> r matches Ok(ConfigSource::Dummy),
            !in_work_dir && !in_configs_dir && name@ != "NA"@ ==> (r matches Err(BError::ValueError(m))
                && m@ == no_config_msg(name@)),
    {
        let (in_work, in_configs) = self.build_config_paths(name, settings);
        if in_work_dir {
            return Ok(ConfigSource::File(in_work));
        }
        if in_configs_dir {
            return Ok(ConfigSource::File(in_configs));
        }
        if crate::text::same_text(name, "NA") {
            return Ok(ConfigSource::Dummy);
        }
        let a = joined("No such build config: '", name);
        let b = joined(a.as_str(), ".json");
        Err(BError::ValueError(joined(b.as_str(), "' does not exist!")))
    }

    /// The files of the fragments that `main` includes, in order, under the
    /// includes dir.
    pub fn include_paths(&self, main: &WsBuildData, settings: &WsSettingsHandler) -> (r: Vec<String>)
        ensures
            r@.len() == main.includes@.len(),
            forall|i: int| 0 <= i < r@.len() ==> r@[i]@ == join_path(
                ws_path(settings.spec_work_dir(), settings.spec_settings().include_dir@),
                main.includes@[i]@ + ".json"@,
            ),
    {
        let dir = settings.include_dir();
        let mut r: Vec<String> = Vec::new();
        let mut i: usize = 0;
        while i < main.includes.len()
            invariant
                i <= main.includes@.len(),
                r@.len() == i,
                dir@ == ws_path(settings.spec_work_dir(), settings.spec_settings().include_dir@),
                forall|j: int| 0 <= j < i ==> r@[j]@ == join_path(dir@, main.includes@[j]@ + ".json"@),
            decreases main.includes@.len() - i,
        {
            let file = joined(main.includes[i].as_str(), ".json");
            r.push(join(dir.as_str(), file.as_str()));
            i = i + 1;
        }
        r
    }

    /// Composes the build config: folds the fragments into `main` in order,
    /// then expands a copy of the settings against a context that knows the
    /// build config's own variables.
    pub fn setup_build_config(
        &self,
        main: WsBuildData,
        fragments: &Vec<WsBuildData>,
        settings: &WsSettingsHandler,
    ) -> (r: Result<WsBuildConfigHandler, BError>)
        requires
            settings.wf(),
        ensures
            r is Ok <==> settings_expand(
                config_entries(
                    self.spec_work_dir(),
                    self.spec_home_cfg_dir(),
                    main.arch@,
                    main.machine@,
                    main.name@,
                ),
                settings.spec_settings(),
            ),
            r matches Err(err) ==> (first_failure(
                config_entries(
                    self.spec_work_dir(),
                    self.spec_home_cfg_dir(),
                    main.arch@,
                    main.machine@,
                    main.name@,
                ),
                settings.spec_settings(),
            ) matches Some(f) && err matches BError::CtxKeyError(m) && m@ == failure_msg(f)),
            r matches Ok(c) ==> {
                &&& c.spec_context().entries() == config_entries(
                    self.spec_work_dir(),
                    self.spec_home_cfg_dir(),
                    main.arch@,
                    main.machine@,
                    main.name@,
                )
                &&& same_header(c.spec_data(), main)
                &&& c.spec_data().tasks@ == tasks_after(main.tasks@, fragments@)
                &&& c.spec_data().subcmds@ == subcmds_after(main.subcmds@, fragments@)
                &&& c.spec_context().spec_value("BKRY_NAME"@) == Some(main.name@)
                &&& c.spec_settings().wf()
                &&& c.spec_settings().spec_work_dir() == settings.spec_work_dir()
                &&& expanded_settings(
                    c.spec_context().entries(),
                    settings.spec_settings(),
                    c.spec_settings().spec_settings(),
                )
            },
    {
        let data = main.compose(fragments);
        let vars = default_context_vars(self.work_dir.as_str(), self.bkry_home_cfg_dir.as_str());
        let mut ctx = Context::new(&vars);
        let mut config_vars = map_new();
        put_var(&mut config_vars, "BKRY_ARCH", data.arch.as_str());
        put_var(&mut config_vars, "BKRY_MACHINE", data.machine.as_str());
        put_var(&mut config_vars, "BKRY_PRODUCT_NAME", data.name.as_str());
        put_var(&mut config_vars, "BKRY_CONFIG_NAME", data.name.as_str());
        ctx.update(&config_vars);
        let mut name_var = map_new();
        put_var(&mut name_var, "BKRY_NAME", data.name.as_str());
        let ghost before = ctx.entries();
        ctx.update(&name_var);
        proof {
            let added = map_entries(name_var);
            let empty = Seq::<(Seq<char>, Seq<char>)>::empty();
            assert(crate::vars::index_of(empty, "BKRY_NAME"@) == -1);
            assert(added == empty.push(("BKRY_NAME"@, data.name@)));
            assert(added.drop_last() =~= empty);
            assert(added.last() == ("BKRY_NAME"@, data.name@));
            crate::vars::lemma_put(before, crate::text::lower_of("BKRY_NAME"@), data.name@);
            assert(put_all(before, added.drop_last()) == before);
            assert(ctx.entries() == put(before, crate::text::lower_of("BKRY_NAME"@), data.name@));
        }
        let mut expanded = settings.copy();
        if let Err(e) = expanded.expand_ctx(&ctx) {
            return Err(e);
        }
        Ok(WsBuildConfigHandler { data, settings: expanded, context: ctx })
    }

    /// The built-in configuration for listing, with the settings as they are.
    pub fn dummy_build_config(&self, settings: &WsSettingsHandler) -> (r: WsBuildConfigHandler)
        ensures
            r.spec_data().name@ == "all"@,
            r.spec_data().arch@ == "NA"@,
            r.spec_data().tasks@.len() == 0,
            r.spec_data().subcmds@.len() == 0,
    {
        let vars = default_context_vars(self.work_dir.as_str(), self.bkry_home_cfg_dir.as_str());
        WsBuildConfigHandler { data: WsBuildData::dummy(), settings: settings.copy(), context: Context::new(&vars) }
    }
}

} // verus!
