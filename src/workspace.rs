use vstd::prelude::*;

use crate::context::{failure_msg, Context};
use crate::error::BError;
use crate::json::parsed;
use crate::settings::{
    expanded_settings, first_failure, json_settings_from, json_settings_ok, settings_copy, settings_expand, WsSettings,
};
use crate::text::{joined, same_text};

verus! {

/// The mode a workspace declares.
#[derive(Debug, Clone, Copy, PartialEq, Eq, Structural)]
pub enum Mode {
    DEFAULT,
    SETUP,
    TEST,
}

/// A container image: registry, name and tag.
pub struct DockerImage {
    pub image: String,
    pub tag: String,
    pub registry: String,
}

impl DockerImage {
    /// `registry/image:tag`.
    pub fn to_text(&self) -> (r: String)
        ensures
            r@ == self.registry@ + "/"@ + self.image@ + ":"@ + self.tag@,
    {
        let a = joined(self.registry.as_str(), "/");
        let b = joined(a.as_str(), self.image.as_str());
        let c = joined(b.as_str(), ":");
        joined(c.as_str(), self.tag.as_str())
    }

    /// A copy of the image.
    pub fn copy(&self) -> (r: DockerImage)
        ensures
            r.image == self.image,
            r.tag == self.tag,
            r.registry == self.registry,
    {
        DockerImage { image: self.image.clone(), tag: self.tag.clone(), registry: self.registry.clone() }
    }
}

/// `p` appended to `base` as a path: an absolute `p` replaces `base`, and a
/// separator is put between them where `base` does not end in one.
pub open spec fn join_path(base: Seq<char>, p: Seq<char>) -> Seq<char> {
    if p.len() > 0 && p[0] == '/' {
        p
    } else if base.len() == 0 || base.last() == '/' {
        base + p
    } else {
        base + seq!['/'] + p
    }
}

/// `join_path`, as `PathBuf::push` does it.
pub fn join(base: &str, p: &str) -> (r: String)
    ensures
        r@ == join_path(base@, p@),
{
    let pc = crate::text::chars_of(p);
    if pc.len() > 0 && pc[0] == '/' {
        return String::from_str(p);
    }
    let bc = crate::text::chars_of(base);
    if bc.len() == 0 || bc[bc.len() - 1] == '/' {
        joined(base, p)
    } else {
        let b = joined(base, "/");
        proof {
            reveal_strlit("/");
            assert("/"@ =~= seq!['/']);
        }
        joined(b.as_str(), p)
    }
}

/// A directory of the workspace: the work dir itself for an empty name.
pub open spec fn ws_path(work_dir: Seq<char>, dir: Seq<char>) -> Seq<char> {
    if dir.len() == 0 {
        work_dir
    } else {
        join_path(work_dir, dir)
    }
}

/// The mode that a declared mode name gives.
pub open spec fn mode_of(m: Seq<char>) -> Mode {
    if m == "setup"@ {
        Mode::SETUP
    } else if m == "test"@ {
        Mode::TEST
    } else {
        Mode::DEFAULT
    }
}

/// The message for a directory named in the settings that is not there.
pub open spec fn missing_dir_msg(ws_dir: Seq<char>, dir: Seq<char>) -> Seq<char> {
    "Invalid workspace.json: the directory specified for '"@ + ws_dir + "' does not exist: \""@ + dir
        + "\""@
}

/// The workspace settings, placed in a work directory.
pub struct WsSettingsHandler {
    work_dir: String,
    ws_cfg_path: String,
    ws_settings: WsSettings,
    docker: DockerImage,
}

impl WsSettingsHandler {
    pub closed spec fn spec_work_dir(&self) -> Seq<char> {
        self.work_dir@
    }

    pub closed spec fn spec_path(&self) -> Seq<char> {
        self.ws_cfg_path@
    }

    pub closed spec fn spec_settings(&self) -> WsSettings {
        self.ws_settings
    }

    pub closed spec fn spec_docker(&self) -> DockerImage {
        self.docker
    }

    /// The image follows the settings.
    pub open spec fn wf(&self) -> bool {
        &&& self.spec_docker().image == self.spec_settings().docker_image
        &&& self.spec_docker().tag == self.spec_settings().docker_tag
        &&& self.spec_docker().registry == self.spec_settings().docker_registry
    }

    /// A copy of the handler.
    pub fn copy(&self) -> (r: WsSettingsHandler)
        ensures
            r.wf() == self.wf(),
            r.spec_work_dir() == self.spec_work_dir(),
            r.spec_path() == self.spec_path(),
            settings_copy(r.spec_settings(), self.spec_settings()),
    {
        WsSettingsHandler {
            work_dir: self.work_dir.clone(),
            ws_cfg_path: self.ws_cfg_path.clone(),
            ws_settings: self.ws_settings.clone_settings(),
            docker: self.docker.copy(),
        }
    }

    /// Settings parsed from JSON text, placed in `work_dir`.
    pub fn from_str(work_dir: &str, json_settings: &str, path: Option<String>) -> (r: Result<Self, BError>)
        ensures
            r is Ok <==> (parsed(json_settings@) matches Some(j) && json_settings_ok(j)),
            r matches Ok(h) ==> {
                &&& h.wf()
                &&& h.spec_work_dir() == work_dir@
                &&& json_settings_from(parsed(json_settings@).unwrap(), h.spec_settings())
                &&& h.spec_path() == match path {
                    Some(p) => p@,
                    None => join_path(work_dir@, "workspace.json"@),
                }
            },
    {
        let settings = WsSettings::from_str(json_settings)?;
        Ok(WsSettingsHandler::new(String::from_str(work_dir), settings, path))
    }

    /// Places `settings` in `work_dir`; the settings file is `path`, or
    /// `workspace.json` in the work dir.
    pub fn new(work_dir: String, settings: WsSettings, path: Option<String>) -> (r: Self)
        ensures
            r.wf(),
            r.spec_work_dir() == work_dir@,
            r.spec_settings() == settings,
            r.spec_path() == match path {
                Some(p) => p@,
                None => join_path(work_dir@, "workspace.json"@),
            },
    {
        let docker = DockerImage {
            image: settings.docker_image.clone(),
            tag: settings.docker_tag.clone(),
            registry: settings.docker_registry.clone(),
        };
        let ws_cfg_path = match path {
            Some(p) => p,
            None => join(work_dir.as_str(), "workspace.json"),
        };
        WsSettingsHandler { work_dir, ws_cfg_path, ws_settings: settings, docker }
    }

    /// Fails where the directory named by the setting `ws_dir` is not there.
    pub fn verify_ws_dir(&self, ws_dir: &str, dir: &str, is_dir: bool) -> (r: Result<(), BError>)
        ensures
            r is Ok <==> is_dir,
            r matches Err(e) ==> (e matches BError::WsError(m) && m@ == missing_dir_msg(ws_dir@, dir@)),
    {
        if !is_dir {
            let a = joined("Invalid workspace.json: the directory specified for '", ws_dir);
            let b = joined(a.as_str(), "' does not exist: \"");
            let c = joined(b.as_str(), dir);
            return Err(BError::WsError(joined(c.as_str(), "\"")));
        }
        Ok(())
    }

    /// Fails where the settings file, the configs dir or the scripts dir is missing;
    /// the flags say which of them are there.
    pub fn verify_ws(&self, settings_is_file: bool, configs_is_dir: bool, scripts_is_dir: bool) -> (r: Result<(), BError>)
        ensures
            r is Ok <==> settings_is_file && configs_is_dir && scripts_is_dir,
            !settings_is_file ==> (r matches Err(BError::WsError(m)) && m@
                == "Invalid bakery workspace: 'workspace.json' file not found!"@),
            settings_is_file && !configs_is_dir ==> (r matches Err(BError::WsError(m)) && m@
                == missing_dir_msg("configsdir"@, ws_path(self.spec_work_dir(), self.spec_settings().configs_dir@))),
            settings_is_file && configs_is_dir && !scripts_is_dir ==> (r matches Err(BError::WsError(m)) && m@
                == missing_dir_msg("scriptsdir"@, ws_path(self.spec_work_dir(), self.spec_settings().scripts_dir@))),
    {
        if !settings_is_file {
            return Err(BError::WsError(String::from_str("Invalid bakery workspace: 'workspace.json' file not found!")));
        }
        let configs = self.configs_dir();
        if let Err(e) = self.verify_ws_dir("configsdir", configs.as_str(), configs_is_dir) {
            return Err(e);
        }
        let scripts = self.scripts_dir();
        if let Err(e) = self.verify_ws_dir("scriptsdir", scripts.as_str(), scripts_is_dir) {
            return Err(e);
        }
        Ok(())
    }

    pub fn work_dir(&self) -> (r: String)
        ensures
            r@ == self.spec_work_dir(),
    {
        self.work_dir.clone()
    }

    pub fn workspace_dir(&self) -> (r: String)
        ensures
            r@ == self.spec_work_dir(),
    {
        self.work_dir.clone()
    }

    pub fn config(&self) -> (r: &WsSettings)
        ensures
            *r == self.spec_settings(),
    {
        &self.ws_settings
    }

    /// Where the settings were read from.
    pub fn path(&self) -> (r: &String)
        ensures
            r@ == self.spec_path(),
    {
        &self.ws_cfg_path
    }

    /// A directory of the workspace: `dir` under the work dir.
    pub fn append_dir(&self, dir: &String) -> (r: String)
        ensures
            r@ == ws_path(self.spec_work_dir(), dir@),
    {
        if dir.as_str().unicode_len() == 0 {
            return self.work_dir();
        }
        join(self.work_dir.as_str(), dir.as_str())
    }

    pub fn builds_dir(&self) -> (r: String)
        ensures
            r@ == ws_path(self.spec_work_dir(), self.spec_settings().builds_dir@),
    {
        self.append_dir(&self.ws_settings.builds_dir)
    }

    pub fn cache_dir(&self) -> (r: String)
        ensures
            r@ == ws_path(self.spec_work_dir(), self.spec_settings().cache_dir@),
    {
        self.append_dir(&self.ws_settings.cache_dir)
    }

    pub fn artifacts_dir(&self) -> (r: String)
        ensures
            r@ == ws_path(self.spec_work_dir(), self.spec_settings().artifacts_dir@),
    {
        self.append_dir(&self.ws_settings.artifacts_dir)
    }

    pub fn layers_dir(&self) -> (r: String)
        ensures
            r@ == ws_path(self.spec_work_dir(), self.spec_settings().layers_dir@),
    {
        self.append_dir(&self.ws_settings.layers_dir)
    }

    pub fn configs_dir(&self) -> (r: String)
        ensures
            r@ == ws_path(self.spec_work_dir(), self.spec_settings().configs_dir@),
    {
        self.append_dir(&self.ws_settings.configs_dir)
    }

    pub fn include_dir(&self) -> (r: String)
        ensures
            r@ == ws_path(self.spec_work_dir(), self.spec_settings().include_dir@),
    {
        self.append_dir(&self.ws_settings.include_dir)
    }

    pub fn scripts_dir(&self) -> (r: String)
        ensures
            r@ == ws_path(self.spec_work_dir(), self.spec_settings().scripts_dir@),
    {
        self.append_dir(&self.ws_settings.scripts_dir)
    }

    pub fn docker_dir(&self) -> (r: String)
        ensures
            r@ == ws_path(self.spec_work_dir(), self.spec_settings().docker_dir@),
    {
        self.append_dir(&self.ws_settings.docker_dir)
    }

    /// The top dir mounted into the container: the work dir, or the configured
    /// dir under it.
    pub fn docker_top_dir(&self) -> (r: String)
        ensures
            r@ == ws_path(self.spec_work_dir(), self.spec_settings().docker_top_dir@),
    {
        self.append_dir(&self.ws_settings.docker_top_dir)
    }

    pub fn docker_image(&self) -> (r: DockerImage)
        requires
            self.wf(),
        ensures
            r.image == self.spec_settings().docker_image,
            r.tag == self.spec_settings().docker_tag,
            r.registry == self.spec_settings().docker_registry,
            r.image == self.spec_docker().image,
            r.tag == self.spec_docker().tag,
            r.registry == self.spec_docker().registry,
    {
        self.docker.copy()
    }

    pub fn docker_args(&self) -> (r: &Vec<String>)
        ensures
            *r == self.spec_settings().docker_args,
    {
        &self.ws_settings.docker_args
    }

    /// Containerized execution is off only where the setting reads `true`.
    pub fn docker_disabled(&self) -> (r: bool)
        ensures
            r == (self.spec_settings().docker_disabled@ == "true"@),
    {
        same_text(self.ws_settings.docker_disabled.as_str(), "true")
    }

    /// The declared mode; an unknown name counts as the default.
    pub fn mode(&self) -> (r: Mode)
        ensures
            r == mode_of(self.spec_settings().mode@),
    {
        if same_text(self.ws_settings.mode.as_str(), "setup") {
            Mode::SETUP
        } else if same_text(self.ws_settings.mode.as_str(), "test") {
            Mode::TEST
        } else {
            Mode::DEFAULT
        }
    }

    pub fn supported_builds(&self) -> (r: &Vec<String>)
        ensures
            *r == self.spec_settings().supported,
    {
        &self.ws_settings.supported
    }

    /// Expands the templated settings against `ctx` and takes the image from them.
    pub fn expand_ctx(&mut self, ctx: &Context) -> (r: Result<(), BError>)
        requires
            old(self).wf(),
        ensures
            final(self).wf(),
            final(self).spec_work_dir() == old(self).spec_work_dir(),
            final(self).spec_path() == old(self).spec_path(),
            r is Ok <==> settings_expand(ctx.entries(), old(self).spec_settings()),
            r is Ok ==> expanded_settings(ctx.entries(), old(self).spec_settings(), final(self).spec_settings()),
            r matches Err(err) ==> (first_failure(ctx.entries(), old(self).spec_settings()) matches Some(f)
                && err matches BError::CtxKeyError(m) && m@ == failure_msg(f)),
    {
        let r = self.ws_settings.expand_ctx(ctx);
        self.docker = DockerImage {
            image: self.ws_settings.docker_image.clone(),
            tag: self.ws_settings.docker_tag.clone(),
            registry: self.ws_settings.docker_registry.clone(),
        };
        r
    }

    /// Takes over the settings of `data`, as `WsSettings::merge` does, and the
    /// image with them.
    pub fn _merge(&mut self, data: &mut WsSettingsHandler)
        ensures
            final(self).wf(),
            final(self).spec_work_dir() == old(self).spec_work_dir(),
            final(self).spec_settings().docker_args.deep_view() == old(self).spec_settings().docker_args.deep_view()
                + old(data).spec_settings().docker_args.deep_view(),
            final(self).spec_settings().configs_dir@ == old(data).spec_settings().configs_dir@,
            final(self).spec_settings().docker_image@ == old(data).spec_settings().docker_image@,
    {
        let mut other = data.ws_settings.clone_settings();
        let ghost before = self.ws_settings.docker_args;
        self.ws_settings.merge(&mut other);
        assert(self.ws_settings.docker_args.deep_view() =~= before.deep_view() + data.ws_settings.docker_args.deep_view());
        self.docker = DockerImage {
            image: self.ws_settings.docker_image.clone(),
            tag: self.ws_settings.docker_tag.clone(),
            registry: self.ws_settings.docker_registry.clone(),
        };
    }
}

} // verus!
