use vstd::prelude::*;

use crate::constants::BkryConstants;
use crate::context::{expansion, failure_msg, Context, ExpandFailure};
use crate::error::BError;
use crate::json::{
    items_or_none, items_value, lf_view, list_member, obj_get, parse_value, parsed, read_list, read_text,
    text_member, text_or, tf_view, value_or, Json, ListField, TextField,
};
use crate::text::joined;

verus! {

/// The raw workspace settings: directory names, container image and flags, as
/// written in `workspace.json`, possibly holding template references.
pub struct WsSettings {
    pub version: String,
    pub configs_dir: String,
    pub include_dir: String,
    pub builds_dir: String,
    pub artifacts_dir: String,
    pub layers_dir: String,
    pub scripts_dir: String,
    pub docker_dir: String,
    pub cache_dir: String,
    pub mode: String,
    pub docker_disabled: String,
    pub docker_image: String,
    pub docker_tag: String,
    pub docker_registry: String,
    pub docker_top_dir: String,
    pub docker_work_dir: String,
    pub supported: Vec<String>,
    pub docker_args: Vec<String>,
}

/// The members of a settings document that the settings read, as found.
pub struct SettingsDoc {
    pub version: TextField,
    pub configs_dir: TextField,
    pub include_dir: TextField,
    pub builds_dir: TextField,
    pub artifacts_dir: TextField,
    pub layers_dir: TextField,
    pub scripts_dir: TextField,
    pub docker_dir: TextField,
    pub cache_dir: TextField,
    pub mode: TextField,
    pub docker_disabled: TextField,
    pub docker_image: TextField,
    pub docker_tag: TextField,
    pub docker_registry: TextField,
    pub docker_top_dir: TextField,
    pub docker_work_dir: TextField,
    pub supported: ListField,
    pub docker_args: ListField,
}

/// Every member of the document is usable, and the version is given.
pub open spec fn doc_ok(d: SettingsDoc) -> bool {
    &&& d.version is Text
    &&& text_or(d.configs_dir, "configs"@) is Some
    &&& text_or(d.include_dir, "configs/include"@) is Some
    &&& text_or(d.builds_dir, "builds"@) is Some
    &&& text_or(d.artifacts_dir, "artifacts"@) is Some
    &&& text_or(d.layers_dir, "layers"@) is Some
    &&& text_or(d.scripts_dir, "scripts"@) is Some
    &&& text_or(d.docker_dir, "docker"@) is Some
    &&& text_or(d.cache_dir, ".cache"@) is Some
    &&& text_or(d.mode, "default"@) is Some
    &&& text_or(d.docker_disabled, "false"@) is Some
    &&& text_or(d.docker_image, BkryConstants::DOCKER_IMAGE@) is Some
    &&& text_or(d.docker_tag, BkryConstants::DOCKER_TAG@) is Some
    &&& text_or(d.docker_registry, BkryConstants::DOCKER_REGISTRY@) is Some
    &&& text_or(d.docker_top_dir, ""@) is Some
    &&& text_or(d.docker_work_dir, ""@) is Some
    &&& items_or_none(d.supported) is Some
    &&& items_or_none(d.docker_args) is Some
}

/// `s` holds what the document gives, with the defaults for absent members.
pub open spec fn settings_from(d: SettingsDoc, s: WsSettings) -> bool {
    &&& d.version matches TextField::Text(v) && s.version@ == v@
    &&& text_or(d.configs_dir, "configs"@) == Some(s.configs_dir@)
    &&& text_or(d.include_dir, "configs/include"@) == Some(s.include_dir@)
    &&& text_or(d.builds_dir, "builds"@) == Some(s.builds_dir@)
    &&& text_or(d.artifacts_dir, "artifacts"@) == Some(s.artifacts_dir@)
    &&& text_or(d.layers_dir, "layers"@) == Some(s.layers_dir@)
    &&& text_or(d.scripts_dir, "scripts"@) == Some(s.scripts_dir@)
    &&& text_or(d.docker_dir, "docker"@) == Some(s.docker_dir@)
    &&& text_or(d.cache_dir, ".cache"@) == Some(s.cache_dir@)
    &&& text_or(d.mode, "default"@) == Some(s.mode@)
    &&& text_or(d.docker_disabled, "false"@) == Some(s.docker_disabled@)
    &&& text_or(d.docker_image, BkryConstants::DOCKER_IMAGE@) == Some(s.docker_image@)
    &&& text_or(d.docker_tag, BkryConstants::DOCKER_TAG@) == Some(s.docker_tag@)
    &&& text_or(d.docker_registry, BkryConstants::DOCKER_REGISTRY@) == Some(s.docker_registry@)
    &&& text_or(d.docker_top_dir, ""@) == Some(s.docker_top_dir@)
    &&& text_or(d.docker_work_dir, ""@) == Some(s.docker_work_dir@)
    &&& items_or_none(d.supported) == Some(s.supported.deep_view())
    &&& items_or_none(d.docker_args) == Some(s.docker_args.deep_view())
}

/// `a` is a copy of `b`.
pub open spec fn settings_copy(a: WsSettings, b: WsSettings) -> bool {
    &&& a.version == b.version
    &&& a.configs_dir == b.configs_dir
    &&& a.include_dir == b.include_dir
    &&& a.builds_dir == b.builds_dir
    &&& a.artifacts_dir == b.artifacts_dir
    &&& a.layers_dir == b.layers_dir
    &&& a.scripts_dir == b.scripts_dir
    &&& a.docker_dir == b.docker_dir
    &&& a.cache_dir == b.cache_dir
    &&& a.mode == b.mode
    &&& a.docker_disabled == b.docker_disabled
    &&& a.docker_image == b.docker_image
    &&& a.docker_tag == b.docker_tag
    &&& a.docker_registry == b.docker_registry
    &&& a.docker_top_dir == b.docker_top_dir
    &&& a.docker_work_dir == b.docker_work_dir
    &&& a.supported.deep_view() == b.supported.deep_view()
    &&& a.docker_args.deep_view() == b.docker_args.deep_view()
}

/// `n` is `o` with the templated fields expanded against `e`.
pub open spec fn expanded_settings(e: crate::vars::Entries, o: WsSettings, n: WsSettings) -> bool {
    &&& n.version == o.version
    &&& n.layers_dir == o.layers_dir
    &&& n.mode == o.mode
    &&& n.docker_disabled == o.docker_disabled
    &&& n.supported.deep_view() == o.supported.deep_view()
    &&& n.docker_args.deep_view() == o.docker_args.deep_view()
    &&& expansion(e, o.configs_dir@) matches Ok(t) && n.configs_dir@ == t
    &&& expansion(e, o.include_dir@) matches Ok(t) && n.include_dir@ == t
    &&& expansion(e, o.builds_dir@) matches Ok(t) && n.builds_dir@ == t
    &&& expansion(e, o.artifacts_dir@) matches Ok(t) && n.artifacts_dir@ == t
    &&& expansion(e, o.scripts_dir@) matches Ok(t) && n.scripts_dir@ == t
    &&& expansion(e, o.docker_dir@) matches Ok(t) && n.docker_dir@ == t
    &&& expansion(e, o.cache_dir@) matches Ok(t) && n.cache_dir@ == t
    &&& expansion(e, o.docker_tag@) matches Ok(t) && n.docker_tag@ == t
    &&& expansion(e, o.docker_image@) matches Ok(t) && n.docker_image@ == t
    &&& expansion(e, o.docker_registry@) matches Ok(t) && n.docker_registry@ == t
    &&& expansion(e, o.docker_top_dir@) matches Ok(t) && n.docker_top_dir@ == t
    &&& expansion(e, o.docker_work_dir@) matches Ok(t) && n.docker_work_dir@ == t
}

/// Every templated field of `o` expands against `e`.
pub open spec fn settings_expand(e: crate::vars::Entries, o: WsSettings) -> bool {
    &&& expansion(e, o.configs_dir@) is Ok
    &&& expansion(e, o.include_dir@) is Ok
    &&& expansion(e, o.builds_dir@) is Ok
    &&& expansion(e, o.artifacts_dir@) is Ok
    &&& expansion(e, o.scripts_dir@) is Ok
    &&& expansion(e, o.docker_dir@) is Ok
    &&& expansion(e, o.cache_dir@) is Ok
    &&& expansion(e, o.docker_tag@) is Ok
    &&& expansion(e, o.docker_image@) is Ok
    &&& expansion(e, o.docker_registry@) is Ok
    &&& expansion(e, o.docker_top_dir@) is Ok
    &&& expansion(e, o.docker_work_dir@) is Ok
}

/// `d` records the members of the document `j`.
pub open spec fn doc_matches(d: SettingsDoc, j: Json) -> bool {
    &&& tf_view(d.version) == text_member(Some(j), "version"@)
    &&& tf_view(d.configs_dir) == text_member(obj_get(j, "workspace"@), "configsdir"@)
    &&& tf_view(d.include_dir) == text_member(obj_get(j, "workspace"@), "includedir"@)
    &&& tf_view(d.builds_dir) == text_member(obj_get(j, "workspace"@), "buildsdir"@)
    &&& tf_view(d.artifacts_dir) == text_member(obj_get(j, "workspace"@), "artifactsdir"@)
    &&& tf_view(d.layers_dir) == text_member(obj_get(j, "workspace"@), "layersdir"@)
    &&& tf_view(d.scripts_dir) == text_member(obj_get(j, "workspace"@), "scriptsdir"@)
    &&& tf_view(d.docker_dir) == text_member(obj_get(j, "workspace"@), "dockerdir"@)
    &&& tf_view(d.cache_dir) == text_member(obj_get(j, "workspace"@), "cachedir"@)
    &&& tf_view(d.mode) == text_member(obj_get(j, "workspace"@), "mode"@)
    &&& tf_view(d.docker_disabled) == text_member(obj_get(j, "docker"@), "disabled"@)
    &&& tf_view(d.docker_image) == text_member(obj_get(j, "docker"@), "image"@)
    &&& tf_view(d.docker_tag) == text_member(obj_get(j, "docker"@), "tag"@)
    &&& tf_view(d.docker_registry) == text_member(obj_get(j, "docker"@), "registry"@)
    &&& tf_view(d.docker_top_dir) == text_member(obj_get(j, "docker"@), "topdir"@)
    &&& tf_view(d.docker_work_dir) == text_member(obj_get(j, "docker"@), "workdir"@)
    &&& lf_view(d.supported) == list_member(obj_get(j, "builds"@), "supported"@)
    &&& lf_view(d.docker_args) == list_member(obj_get(j, "docker"@), "args"@)
}

/// The document `j` gives usable settings: a version, and each member usable.
pub open spec fn json_settings_ok(j: Json) -> bool {
    &&& text_member(Some(j), "version"@) matches Some(Some(_))
    &&& value_or(text_member(obj_get(j, "workspace"@), "configsdir"@), "configs"@) is Some
    &&& value_or(text_member(obj_get(j, "workspace"@), "includedir"@), "configs/include"@) is Some
    &&& value_or(text_member(obj_get(j, "workspace"@), "buildsdir"@), "builds"@) is Some
    &&& value_or(text_member(obj_get(j, "workspace"@), "artifactsdir"@), "artifacts"@) is Some
    &&& value_or(text_member(obj_get(j, "workspace"@), "layersdir"@), "layers"@) is Some
    &&& value_or(text_member(obj_get(j, "workspace"@), "scriptsdir"@), "scripts"@) is Some
    &&& value_or(text_member(obj_get(j, "workspace"@), "dockerdir"@), "docker"@) is Some
    &&& value_or(text_member(obj_get(j, "workspace"@), "cachedir"@), ".cache"@) is Some
    &&& value_or(text_member(obj_get(j, "workspace"@), "mode"@), "default"@) is Some
    &&& value_or(text_member(obj_get(j, "docker"@), "disabled"@), "false"@) is Some
    &&& value_or(text_member(obj_get(j, "docker"@), "image"@), BkryConstants::DOCKER_IMAGE@) is Some
    &&& value_or(text_member(obj_get(j, "docker"@), "tag"@), BkryConstants::DOCKER_TAG@) is Some
    &&& value_or(text_member(obj_get(j, "docker"@), "registry"@), BkryConstants::DOCKER_REGISTRY@) is Some
    &&& value_or(text_member(obj_get(j, "docker"@), "topdir"@), ""@) is Some
    &&& value_or(text_member(obj_get(j, "docker"@), "workdir"@), ""@) is Some
    &&& items_value(list_member(obj_get(j, "builds"@), "supported"@)) is Some
    &&& items_value(list_member(obj_get(j, "docker"@), "args"@)) is Some
}

/// `s` holds what the document `j` gives, with the defaults for absent members.
pub open spec fn json_settings_from(j: Json, s: WsSettings) -> bool {
    &&& text_member(Some(j), "version"@) == Some(Some(s.version@))
    &&& value_or(text_member(obj_get(j, "workspace"@), "configsdir"@), "configs"@) == Some(s.configs_dir@)
    &&& value_or(text_member(obj_get(j, "workspace"@), "includedir"@), "configs/include"@) == Some(s.include_dir@)
    &&& value_or(text_member(obj_get(j, "workspace"@), "buildsdir"@), "builds"@) == Some(s.builds_dir@)
    &&& value_or(text_member(obj_get(j, "workspace"@), "artifactsdir"@), "artifacts"@) == Some(s.artifacts_dir@)
    &&& value_or(text_member(obj_get(j, "workspace"@), "layersdir"@), "layers"@) == Some(s.layers_dir@)
    &&& value_or(text_member(obj_get(j, "workspace"@), "scriptsdir"@), "scripts"@) == Some(s.scripts_dir@)
    &&& value_or(text_member(obj_get(j, "workspace"@), "dockerdir"@), "docker"@) == Some(s.docker_dir@)
    &&& value_or(text_member(obj_get(j, "workspace"@), "cachedir"@), ".cache"@) == Some(s.cache_dir@)
    &&& value_or(text_member(obj_get(j, "workspace"@), "mode"@), "default"@) == Some(s.mode@)
    &&& value_or(text_member(obj_get(j, "docker"@), "disabled"@), "false"@) == Some(s.docker_disabled@)
    &&& value_or(text_member(obj_get(j, "docker"@), "image"@), BkryConstants::DOCKER_IMAGE@) == Some(s.docker_image@)
    &&& value_or(text_member(obj_get(j, "docker"@), "tag"@), BkryConstants::DOCKER_TAG@) == Some(s.docker_tag@)
    &&& value_or(text_member(obj_get(j, "docker"@), "registry"@), BkryConstants::DOCKER_REGISTRY@) == Some(s.docker_registry@)
    &&& value_or(text_member(obj_get(j, "docker"@), "topdir"@), ""@) == Some(s.docker_top_dir@)
    &&& value_or(text_member(obj_get(j, "docker"@), "workdir"@), ""@) == Some(s.docker_work_dir@)
    &&& items_value(list_member(obj_get(j, "builds"@), "supported"@)) == Some(s.supported.deep_view())
    &&& items_value(list_member(obj_get(j, "docker"@), "args"@)) == Some(s.docker_args.deep_view())
}

/// The text the document `j` gives for one member, with its default.
pub open spec fn json_field(j: Json, sec: Seq<char>, key: Seq<char>, default: Seq<char>) -> Seq<char> {
    value_or(text_member(obj_get(j, sec), key), default).unwrap()
}

/// Every templated member of the document `j` expands against `e`.
pub open spec fn json_expand_ok(e: crate::vars::Entries, j: Json) -> bool {
    &&& expansion(e, json_field(j, "workspace"@, "configsdir"@, "configs"@)) is Ok
    &&& expansion(e, json_field(j, "workspace"@, "includedir"@, "configs/include"@)) is Ok
    &&& expansion(e, json_field(j, "workspace"@, "buildsdir"@, "builds"@)) is Ok
    &&& expansion(e, json_field(j, "workspace"@, "artifactsdir"@, "artifacts"@)) is Ok
    &&& expansion(e, json_field(j, "workspace"@, "scriptsdir"@, "scripts"@)) is Ok
    &&& expansion(e, json_field(j, "workspace"@, "dockerdir"@, "docker"@)) is Ok
    &&& expansion(e, json_field(j, "workspace"@, "cachedir"@, ".cache"@)) is Ok
    &&& expansion(e, json_field(j, "docker"@, "tag"@, BkryConstants::DOCKER_TAG@)) is Ok
    &&& expansion(e, json_field(j, "docker"@, "image"@, BkryConstants::DOCKER_IMAGE@)) is Ok
    &&& expansion(e, json_field(j, "docker"@, "registry"@, BkryConstants::DOCKER_REGISTRY@)) is Ok
    &&& expansion(e, json_field(j, "docker"@, "topdir"@, ""@)) is Ok
    &&& expansion(e, json_field(j, "docker"@, "workdir"@, ""@)) is Ok
}

/// `s` holds what the document `j` gives, the templated members expanded against `e`.
pub open spec fn json_expanded_from(e: crate::vars::Entries, j: Json, s: WsSettings) -> bool {
    &&& text_member(Some(j), "version"@) == Some(Some(s.version@))
    &&& expansion(e, json_field(j, "workspace"@, "configsdir"@, "configs"@)) == Ok::<Seq<char>, ExpandFailure>(s.configs_dir@)
    &&& expansion(e, json_field(j, "workspace"@, "includedir"@, "configs/include"@)) == Ok::<Seq<char>, ExpandFailure>(s.include_dir@)
    &&& expansion(e, json_field(j, "workspace"@, "buildsdir"@, "builds"@)) == Ok::<Seq<char>, ExpandFailure>(s.builds_dir@)
    &&& expansion(e, json_field(j, "workspace"@, "artifactsdir"@, "artifacts"@)) == Ok::<Seq<char>, ExpandFailure>(s.artifacts_dir@)
    &&& value_or(text_member(obj_get(j, "workspace"@), "layersdir"@), "layers"@) == Some(s.layers_dir@)
    &&& expansion(e, json_field(j, "workspace"@, "scriptsdir"@, "scripts"@)) == Ok::<Seq<char>, ExpandFailure>(s.scripts_dir@)
    &&& expansion(e, json_field(j, "workspace"@, "dockerdir"@, "docker"@)) == Ok::<Seq<char>, ExpandFailure>(s.docker_dir@)
    &&& expansion(e, json_field(j, "workspace"@, "cachedir"@, ".cache"@)) == Ok::<Seq<char>, ExpandFailure>(s.cache_dir@)
    &&& value_or(text_member(obj_get(j, "workspace"@), "mode"@), "default"@) == Some(s.mode@)
    &&& value_or(text_member(obj_get(j, "docker"@), "disabled"@), "false"@) == Some(s.docker_disabled@)
    &&& expansion(e, json_field(j, "docker"@, "image"@, BkryConstants::DOCKER_IMAGE@)) == Ok::<Seq<char>, ExpandFailure>(s.docker_image@)
    &&& expansion(e, json_field(j, "docker"@, "tag"@, BkryConstants::DOCKER_TAG@)) == Ok::<Seq<char>, ExpandFailure>(s.docker_tag@)
    &&& expansion(e, json_field(j, "docker"@, "registry"@, BkryConstants::DOCKER_REGISTRY@)) == Ok::<Seq<char>, ExpandFailure>(s.docker_registry@)
    &&& expansion(e, json_field(j, "docker"@, "topdir"@, ""@)) == Ok::<Seq<char>, ExpandFailure>(s.docker_top_dir@)
    &&& expansion(e, json_field(j, "docker"@, "workdir"@, ""@)) == Ok::<Seq<char>, ExpandFailure>(s.docker_work_dir@)
    &&& items_value(list_member(obj_get(j, "builds"@), "supported"@)) == Some(s.supported.deep_view())
    &&& items_value(list_member(obj_get(j, "docker"@), "args"@)) == Some(s.docker_args.deep_view())
}

/// Why `t` fails to expand against `e`, if it does.
pub open spec fn failure_of(e: crate::vars::Entries, t: Seq<char>) -> Option<ExpandFailure> {
    match expansion(e, t) {
        Err(x) => Some(x),
        Ok(_) => None,
    }
}

/// The first templated field of `o`, in expansion order, that fails to expand against `e`.
pub open spec fn first_failure(e: crate::vars::Entries, o: WsSettings) -> Option<ExpandFailure> {
    if failure_of(e, o.configs_dir@) is Some {
        failure_of(e, o.configs_dir@)
    } else if failure_of(e, o.include_dir@) is Some {
        failure_of(e, o.include_dir@)
    } else if failure_of(e, o.builds_dir@) is Some {
        failure_of(e, o.builds_dir@)
    } else if failure_of(e, o.artifacts_dir@) is Some {
        failure_of(e, o.artifacts_dir@)
    } else if failure_of(e, o.scripts_dir@) is Some {
        failure_of(e, o.scripts_dir@)
    } else if failure_of(e, o.docker_dir@) is Some {
        failure_of(e, o.docker_dir@)
    } else if failure_of(e, o.cache_dir@) is Some {
        failure_of(e, o.cache_dir@)
    } else if failure_of(e, o.docker_tag@) is Some {
        failure_of(e, o.docker_tag@)
    } else if failure_of(e, o.docker_image@) is Some {
        failure_of(e, o.docker_image@)
    } else if failure_of(e, o.docker_registry@) is Some {
        failure_of(e, o.docker_registry@)
    } else if failure_of(e, o.docker_top_dir@) is Some {
        failure_of(e, o.docker_top_dir@)
    } else if failure_of(e, o.docker_work_dir@) is Some {
        failure_of(e, o.docker_work_dir@)
    } else {
        None
    }
}

/// A field as found, or its default; an error where it is present but not a string.
fn pick(f: &TextField, key: &str, default: &str) -> (r: Result<String, BError>)
    ensures
        r is Ok <==> text_or(*f, default@) is Some,
        r matches Ok(s) ==> text_or(*f, default@) == Some(s@),
{
    match f {
        TextField::Absent => Ok(String::from_str(default)),
        TextField::Text(s) => Ok(s.clone()),
        TextField::Invalid => Err(
            BError::ParseError(joined("Invalid workspace settings: expected a string for ", key)),
        ),
    }
}

/// A list as found, or no items; an error where it is not a list of strings.
fn pick_list(f: &ListField, key: &str) -> (r: Result<Vec<String>, BError>)
    ensures
        r is Ok <==> items_or_none(*f) is Some,
        r matches Ok(v) ==> items_or_none(*f) == Some(v.deep_view()),
{
    match f {
        ListField::Absent => Ok(Vec::new()),
        ListField::Items(v) => {
            let c = v.clone();
            proof {
                vstd::std_specs::vec::vec_clone_deep_view_proof(*v, c);
            }
            Ok(c)
        },
        ListField::Invalid => Err(
            BError::ParseError(joined("Invalid workspace settings: expected a list of strings for ", key)),
        ),
    }
}

/// Moves `src` into `dst` unless both are already the same empty text.
fn take_field(dst: &mut String, src: &mut String)
    ensures
        final(dst)@ == old(src)@,
        final(src)@.len() == 0,
{
    if !(*dst == *src) || src.as_str().unicode_len() != 0 {
        let mut taken = String::new();
        std::mem::swap(&mut taken, src);
        *dst = taken;
    }
}

impl WsSettings {
    /// The settings that a document gives: each member as found, or its default.
    pub fn from_doc(d: &SettingsDoc) -> (r: Result<WsSettings, BError>)
        ensures
            r is Ok <==> doc_ok(*d),
            r matches Ok(s) ==> settings_from(*d, s),
    {
        let version = match &d.version {
            TextField::Text(v) => v.clone(),
            _ => {
                return Err(BError::ParseError(String::from_str("Invalid workspace settings: no version")));
            },
        };
        let configs_dir = pick(&d.configs_dir, "configsdir", "configs")?;
        let include_dir = pick(&d.include_dir, "includedir", "configs/include")?;
        let builds_dir = pick(&d.builds_dir, "buildsdir", "builds")?;
        let artifacts_dir = pick(&d.artifacts_dir, "artifactsdir", "artifacts")?;
        let layers_dir = pick(&d.layers_dir, "layersdir", "layers")?;
        let scripts_dir = pick(&d.scripts_dir, "scriptsdir", "scripts")?;
        let docker_dir = pick(&d.docker_dir, "dockerdir", "docker")?;
        let cache_dir = pick(&d.cache_dir, "cachedir", ".cache")?;
        let mode = pick(&d.mode, "mode", "default")?;
        let docker_disabled = pick(&d.docker_disabled, "disabled", "false")?;
        let docker_image = pick(&d.docker_image, "image", BkryConstants::DOCKER_IMAGE)?;
        let docker_tag = pick(&d.docker_tag, "tag", BkryConstants::DOCKER_TAG)?;
        let docker_registry = pick(&d.docker_registry, "registry", BkryConstants::DOCKER_REGISTRY)?;
        let docker_top_dir = pick(&d.docker_top_dir, "topdir", "")?;
        let docker_work_dir = pick(&d.docker_work_dir, "workdir", "")?;
        let supported = pick_list(&d.supported, "supported")?;
        let docker_args = pick_list(&d.docker_args, "args")?;
        Ok(WsSettings {
            version,
            configs_dir,
            include_dir,
            builds_dir,
            artifacts_dir,
            layers_dir,
            scripts_dir,
            docker_dir,
            cache_dir,
            mode,
            docker_disabled,
            docker_image,
            docker_tag,
            docker_registry,
            docker_top_dir,
            docker_work_dir,
            supported,
            docker_args,
        })
    }

    /// A copy of the settings.
    pub fn clone_settings(&self) -> (r: WsSettings)
        ensures
            r.version == self.version,
            r.configs_dir == self.configs_dir,
            r.include_dir == self.include_dir,
            r.builds_dir == self.builds_dir,
            r.artifacts_dir == self.artifacts_dir,
            r.layers_dir == self.layers_dir,
            r.scripts_dir == self.scripts_dir,
            r.docker_dir == self.docker_dir,
            r.cache_dir == self.cache_dir,
            r.mode == self.mode,
            r.docker_disabled == self.docker_disabled,
            r.docker_image == self.docker_image,
            r.docker_tag == self.docker_tag,
            r.docker_registry == self.docker_registry,
            r.docker_top_dir == self.docker_top_dir,
            r.docker_work_dir == self.docker_work_dir,
            r.supported.deep_view() == self.supported.deep_view(),
            r.docker_args.deep_view() == self.docker_args.deep_view(),
    {
        let supported = self.supported.clone();
        proof {
            vstd::std_specs::vec::vec_clone_deep_view_proof(self.supported, supported);
        }
        let docker_args = self.docker_args.clone();
        proof {
            vstd::std_specs::vec::vec_clone_deep_view_proof(self.docker_args, docker_args);
        }
        WsSettings {
            version: self.version.clone(),
            configs_dir: self.configs_dir.clone(),
            include_dir: self.include_dir.clone(),
            builds_dir: self.builds_dir.clone(),
            artifacts_dir: self.artifacts_dir.clone(),
            layers_dir: self.layers_dir.clone(),
            scripts_dir: self.scripts_dir.clone(),
            docker_dir: self.docker_dir.clone(),
            cache_dir: self.cache_dir.clone(),
            mode: self.mode.clone(),
            docker_disabled: self.docker_disabled.clone(),
            docker_image: self.docker_image.clone(),
            docker_tag: self.docker_tag.clone(),
            docker_registry: self.docker_registry.clone(),
            docker_top_dir: self.docker_top_dir.clone(),
            docker_work_dir: self.docker_work_dir.clone(),
            supported,
            docker_args,
        }
    }

    /// Reads the members of a settings document in JSON text.
    pub fn read_doc(json_string: &str) -> (r: Result<SettingsDoc, BError>)
        ensures
            r is Ok <==> parsed(json_string@) is Some,
            r matches Ok(d) ==> doc_matches(d, parsed(json_string@).unwrap()),
    {
        let data = match parse_value(json_string) {
            Ok(v) => v,
            Err(_) => {
                return Err(BError::ParseError(String::from_str("Invalid workspace settings: not a JSON document")));
            },
        };
        let workspace = crate::json::member(&data, "workspace");
        let builds = crate::json::member(&data, "builds");
        let docker = crate::json::member(&data, "docker");
        Ok(SettingsDoc {
            version: read_text(Some(&data), "version"),
            configs_dir: read_text(workspace.as_ref(), "configsdir"),
            include_dir: read_text(workspace.as_ref(), "includedir"),
            builds_dir: read_text(workspace.as_ref(), "buildsdir"),
            artifacts_dir: read_text(workspace.as_ref(), "artifactsdir"),
            layers_dir: read_text(workspace.as_ref(), "layersdir"),
            scripts_dir: read_text(workspace.as_ref(), "scriptsdir"),
            docker_dir: read_text(workspace.as_ref(), "dockerdir"),
            cache_dir: read_text(workspace.as_ref(), "cachedir"),
            mode: read_text(workspace.as_ref(), "mode"),
            docker_disabled: read_text(docker.as_ref(), "disabled"),
            docker_image: read_text(docker.as_ref(), "image"),
            docker_tag: read_text(docker.as_ref(), "tag"),
            docker_registry: read_text(docker.as_ref(), "registry"),
            docker_top_dir: read_text(docker.as_ref(), "topdir"),
            docker_work_dir: read_text(docker.as_ref(), "workdir"),
            supported: read_list(builds.as_ref(), "supported"),
            docker_args: read_list(docker.as_ref(), "args"),
        })
    }

    /// Parses settings from JSON text.
    pub fn from_str(json_string: &str) -> (r: Result<WsSettings, BError>)
        ensures
            r is Ok <==> (parsed(json_string@) matches Some(j) && json_settings_ok(j)),
            r matches Ok(s) ==> json_settings_from(parsed(json_string@).unwrap(), s),
    {
        let d = WsSettings::read_doc(json_string)?;
        WsSettings::from_doc(&d)
    }

    /// Expands the templated fields against `ctx`; stops at the first that fails.
    pub fn expand_ctx(&mut self, ctx: &Context) -> (r: Result<(), BError>)
        ensures
            r is Ok <==> settings_expand(ctx.entries(), *old(self)),
            r is Ok ==> expanded_settings(ctx.entries(), *old(self), *final(self)),
            r is Ok <==> first_failure(ctx.entries(), *old(self)) is None,
            r matches Err(err) ==> (first_failure(ctx.entries(), *old(self)) matches Some(f)
                && err matches BError::CtxKeyError(m) && m@ == failure_msg(f)),
    {
        match ctx.expand_str(self.configs_dir.as_str()) {
            Ok(v) => {
                self.configs_dir = v;
            },
            Err(err) => {
                return Err(err);
            },
        }
        match ctx.expand_str(self.include_dir.as_str()) {
            Ok(v) => {
                self.include_dir = v;
            },
            Err(err) => {
                return Err(err);
            },
        }
        match ctx.expand_str(self.builds_dir.as_str()) {
            Ok(v) => {
                self.builds_dir = v;
            },
            Err(err) => {
                return Err(err);
            },
        }
        match ctx.expand_str(self.artifacts_dir.as_str()) {
            Ok(v) => {
                self.artifacts_dir = v;
            },
            Err(err) => {
                return Err(err);
            },
        }
        match ctx.expand_str(self.scripts_dir.as_str()) {
            Ok(v) => {
                self.scripts_dir = v;
            },
            Err(err) => {
                return Err(err);
            },
        }
        match ctx.expand_str(self.docker_dir.as_str()) {
            Ok(v) => {
                self.docker_dir = v;
            },
            Err(err) => {
                return Err(err);
            },
        }
        match ctx.expand_str(self.cache_dir.as_str()) {
            Ok(v) => {
                self.cache_dir = v;
            },
            Err(err) => {
                return Err(err);
            },
        }
        match ctx.expand_str(self.docker_tag.as_str()) {
            Ok(v) => {
                self.docker_tag = v;
            },
            Err(err) => {
                return Err(err);
            },
        }
        match ctx.expand_str(self.docker_image.as_str()) {
            Ok(v) => {
                self.docker_image = v;
            },
            Err(err) => {
                return Err(err);
            },
        }
        match ctx.expand_str(self.docker_registry.as_str()) {
            Ok(v) => {
                self.docker_registry = v;
            },
            Err(err) => {
                return Err(err);
            },
        }
        match ctx.expand_str(self.docker_top_dir.as_str()) {
            Ok(v) => {
                self.docker_top_dir = v;
            },
            Err(err) => {
                return Err(err);
            },
        }
        match ctx.expand_str(self.docker_work_dir.as_str()) {
            Ok(v) => {
                self.docker_work_dir = v;
            },
            Err(err) => {
                return Err(err);
            },
        }
        Ok(())
    }

    /// Takes over the fields of `data`, leaving them empty there, and appends its
    /// container arguments to these.
    pub fn merge(&mut self, data: &mut WsSettings)
        ensures
            final(self).version == old(self).version,
            final(self).layers_dir == old(self).layers_dir,
            final(self).mode == old(self).mode,
            final(self).docker_disabled == old(self).docker_disabled,
            final(self).supported == old(self).supported,
            final(self).docker_args@ == old(self).docker_args@ + old(data).docker_args@,
            final(data).docker_args@.len() == 0,
            final(self).configs_dir@ == old(data).configs_dir@,
            final(self).include_dir@ == old(data).include_dir@,
            final(self).builds_dir@ == old(data).builds_dir@,
            final(self).artifacts_dir@ == old(data).artifacts_dir@,
            final(self).scripts_dir@ == old(data).scripts_dir@,
            final(self).docker_dir@ == old(data).docker_dir@,
            final(self).cache_dir@ == old(data).cache_dir@,
            final(self).docker_image@ == old(data).docker_image@,
            final(self).docker_tag@ == old(data).docker_tag@,
            final(self).docker_registry@ == old(data).docker_registry@,
            final(self).docker_top_dir@ == old(data).docker_top_dir@,
            final(self).docker_work_dir@ == old(data).docker_work_dir@,
            final(data).configs_dir@.len() == 0,
            final(data).include_dir@.len() == 0,
            final(data).builds_dir@.len() == 0,
            final(data).artifacts_dir@.len() == 0,
            final(data).scripts_dir@.len() == 0,
            final(data).docker_dir@.len() == 0,
            final(data).cache_dir@.len() == 0,
            final(data).docker_image@.len() == 0,
            final(data).docker_tag@.len() == 0,
            final(data).docker_registry@.len() == 0,
            final(data).docker_top_dir@.len() == 0,
            final(data).docker_work_dir@.len() == 0,
    {
        take_field(&mut self.configs_dir, &mut data.configs_dir);
        take_field(&mut self.include_dir, &mut data.include_dir);
        take_field(&mut self.builds_dir, &mut data.builds_dir);
        take_field(&mut self.artifacts_dir, &mut data.artifacts_dir);
        take_field(&mut self.scripts_dir, &mut data.scripts_dir);
        take_field(&mut self.docker_dir, &mut data.docker_dir);
        take_field(&mut self.cache_dir, &mut data.cache_dir);
        take_field(&mut self.docker_image, &mut data.docker_image);
        take_field(&mut self.docker_tag, &mut data.docker_tag);
        take_field(&mut self.docker_registry, &mut data.docker_registry);
        take_field(&mut self.docker_top_dir, &mut data.docker_top_dir);
        take_field(&mut self.docker_work_dir, &mut data.docker_work_dir);
        self.docker_args.append(&mut data.docker_args);
    }
}

} // verus!
