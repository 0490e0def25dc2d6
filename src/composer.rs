use vstd::prelude::*;

use crate::error::BError;
use serde_json::Value;

use crate::json::{
    items_value, json_model, keys_of, list_member, member, obj_get, object_of, parse_value, parsed, read_list,
    opt_model, read_text, text_member, value_or, json_members, Json, ListField, TextField,
};
use crate::text::same_text;
use crate::workspace::{join, join_path, ws_path, WsSettingsHandler};

verus! {

/// A unit of build and clean work.
pub struct WsTask {
    pub name: String,
    /// Orders the tasks when they run as a group.
    pub index: String,
    /// Where the task builds, under the work dir; empty for the product's build dir.
    pub build_dir: String,
    pub build: String,
    pub clean: String,
    pub disabled: String,
}

/// A named custom sub-command (setup, sync, upload, deploy).
pub struct WsSubCmd {
    pub name: String,
    pub cmd: String,
}

/// A build configuration: its header, the fragments it includes, its tasks and
/// its sub-commands.
pub struct WsBuildData {
    pub version: String,
    pub name: String,
    pub description: String,
    pub arch: String,
    pub machine: String,
    pub includes: Vec<String>,
    pub tasks: Vec<WsTask>,
    pub subcmds: Vec<WsSubCmd>,
}

impl WsTask {
    /// A copy of the task.
    pub fn copy(&self) -> (r: WsTask)
        ensures
            r == *self,
    {
        WsTask {
            name: self.name.clone(),
            index: self.index.clone(),
            build_dir: self.build_dir.clone(),
            build: self.build.clone(),
            clean: self.clean.clone(),
            disabled: self.disabled.clone(),
        }
    }
}

impl WsSubCmd {
    /// A copy of the sub-command.
    pub fn copy(&self) -> (r: WsSubCmd)
        ensures
            r == *self,
    {
        WsSubCmd { name: self.name.clone(), cmd: self.cmd.clone() }
    }
}

/// The header fields of `a` and `b` agree.
pub open spec fn same_header(a: WsBuildData, b: WsBuildData) -> bool {
    &&& a.version == b.version
    &&& a.name == b.name
    &&& a.description == b.description
    &&& a.arch == b.arch
    &&& a.machine == b.machine
}

/// Position of the last task named `n`, or `-1`.
pub open spec fn task_pos(ts: Seq<WsTask>, n: Seq<char>) -> int
    decreases ts.len(),
{
    if ts.len() == 0 {
        -1
    } else if ts.last().name@ == n {
        ts.len() - 1
    } else {
        task_pos(ts.drop_last(), n)
    }
}

/// The task named `n`.
pub open spec fn task_lookup(ts: Seq<WsTask>, n: Seq<char>) -> Option<WsTask> {
    if task_pos(ts, n) >= 0 {
        Some(ts[task_pos(ts, n)])
    } else {
        None
    }
}

/// `ts` with `t` in the place of the task of its name, or added last.
pub open spec fn put_task(ts: Seq<WsTask>, t: WsTask) -> Seq<WsTask> {
    if task_pos(ts, t.name@) >= 0 {
        ts.update(task_pos(ts, t.name@), t)
    } else {
        ts.push(t)
    }
}

/// `ts` with each of `more` put in, in order.
pub open spec fn put_tasks(ts: Seq<WsTask>, more: Seq<WsTask>) -> Seq<WsTask>
    decreases more.len(),
{
    if more.len() == 0 {
        ts
    } else {
        put_task(put_tasks(ts, more.drop_last()), more.last())
    }
}

proof fn lemma_task_pos(ts: Seq<WsTask>, n: Seq<char>)
    ensures
        -1 <= task_pos(ts, n) < ts.len(),
        task_pos(ts, n) >= 0 ==> ts[task_pos(ts, n)].name@ == n,
        forall|j: int| task_pos(ts, n) < j < ts.len() ==> ts[j].name@ != n,
    decreases ts.len(),
{
    if ts.len() > 0 {
        let d = ts.drop_last();
        lemma_task_pos(d, n);
        assert forall|j: int| 0 <= j < d.len() implies d[j] == ts[j] by {}
    }
}

/// The last position of a name is the one after which it does not occur.
proof fn lemma_task_pos_at(ts: Seq<WsTask>, n: Seq<char>, i: int)
    requires
        -1 <= i < ts.len(),
        i >= 0 ==> ts[i].name@ == n,
        forall|j: int| i < j < ts.len() ==> ts[j].name@ != n,
        i == -1 ==> forall|j: int| 0 <= j < ts.len() ==> ts[j].name@ != n,
    ensures
        task_pos(ts, n) == i,
    decreases ts.len(),
{
    if ts.len() > 0 && i < ts.len() - 1 {
        let d = ts.drop_last();
        assert forall|j: int| 0 <= j < d.len() implies d[j] == ts[j] by {}
        lemma_task_pos_at(d, n, i);
    }
}

proof fn lemma_put_task(ts: Seq<WsTask>, t: WsTask, q: Seq<char>)
    ensures
        task_lookup(put_task(ts, t), q) == if q == t.name@ {
            Some(t)
        } else {
            task_lookup(ts, q)
        },
{
    let r = put_task(ts, t);
    lemma_task_pos(ts, q);
    lemma_task_pos(ts, t.name@);
    let i = task_pos(ts, t.name@);
    let a = task_pos(ts, q);
    if q == t.name@ {
        if i >= 0 {
            lemma_task_pos_at(r, q, i);
        } else {
            lemma_task_pos_at(r, q, ts.len() as int);
        }
    } else {
        if a >= 0 {
            assert(r[a] == ts[a]);
        }
        lemma_task_pos_at(r, q, a);
    }
}

/// Putting in more tasks is right-biased: a name ends up with its last
/// definition in `more`, and keeps its old one where `more` has none.
pub proof fn lemma_put_tasks(ts: Seq<WsTask>, more: Seq<WsTask>, q: Seq<char>)
    ensures
        task_lookup(put_tasks(ts, more), q) == match task_lookup(more, q) {
            Some(t) => Some(t),
            None => task_lookup(ts, q),
        },
    decreases more.len(),
{
    if more.len() > 0 {
        let d = more.drop_last();
        lemma_put_tasks(ts, d, q);
        lemma_put_task(put_tasks(ts, d), more.last(), q);
        if more.last().name@ != q {
            lemma_task_pos(d, q);
            if task_pos(d, q) >= 0 {
                assert(d[task_pos(d, q)] == more[task_pos(d, q)]);
            }
        }
    }
}

/// The position of the last task named like `n`.
fn find_task(ts: &Vec<WsTask>, n: &str) -> (r: Option<usize>)
    ensures
        r is Some <==> task_pos(ts@, n@) >= 0,
        r matches Some(i) ==> i == task_pos(ts@, n@) && i < ts@.len(),
{
    let mut j: usize = ts.len();
    assert(ts@.subrange(0, j as int) =~= ts@);
    while j > 0
        invariant
            j <= ts@.len(),
            task_pos(ts@.subrange(0, j as int), n@) == task_pos(ts@, n@),
        decreases j,
    {
        let ghost s = ts@.subrange(0, j as int);
        assert(s.drop_last() =~= ts@.subrange(0, j - 1));
        if same_text(ts[j - 1].name.as_str(), n) {
            return Some(j - 1);
        }
        j = j - 1;
    }
    None
}

/// Puts each of `more` into `ts`, in order: a task replaces the one of its
/// name, or is added last.
pub fn merge_tasks(ts: &mut Vec<WsTask>, more: &Vec<WsTask>)
    ensures
        final(ts)@ == put_tasks(old(ts)@, more@),
{
    let mut i: usize = 0;
    while i < more.len()
        invariant
            i <= more@.len(),
            ts@ == put_tasks(old(ts)@, more@.subrange(0, i as int)),
        decreases more@.len() - i,
    {
        let t = more[i].copy();
        proof {
            lemma_task_pos(ts@, t.name@);
        }
        match find_task(ts, t.name.as_str()) {
            Some(k) => {
                ts.set(k, t);
            },
            None => {
                ts.push(t);
            },
        }
        assert(more@.subrange(0, i + 1).drop_last() =~= more@.subrange(0, i as int));
        i = i + 1;
    }
    assert(more@.subrange(0, more@.len() as int) =~= more@);
}

/// Position of the last subcmd named `n`, or `-1`.
pub open spec fn subcmd_pos(ts: Seq<WsSubCmd>, n: Seq<char>) -> int
    decreases ts.len(),
{
    if ts.len() == 0 {
        -1
    } else if ts.last().name@ == n {
        ts.len() - 1
    } else {
        subcmd_pos(ts.drop_last(), n)
    }
}

/// The subcmd named `n`.
pub open spec fn subcmd_lookup(ts: Seq<WsSubCmd>, n: Seq<char>) -> Option<WsSubCmd> {
    if subcmd_pos(ts, n) >= 0 {
        Some(ts[subcmd_pos(ts, n)])
    } else {
        None
    }
}

/// `ts` with `t` in the place of the subcmd of its name, or added last.
pub open spec fn put_subcmd(ts: Seq<WsSubCmd>, t: WsSubCmd) -> Seq<WsSubCmd> {
    if subcmd_pos(ts, t.name@) >= 0 {
        ts.update(subcmd_pos(ts, t.name@), t)
    } else {
        ts.push(t)
    }
}

/// `ts` with each of `more` put in, in order.
pub open spec fn put_subcmds(ts: Seq<WsSubCmd>, more: Seq<WsSubCmd>) -> Seq<WsSubCmd>
    decreases more.len(),
{
    if more.len() == 0 {
        ts
    } else {
        put_subcmd(put_subcmds(ts, more.drop_last()), more.last())
    }
}

proof fn lemma_subcmd_pos(ts: Seq<WsSubCmd>, n: Seq<char>)
    ensures
        -1 <= subcmd_pos(ts, n) < ts.len(),
        subcmd_pos(ts, n) >= 0 ==> ts[subcmd_pos(ts, n)].name@ == n,
        forall|j: int| subcmd_pos(ts, n) < j < ts.len() ==> ts[j].name@ != n,
    decreases ts.len(),
{
    if ts.len() > 0 {
        let d = ts.drop_last();
        lemma_subcmd_pos(d, n);
        assert forall|j: int| 0 <= j < d.len() implies d[j] == ts[j] by {}
    }
}

/// The last position of a name is the one after which it does not occur.
proof fn lemma_subcmd_pos_at(ts: Seq<WsSubCmd>, n: Seq<char>, i: int)
    requires
        -1 <= i < ts.len(),
        i >= 0 ==> ts[i].name@ == n,
        forall|j: int| i < j < ts.len() ==> ts[j].name@ != n,
        i == -1 ==> forall|j: int| 0 <= j < ts.len() ==> ts[j].name@ != n,
    ensures
        subcmd_pos(ts, n) == i,
    decreases ts.len(),
{
    if ts.len() > 0 && i < ts.len() - 1 {
        let d = ts.drop_last();
        assert forall|j: int| 0 <= j < d.len() implies d[j] == ts[j] by {}
        lemma_subcmd_pos_at(d, n, i);
    }
}

proof fn lemma_put_subcmd(ts: Seq<WsSubCmd>, t: WsSubCmd, q: Seq<char>)
    ensures
        subcmd_lookup(put_subcmd(ts, t), q) == if q == t.name@ {
            Some(t)
        } else {
            subcmd_lookup(ts, q)
        },
{
    let r = put_subcmd(ts, t);
    lemma_subcmd_pos(ts, q);
    lemma_subcmd_pos(ts, t.name@);
    let i = subcmd_pos(ts, t.name@);
    let a = subcmd_pos(ts, q);
    if q == t.name@ {
        if i >= 0 {
            lemma_subcmd_pos_at(r, q, i);
        } else {
            lemma_subcmd_pos_at(r, q, ts.len() as int);
        }
    } else {
        if a >= 0 {
            assert(r[a] == ts[a]);
        }
        lemma_subcmd_pos_at(r, q, a);
    }
}

/// Putting in more subcmds is right-biased: a name ends up with its last
/// definition in `more`, and keeps its old one where `more` has none.
pub proof fn lemma_put_subcmds(ts: Seq<WsSubCmd>, more: Seq<WsSubCmd>, q: Seq<char>)
    ensures
        subcmd_lookup(put_subcmds(ts, more), q) == match subcmd_lookup(more, q) {
            Some(t) => Some(t),
            None => subcmd_lookup(ts, q),
        },
    decreases more.len(),
{
    if more.len() > 0 {
        let d = more.drop_last();
        lemma_put_subcmds(ts, d, q);
        lemma_put_subcmd(put_subcmds(ts, d), more.last(), q);
        if more.last().name@ != q {
            lemma_subcmd_pos(d, q);
            if subcmd_pos(d, q) >= 0 {
                assert(d[subcmd_pos(d, q)] == more[subcmd_pos(d, q)]);
            }
        }
    }
}

/// The position of the last subcmd named like `n`.
fn find_subcmd(ts: &Vec<WsSubCmd>, n: &str) -> (r: Option<usize>)
    ensures
        r is Some <==> subcmd_pos(ts@, n@) >= 0,
        r matches Some(i) ==> i == subcmd_pos(ts@, n@) && i < ts@.len(),
{
    let mut j: usize = ts.len();
    assert(ts@.subrange(0, j as int) =~= ts@);
    while j > 0
        invariant
            j <= ts@.len(),
            subcmd_pos(ts@.subrange(0, j as int), n@) == subcmd_pos(ts@, n@),
        decreases j,
    {
        let ghost s = ts@.subrange(0, j as int);
        assert(s.drop_last() =~= ts@.subrange(0, j - 1));
        if same_text(ts[j - 1].name.as_str(), n) {
            return Some(j - 1);
        }
        j = j - 1;
    }
    None
}

/// Puts each of `more` into `ts`, in order: a subcmd replaces the one of its
/// name, or is added last.
pub fn merge_subcmds(ts: &mut Vec<WsSubCmd>, more: &Vec<WsSubCmd>)
    ensures
        final(ts)@ == put_subcmds(old(ts)@, more@),
{
    let mut i: usize = 0;
    while i < more.len()
        invariant
            i <= more@.len(),
            ts@ == put_subcmds(old(ts)@, more@.subrange(0, i as int)),
        decreases more@.len() - i,
    {
        let t = more[i].copy();
        proof {
            lemma_subcmd_pos(ts@, t.name@);
        }
        match find_subcmd(ts, t.name.as_str()) {
            Some(k) => {
                ts.set(k, t);
            },
            None => {
                ts.push(t);
            },
        }
        assert(more@.subrange(0, i + 1).drop_last() =~= more@.subrange(0, i as int));
        i = i + 1;
    }
    assert(more@.subrange(0, more@.len() as int) =~= more@);
}


/// The tasks after folding in the fragments, in order.
pub open spec fn tasks_after(ts: Seq<WsTask>, frags: Seq<WsBuildData>) -> Seq<WsTask>
    decreases frags.len(),
{
    if frags.len() == 0 {
        ts
    } else {
        put_tasks(tasks_after(ts, frags.drop_last()), frags.last().tasks@)
    }
}

/// The sub-commands after folding in the fragments, in order.
pub open spec fn subcmds_after(cs: Seq<WsSubCmd>, frags: Seq<WsBuildData>) -> Seq<WsSubCmd>
    decreases frags.len(),
{
    if frags.len() == 0 {
        cs
    } else {
        put_subcmds(subcmds_after(cs, frags.drop_last()), frags.last().subcmds@)
    }
}

/// The task named `n` in the last fragment that defines one.
pub open spec fn fragment_task(frags: Seq<WsBuildData>, n: Seq<char>) -> Option<WsTask>
    decreases frags.len(),
{
    if frags.len() == 0 {
        None
    } else if task_lookup(frags.last().tasks@, n) is Some {
        task_lookup(frags.last().tasks@, n)
    } else {
        fragment_task(frags.drop_last(), n)
    }
}

/// Folding fragments into a configuration unions the tasks by name: a task
/// comes from the last fragment that defines its name, and from the main
/// configuration only where no fragment does.
pub proof fn lemma_fragments_merge(ts: Seq<WsTask>, frags: Seq<WsBuildData>, n: Seq<char>)
    ensures
        task_lookup(tasks_after(ts, frags), n) == match fragment_task(frags, n) {
            Some(t) => Some(t),
            None => task_lookup(ts, n),
        },
    decreases frags.len(),
{
    if frags.len() > 0 {
        lemma_fragments_merge(ts, frags.drop_last(), n);
        lemma_put_tasks(tasks_after(ts, frags.drop_last()), frags.last().tasks@, n);
    }
}

/// Where a task builds: its own dir under the work dir, or else the product's
/// dir under the builds dir.
pub open spec fn task_dir(t: WsTask, product: Seq<char>, work_dir: Seq<char>, builds_dir: Seq<char>) -> Seq<char> {
    if t.build_dir@.len() == 0 {
        join_path(builds_dir, product)
    } else {
        join_path(work_dir, t.build_dir@)
    }
}

/// A text member of a build config, or its default.
fn config_text(f: TextField, key: &str, default: &str) -> (r: Result<String, BError>)
    ensures
        r is Ok <==> crate::json::text_or(f, default@) is Some,
        r matches Ok(s) ==> crate::json::text_or(f, default@) == Some(s@),
{
    match f {
        TextField::Absent => Ok(String::from_str(default)),
        TextField::Text(s) => Ok(s),
        TextField::Invalid => Err(
            BError::ParseError(crate::text::joined("Invalid build config: expected a string for ", key)),
        ),
    }
}

/// The text that member `key` of `j` gives, or `default` where it is absent.
pub open spec fn json_text(j: Option<Json>, key: Seq<char>, default: Seq<char>) -> Option<Seq<char>> {
    value_or(text_member(j, key), default)
}

/// The members of the `tasks` object of a build config; none where it is not an object.
pub open spec fn task_members(j: Json) -> Seq<(Seq<char>, Json)> {
    match obj_get(j, "tasks"@) {
        Some(Json::Object(es)) => es,
        _ => Seq::empty(),
    }
}

/// The task named `name` (its key) can be read from `t`.
pub open spec fn task_ok(name: Seq<char>, t: Option<Json>) -> bool {
    &&& json_text(t, "name"@, name) is Some
    &&& json_text(t, "index"@, "0"@) is Some
    &&& json_text(t, "builddir"@, ""@) is Some
    &&& json_text(t, "build"@, ""@) is Some
    &&& json_text(t, "clean"@, ""@) is Some
    &&& json_text(t, "disabled"@, "false"@) is Some
}

/// `task` is what `t` gives for the task keyed `name`.
pub open spec fn task_from(name: Seq<char>, t: Option<Json>, task: WsTask) -> bool {
    &&& json_text(t, "name"@, name) == Some(task.name@)
    &&& json_text(t, "index"@, "0"@) == Some(task.index@)
    &&& json_text(t, "builddir"@, ""@) == Some(task.build_dir@)
    &&& json_text(t, "build"@, ""@) == Some(task.build@)
    &&& json_text(t, "clean"@, ""@) == Some(task.clean@)
    &&& json_text(t, "disabled"@, "false"@) == Some(task.disabled@)
}

/// The sub-commands named in `names` that `j` defines can be read.
pub open spec fn subcmds_ok(j: Json, names: Seq<Seq<char>>) -> bool
    decreases names.len(),
{
    if names.len() == 0 {
        true
    } else {
        subcmds_ok(j, names.drop_last()) && match obj_get(j, names.last()) {
            Some(c) => json_text(Some(c), "cmd"@, ""@) is Some,
            None => true,
        }
    }
}

/// `cs` are the sub-commands that `j` defines among `names`, in that order.
pub open spec fn subcmds_from(j: Json, names: Seq<Seq<char>>, cs: Seq<WsSubCmd>) -> bool
    decreases names.len(),
{
    if names.len() == 0 {
        cs.len() == 0
    } else {
        match obj_get(j, names.last()) {
            Some(c) => {
                &&& cs.len() > 0
                &&& cs.last().name@ == names.last()
                &&& json_text(Some(c), "cmd"@, ""@) == Some(cs.last().cmd@)
                &&& subcmds_from(j, names.drop_last(), cs.drop_last())
            },
            None => subcmds_from(j, names.drop_last(), cs),
        }
    }
}

/// The names of the custom sub-commands a build config may define, in order.
pub open spec fn subcmd_names() -> Seq<Seq<char>> {
    seq!["setup"@, "sync"@, "upload"@, "deploy"@]
}

/// The document `j` is a readable build config.
pub open spec fn build_ok(j: Json) -> bool {
    &&& text_member(Some(j), "version"@) matches Some(Some(_))
    &&& json_text(Some(j), "name"@, "NA"@) is Some
    &&& json_text(Some(j), "description"@, ""@) is Some
    &&& json_text(Some(j), "arch"@, ""@) is Some
    &&& json_text(obj_get(j, "bb"@), "machine"@, "NA"@) is Some
    &&& items_value(list_member(Some(j), "include"@)) is Some
    &&& forall|i: int|
        0 <= i < task_members(j).len() ==> task_ok(
            #[trigger] task_members(j)[i].0,
            obj_get(Json::Object(task_members(j)), task_members(j)[i].0),
        )
    &&& subcmds_ok(j, subcmd_names())
}

/// `d` is the build config that `j` gives.
pub open spec fn build_from(j: Json, d: WsBuildData) -> bool {
    &&& text_member(Some(j), "version"@) == Some(Some(d.version@))
    &&& json_text(Some(j), "name"@, "NA"@) == Some(d.name@)
    &&& json_text(Some(j), "description"@, ""@) == Some(d.description@)
    &&& json_text(Some(j), "arch"@, ""@) == Some(d.arch@)
    &&& json_text(obj_get(j, "bb"@), "machine"@, "NA"@) == Some(d.machine@)
    &&& items_value(list_member(Some(j), "include"@)) == Some(d.includes.deep_view())
    &&& d.tasks@.len() == task_members(j).len()
    &&& forall|i: int|
        0 <= i < task_members(j).len() ==> task_from(
            #[trigger] task_members(j)[i].0,
            obj_get(Json::Object(task_members(j)), task_members(j)[i].0),
            d.tasks@[i],
        )
    &&& subcmds_from(j, subcmd_names(), d.subcmds@)
}

/// One more sub-command name: what `add_subcmd` does extends both relations.
proof fn lemma_subcmd_step(j: Json, names: Seq<Seq<char>>, before: Seq<WsSubCmd>, after: Seq<WsSubCmd>, n: Seq<char>)
    ensures
        subcmds_ok(j, names.push(n)) == (subcmds_ok(j, names) && match obj_get(j, n) {
            Some(c) => json_text(Some(c), "cmd"@, ""@) is Some,
            None => true,
        }),
        subcmds_from(j, names, before) && match obj_get(j, n) {
            Some(c) => {
                &&& after.len() == before.len() + 1
                &&& after.drop_last() == before
                &&& after.last().name@ == n
                &&& json_text(Some(c), "cmd"@, ""@) == Some(after.last().cmd@)
            },
            None => after == before,
        } ==> subcmds_from(j, names.push(n), after),
{
    assert(names.push(n).drop_last() =~= names);
    assert(names.push(n).last() == n);
}

/// Reads the task keyed `name` from its member `t`.
fn read_task(t: Option<&Value>, name: &str) -> (r: Result<WsTask, BError>)
    ensures
        r is Ok <==> task_ok(name@, opt_model(t)),
        r matches Ok(task) ==> task_from(name@, opt_model(t), task),
{
    let name = config_text(read_text(t, "name"), "name", name)?;
    let index = config_text(read_text(t, "index"), "index", "0")?;
    let build_dir = config_text(read_text(t, "builddir"), "builddir", "")?;
    let build = config_text(read_text(t, "build"), "build", "")?;
    let clean = config_text(read_text(t, "clean"), "clean", "")?;
    let disabled = config_text(read_text(t, "disabled"), "disabled", "false")?;
    Ok(WsTask { name, index, build_dir, build, clean, disabled })
}

/// Adds the sub-command `name` where the document defines it.
fn add_subcmd(subcmds: &mut Vec<WsSubCmd>, data: &Value, name: &str) -> (r: Result<(), BError>)
    ensures
        r is Ok <==> match obj_get(json_model(*data), name@) {
            Some(c) => json_text(Some(c), "cmd"@, ""@) is Some,
            None => true,
        },
        r is Ok ==> match obj_get(json_model(*data), name@) {
            Some(c) => {
                &&& final(subcmds)@.len() == old(subcmds)@.len() + 1
                &&& final(subcmds)@.drop_last() == old(subcmds)@
                &&& final(subcmds)@.last().name@ == name@
                &&& json_text(Some(c), "cmd"@, ""@) == Some(final(subcmds)@.last().cmd@)
            },
            None => final(subcmds)@ == old(subcmds)@,
        },
{
    let sub = member(data, name);
    if sub.is_some() {
        let cmd = config_text(read_text(sub.as_ref(), "cmd"), "cmd", "")?;
        let ghost before = subcmds@;
        subcmds.push(WsSubCmd { name: String::from_str(name), cmd });
        assert(subcmds@.drop_last() =~= before);
    }
    Ok(())
}

impl WsBuildData {
    /// Parses a build config, or a fragment of one, from JSON text.
    pub fn from_str(json_string: &str) -> (r: Result<WsBuildData, BError>)
        ensures
            r is Ok <==> (parsed(json_string@) matches Some(j) && build_ok(j)),
            r matches Ok(d) ==> build_from(parsed(json_string@).unwrap(), d),
    {
        let data = match parse_value(json_string) {
            Ok(v) => v,
            Err(_) => {
                return Err(BError::ParseError(String::from_str("Invalid build config: not a JSON document")));
            },
        };
        let ghost j = json_model(data);
        let version = match read_text(Some(&data), "version") {
            TextField::Text(v) => v,
            _ => {
                return Err(BError::ParseError(String::from_str("Invalid build config: no version")));
            },
        };
        let name = config_text(read_text(Some(&data), "name"), "name", "NA")?;
        let description = config_text(read_text(Some(&data), "description"), "description", "")?;
        let arch = config_text(read_text(Some(&data), "arch"), "arch", "")?;
        let bb = member(&data, "bb");
        let machine = config_text(read_text(bb.as_ref(), "machine"), "machine", "NA")?;
        let includes = match read_list(Some(&data), "include") {
            ListField::Absent => Vec::new(),
            ListField::Items(v) => v,
            ListField::Invalid => {
                return Err(BError::ParseError(String::from_str("Invalid build config: 'include' is not a list of names")));
            },
        };
        let mut tasks: Vec<WsTask> = Vec::new();
        let task_data = member(&data, "tasks");
        let ghost es = task_members(j);
        if let Some(td) = &task_data {
            if let Some(obj) = object_of(td) {
                let names = keys_of(&obj);
                assert(obj_get(j, "tasks"@) == Some(json_model(*td)));
                assert(json_model(*td) == Json::Object(json_members(obj)));
                assert(es == json_members(obj));
                assert(names.deep_view().len() == es.len());
                assert forall|k: int| 0 <= k < es.len() implies #[trigger] names.deep_view()[k] == es[k].0 by {
                    assert(names.deep_view()[k] == json_members(obj).map_values(|p: (Seq<char>, Json)| p.0)[k]);
                }
                let mut i: usize = 0;
                while i < names.len()
                    invariant
                        j == json_model(data),
                        parsed(json_string@) == Some(j),
                        text_member(Some(j), "version"@) == Some(Some(version@)),
                        json_text(Some(j), "name"@, "NA"@) == Some(name@),
                        json_text(Some(j), "description"@, ""@) == Some(description@),
                        json_text(Some(j), "arch"@, ""@) == Some(arch@),
                        json_text(obj_get(j, "bb"@), "machine"@, "NA"@) == Some(machine@),
                        items_value(list_member(Some(j), "include"@)) == Some(includes.deep_view()),
                        json_model(*td) == Json::Object(es),
                        names@.len() == es.len(),
                        es == task_members(j),
                        forall|k: int| 0 <= k < es.len() ==> #[trigger] names.deep_view()[k] == es[k].0,
                        i <= names@.len(),
                        tasks@.len() == i,
                        forall|k: int|
                            0 <= k < i ==> task_ok(#[trigger] es[k].0, obj_get(Json::Object(es), es[k].0)),
                        forall|k: int|
                            0 <= k < i ==> task_from(
                                #[trigger] es[k].0,
                                obj_get(Json::Object(es), es[k].0),
                                tasks@[k],
                            ),
                    decreases names@.len() - i,
                {
                    assert(names.deep_view()[i as int] == es[i as int].0);
                    assert(names@[i as int]@ == es[i as int].0);
                    let t = member(td, names[i].as_str());
                    assert(match t {
                        Some(x) => Some(json_model(x)),
                        None => None,
                    } == obj_get(Json::Object(es), es[i as int].0));
                    assert(es == task_members(j));
                    let tr = t.as_ref();
                    assert(opt_model(tr) == obj_get(Json::Object(es), es[i as int].0));
                    let task = match read_task(tr, names[i].as_str()) {
                        Ok(task) => task,
                        Err(e) => {
                            proof {
                                assert(!task_ok(
                                    task_members(j)[i as int].0,
                                    obj_get(Json::Object(task_members(j)), task_members(j)[i as int].0),
                                ));
                                assert(!build_ok(j));
                            }
                            return Err(e);
                        },
                    };
                    tasks.push(task);
                    i = i + 1;
                }
            } else {
                assert(es.len() == 0);
            }
        } else {
            assert(es.len() == 0);
        }
        assert(tasks@.len() == es.len());
        let mut subcmds: Vec<WsSubCmd> = Vec::new();
        proof {
            let e = Seq::<Seq<char>>::empty();
            let n1 = e.push("setup"@);
            let n2 = n1.push("sync"@);
            let n3 = n2.push("upload"@);
            lemma_subcmd_step(j, e, subcmds@, subcmds@, "setup"@);
            lemma_subcmd_step(j, n1, subcmds@, subcmds@, "sync"@);
            lemma_subcmd_step(j, n2, subcmds@, subcmds@, "upload"@);
            lemma_subcmd_step(j, n3, subcmds@, subcmds@, "deploy"@);
            assert(n3.push("deploy"@) =~= subcmd_names());
        }
        let ghost names = Seq::<Seq<char>>::empty();
        let ghost before = subcmds@;
        add_subcmd(&mut subcmds, &data, "setup")?;
        proof {
            lemma_subcmd_step(j, names, before, subcmds@, "setup"@);
        }
        let ghost names = names.push("setup"@);
        let ghost before = subcmds@;
        add_subcmd(&mut subcmds, &data, "sync")?;
        proof {
            lemma_subcmd_step(j, names, before, subcmds@, "sync"@);
        }
        let ghost names = names.push("sync"@);
        let ghost before = subcmds@;
        add_subcmd(&mut subcmds, &data, "upload")?;
        proof {
            lemma_subcmd_step(j, names, before, subcmds@, "upload"@);
        }
        let ghost names = names.push("upload"@);
        let ghost before = subcmds@;
        add_subcmd(&mut subcmds, &data, "deploy")?;
        proof {
            lemma_subcmd_step(j, names, before, subcmds@, "deploy"@);
            assert(names.push("deploy"@) =~= subcmd_names());
        }
        Ok(WsBuildData { version, name, description, arch, machine, includes, tasks, subcmds })
    }

    /// The configuration that read-only listing uses where no build is named.
    pub fn dummy() -> (r: WsBuildData)
        ensures
            r.name@ == "all"@,
            r.arch@ == "NA"@,
            r.tasks@.len() == 0,
            r.subcmds@.len() == 0,
            r.includes@.len() == 0,
    {
        WsBuildData {
            version: String::from_str("6"),
            name: String::from_str("all"),
            description: String::from_str("Dummy build config to be able to handle 'list' sub-command"),
            arch: String::from_str("NA"),
            machine: String::from_str("NA"),
            includes: Vec::new(),
            tasks: Vec::new(),
            subcmds: Vec::new(),
        }
    }

    /// Folds the fragments into this configuration, in order: tasks and
    /// sub-commands are unioned by name, a later definition winning; the header
    /// stays this one's.
    pub fn compose(self, fragments: &Vec<WsBuildData>) -> (r: WsBuildData)
        ensures
            same_header(r, self),
            r.includes == self.includes,
            r.tasks@ == tasks_after(self.tasks@, fragments@),
            r.subcmds@ == subcmds_after(self.subcmds@, fragments@),
    {
        let mut data = self;
        let mut i: usize = 0;
        while i < fragments.len()
            invariant
                i <= fragments@.len(),
                same_header(data, self),
                data.includes == self.includes,
                data.tasks@ == tasks_after(self.tasks@, fragments@.subrange(0, i as int)),
                data.subcmds@ == subcmds_after(self.subcmds@, fragments@.subrange(0, i as int)),
            decreases fragments@.len() - i,
        {
            merge_tasks(&mut data.tasks, &fragments[i].tasks);
            merge_subcmds(&mut data.subcmds, &fragments[i].subcmds);
            assert(fragments@.subrange(0, i + 1).drop_last() =~= fragments@.subrange(0, i as int));
            i = i + 1;
        }
        assert(fragments@.subrange(0, fragments@.len() as int) =~= fragments@);
        data
    }

    /// The task named `name`.
    pub fn task(&self, name: &str) -> (r: Result<&WsTask, BError>)
        ensures
            r is Ok <==> task_lookup(self.tasks@, name@) is Some,
            r matches Ok(t) ==> task_lookup(self.tasks@, name@) == Some(*t),
    {
        match find_task(&self.tasks, name) {
            Some(i) => Ok(&self.tasks[i]),
            None => Err(BError::ValueError(crate::text::joined("Task does not exist: ", name))),
        }
    }

    /// The sub-command named `name`.
    pub fn subcmd(&self, name: &str) -> (r: Option<&WsSubCmd>)
        ensures
            r is Some <==> subcmd_lookup(self.subcmds@, name@) is Some,
            r matches Some(c) ==> subcmd_lookup(self.subcmds@, name@) == Some(*c),
    {
        match find_subcmd(&self.subcmds, name) {
            Some(i) => Some(&self.subcmds[i]),
            None => None,
        }
    }
}


/// The largest index a task can have; larger ones count as this.
pub const MAX_INDEX: u64 = 0xffff_ffff_ffff_ffff;

pub open spec fn is_digit(c: char) -> bool {
    '0' <= c && c <= '9'
}

/// The decimal value of a string of digits.
pub open spec fn decimal(s: Seq<char>) -> nat
    decreases s.len(),
{
    if s.len() == 0 {
        0
    } else {
        decimal(s.drop_last()) * 10 + ((s.last() as u32) - ('0' as u32)) as nat
    }
}

/// The order key of a task's index: its decimal value, capped at `MAX_INDEX`;
/// an index that is not a string of digits counts as zero.
pub open spec fn index_key(s: Seq<char>) -> nat {
    if s.len() > 0 && forall|i: int| 0 <= i < s.len() ==> is_digit(#[trigger] s[i]) {
        if decimal(s) > MAX_INDEX {
            MAX_INDEX as nat
        } else {
            decimal(s)
        }
    } else {
        0
    }
}

/// The order key of a task index.
pub fn index_key_of(s: &str) -> (r: u64)
    ensures
        r == index_key(s@),
{
    let c = crate::text::chars_of(s);
    if c.len() == 0 {
        return 0;
    }
    let mut v: u64 = 0;
    let mut capped: bool = false;
    let mut i: usize = 0;
    while i < c.len()
        invariant
            c@ == s@,
            i <= c@.len(),
            forall|j: int| 0 <= j < i ==> is_digit(#[trigger] c@[j]),
            capped ==> decimal(c@.subrange(0, i as int)) > MAX_INDEX && v == MAX_INDEX,
            !capped ==> v == decimal(c@.subrange(0, i as int)),
        decreases c@.len() - i,
    {
        let ch = c[i];
        if !('0' <= ch && ch <= '9') {
            return 0;
        }
        let d: u64 = ((ch as u32) - ('0' as u32)) as u64;
        let ghost prev = decimal(c@.subrange(0, i as int));
        assert(c@.subrange(0, i + 1).drop_last() =~= c@.subrange(0, i as int));
        assert(decimal(c@.subrange(0, i + 1)) == prev * 10 + d);
        if capped || v > (MAX_INDEX - d) / 10 {
            assert(prev * 10 + d > MAX_INDEX) by (nonlinear_arith)
                requires
                    capped ==> prev > MAX_INDEX,
                    !capped ==> prev == v && v > (MAX_INDEX - d) / 10,
                    d <= 9,
            ;
            capped = true;
            v = MAX_INDEX;
        } else {
            assert(v * 10 + d <= MAX_INDEX) by (nonlinear_arith)
                requires
                    v <= (MAX_INDEX - d) / 10,
                    d <= 9,
            ;
            v = v * 10 + d;
        }
        i = i + 1;
    }
    assert(c@.subrange(0, c@.len() as int) =~= c@);
    v
}

/// The tasks are in ascending order of their index keys.
pub open spec fn in_index_order(ts: Seq<WsTask>) -> bool {
    forall|a: int, b: int| 0 <= a < b < ts.len() ==> index_key(ts[a].index@) <= index_key(ts[b].index@)
}

impl WsBuildData {
    /// The tasks in ascending order of their indexes.
    pub fn ordered_tasks(&self) -> (r: Vec<WsTask>)
        ensures
            in_index_order(r@),
            r@.to_multiset() == self.tasks@.to_multiset(),
    {
        let mut r: Vec<WsTask> = Vec::new();
        let mut keys: Vec<u64> = Vec::new();
        let mut i: usize = 0;
        assert(self.tasks@.subrange(0, 0) =~= r@);
        while i < self.tasks.len()
            invariant
                i <= self.tasks@.len(),
                keys@.len() == r@.len(),
                forall|a: int| 0 <= a < r@.len() ==> keys@[a] == index_key(#[trigger] r@[a].index@),
                in_index_order(r@),
                r@.to_multiset() == self.tasks@.subrange(0, i as int).to_multiset(),
            decreases self.tasks@.len() - i,
        {
            let t = self.tasks[i].copy();
            let k = index_key_of(t.index.as_str());
            let mut pos: usize = 0;
            while pos < keys.len() && keys[pos] <= k
                invariant
                    pos <= keys@.len(),
                    keys@.len() == r@.len(),
                    forall|a: int| 0 <= a < pos ==> keys@[a] <= k,
                decreases keys@.len() - pos,
            {
                pos = pos + 1;
            }
            let ghost old_r = r@;
            let ghost old_keys = keys@;
            proof {
                vstd::seq_lib::to_multiset_insert(old_r, pos as int, t);
                vstd::seq_lib::to_multiset_build(self.tasks@.subrange(0, i as int), t);
                assert(self.tasks@.subrange(0, i + 1) =~= self.tasks@.subrange(0, i as int).push(t));
            }
            r.insert(pos, t);
            keys.insert(pos, k);
            assert forall|a: int| 0 <= a < r@.len() implies keys@[a] == index_key(#[trigger] r@[a].index@) by {
                if a < pos {
                    assert(r@[a] == old_r[a]);
                } else if a > pos {
                    assert(r@[a] == old_r[a - 1]);
                    assert(keys@[a] == old_keys[a - 1]);
                }
            }
            assert forall|a: int, b: int| 0 <= a < b < r@.len() implies index_key(r@[a].index@) <= index_key(
                r@[b].index@,
            ) by {
                assert(keys@[a] == index_key(r@[a].index@));
                assert(keys@[b] == index_key(r@[b].index@));
                if b < pos {
                    assert(keys@[a] == old_keys[a] && keys@[b] == old_keys[b]);
                    assert(old_keys[a] == index_key(old_r[a].index@));
                } else if a > pos {
                    assert(keys@[a] == old_keys[a - 1] && keys@[b] == old_keys[b - 1]);
                    assert(old_r[a - 1] == r@[a] && old_r[b - 1] == r@[b]);
                } else if a == pos {
                    if pos < old_keys.len() {
                        assert(old_keys[pos as int] > k);
                        assert(keys@[b] == old_keys[b - 1]);
                        assert(old_r[b - 1] == r@[b]);
                        assert(old_r[pos as int] == r@[pos + 1]);
                    }
                } else if b == pos {
                    assert(keys@[a] == old_keys[a]);
                } else {
                    assert(a < pos && pos < b);
                    assert(keys@[a] == old_keys[a]);
                    assert(keys@[b] == old_keys[b - 1]);
                }
            }
            i = i + 1;
        }
        assert(self.tasks@.subrange(0, i as int) =~= self.tasks@);
        r
    }
}

} // verus!
