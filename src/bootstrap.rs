use vstd::prelude::*;

use crate::text::{joined, same_text};
use crate::workspace::DockerImage;

verus! {

/// The invocation must re-execute itself inside the container: containers are
/// not disabled, the command needs one, and the process is not in one yet.
pub open spec fn spec_must_bootstrap(docker_disabled: bool, requires_docker: bool, inside_docker: bool) -> bool {
    !docker_disabled && requires_docker && !inside_docker
}

/// Whether the command must be re-executed inside the container.
pub fn must_bootstrap(docker_disabled: bool, requires_docker: bool, inside_docker: bool) -> (r: bool)
    ensures
        r == spec_must_bootstrap(docker_disabled, requires_docker, inside_docker),
{
    !docker_disabled && requires_docker && !inside_docker
}

/// Whether this process reports the outcome: when forced (a failure before any
/// bootstrap), when inside the container, or when the command never leaves the
/// host. Otherwise the process in the container reports it.
pub fn should_report(force: bool, inside_docker: bool, cmd_require_docker: bool) -> (r: bool)
    ensures
        r == (force || inside_docker || !cmd_require_docker),
{
    force || inside_docker || (!inside_docker && !cmd_require_docker)
}

/// The message for a command that failed.
pub open spec fn failed_msg(cmd: Seq<char>) -> Seq<char> {
    "Failed to execute '"@ + cmd + "'"@
}

/// The lines that end an invocation: the error, where there is one, and the
/// failure line for a non-zero exit code; none where another process reports.
pub open spec fn exit_lines(
    cmd: Seq<char>,
    cmd_require_docker: bool,
    err: Seq<char>,
    code: i32,
    force: bool,
    inside_docker: bool,
) -> Seq<Seq<char>> {
    if force || inside_docker || !cmd_require_docker {
        (if err.len() > 0 {
            seq![err]
        } else {
            Seq::empty()
        }) + (if code != 0 {
            seq![failed_msg(cmd)]
        } else {
            Seq::empty()
        })
    } else {
        Seq::empty()
    }
}

/// The lines to report as the invocation ends.
pub fn exit_messages(
    cmd: &str,
    cmd_require_docker: bool,
    err: &str,
    code: i32,
    force: bool,
    inside_docker: bool,
) -> (r: Vec<String>)
    ensures
        r.deep_view() == exit_lines(cmd@, cmd_require_docker, err@, code, force, inside_docker),
{
    let mut r: Vec<String> = Vec::new();
    if should_report(force, inside_docker, cmd_require_docker) {
        if err.unicode_len() != 0 {
            r.push(String::from_str(err));
        }
        if code != 0 {
            let a = joined("Failed to execute '", cmd);
            r.push(joined(a.as_str(), "'"));
        }
    }
    assert(r.deep_view() =~= exit_lines(cmd@, cmd_require_docker, err@, code, force, inside_docker));
    r
}

/// A token that sets whether the run in the container is interactive.
pub open spec fn is_interactive_flag(t: Seq<char>) -> bool {
    t == "--interactive"@ || t == "--interactive=true"@ || t == "--interactive=false"@
}

/// The command line for the container: each interactive flag says `interactive`.
pub open spec fn normalized(cmd_line: Seq<Seq<char>>, interactive: bool) -> Seq<Seq<char>> {
    cmd_line.map_values(
        |t: Seq<char>|
            if is_interactive_flag(t) {
                if interactive {
                    "--interactive=true"@
                } else {
                    "--interactive=false"@
                }
            } else {
                t
            },
    )
}

/// `-v <volume>` for each volume.
pub open spec fn volume_args(volumes: Seq<Seq<char>>) -> Seq<Seq<char>>
    decreases volumes.len(),
{
    if volumes.len() == 0 {
        Seq::empty()
    } else {
        volume_args(volumes.drop_last()) + seq!["-v"@, volumes.last()]
    }
}

/// The two invocations that bootstrap into the container: pull the image, then
/// run the invoking command line in it.
pub struct BootstrapPlan {
    pub pull: Vec<String>,
    pub run: Vec<String>,
}

fn push_text(v: &mut Vec<String>, s: &str)
    ensures
        final(v).deep_view() == old(v).deep_view().push(s@),
{
    v.push(String::from_str(s));
    assert(final(v).deep_view() =~= old(v).deep_view().push(s@));
}

/// The pull and run invocations for `image`: the container arguments, a bind
/// mount per volume, the image, then the invoking command line with its
/// interactive flags normalized.
pub fn bootstrap_plan(
    cmd_line: &Vec<String>,
    interactive: bool,
    volumes: &Vec<String>,
    image: &DockerImage,
    docker_args: &Vec<String>,
) -> (r: BootstrapPlan)
    ensures
        r.pull.deep_view() == seq!["docker"@, "pull"@, image.registry@ + "/"@ + image.image@ + ":"@ + image.tag@],
        r.run.deep_view() == seq!["docker"@, "run"@] + docker_args.deep_view() + volume_args(volumes.deep_view())
            + seq![image.registry@ + "/"@ + image.image@ + ":"@ + image.tag@]
            + normalized(cmd_line.deep_view(), interactive),
{
    let name = image.to_text();
    let mut pull: Vec<String> = Vec::new();
    push_text(&mut pull, "docker");
    push_text(&mut pull, "pull");
    push_text(&mut pull, name.as_str());
    let mut run: Vec<String> = Vec::new();
    push_text(&mut run, "docker");
    push_text(&mut run, "run");
    let ghost head = run.deep_view();
    let mut i: usize = 0;
    while i < docker_args.len()
        invariant
            i <= docker_args@.len(),
            run.deep_view() == head + docker_args.deep_view().subrange(0, i as int),
        decreases docker_args@.len() - i,
    {
        push_text(&mut run, docker_args[i].as_str());
        assert(run.deep_view() =~= head + docker_args.deep_view().subrange(0, i + 1));
        i = i + 1;
    }
    assert(docker_args.deep_view().subrange(0, i as int) =~= docker_args.deep_view());
    let ghost with_args = run.deep_view();
    let mut j: usize = 0;
    while j < volumes.len()
        invariant
            j <= volumes@.len(),
            run.deep_view() == with_args + volume_args(volumes.deep_view().subrange(0, j as int)),
        decreases volumes@.len() - j,
    {
        push_text(&mut run, "-v");
        push_text(&mut run, volumes[j].as_str());
        assert(volumes.deep_view().subrange(0, j + 1).drop_last() =~= volumes.deep_view().subrange(0, j as int));
        assert(run.deep_view() =~= with_args + volume_args(volumes.deep_view().subrange(0, j + 1)));
        j = j + 1;
    }
    assert(volumes.deep_view().subrange(0, j as int) =~= volumes.deep_view());
    push_text(&mut run, name.as_str());
    let ghost with_image = run.deep_view();
    let ghost tail = normalized(cmd_line.deep_view(), interactive);
    let mut k: usize = 0;
    while k < cmd_line.len()
        invariant
            k <= cmd_line@.len(),
            tail == normalized(cmd_line.deep_view(), interactive),
            run.deep_view() == with_image + tail.subrange(0, k as int),
        decreases cmd_line@.len() - k,
    {
        let t = cmd_line[k].as_str();
        if same_text(t, "--interactive") || same_text(t, "--interactive=true") || same_text(
            t,
            "--interactive=false",
        ) {
            if interactive {
                push_text(&mut run, "--interactive=true");
            } else {
                push_text(&mut run, "--interactive=false");
            }
        } else {
            push_text(&mut run, t);
        }
        assert(run.deep_view() =~= with_image + tail.subrange(0, k + 1));
        k = k + 1;
    }
    assert(tail.subrange(0, k as int) =~= tail);
    assert(pull.deep_view() =~= seq!["docker"@, "pull"@, name@]);
    BootstrapPlan { pull, run }
}

} // verus!
