//! Command lines for the container engine, and the script that restarts the
//! service itself.
use vstd::prelude::*;
use vstd::string::*;
use crate::text;
use crate::text::{blank, joined, lines_of, occurs, occurs_in, replaced, texts, trimmed};
use crate::updater::types::UpdaterConfig;

verus! {

/// The texts that a list of string slices holds.
pub open spec fn str_texts(v: Seq<&str>) -> Seq<Seq<char>> {
    v.map_values(|s: &str| s@)
}

/// The strings of a list of string slices.
pub fn strings(v: &[&str]) -> (r: Vec<String>)
    ensures
        texts(r@) == str_texts(v@),
{
    let mut out: Vec<String> = Vec::new();
    let mut i: usize = 0;
    proof {
        assert(texts(out@) =~= str_texts(v@).take(0));
    }
    while i < v.len()
        invariant
            i <= v@.len(),
            texts(out@) == str_texts(v@).take(i as int),
        decreases v@.len() - i,
    {
        let ghost before = texts(out@);
        out.push(v[i].to_string());
        proof {
            assert(texts(out@) =~= before.push(v@[i as int]@));
            assert(str_texts(v@).take(i + 1) =~= str_texts(v@).take(i as int).push(
                str_texts(v@)[i as int],
            ));
        }
        i += 1;
    }
    proof {
        assert(str_texts(v@).take(i as int) =~= str_texts(v@));
    }
    out
}

/// The project directory as arguments, where one is configured.
pub open spec fn project_args(config: UpdaterConfig) -> Seq<Seq<char>> {
    if blank(config.compose_project_dir@) {
        Seq::empty()
    } else {
        seq!["--project-directory"@, config.compose_project_dir@]
    }
}

/// The command line that runs a compose command.
pub open spec fn compose_line(config: UpdaterConfig, args: Seq<Seq<char>>) -> Seq<Seq<char>> {
    seq![
        "compose"@,
        "-f"@,
        config.compose_file@,
        "--env-file"@,
        config.compose_env_file@,
    ] + project_args(config) + args
}

/// The command line that runs a compose command.
pub fn compose_command(config: &UpdaterConfig, args: &Vec<String>) -> (r: Vec<String>)
    ensures
        texts(r@) == compose_line(*config, texts(args@)),
{
    let mut out = strings(
        &[
            "compose",
            "-f",
            config.compose_file.as_str(),
            "--env-file",
            config.compose_env_file.as_str(),
        ],
    );
    let ghost head = seq![
        "compose"@,
        "-f"@,
        config.compose_file@,
        "--env-file"@,
        config.compose_env_file@,
    ];
    proof {
        assert(texts(out@) =~= head);
    }
    if !text::is_blank(config.compose_project_dir.as_str()) {
        out.push("--project-directory".to_string());
        out.push(config.compose_project_dir.clone());
    }
    let ghost front = head + project_args(*config);
    proof {
        assert(texts(out@) =~= front);
    }
    let mut i: usize = 0;
    proof {
        assert(texts(args@).take(0) =~= Seq::<Seq<char>>::empty());
        assert(texts(out@) =~= front + texts(args@).take(0));
    }
    while i < args.len()
        invariant
            i <= args@.len(),
            texts(out@) == front + texts(args@).take(i as int),
        decreases args@.len() - i,
    {
        let ghost before = texts(out@);
        out.push(args[i].clone());
        proof {
            assert(texts(out@) =~= before.push(args@[i as int]@));
            assert(texts(args@).take(i + 1) =~= texts(args@).take(i as int).push(
                texts(args@)[i as int],
            ));
            assert(texts(out@) =~= front + texts(args@).take(i + 1));
        }
        i += 1;
    }
    proof {
        assert(texts(args@).take(i as int) =~= texts(args@));
    }
    out
}

/// The arguments that pull the image of a service.
pub open spec fn pull_args(service: Seq<char>) -> Seq<Seq<char>> {
    seq!["pull"@, service]
}

/// The arguments that start a service.
pub open spec fn start_args(service: Seq<char>) -> Seq<Seq<char>> {
    seq!["up"@, "-d"@, service]
}

/// The arguments that start a service anew from an image on this machine.
pub open spec fn recreate_args(service: Seq<char>) -> Seq<Seq<char>> {
    seq!["up"@, "-d"@, "--no-deps"@, "--force-recreate"@, "--pull"@, "never"@, service]
}

/// The arguments that pull the image of a service.
pub fn pull_service(service: &str) -> (r: Vec<String>)
    ensures
        texts(r@) == pull_args(service@),
{
    let r = strings(&["pull", service]);
    proof {
        assert(texts(r@) =~= pull_args(service@));
    }
    r
}

/// The arguments that start a service.
pub fn start_service(service: &str) -> (r: Vec<String>)
    ensures
        texts(r@) == start_args(service@),
{
    let r = strings(&["up", "-d", service]);
    proof {
        assert(texts(r@) =~= start_args(service@));
    }
    r
}

/// The arguments that start a service anew from an image on this machine.
pub fn recreate_service_without_pull(service: &str) -> (r: Vec<String>)
    ensures
        texts(r@) == recreate_args(service@),
{
    let r = strings(&["up", "-d", "--no-deps", "--force-recreate", "--pull", "never", service]);
    proof {
        assert(texts(r@) =~= recreate_args(service@));
    }
    r
}

/// The arguments that list the images of the update service.
pub fn resolve_updater_service_image(config: &UpdaterConfig) -> (r: Vec<String>)
    ensures
        texts(r@) == compose_line(*config, seq!["config"@, "--images"@, config.updater_service@]),
{
    let args = strings(&["config", "--images", config.updater_service.as_str()]);
    proof {
        assert(texts(args@) =~= seq!["config"@, "--images"@, config.updater_service@]);
    }
    compose_command(config, &args)
}

/// The image of the update service that was listed.
pub fn updater_service_image(output: &str) -> (r: Result<String, String>)
    ensures
        if blank(output@) {
            r is Err && r->Err_0@ == "Could not resolve updater service image from compose config"@
        } else {
            r is Ok && r->Ok_0@ == trimmed(output@)
        },
{
    if text::is_blank(output) {
        Err("Could not resolve updater service image from compose config".to_string())
    } else {
        Ok(text::trim(output).to_string())
    }
}

// ── Shell ────────────────────────────────────────────────────────────────────

/// `value` as one word of a shell: between single quotes, with each single quote
/// in double quotes of its own.
pub open spec fn quoted(value: Seq<char>) -> Seq<char> {
    "'"@ + replaced(value, '\'', "'\"'\"'"@) + "'"@
}

/// `value` as one word of a shell.
pub fn shell_quote(value: &str) -> (r: String)
    ensures
        r@ == quoted(value@),
{
    let mut out = "'".to_string();
    let inner = text::replace(value, '\'', "'\"'\"'");
    out.append(inner.as_str());
    out.append("'");
    out
}

/// The words of a compose command line for a shell.
pub open spec fn shell_args(config: UpdaterConfig) -> Seq<char> {
    joined(
        seq!["-f"@, quoted(config.compose_file@), "--env-file"@, quoted(config.compose_env_file@)]
            + if blank(config.compose_project_dir@) {
            Seq::empty()
        } else {
            seq!["--project-directory"@, quoted(config.compose_project_dir@)]
        },
        " "@,
    )
}

/// The words of a compose command line for a shell.
pub fn build_compose_shell_args(config: &UpdaterConfig) -> (r: String)
    ensures
        r@ == shell_args(*config),
{
    let mut args: Vec<String> = Vec::new();
    args.push("-f".to_string());
    args.push(shell_quote(config.compose_file.as_str()));
    args.push("--env-file".to_string());
    args.push(shell_quote(config.compose_env_file.as_str()));
    if !text::is_blank(config.compose_project_dir.as_str()) {
        args.push("--project-directory".to_string());
        args.push(shell_quote(config.compose_project_dir.as_str()));
    }
    proof {
        assert(texts(args@) =~= seq![
            "-f"@,
            quoted(config.compose_file@),
            "--env-file"@,
            quoted(config.compose_env_file@),
        ] + if blank(config.compose_project_dir@) {
            Seq::empty()
        } else {
            seq!["--project-directory"@, quoted(config.compose_project_dir@)]
        });
    }
    text::join(&args, " ")
}

/// The script that replaces the running updater: it clears the mark of a running
/// helper on every way out, removes the old container, and starts the new one
/// from the image on this machine.
pub open spec fn helper_script(config: UpdaterConfig, container: Seq<char>) -> Seq<char> {
    let env_file = quoted(config.compose_env_file@);
    let old_container = quoted(container);
    let service = quoted(config.updater_service@);
    let compose = shell_args(config);
    "set -e; clear_helper_flag() { if grep -q '^SELU_UPDATER_RESTART_HELPER_ACTIVE=' "@ + env_file
        + "; then sed -i 's/^SELU_UPDATER_RESTART_HELPER_ACTIVE=.*/SELU_UPDATER_RESTART_HELPER_ACTIVE=false/' "@
        + env_file + "; else printf '\\nSELU_UPDATER_RESTART_HELPER_ACTIVE=false\\n' >> "@
        + env_file + "; fi; }; trap clear_helper_flag EXIT; sleep 2; docker stop "@ + old_container
        + " >/dev/null 2>&1 || true; docker rm -f "@ + old_container
        + " >/dev/null 2>&1 || true; docker compose "@ + compose + " rm -f -s "@ + service
        + " >/dev/null 2>&1 || true; clear_helper_flag; trap - EXIT; docker compose "@ + compose
        + " up -d --no-deps --force-recreate --pull never "@ + service
}

/// The script that replaces the running updater.
pub fn build_self_restart_helper_script(config: &UpdaterConfig, current_container_id: &str) -> (r:
    String)
    ensures
        r@ == helper_script(*config, current_container_id@),
{
    let compose = build_compose_shell_args(config);
    let old_container = shell_quote(current_container_id);
    let service = shell_quote(config.updater_service.as_str());
    let env_file = shell_quote(config.compose_env_file.as_str());
    let mut s = "set -e; clear_helper_flag() { if grep -q '^SELU_UPDATER_RESTART_HELPER_ACTIVE=' ".to_string();
    s.append(env_file.as_str());
    s.append(
        "; then sed -i 's/^SELU_UPDATER_RESTART_HELPER_ACTIVE=.*/SELU_UPDATER_RESTART_HELPER_ACTIVE=false/' ",
    );
    s.append(env_file.as_str());
    s.append("; else printf '\\nSELU_UPDATER_RESTART_HELPER_ACTIVE=false\\n' >> ");
    s.append(env_file.as_str());
    s.append("; fi; }; trap clear_helper_flag EXIT; sleep 2; docker stop ");
    s.append(old_container.as_str());
    s.append(" >/dev/null 2>&1 || true; docker rm -f ");
    s.append(old_container.as_str());
    s.append(" >/dev/null 2>&1 || true; docker compose ");
    s.append(compose.as_str());
    s.append(" rm -f -s ");
    s.append(service.as_str());
    s.append(" >/dev/null 2>&1 || true; clear_helper_flag; trap - EXIT; docker compose ");
    s.append(compose.as_str());
    s.append(" up -d --no-deps --force-recreate --pull never ");
    s.append(service.as_str());
    s
}

/// How many bytes of a container ID name its restart helper.
pub open spec fn helper_bytes(container_id: Seq<char>) -> int {
    if text::byte_len(container_id) < 12 {
        text::byte_len(container_id) as int
    } else {
        12
    }
}

/// The name of the container that restarts the service: a fixed word and the
/// first twelve bytes of the container to replace.
pub fn restart_helper_name(container_id: &str) -> (r: String)
    requires
        text::cuts_at(container_id@, helper_bytes(container_id@)),
    ensures
        r@ == "selu-updater-restart-"@ + text::first_bytes(
            container_id@,
            helper_bytes(container_id@),
        ),
{
    let n: usize = text::byte_count(container_id);
    let k: usize = if n < 12 {
        n
    } else {
        12
    };
    let mut out = "selu-updater-restart-".to_string();
    out.append(text::head_bytes(container_id, k));
    out
}

/// The command line that starts the restart helper.
pub fn restart_helper_command(
    config: &UpdaterConfig,
    helper_name: &str,
    container_id: &str,
    image: &str,
) -> (r: Vec<String>)
    ensures
        texts(r@) == seq![
            "run"@,
            "--rm"@,
            "-d"@,
            "--name"@,
            helper_name@,
            "--volumes-from"@,
            container_id@,
            "--entrypoint"@,
            "sh"@,
            image@,
            "-c"@,
            helper_script(*config, container_id@),
        ],
{
    let script = build_self_restart_helper_script(config, container_id);
    let r = strings(
        &[
            "run",
            "--rm",
            "-d",
            "--name",
            helper_name,
            "--volumes-from",
            container_id,
            "--entrypoint",
            "sh",
            image,
            "-c",
            script.as_str(),
        ],
    );
    proof {
        assert(texts(r@) =~= seq![
            "run"@,
            "--rm"@,
            "-d"@,
            "--name"@,
            helper_name@,
            "--volumes-from"@,
            container_id@,
            "--entrypoint"@,
            "sh"@,
            image@,
            "-c"@,
            helper_script(*config, container_id@),
        ]);
    }
    r
}

/// The ID of the container that the service runs in, read from its host name.
pub fn own_container_id(hostname: &str) -> (r: Result<String, String>)
    ensures
        if blank(hostname@) {
            r is Err && r->Err_0@ == "Own container ID is empty"@
        } else {
            r is Ok && r->Ok_0@ == trimmed(hostname@)
        },
{
    if text::is_blank(hostname) {
        Err("Own container ID is empty".to_string())
    } else {
        Ok(text::trim(hostname).to_string())
    }
}

// ── Networks ─────────────────────────────────────────────────────────────────

/// Whether a line names a network that was made for the compose project.
pub open spec fn is_project_network(line: Seq<char>) -> bool {
    let n = trimmed(line);
    n.len() > 0 && n != "bridge"@ && n != "host"@ && n != "none"@
}

/// The first project network that the lines name.
pub open spec fn first_network(lines: Seq<Seq<char>>) -> Option<Seq<char>>
    decreases lines.len(),
{
    if lines.len() == 0 {
        None
    } else if is_project_network(lines[0]) {
        Some(trimmed(lines[0]))
    } else {
        first_network(lines.drop_first())
    }
}

/// The network of the compose project in a list of networks.
pub fn detect_compose_network(output: &str) -> (r: Option<String>)
    ensures
        text::opt_text(r) == first_network(lines_of(output@)),
{
    let lines = text::lines(output);
    let ghost all = texts(lines@);
    let mut i: usize = 0;
    proof {
        assert(all.subrange(0, all.len() as int) =~= all);
    }
    while i < lines.len()
        invariant
            i <= lines@.len(),
            all == texts(lines@),
            all == lines_of(output@),
            first_network(all) == first_network(all.subrange(i as int, all.len() as int)),
        decreases lines@.len() - i,
    {
        let ghost rest = all.subrange(i as int, all.len() as int);
        proof {
            assert(rest[0] == lines@[i as int]@);
            assert(rest.drop_first() =~= all.subrange(i + 1, all.len() as int));
        }
        let n = text::trim(lines[i].as_str());
        if !n.is_empty() && !text::same(n, "bridge") && !text::same(n, "host") && !text::same(
            n,
            "none",
        ) {
            return Some(n.to_string());
        }
        i += 1;
    }
    None
}

// ── Laws ─────────────────────────────────────────────────────────────────────

/// How a shell reads on: outside quotes, between single quotes, or between
/// double quotes.
pub enum Quotes {
    Outside,
    Single,
    Double,
}

/// What a shell makes of the quotes and plain characters of one word.
pub open spec fn shell_reads(word: Seq<char>, quotes: Quotes) -> Seq<char>
    decreases word.len(),
{
    if word.len() == 0 {
        Seq::empty()
    } else {
        let c = word[0];
        let rest = word.drop_first();
        match quotes {
            Quotes::Outside => if c == '\'' {
                shell_reads(rest, Quotes::Single)
            } else if c == '"' {
                shell_reads(rest, Quotes::Double)
            } else {
                seq![c] + shell_reads(rest, Quotes::Outside)
            },
            Quotes::Single => if c == '\'' {
                shell_reads(rest, Quotes::Outside)
            } else {
                seq![c] + shell_reads(rest, Quotes::Single)
            },
            Quotes::Double => if c == '"' {
                shell_reads(rest, Quotes::Outside)
            } else {
                seq![c] + shell_reads(rest, Quotes::Double)
            },
        }
    }
}

/// Between its first and last quote a quoted text is read as itself.
proof fn lemma_quoted_inside(value: Seq<char>)
    ensures
        shell_reads(replaced(value, '\'', "'\"'\"'"@) + "'"@, Quotes::Single) == value,
    decreases value.len(),
{
    reveal_strlit("'");
    reveal_strlit("'\"'\"'");
    let q = "'\"'\"'"@;
    let end = "'"@;
    if value.len() == 0 {
        assert(replaced(value, '\'', q) =~= Seq::<char>::empty()) by {
            let f = |c: char| text::swapped(c, '\'', q);
            assert(value.map_values(f) =~= Seq::<Seq<char>>::empty());
        }
        assert(replaced(value, '\'', q) + end =~= seq!['\'']);
        assert(seq!['\''].drop_first() =~= Seq::<char>::empty());
        assert(shell_reads(Seq::<char>::empty(), Quotes::Outside) =~= Seq::<char>::empty());
        assert(shell_reads(seq!['\''], Quotes::Single) =~= value);
    } else {
        let c = value[0];
        let rest = value.drop_first();
        let tail = replaced(rest, '\'', q) + end;
        let word = replaced(value, '\'', q) + end;
        text::lemma_replaced_first(value, '\'', q);
        lemma_quoted_inside(rest);
        assert(shell_reads(tail, Quotes::Single) == rest);
        if c == '\'' {
            let w1 = seq!['"', '\'', '"', '\''] + tail;
            let w2 = seq!['\'', '"', '\''] + tail;
            let w3 = seq!['"', '\''] + tail;
            let w4 = seq!['\''] + tail;
            assert(word.drop_first() =~= w1);
            assert(w1.drop_first() =~= w2);
            assert(w2.drop_first() =~= w3);
            assert(w3.drop_first() =~= w4);
            assert(w4.drop_first() =~= tail);
            assert(shell_reads(w4, Quotes::Outside) == rest);
            assert(shell_reads(w3, Quotes::Double) == rest);
            assert(shell_reads(w2, Quotes::Double) == seq!['\''] + rest);
            assert(shell_reads(w1, Quotes::Outside) == seq!['\''] + rest);
            assert(shell_reads(word, Quotes::Single) == seq!['\''] + rest);
        } else {
            assert(word =~= seq![c] + tail);
            assert(word.drop_first() =~= tail);
        }
        assert(seq![c] + rest =~= value);
    }
}

/// A shell reads a quoted text as that text, whatever characters it holds.
pub proof fn law_shell_reads_quoted_text(value: Seq<char>)
    ensures
        shell_reads(quoted(value), Quotes::Outside) == value,
{
    reveal_strlit("'");
    lemma_quoted_inside(value);
    let inside = replaced(value, '\'', "'\"'\"'"@) + "'"@;
    assert(quoted(value) =~= seq!['\''] + inside);
    assert(quoted(value).drop_first() =~= inside);
}

/// A compose command is run on the configured files and ends with exactly its own arguments. The
/// project's directory is given only where one is configured.
pub proof fn law_compose_runs_its_arguments(
    config: UpdaterConfig,
    args: Vec<String>,
    r: Vec<String>,
)
    requires
        call_ensures(compose_command, (&config, &args), r),
    ensures
        ({
            let line = texts(r@);
            let n: int = if trimmed(config.compose_project_dir@).len() > 0 {
                7
            } else {
                5
            };
            &&& line.len() == n + args@.len()
            &&& line.subrange(n, line.len() as int) == texts(args@)
            &&& line[0] == "compose"@
            &&& line[1] == "-f"@ && line[2] == config.compose_file@
            &&& line[3] == "--env-file"@ && line[4] == config.compose_env_file@
            &&& n == 7 ==> line[5] == "--project-directory"@ && line[6]
                == config.compose_project_dir@
        }),
{
    text::lemma_blank(config.compose_project_dir@);
    let line = texts(r@);
    let n: int = if trimmed(config.compose_project_dir@).len() > 0 {
        7
    } else {
        5
    };
    assert(texts(args@).len() == args@.len());
    assert(line.subrange(n, line.len() as int) =~= texts(args@));
}

/// A service is pulled, started, or started anew from what is on this machine: each command names
/// that service and no other, and the last of them never pulls.
pub proof fn law_services_are_named(
    service: &str,
    pull: Vec<String>,
    start: Vec<String>,
    anew: Vec<String>,
)
    requires
        call_ensures(pull_service, (service,), pull),
        call_ensures(start_service, (service,), start),
        call_ensures(recreate_service_without_pull, (service,), anew),
    ensures
        texts(pull@) == seq!["pull"@, service@],
        texts(start@) == seq!["up"@, "-d"@, service@],
        texts(anew@).last() == service@,
        texts(anew@)[0] == "up"@ && texts(anew@)[1] == "-d"@,
        texts(anew@).contains("--force-recreate"@),
        texts(anew@).contains("--no-deps"@),
        texts(anew@)[4] == "--pull"@ && texts(anew@)[5] == "never"@,
{
    assert(texts(anew@)[2] == "--no-deps"@ && texts(anew@)[3] == "--force-recreate"@);
}

/// What stands between two texts occurs in them put together.
proof fn lemma_stands_between(a: Seq<char>, pat: Seq<char>, b: Seq<char>)
    ensures
        occurs_in(a + pat + b, pat),
{
    let s = a + pat + b;
    assert(s.subrange(a.len() as int, (a.len() + pat.len()) as int) =~= pat);
    assert(occurs(s, pat, a.len() as int));
}

/// The helper that replaces the updater stops and removes the container that it was given, and
/// ends by starting the updater's service from what is on this machine; each name stands in it as
/// one quoted word, and its mark is cleared on every way out.
#[verifier::spinoff_prover]
#[verifier::rlimit(60)]
pub proof fn law_helper_replaces_the_container(
    config: UpdaterConfig,
    container: &str,
    r: String,
)
    requires
        call_ensures(build_self_restart_helper_script, (&config, container), r),
    ensures
        "set -e; clear_helper_flag() {"@.is_prefix_of(r@),
        occurs_in(r@, "trap clear_helper_flag EXIT; sleep 2; docker stop "@ + quoted(container@)),
        occurs_in(r@, "docker rm -f "@ + quoted(container@)),
        occurs_in(r@, " rm -f -s "@ + quoted(config.updater_service@)),
        (" up -d --no-deps --force-recreate --pull never "@ + quoted(
            config.updater_service@,
        )).is_suffix_of(r@),
{
    let env_file = quoted(config.compose_env_file@);
    let old_container = quoted(container@);
    let service = quoted(config.updater_service@);
    let compose = shell_args(config);
    let p1 = "set -e; clear_helper_flag() { if grep -q '^SELU_UPDATER_RESTART_HELPER_ACTIVE=' "@;
    let a = p1 + env_file
        + "; then sed -i 's/^SELU_UPDATER_RESTART_HELPER_ACTIVE=.*/SELU_UPDATER_RESTART_HELPER_ACTIVE=false/' "@
        + env_file + "; else printf '\\nSELU_UPDATER_RESTART_HELPER_ACTIVE=false\\n' >> "@
        + env_file;
    let p2 = "; fi; }; trap clear_helper_flag EXIT; sleep 2; docker stop "@;
    let p3 = " >/dev/null 2>&1 || true; docker rm -f "@;
    let p4 = " >/dev/null 2>&1 || true; docker compose "@;
    let p5 = " rm -f -s "@;
    let p6 = " >/dev/null 2>&1 || true; clear_helper_flag; trap - EXIT; docker compose "@;
    let p7 = " up -d --no-deps --force-recreate --pull never "@;
    let q2 = "trap clear_helper_flag EXIT; sleep 2; docker stop "@;
    let q3 = "docker rm -f "@;
    reveal_strlit("set -e; clear_helper_flag() { if grep -q '^SELU_UPDATER_RESTART_HELPER_ACTIVE=' ");
    reveal_strlit("set -e; clear_helper_flag() {");
    reveal_strlit("; fi; }; trap clear_helper_flag EXIT; sleep 2; docker stop ");
    reveal_strlit("trap clear_helper_flag EXIT; sleep 2; docker stop ");
    reveal_strlit(" >/dev/null 2>&1 || true; docker rm -f ");
    reveal_strlit("docker rm -f ");
    assert(r@.subrange(0, "set -e; clear_helper_flag() {"@.len() as int)
        =~= "set -e; clear_helper_flag() {"@);
    assert(p2 =~= "; fi; }; "@ + q2) by {
        reveal_strlit("; fi; }; ");
    }
    assert(p3 =~= " >/dev/null 2>&1 || true; "@ + q3) by {
        reveal_strlit(" >/dev/null 2>&1 || true; ");
    }
    let tail4 = p4 + compose + p5 + service + p6 + compose + p7 + service;
    let tail3 = p3 + old_container + tail4;
    let tail5 = p6 + compose + p7 + service;
    assert(r@ =~= (a + "; fi; }; "@) + (q2 + old_container) + tail3);
    lemma_stands_between(a + "; fi; }; "@, q2 + old_container, tail3);
    let front3 = a + p2 + old_container + " >/dev/null 2>&1 || true; "@;
    assert(r@ =~= front3 + (q3 + old_container) + tail4);
    lemma_stands_between(front3, q3 + old_container, tail4);
    let front5 = a + p2 + old_container + p3 + old_container + p4 + compose;
    assert(r@ =~= front5 + (p5 + service) + tail5);
    lemma_stands_between(front5, p5 + service, tail5);
    let end = p7 + service;
    assert(r@.subrange(r@.len() - end.len(), r@.len() as int) =~= end);
}

/// The helper is run once, under its name, from the updater's image with what the container to
/// replace has mounted.
pub proof fn law_helper_is_run_beside_the_container(
    config: UpdaterConfig,
    helper_name: &str,
    container: &str,
    image: &str,
    script: String,
    r: Vec<String>,
)
    requires
        call_ensures(restart_helper_command, (&config, helper_name, container, image), r),
        call_ensures(build_self_restart_helper_script, (&config, container), script),
    ensures
        ({
            let line = texts(r@);
            &&& line.len() == 12
            &&& line[0] == "run"@ && line[1] == "--rm"@ && line[2] == "-d"@
            &&& line[3] == "--name"@ && line[4] == helper_name@
            &&& line[5] == "--volumes-from"@ && line[6] == container@
            &&& line[7] == "--entrypoint"@ && line[8] == "sh"@
            &&& line[9] == image@
            &&& line[10] == "-c"@ && line[11] == script@
        }),
{
}

/// The network of the project is one that was listed, without white space around it, and none of
/// those that every machine has; and where one was listed, one is found.
pub proof fn law_network_is_a_listed_one(output: &str, r: Option<String>)
    requires
        call_ensures(detect_compose_network, (output,), r),
    ensures
        r matches Some(n) ==> n@.len() > 0 && n@ != "bridge"@ && n@ != "host"@ && n@ != "none"@ && (
        exists|i: int|
            0 <= i < lines_of(output@).len() && trimmed(#[trigger] lines_of(output@)[i]) == n@),
        r is None ==> forall|i: int|
            0 <= i < lines_of(output@).len() ==> {
                let n = trimmed(#[trigger] lines_of(output@)[i]);
                n.len() == 0 || n == "bridge"@ || n == "host"@ || n == "none"@
            },
{
    lemma_first_network(lines_of(output@));
}

/// What the first network of a list is.
proof fn lemma_first_network(lines: Seq<Seq<char>>)
    ensures
        match first_network(lines) {
            Some(n) => exists|i: int|
                0 <= i < lines.len() && is_project_network(#[trigger] lines[i]) && trimmed(lines[i])
                    == n,
            None => forall|i: int|
                0 <= i < lines.len() ==> !is_project_network(#[trigger] lines[i]),
        },
    decreases lines.len(),
{
    if lines.len() > 0 {
        let rest = lines.drop_first();
        lemma_first_network(rest);
        if !is_project_network(lines[0]) {
            match first_network(rest) {
                Some(n) => {
                    let i = choose|i: int|
                        0 <= i < rest.len() && is_project_network(#[trigger] rest[i]) && trimmed(
                            rest[i],
                        ) == n;
                    assert(rest[i] == lines[i + 1]);
                },
                None => {
                    assert forall|i: int| 0 <= i < lines.len() implies !is_project_network(
                        #[trigger] lines[i],
                    ) by {
                        if i > 0 {
                            assert(rest[i - 1] == lines[i]);
                        }
                    }
                },
            }
        }
    }
}

/// In a shell, compose is run on the same files as elsewhere, each quoted; and in the project directory,
/// where there is one.
pub proof fn law_shell_runs_on_the_same_files(config: UpdaterConfig, r: String)
    requires
        call_ensures(build_compose_shell_args, (&config,), r),
    ensures
        blank(config.compose_project_dir@) ==> r@ == "-f"@ + " "@ + quoted(config.compose_file@)
            + " "@ + "--env-file"@ + " "@ + quoted(config.compose_env_file@),
        !blank(config.compose_project_dir@) ==> r@ == "-f"@ + " "@ + quoted(config.compose_file@)
            + " "@ + "--env-file"@ + " "@ + quoted(config.compose_env_file@) + " "@
            + "--project-directory"@ + " "@ + quoted(config.compose_project_dir@),
{
    let a = seq!["-f"@, quoted(config.compose_file@)];
    let b = a.push("--env-file"@);
    let c = b.push(quoted(config.compose_env_file@));
    let d = c.push("--project-directory"@);
    let e = d.push(quoted(config.compose_project_dir@));
    assert(a.drop_last() =~= seq!["-f"@]);
    assert(b.drop_last() =~= a);
    assert(c.drop_last() =~= b);
    assert(d.drop_last() =~= c);
    assert(e.drop_last() =~= d);
    assert(joined(seq!["-f"@], " "@) == "-f"@);
    let sep = " "@;
    assert(joined(a, sep) == "-f"@ + sep + quoted(config.compose_file@));
    assert(b.len() == 3 && b.last() == "--env-file"@);
    assert(joined(b, sep) == joined(a, sep) + sep + "--env-file"@);
    assert(c.len() == 4 && c.last() == quoted(config.compose_env_file@));
    assert(joined(c, sep) == joined(b, sep) + sep + quoted(config.compose_env_file@));
    assert(d.len() == 5 && d.last() == "--project-directory"@);
    assert(joined(d, sep) == joined(c, sep) + sep + "--project-directory"@);
    assert(e.len() == 6 && e.last() == quoted(config.compose_project_dir@));
    assert(joined(e, sep) == joined(d, sep) + sep + quoted(config.compose_project_dir@));
    let four = seq![
        "-f"@,
        quoted(config.compose_file@),
        "--env-file"@,
        quoted(config.compose_env_file@),
    ];
    assert(four + Seq::<Seq<char>>::empty() =~= c);
    assert(four + seq!["--project-directory"@, quoted(config.compose_project_dir@)] =~= e);
}

/// The helper that restarts a container is named after the first twelve bytes of its ID, or after all of
/// a shorter one.
pub proof fn law_helper_is_named_after_its_container(container_id: &str, r: String)
    requires
        text::cuts_at(
            container_id@,
            if text::byte_len(container_id@) < 12 {
                text::byte_len(container_id@) as int
            } else {
                12
            },
        ),
        call_ensures(restart_helper_name, (container_id,), r),
    ensures
        text::byte_len(container_id@) >= 12 ==> r@ == "selu-updater-restart-"@ + text::first_bytes(
            container_id@,
            12,
        ),
        text::byte_len(container_id@) < 12 ==> r@ == "selu-updater-restart-"@ + text::first_bytes(
            container_id@,
            text::byte_len(container_id@) as int,
        ),
{
}

/// The image of the updater's service is asked for with the updater's own files and service.
pub proof fn law_service_image_is_asked_for(config: UpdaterConfig, r: Vec<String>)
    requires
        call_ensures(resolve_updater_service_image, (&config,), r),
    ensures
        r@.len() >= 8,
        r@[0]@ == "compose"@ && r@[1]@ == "-f"@ && r@[2]@ == config.compose_file@,
        r@[3]@ == "--env-file"@ && r@[4]@ == config.compose_env_file@,
        r@[r@.len() - 3]@ == "config"@ && r@[r@.len() - 2]@ == "--images"@,
        r@[r@.len() - 1]@ == config.updater_service@,
{
    let t = texts(r@);
    assert(t.len() == r@.len());
    assert(t[0] == r@[0]@ && t[1] == r@[1]@ && t[2] == r@[2]@ && t[3] == r@[3]@ && t[4]
        == r@[4]@);
    assert(t[t.len() - 3] == r@[r@.len() - 3]@ && t[t.len() - 2] == r@[r@.len() - 2]@ && t[t.len()
        - 1] == r@[r@.len() - 1]@);
}

} // verus!
