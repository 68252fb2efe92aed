//! Launch strategy for the bundled server: decide between production
//! mode (bundled runtime and script under the packaged resources) and
//! development mode (system runtime and a local script found by
//! probing fixed candidate paths), and build the exact command line.

use vstd::prelude::*;

verus! {

use vstd::string::*;

/// How the server process is launched.
#[derive(Clone, Copy, PartialEq, Eq, Structural, Debug)]
pub enum ServerMode {
    /// Bundled runtime sidecar with the packaged server script.
    Production,
    /// System-installed runtime with a local development script.
    Development,
}

/// A fully resolved command line for the server process: the program
/// to run, its ordered arguments, and the optional `NODE_PATH`
/// environment variable pointing at the bundled dependencies.
pub struct CommandLine {
    pub mode: ServerMode,
    pub program: String,
    pub args: Vec<String>,
    pub node_path: Option<String>,
}

/// A path inside `dir`: the directory, a separator, then the entry name.
pub open spec fn joined(dir: Seq<char>, name: Seq<char>) -> Seq<char> {
    dir + "/"@ + name
}

/// Joins a directory and an entry name with a path separator.
pub fn join_path(dir: &str, name: &str) -> (r: String)
    ensures
        r@ == joined(dir@, name@),
{
    let r = dir.to_owned().concat("/").concat(name);
    proof {
        assert(r@ =~= joined(dir@, name@));
    }
    r
}

/// Selects production mode exactly when the packaged resource root
/// contains a `server` subdirectory.
pub fn resolve_server_mode(server_dir_exists: bool) -> (m: ServerMode)
    ensures
        m is Production <==> server_dir_exists,
{
    if server_dir_exists {
        ServerMode::Production
    } else {
        ServerMode::Development
    }
}

/// The fixed, ordered candidate paths probed for the development
/// server script; the first is also the fallback default.
pub open spec fn dev_cli_candidates() -> Seq<Seq<char>> {
    seq!["../cli.js"@, "../../cli.js"@, "cli.js"@]
}

/// The candidate paths probed for the development server script, in
/// the order they are tried.
pub fn dev_cli_candidate_list() -> (v: Vec<String>)
    ensures
        v.deep_view() == dev_cli_candidates(),
{
    let mut v: Vec<String> = Vec::new();
    v.push(String::from_str("../cli.js"));
    v.push(String::from_str("../../cli.js"));
    v.push(String::from_str("cli.js"));
    proof {
        assert(v.deep_view() =~= dev_cli_candidates());
    }
    v
}

/// The index of the first `true` in `exists`, or `exists.len()` when
/// every entry is `false`.
pub open spec fn first_true_index(exists: Seq<bool>) -> int
    decreases exists.len(),
{
    if exists.len() == 0 {
        0
    } else if exists[0] {
        0
    } else {
        1 + first_true_index(exists.drop_first())
    }
}

/// The candidate the probe settles on: the first that exists, or the
/// declared default (the first candidate) when none exists.
pub open spec fn chosen_dev_cli(exists: Seq<bool>) -> Seq<char> {
    if first_true_index(exists) < exists.len() {
        dev_cli_candidates()[first_true_index(exists)]
    } else {
        dev_cli_candidates()[0]
    }
}

pub proof fn lemma_first_true_index(exists: Seq<bool>)
    ensures
        0 <= first_true_index(exists) <= exists.len(),
        forall|i: int| 0 <= i < first_true_index(exists) ==> !exists[i],
        first_true_index(exists) < exists.len() ==> exists[first_true_index(exists)],
    decreases exists.len(),
{
    if exists.len() > 0 && !exists[0] {
        lemma_first_true_index(exists.drop_first());
        assert forall|i: int| 0 <= i < first_true_index(exists) implies !exists[i] by {
            if i > 0 {
                assert(!exists.drop_first()[i - 1]);
            }
        }
    }
}

/// Returns the development server script path: candidates are probed
/// in their declared order and the first existing one wins; when none
/// exists the first candidate is returned as the default.  The caller
/// reports in `exists` which candidate paths are present on disk, in
/// the same order as `dev_cli_candidate_list`.
pub fn find_dev_cli_path(exists: &Vec<bool>) -> (r: String)
    requires
        exists@.len() == dev_cli_candidates().len(),
    ensures
        r@ == chosen_dev_cli(exists@),
        forall|i: int|
            0 <= i < exists@.len() && #[trigger] exists@[i] ==> exists@[first_true_index(exists@)]
                && first_true_index(exists@) <= i,
        (forall|i: int| 0 <= i < exists@.len() ==> !(#[trigger] exists@[i])) ==> r@
            == dev_cli_candidates()[0],
{
    proof {
        lemma_first_true_index(exists@);
    }
    let candidates = dev_cli_candidate_list();
    let mut i: usize = 0;
    while i < candidates.len()
        invariant
            candidates.deep_view() == dev_cli_candidates(),
            exists@.len() == dev_cli_candidates().len(),
            i <= candidates.len(),
            forall|j: int| 0 <= j < i ==> !exists@[j],
        decreases candidates.len() - i,
    {
        if exists[i] {
            proof {
                lemma_first_true_index(exists@);
                assert(first_true_index(exists@) == i);
            }
            return candidates[i].clone();
        }
        i += 1;
    }
    proof {
        lemma_first_true_index(exists@);
    }
    candidates[0].clone()
}

/// The fixed trailing arguments handed to the server in both modes:
/// run the UI in the foreground, bound to the fixed port.
pub open spec fn fixed_server_args() -> Seq<Seq<char>> {
    seq!["ui"@, "--foreground"@, "--port"@, "3333"@]
}

/// The full argument list: the entry script path, then the fixed
/// trailing arguments.
pub open spec fn server_args_for(entry: Seq<char>) -> Seq<Seq<char>> {
    seq![entry] + fixed_server_args()
}

/// The production entry script: `cli.js` inside the `server`
/// subdirectory of the packaged resource root.
pub open spec fn production_entry(resource_root: Seq<char>) -> Seq<char> {
    joined(joined(resource_root, "server"@), "cli.js"@)
}

/// The bundled dependency directory handed to the runtime through
/// `NODE_PATH` in production mode.
pub open spec fn production_node_path(resource_root: Seq<char>) -> Seq<char> {
    joined(joined(resource_root, "server"@), "node_modules"@)
}

fn build_server_args(entry: String) -> (v: Vec<String>)
    ensures
        v.deep_view() == server_args_for(entry@),
{
    let ghost entry_view = entry@;
    let mut v: Vec<String> = Vec::new();
    v.push(entry);
    v.push(String::from_str("ui"));
    v.push(String::from_str("--foreground"));
    v.push(String::from_str("--port"));
    v.push(String::from_str("3333"));
    proof {
        assert(v.deep_view() =~= server_args_for(entry_view));
    }
    v
}

/// Resolves the exact server command line.  With a `server`
/// subdirectory under the resource root the command runs the bundled
/// sidecar on the packaged script with `NODE_PATH` set; otherwise it
/// runs the system runtime on the development script chosen by the
/// candidate probe.  `dev_cli_exists` reports, in order, which of the
/// development candidate paths are present on disk.
pub fn resolve_server_command(
    resource_root: &str,
    server_dir_exists: bool,
    dev_cli_exists: &Vec<bool>,
) -> (c: CommandLine)
    requires
        dev_cli_exists@.len() == dev_cli_candidates().len(),
    ensures
        c.mode is Production <==> server_dir_exists,
        server_dir_exists ==> c.program@ == "node-server"@ && c.args.deep_view()
            == server_args_for(production_entry(resource_root@)) && c.node_path is Some
            && c.node_path->0@ == production_node_path(resource_root@),
        !server_dir_exists ==> c.program@ == "node"@ && c.args.deep_view() == server_args_for(
            chosen_dev_cli(dev_cli_exists@),
        ) && c.node_path is None,
{
    if server_dir_exists {
        let server_dir = join_path(resource_root, "server");
        let entry = join_path(server_dir.as_str(), "cli.js");
        let node_path = join_path(server_dir.as_str(), "node_modules");
        CommandLine {
            mode: ServerMode::Production,
            program: String::from_str("node-server"),
            args: build_server_args(entry),
            node_path: Some(node_path),
        }
    } else {
        let entry = find_dev_cli_path(dev_cli_exists);
        CommandLine {
            mode: ServerMode::Development,
            program: String::from_str("node"),
            args: build_server_args(entry),
            node_path: None,
        }
    }
}

/// In production mode the built command references a script inside
/// the `server` subdirectory: the server directory path, separator
/// included, is a prefix of the entry script path.
pub proof fn lemma_production_entry_in_server_dir(resource_root: Seq<char>)
    ensures
        (joined(resource_root, "server"@) + "/"@).is_prefix_of(production_entry(resource_root)),
{
    assert((joined(resource_root, "server"@) + "/"@).is_prefix_of(
        production_entry(resource_root),
    )) by {
        assert(production_entry(resource_root).take(
            (joined(resource_root, "server"@) + "/"@).len() as int,
        ) =~= joined(resource_root, "server"@) + "/"@);
    }
}

} // verus!
