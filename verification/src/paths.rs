//! Paths on Unix, modelled as sequences of characters.
use vstd::prelude::*;

verus! {

/// `p` names an absolute path: it starts at the root.
pub open spec fn is_absolute(p: Seq<char>) -> bool {
    p.len() > 0 && p[0] == '/'
}

/// What joining `p` onto `base` gives on Unix: an absolute `p` replaces
/// `base`; otherwise a separator is put between the two unless `base` is
/// empty or already ends with one.
pub open spec fn path_join(base: Seq<char>, p: Seq<char>) -> Seq<char> {
    if is_absolute(p) {
        p
    } else if base.len() > 0 && base.last() != '/' {
        base + seq!['/'] + p
    } else {
        base + p
    }
}

/// Joins `p` onto `base` as `Path::join` does on Unix.
pub fn join(base: &str, p: &str) -> (res: String)
    ensures
        res@ == path_join(base@, p@),
{
    let p_len = p.unicode_len();
    if p_len > 0 && p.get_char(0) == '/' {
        return String::from_str(p);
    }
    let base_len = base.unicode_len();
    let mut res = String::from_str(base);
    if base_len > 0 && base.get_char(base_len - 1) != '/' {
        let sep = "/";
        proof {
            reveal_strlit("/");
        }
        res.append(sep);
    }
    res.append(p);
    res
}

/// Joining a relative component onto a base that does not end in `/` puts
/// exactly one `/` between them, whatever the component; onto an empty base
/// or one that ends in `/`, none; and an absolute component stands alone.
pub proof fn lemma_join_separator(base: Seq<char>, p: Seq<char>)
    ensures
        !(p.len() > 0 && p[0] == '/') && base.len() > 0 && base[base.len() - 1] != '/'
            ==> path_join(base, p) == base + seq!['/'] + p,
        !(p.len() > 0 && p[0] == '/') && (base.len() == 0 || base[base.len() - 1] == '/')
            ==> path_join(base, p) == base + p,
        (p.len() > 0 && p[0] == '/') ==> path_join(base, p) == p,
{
}

/// The path of a vscode-server entry: the directory `name` (a commit hash)
/// under the `bin` directory `bin_dir`.
pub fn entry_path(bin_dir: &str, name: &str) -> (res: String)
    ensures
        res@ == path_join(bin_dir@, name@),
{
    join(bin_dir, name)
}

/// The path of the `node` binary inside the vscode-server entry `entry`.
pub open spec fn node_binary_of(entry: Seq<char>) -> Seq<char> {
    path_join(entry, "node"@)
}

/// The path of `bin/helpers/check-requirements.sh` inside the
/// vscode-server entry `entry`.
pub open spec fn check_script_of(entry: Seq<char>) -> Seq<char> {
    path_join(path_join(path_join(entry, "bin"@), "helpers"@), "check-requirements.sh"@)
}

/// Inside an entry named by a path that does not end in `/`, the `node`
/// binary is `<entry>/node` and the script is
/// `<entry>/bin/helpers/check-requirements.sh`.
pub proof fn lemma_entry_files(entry: Seq<char>)
    requires
        entry.len() > 0,
        entry[entry.len() - 1] != '/',
    ensures
        node_binary_of(entry) == entry + "/node"@,
        check_script_of(entry) == entry + "/bin/helpers/check-requirements.sh"@,
{
    reveal_strlit("node");
    reveal_strlit("bin");
    reveal_strlit("helpers");
    reveal_strlit("check-requirements.sh");
    reveal_strlit("/node");
    reveal_strlit("/bin/helpers/check-requirements.sh");
    assert(node_binary_of(entry) =~= entry + "/node"@);
    let b = path_join(entry, "bin"@);
    assert(b =~= entry + seq!['/'] + "bin"@);
    let h = path_join(b, "helpers"@);
    assert(h =~= b + seq!['/'] + "helpers"@);
    assert(check_script_of(entry) =~= entry + "/bin/helpers/check-requirements.sh"@);
}

/// The `node` binary of the vscode-server entry `entry_dir`, the one that
/// patchelf rewrites.
pub fn node_binary_path(entry_dir: &str) -> (res: String)
    ensures
        res@ == node_binary_of(entry_dir@),
{
    join(entry_dir, "node")
}

/// The `check-requirements.sh` script of the vscode-server entry
/// `entry_dir`, the one that gets the glibc override.
pub fn check_script_path(entry_dir: &str) -> (res: String)
    ensures
        res@ == check_script_of(entry_dir@),
{
    let bin = join(entry_dir, "bin");
    let helpers = join(bin.as_str(), "helpers");
    join(helpers.as_str(), "check-requirements.sh")
}

/// The home directory used when `HOME` is not set: root's.
pub const FALLBACK_HOME: &'static str = "/root";

/// The `bin` directory of VSCode Server under the home directory `home`,
/// or under root's home where `home` is not known.
pub open spec fn default_bin_dir_of(home: Option<Seq<char>>) -> Seq<char> {
    let h = match home {
        Some(h) => h,
        None => FALLBACK_HOME@,
    };
    path_join(path_join(h, ".vscode-server"@), "bin"@)
}

/// The default `bin` directory is `<home>/.vscode-server/bin` for a home
/// that does not end in `/`, and `/root/.vscode-server/bin` without one.
pub proof fn lemma_default_bin_dir(home: Seq<char>)
    requires
        home.len() > 0,
        home[home.len() - 1] != '/',
    ensures
        default_bin_dir_of(Some(home)) == home + "/.vscode-server/bin"@,
        default_bin_dir_of(None) == "/root/.vscode-server/bin"@,
{
    reveal_strlit(".vscode-server");
    reveal_strlit("bin");
    reveal_strlit("/root");
    reveal_strlit("/.vscode-server/bin");
    reveal_strlit("/root/.vscode-server/bin");
    let s = path_join(home, ".vscode-server"@);
    assert(s =~= home + seq!['/'] + ".vscode-server"@);
    assert(default_bin_dir_of(Some(home)) =~= home + "/.vscode-server/bin"@);
    let r = path_join(FALLBACK_HOME@, ".vscode-server"@);
    assert(r =~= FALLBACK_HOME@ + seq!['/'] + ".vscode-server"@);
    assert(default_bin_dir_of(None) =~= "/root/.vscode-server/bin"@);
}

/// `~/.vscode-server/bin`, the directory fixed when no path is given:
/// under `home` (the value of `HOME`, where it is set), else under `/root`.
pub fn default_bin_dir(home: Option<&str>) -> (res: String)
    ensures
        res@ == default_bin_dir_of(match home {
            Some(h) => Some(h@),
            None => None,
        }),
{
    let h: &str = match home {
        Some(h) => h,
        None => FALLBACK_HOME,
    };
    let server = join(h, ".vscode-server");
    join(server.as_str(), "bin")
}

} // verus!
