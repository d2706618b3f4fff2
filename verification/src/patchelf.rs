//! Pointing the `node` binary of a vscode-server entry at the unpacked glibc
//! and libstdc++ with patchelf.
use vstd::prelude::*;
use crate::command::CommandLine;
use crate::paths::{join, path_join};
use crate::prepare::{ld_so_of, ld_so_path, USRLIBS_DIR};
use crate::text::{bytes_contain, contains_seq, occurs_at};
use vstd::utf8::{encode_utf8, is_ascii_chars, is_ascii_chars_encode_utf8};
use vstd::string::StringSliceAdditionalSpecFns;

verus! {

/// The library search path given to the patched binary: the unpacked
/// `usr/lib64`, then the unpacked `lib64`, separated by a colon.
pub open spec fn rpath_of() -> Seq<char> {
    path_join(USRLIBS_DIR@, "usr/lib64"@) + seq![':'] + path_join(USRLIBS_DIR@, "lib64"@)
}

/// `/root/usrlibs/usr/lib64:/root/usrlibs/lib64`.
pub fn rpath() -> (res: String)
    ensures
        res@ == rpath_of(),
{
    let mut res = join(USRLIBS_DIR, "usr/lib64");
    let colon = ":";
    proof {
        reveal_strlit(":");
    }
    res.append(colon);
    let lib64 = join(USRLIBS_DIR, "lib64");
    res.append(lib64.as_str());
    res
}

/// `patchelf --set-interpreter <loader> --set-rpath <rpath> <node_bin>`.
pub open spec fn set_interpreter_command_of(node_bin: Seq<char>) -> (Seq<char>, Seq<Seq<char>>) {
    ("patchelf"@, seq!["--set-interpreter"@, ld_so_of(), "--set-rpath"@, rpath_of(), node_bin])
}

/// Makes `node_bin` run under the unpacked loader, looking for libraries in
/// the unpacked directories.
pub fn set_interpreter_command(node_bin: &str) -> (res: CommandLine)
    ensures
        res@ == set_interpreter_command_of(node_bin@),
{
    let mut args: Vec<String> = Vec::new();
    args.push(String::from_str("--set-interpreter"));
    args.push(ld_so_path());
    args.push(String::from_str("--set-rpath"));
    args.push(rpath());
    args.push(String::from_str(node_bin));
    let res = CommandLine { program: String::from_str("patchelf"), args };
    assert(res@.1 =~= set_interpreter_command_of(node_bin@).1);
    res
}

/// `patchelf --print-interpreter <node_bin>`.
pub open spec fn print_interpreter_command_of(node_bin: Seq<char>) -> (Seq<char>, Seq<Seq<char>>) {
    ("patchelf"@, seq!["--print-interpreter"@, node_bin])
}

/// Asks which loader `node_bin` runs under.
pub fn print_interpreter_command(node_bin: &str) -> (res: CommandLine)
    ensures
        res@ == print_interpreter_command_of(node_bin@),
{
    let mut args: Vec<String> = Vec::new();
    args.push(String::from_str("--print-interpreter"));
    args.push(String::from_str(node_bin));
    let res = CommandLine { program: String::from_str("patchelf"), args };
    assert(res@.1 =~= print_interpreter_command_of(node_bin@).1);
    res
}

/// Whether the binary is patched already, judged from what
/// `patchelf --print-interpreter` wrote to its standard output: it is where
/// that output names `USRLIBS_DIR`. `None` stands for a patchelf that could
/// not be run, and counts as not patched, so that patching goes ahead.
/// The search is on bytes: since the directory's name is ASCII, it occurs in
/// the bytes exactly where it occurs in their lossy UTF-8 decoding.
pub fn is_already_patched(probe_stdout: Option<&[u8]>) -> (res: bool)
    ensures
        res == match probe_stdout {
            Some(out) => contains_seq(out@, USRLIBS_DIR.spec_bytes()),
            None => false,
        },
{
    match probe_stdout {
        Some(out) => bytes_contain(out, USRLIBS_DIR.as_bytes()),
        None => false,
    }
}

/// The patch is recognised: where the interpreter that patchelf reports is
/// the loader that the patch sets, the binary counts as patched, so that a
/// second fix leaves it alone.
pub proof fn lemma_set_interpreter_recognised(probe_stdout: Seq<u8>)
    requires
        contains_seq(probe_stdout, encode_utf8(ld_so_of())),
    ensures
        contains_seq(probe_stdout, USRLIBS_DIR.spec_bytes()),
{
    reveal_strlit("/root/usrlibs");
    reveal_strlit("lib64/ld-linux-x86-64.so.2");
    let dir = USRLIBS_DIR@;
    let ld = ld_so_of();
    assert(is_ascii_chars(dir));
    assert(is_ascii_chars(ld));
    is_ascii_chars_encode_utf8(dir);
    is_ascii_chars_encode_utf8(ld);
    let e_dir = encode_utf8(dir);
    let e_ld = encode_utf8(ld);
    assert(e_ld.subrange(0, e_dir.len() as int) =~= e_dir) by {
        assert forall|i: int| 0 <= i < e_dir.len() implies e_ld[i] == e_dir[i] by {
            assert(ld[i] == dir[i]);
        }
    }
    let i = choose|i: int| occurs_at(probe_stdout, e_ld, i);
    assert(probe_stdout.subrange(i, i + e_dir.len()) =~= e_dir) by {
        assert(probe_stdout.subrange(i, i + e_ld.len()) == e_ld);
        assert forall|j: int| 0 <= j < e_dir.len() implies probe_stdout.subrange(i, i + e_dir.len())[j] == e_dir[j] by {
            assert(probe_stdout.subrange(i, i + e_ld.len())[j] == e_ld[j]);
        }
    }
    assert(occurs_at(probe_stdout, e_dir, i));
}

/// The patch points the binary at `/root/usrlibs/lib64/ld-linux-x86-64.so.2`
/// and gives it `/root/usrlibs/usr/lib64:/root/usrlibs/lib64` to search,
/// the binary itself being the last argument; the probe asks about the
/// same binary.
pub proof fn lemma_patchelf_commands(node_bin: Seq<char>)
    ensures
        ld_so_of() == "/root/usrlibs/lib64/ld-linux-x86-64.so.2"@,
        rpath_of() == "/root/usrlibs/usr/lib64:/root/usrlibs/lib64"@,
        set_interpreter_command_of(node_bin) == ("patchelf"@, seq![
            "--set-interpreter"@,
            "/root/usrlibs/lib64/ld-linux-x86-64.so.2"@,
            "--set-rpath"@,
            "/root/usrlibs/usr/lib64:/root/usrlibs/lib64"@,
            node_bin,
        ]),
        print_interpreter_command_of(node_bin) == ("patchelf"@, seq!["--print-interpreter"@, node_bin]),
{
    reveal_strlit("/root/usrlibs");
    reveal_strlit("lib64/ld-linux-x86-64.so.2");
    reveal_strlit("usr/lib64");
    reveal_strlit("lib64");
    reveal_strlit("/root/usrlibs/lib64/ld-linux-x86-64.so.2");
    reveal_strlit("/root/usrlibs/usr/lib64:/root/usrlibs/lib64");
    assert(ld_so_of() =~= "/root/usrlibs/lib64/ld-linux-x86-64.so.2"@);
    assert(rpath_of() =~= "/root/usrlibs/usr/lib64:/root/usrlibs/lib64"@);
    assert(set_interpreter_command_of(node_bin).1 =~= seq![
        "--set-interpreter"@,
        "/root/usrlibs/lib64/ld-linux-x86-64.so.2"@,
        "--set-rpath"@,
        "/root/usrlibs/usr/lib64:/root/usrlibs/lib64"@,
        node_bin,
    ]);
}

/// The patchelf run for `node_bin`, or `None` where the binary is patched
/// already and is left alone.
pub fn node_patch_plan(node_bin: &str, already_patched: bool) -> (res: Option<CommandLine>)
    ensures
        already_patched ==> res is None,
        !already_patched ==> (res matches Some(c) && c@ == set_interpreter_command_of(node_bin@)),
{
    if already_patched {
        None
    } else {
        Some(set_interpreter_command(node_bin))
    }
}

} // verus!
