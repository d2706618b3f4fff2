//! What `prepare` sets up: the tools that the fix needs, and glibc and
//! libstdc++ unpacked under a directory of their own.
use vstd::prelude::*;
use crate::command::CommandLine;
use crate::paths::{join, path_join};
use crate::text::str_eq;

verus! {

/// The directory that the downloaded libraries are unpacked into.
pub const USRLIBS_DIR: &'static str = "/root/usrlibs";

/// Where the dynamic loader of the unpacked glibc lies, under `USRLIBS_DIR`.
pub const LD_SO_IN_USRLIBS: &'static str = "lib64/ld-linux-x86-64.so.2";

/// The glibc package.
pub const GLIBC_RPM_URL: &'static str = "https://mirrors.tencent.com/tlinux/4/BaseOS/x86_64/os/Packages/glibc-2.38-36.tl4.x86_64.rpm";

/// The libstdc++ package.
pub const LIBSTDCXX_RPM_URL: &'static str = "https://mirrors.tencent.com/tlinux/4/BaseOS/x86_64/os/Packages/libstdc++-12.3.1.4-2.tl4.x86_64.rpm";

/// The file that the glibc package is downloaded to, under `USRLIBS_DIR`.
pub const GLIBC_RPM_FILE: &'static str = "glibc-2.38-36.tl4.x86_64.rpm";

/// The file that the libstdc++ package is downloaded to, under `USRLIBS_DIR`.
pub const LIBSTDCXX_RPM_FILE: &'static str = "libstdc++-12.3.1.4-2.tl4.x86_64.rpm";

/// The file, under `USRLIBS_DIR`, whose presence records that glibc was unpacked.
pub const GLIBC_MARKER_FILE: &'static str = ".glibc_extracted";

/// The file, under `USRLIBS_DIR`, whose presence records that libstdc++ was unpacked.
pub const LIBSTDCXX_MARKER_FILE: &'static str = ".libstdcxx_extracted";

/// The path of the dynamic loader of the unpacked glibc.
pub open spec fn ld_so_of() -> Seq<char> {
    path_join(USRLIBS_DIR@, LD_SO_IN_USRLIBS@)
}

/// `/root/usrlibs/lib64/ld-linux-x86-64.so.2`: the loader that the patched
/// `node` binary runs under, and the file whose absence after unpacking
/// means that `prepare` failed.
pub fn ld_so_path() -> (res: String)
    ensures
        res@ == ld_so_of(),
{
    join(USRLIBS_DIR, LD_SO_IN_USRLIBS)
}

/// The package that provides the command `tool`: `rpm` for `rpm2cpio`,
/// the tool's own name for the others.
pub open spec fn package_of(tool: Seq<char>) -> Seq<char> {
    if tool == "rpm2cpio"@ {
        "rpm"@
    } else {
        tool
    }
}

/// The package to install for a missing `tool`.
pub fn package_for_tool(tool: &str) -> (res: String)
    ensures
        res@ == package_of(tool@),
{
    if str_eq(tool, "rpm2cpio") {
        String::from_str("rpm")
    } else {
        String::from_str(tool)
    }
}

/// `sudo yum install -y <package>`.
pub open spec fn install_command_of(package: Seq<char>) -> (Seq<char>, Seq<Seq<char>>) {
    ("sudo"@, seq!["yum"@, "install"@, "-y"@, package])
}

/// Installs `package` with yum, as root.
pub fn install_command(package: &str) -> (res: CommandLine)
    ensures
        res@ == install_command_of(package@),
{
    let mut args: Vec<String> = Vec::new();
    args.push(String::from_str("yum"));
    args.push(String::from_str("install"));
    args.push(String::from_str("-y"));
    args.push(String::from_str(package));
    let res = CommandLine { program: String::from_str("sudo"), args };
    assert(res@.1 =~= install_command_of(package@).1);
    res
}

/// `wget -O <dest> <url>`.
pub open spec fn download_command_of(dest: Seq<char>, url: Seq<char>) -> (Seq<char>, Seq<Seq<char>>) {
    ("wget"@, seq!["-O"@, dest, url])
}

/// Downloads `url` to the file `dest`.
pub fn download_command(dest: &str, url: &str) -> (res: CommandLine)
    ensures
        res@ == download_command_of(dest@, url@),
{
    let mut args: Vec<String> = Vec::new();
    args.push(String::from_str("-O"));
    args.push(String::from_str(dest));
    args.push(String::from_str(url));
    let res = CommandLine { program: String::from_str("wget"), args };
    assert(res@.1 =~= download_command_of(dest@, url@).1);
    res
}

/// `sh -c "cd <dest_dir> && rpm2cpio <rpm_path> | cpio -idm"`: unpacks a
/// package in place, through the shell since it pipes one tool into another.
pub open spec fn extract_command_of(rpm_path: Seq<char>, dest_dir: Seq<char>) -> (Seq<char>, Seq<Seq<char>>) {
    ("sh"@, seq!["-c"@, "cd "@ + dest_dir + " && rpm2cpio "@ + rpm_path + " | cpio -idm"@])
}

/// Unpacks the package `rpm_path` into `dest_dir`.
pub fn extract_command(rpm_path: &str, dest_dir: &str) -> (res: CommandLine)
    ensures
        res@ == extract_command_of(rpm_path@, dest_dir@),
{
    let mut script = String::from_str("cd ");
    script.append(dest_dir);
    script.append(" && rpm2cpio ");
    script.append(rpm_path);
    script.append(" | cpio -idm");
    let mut args: Vec<String> = Vec::new();
    args.push(String::from_str("-c"));
    args.push(script);
    let res = CommandLine { program: String::from_str("sh"), args };
    assert(res@.1 =~= extract_command_of(rpm_path@, dest_dir@).1);
    res
}

/// One step of `prepare`.
pub enum PrepareStep {
    /// Make sure the command `tool` is there; where it is not found, run `install`.
    EnsureTool { tool: String, install: CommandLine },
    /// Create the directory `path` and its parents.
    CreateDir { path: String },
    /// Where the file `dest` is missing, fetch the package `name` with `download`.
    Download { name: String, dest: String, download: CommandLine },
    /// Where the file `marker` is missing, unpack the package `name`, lying at
    /// `rpm_path`, with `unpack`, then create `marker`.
    Unpack { name: String, rpm_path: String, marker: String, unpack: CommandLine },
    /// Fail where the file `path` is missing.
    RequireFile { path: String },
}

/// A step of `prepare`, with its texts and command lines as plain values.
pub enum PrepareStepView {
    EnsureTool { tool: Seq<char>, install: (Seq<char>, Seq<Seq<char>>) },
    CreateDir { path: Seq<char> },
    Download { name: Seq<char>, dest: Seq<char>, download: (Seq<char>, Seq<Seq<char>>) },
    Unpack { name: Seq<char>, rpm_path: Seq<char>, marker: Seq<char>, unpack: (Seq<char>, Seq<Seq<char>>) },
    RequireFile { path: Seq<char> },
}

impl View for PrepareStep {
    type V = PrepareStepView;

    open spec fn view(&self) -> PrepareStepView {
        match self {
            PrepareStep::EnsureTool { tool, install } => PrepareStepView::EnsureTool {
                tool: tool@,
                install: install@,
            },
            PrepareStep::CreateDir { path } => PrepareStepView::CreateDir { path: path@ },
            PrepareStep::Download { name, dest, download } => PrepareStepView::Download {
                name: name@,
                dest: dest@,
                download: download@,
            },
            PrepareStep::Unpack { name, rpm_path, marker, unpack } => PrepareStepView::Unpack {
                name: name@,
                rpm_path: rpm_path@,
                marker: marker@,
                unpack: unpack@,
            },
            PrepareStep::RequireFile { path } => PrepareStepView::RequireFile { path: path@ },
        }
    }
}

/// The step that makes sure of `tool`, installing its package where missing.
pub open spec fn ensure_tool_of(tool: Seq<char>, package: Seq<char>) -> PrepareStepView {
    PrepareStepView::EnsureTool { tool, install: install_command_of(package) }
}

/// The step that fetches the package `name` from `url` to `file` under `USRLIBS_DIR`.
pub open spec fn download_of(name: Seq<char>, url: Seq<char>, file: Seq<char>) -> PrepareStepView {
    let dest = path_join(USRLIBS_DIR@, file);
    PrepareStepView::Download { name, dest, download: download_command_of(dest, url) }
}

/// The step that unpacks the package `name`, downloaded to `file` under
/// `USRLIBS_DIR`, into `USRLIBS_DIR`, recorded by `marker_file` there.
pub open spec fn unpack_of(name: Seq<char>, file: Seq<char>, marker_file: Seq<char>) -> PrepareStepView {
    let rpm_path = path_join(USRLIBS_DIR@, file);
    PrepareStepView::Unpack {
        name,
        rpm_path,
        marker: path_join(USRLIBS_DIR@, marker_file),
        unpack: extract_command_of(rpm_path, USRLIBS_DIR@),
    }
}

/// The steps of `prepare`, in order: the tools (`patchelf`, then `rpm2cpio`,
/// `cpio` and `wget`); the libraries' directory; both downloads (glibc, then
/// libstdc++); both unpackings in the same order; and last the check that
/// the glibc loader is there.
pub open spec fn prepare_plan_of() -> Seq<PrepareStepView> {
    seq![
        ensure_tool_of("patchelf"@, "patchelf"@),
        ensure_tool_of("rpm2cpio"@, package_of("rpm2cpio"@)),
        ensure_tool_of("cpio"@, package_of("cpio"@)),
        ensure_tool_of("wget"@, package_of("wget"@)),
        PrepareStepView::CreateDir { path: USRLIBS_DIR@ },
        download_of("glibc"@, GLIBC_RPM_URL@, GLIBC_RPM_FILE@),
        download_of("libstdc++"@, LIBSTDCXX_RPM_URL@, LIBSTDCXX_RPM_FILE@),
        unpack_of("glibc"@, GLIBC_RPM_FILE@, GLIBC_MARKER_FILE@),
        unpack_of("libstdc++"@, LIBSTDCXX_RPM_FILE@, LIBSTDCXX_MARKER_FILE@),
        PrepareStepView::RequireFile { path: ld_so_of() },
    ]
}

/// The order of `prepare` keeps each step's inputs ready: every package is
/// unpacked from the very file an earlier step downloaded it to, no package
/// is unpacked before every download is done, and the last step requires
/// the loader that patched binaries are pointed at.
pub proof fn lemma_prepare_order()
    ensures
        ({
            let plan = prepare_plan_of();
            &&& forall|i: int, j: int|
                0 <= i < plan.len() && 0 <= j < plan.len() && plan[i] is Download && plan[j] is Unpack
                    ==> i < j
            &&& forall|j: int| 0 <= j < plan.len() && #[trigger] plan[j] is Unpack ==> exists|i: int|
                0 <= i < j && plan[i] is Download && plan[i]->dest == plan[j]->rpm_path
            &&& plan.last() == PrepareStepView::RequireFile { path: ld_so_of() }
        }),
{
    let plan = prepare_plan_of();
    assert(plan[5]->dest == plan[7]->rpm_path);
    assert(plan[6]->dest == plan[8]->rpm_path);
    assert forall|j: int| 0 <= j < plan.len() && #[trigger] plan[j] is Unpack implies exists|i: int|
        0 <= i < j && plan[i] is Download && plan[i]->dest == plan[j]->rpm_path by {
        if j == 7 {
            assert(plan[5] is Download);
        } else {
            assert(j == 8);
            assert(plan[6] is Download);
        }
    }
}

/// Every unpacking of the plan unpacks, into `/root/usrlibs`, the very
/// file that it names and that a download of the same package wrote; every
/// download writes the file it names, from its own URL.
pub proof fn lemma_plan_unpacks_what_it_downloaded()
    ensures
        forall|j: int| 0 <= j < prepare_plan_of().len() && #[trigger] prepare_plan_of()[j] is Unpack ==> {
            let s = prepare_plan_of()[j];
            &&& s->unpack == ("sh"@, seq!["-c"@, "cd "@ + "/root/usrlibs"@ + " && rpm2cpio "@ + s->rpm_path + " | cpio -idm"@])
            &&& exists|i: int| #![trigger prepare_plan_of()[i]] 0 <= i < j && prepare_plan_of()[i] is Download
                && prepare_plan_of()[i]->dest == s->rpm_path
                && prepare_plan_of()[i]->Download_name == s->Unpack_name
        },
        forall|j: int| 0 <= j < prepare_plan_of().len() && #[trigger] prepare_plan_of()[j] is Download ==> {
            let s = prepare_plan_of()[j];
            s->download == ("wget"@, seq!["-O"@, s->dest, s->download.1[2]])
        },
{
    reveal_strlit("/root/usrlibs");
    let plan = prepare_plan_of();
    assert(USRLIBS_DIR@ =~= "/root/usrlibs"@);
    assert forall|j: int| 0 <= j < plan.len() && #[trigger] plan[j] is Unpack implies {
        let s = plan[j];
        &&& s->unpack == ("sh"@, seq!["-c"@, "cd "@ + "/root/usrlibs"@ + " && rpm2cpio "@ + s->rpm_path + " | cpio -idm"@])
        &&& exists|i: int| #![trigger plan[i]] 0 <= i < j && plan[i] is Download
            && plan[i]->dest == s->rpm_path && plan[i]->Download_name == s->Unpack_name
    } by {
        if j == 7 {
            assert(plan[5] is Download);
        } else {
            assert(j == 8);
            assert(plan[6] is Download);
        }
    }
    assert forall|j: int| 0 <= j < plan.len() && #[trigger] plan[j] is Download implies {
        let s = plan[j];
        s->download == ("wget"@, seq!["-O"@, s->dest, s->download.1[2]])
    } by {
        let s = plan[j];
        assert(s->download.1 =~= seq!["-O"@, s->dest, s->download.1[2]]);
    }
}

/// The plan in full, in plain text: the tools with their packages, the
/// library directory, the two downloads and unpackings with their files,
/// markers, URLs and commands, and the loader required at the end.
pub proof fn lemma_prepare_plan_contents()
    ensures
        prepare_plan_of().len() == 10,
        prepare_plan_of()[0] == (PrepareStepView::EnsureTool {
            tool: "patchelf"@,
            install: ("sudo"@, seq!["yum"@, "install"@, "-y"@, "patchelf"@]),
        }),
        prepare_plan_of()[1] == (PrepareStepView::EnsureTool {
            tool: "rpm2cpio"@,
            install: ("sudo"@, seq!["yum"@, "install"@, "-y"@, "rpm"@]),
        }),
        prepare_plan_of()[2] == (PrepareStepView::EnsureTool {
            tool: "cpio"@,
            install: ("sudo"@, seq!["yum"@, "install"@, "-y"@, "cpio"@]),
        }),
        prepare_plan_of()[3] == (PrepareStepView::EnsureTool {
            tool: "wget"@,
            install: ("sudo"@, seq!["yum"@, "install"@, "-y"@, "wget"@]),
        }),
        prepare_plan_of()[4] == (PrepareStepView::CreateDir { path: "/root/usrlibs"@ }),
        prepare_plan_of()[5] == (PrepareStepView::Download {
            name: "glibc"@,
            dest: "/root/usrlibs/glibc-2.38-36.tl4.x86_64.rpm"@,
            download: ("wget"@, seq![
                "-O"@,
                "/root/usrlibs/glibc-2.38-36.tl4.x86_64.rpm"@,
                "https://mirrors.tencent.com/tlinux/4/BaseOS/x86_64/os/Packages/glibc-2.38-36.tl4.x86_64.rpm"@,
            ]),
        }),
        prepare_plan_of()[6] == (PrepareStepView::Download {
            name: "libstdc++"@,
            dest: "/root/usrlibs/libstdc++-12.3.1.4-2.tl4.x86_64.rpm"@,
            download: ("wget"@, seq![
                "-O"@,
                "/root/usrlibs/libstdc++-12.3.1.4-2.tl4.x86_64.rpm"@,
                "https://mirrors.tencent.com/tlinux/4/BaseOS/x86_64/os/Packages/libstdc++-12.3.1.4-2.tl4.x86_64.rpm"@,
            ]),
        }),
        prepare_plan_of()[7] == (PrepareStepView::Unpack {
            name: "glibc"@,
            rpm_path: "/root/usrlibs/glibc-2.38-36.tl4.x86_64.rpm"@,
            marker: "/root/usrlibs/.glibc_extracted"@,
            unpack: ("sh"@, seq![
                "-c"@,
                "cd /root/usrlibs && rpm2cpio /root/usrlibs/glibc-2.38-36.tl4.x86_64.rpm | cpio -idm"@,
            ]),
        }),
        prepare_plan_of()[8] == (PrepareStepView::Unpack {
            name: "libstdc++"@,
            rpm_path: "/root/usrlibs/libstdc++-12.3.1.4-2.tl4.x86_64.rpm"@,
            marker: "/root/usrlibs/.libstdcxx_extracted"@,
            unpack: ("sh"@, seq![
                "-c"@,
                "cd /root/usrlibs && rpm2cpio /root/usrlibs/libstdc++-12.3.1.4-2.tl4.x86_64.rpm | cpio -idm"@,
            ]),
        }),
        prepare_plan_of()[9] == (PrepareStepView::RequireFile { path: "/root/usrlibs/lib64/ld-linux-x86-64.so.2"@ }),
{
    reveal_strlit("/root/usrlibs");
    reveal_strlit("rpm2cpio");
    reveal_strlit("rpm");
    reveal_strlit("cpio");
    reveal_strlit("wget");
    reveal_strlit("glibc-2.38-36.tl4.x86_64.rpm");
    reveal_strlit("libstdc++-12.3.1.4-2.tl4.x86_64.rpm");
    reveal_strlit(".glibc_extracted");
    reveal_strlit(".libstdcxx_extracted");
    reveal_strlit("lib64/ld-linux-x86-64.so.2");
    reveal_strlit("cd ");
    reveal_strlit(" && rpm2cpio ");
    reveal_strlit(" | cpio -idm");
    reveal_strlit("/root/usrlibs/glibc-2.38-36.tl4.x86_64.rpm");
    reveal_strlit("/root/usrlibs/libstdc++-12.3.1.4-2.tl4.x86_64.rpm");
    reveal_strlit("/root/usrlibs/.glibc_extracted");
    reveal_strlit("/root/usrlibs/.libstdcxx_extracted");
    reveal_strlit("/root/usrlibs/lib64/ld-linux-x86-64.so.2");
    reveal_strlit("cd /root/usrlibs && rpm2cpio /root/usrlibs/glibc-2.38-36.tl4.x86_64.rpm | cpio -idm");
    reveal_strlit("cd /root/usrlibs && rpm2cpio /root/usrlibs/libstdc++-12.3.1.4-2.tl4.x86_64.rpm | cpio -idm");
    let plan = prepare_plan_of();
    let dir = USRLIBS_DIR@;
    let glibc = path_join(dir, GLIBC_RPM_FILE@);
    let libstdcxx = path_join(dir, LIBSTDCXX_RPM_FILE@);
    assert(glibc =~= "/root/usrlibs/glibc-2.38-36.tl4.x86_64.rpm"@);
    assert(libstdcxx =~= "/root/usrlibs/libstdc++-12.3.1.4-2.tl4.x86_64.rpm"@);
    assert(path_join(dir, GLIBC_MARKER_FILE@) =~= "/root/usrlibs/.glibc_extracted"@);
    assert(path_join(dir, LIBSTDCXX_MARKER_FILE@) =~= "/root/usrlibs/.libstdcxx_extracted"@);
    assert(ld_so_of() =~= "/root/usrlibs/lib64/ld-linux-x86-64.so.2"@);
    assert(package_of("rpm2cpio"@) == "rpm"@);
    assert("cpio"@ != "rpm2cpio"@) by {
        assert("cpio"@.len() != "rpm2cpio"@.len());
    }
    assert("wget"@ != "rpm2cpio"@) by {
        assert("wget"@.len() != "rpm2cpio"@.len());
    }
    assert("cd "@ + dir + " && rpm2cpio "@ + glibc + " | cpio -idm"@
        =~= "cd /root/usrlibs && rpm2cpio /root/usrlibs/glibc-2.38-36.tl4.x86_64.rpm | cpio -idm"@);
    assert("cd "@ + dir + " && rpm2cpio "@ + libstdcxx + " | cpio -idm"@
        =~= "cd /root/usrlibs && rpm2cpio /root/usrlibs/libstdc++-12.3.1.4-2.tl4.x86_64.rpm | cpio -idm"@);
    assert(plan[7]->unpack.1 =~= seq![
        "-c"@,
        "cd /root/usrlibs && rpm2cpio /root/usrlibs/glibc-2.38-36.tl4.x86_64.rpm | cpio -idm"@,
    ]);
    assert(plan[8]->unpack.1 =~= seq![
        "-c"@,
        "cd /root/usrlibs && rpm2cpio /root/usrlibs/libstdc++-12.3.1.4-2.tl4.x86_64.rpm | cpio -idm"@,
    ]);
    assert(plan[5]->download.1 =~= seq![
        "-O"@,
        "/root/usrlibs/glibc-2.38-36.tl4.x86_64.rpm"@,
        "https://mirrors.tencent.com/tlinux/4/BaseOS/x86_64/os/Packages/glibc-2.38-36.tl4.x86_64.rpm"@,
    ]);
    assert(plan[6]->download.1 =~= seq![
        "-O"@,
        "/root/usrlibs/libstdc++-12.3.1.4-2.tl4.x86_64.rpm"@,
        "https://mirrors.tencent.com/tlinux/4/BaseOS/x86_64/os/Packages/libstdc++-12.3.1.4-2.tl4.x86_64.rpm"@,
    ]);
}

/// The step that makes sure of `tool`.
fn ensure_tool(tool: &str, package: &str) -> (res: PrepareStep)
    ensures
        res@ == ensure_tool_of(tool@, package@),
{
    PrepareStep::EnsureTool { tool: String::from_str(tool), install: install_command(package) }
}

/// The step that fetches a package.
fn download_step(name: &str, url: &str, file: &str) -> (res: PrepareStep)
    ensures
        res@ == download_of(name@, url@, file@),
{
    let dest = join(USRLIBS_DIR, file);
    let download = download_command(dest.as_str(), url);
    PrepareStep::Download { name: String::from_str(name), dest, download }
}

/// The step that unpacks a package.
fn unpack_step(name: &str, file: &str, marker_file: &str) -> (res: PrepareStep)
    ensures
        res@ == unpack_of(name@, file@, marker_file@),
{
    let rpm_path = join(USRLIBS_DIR, file);
    let unpack = extract_command(rpm_path.as_str(), USRLIBS_DIR);
    PrepareStep::Unpack {
        name: String::from_str(name),
        rpm_path,
        marker: join(USRLIBS_DIR, marker_file),
        unpack,
    }
}

/// The steps of `prepare`.
pub fn prepare_plan() -> (res: Vec<PrepareStep>)
    ensures
        res@.len() == prepare_plan_of().len(),
        forall|i: int| 0 <= i < res@.len() ==> #[trigger] res@[i]@ == prepare_plan_of()[i],
{
    let mut res: Vec<PrepareStep> = Vec::new();
    res.push(ensure_tool("patchelf", "patchelf"));
    let rpm = package_for_tool("rpm2cpio");
    res.push(ensure_tool("rpm2cpio", rpm.as_str()));
    let cpio = package_for_tool("cpio");
    res.push(ensure_tool("cpio", cpio.as_str()));
    let wget = package_for_tool("wget");
    res.push(ensure_tool("wget", wget.as_str()));
    res.push(PrepareStep::CreateDir { path: String::from_str(USRLIBS_DIR) });
    res.push(download_step("glibc", GLIBC_RPM_URL, GLIBC_RPM_FILE));
    res.push(download_step("libstdc++", LIBSTDCXX_RPM_URL, LIBSTDCXX_RPM_FILE));
    res.push(unpack_step("glibc", GLIBC_RPM_FILE, GLIBC_MARKER_FILE));
    res.push(unpack_step("libstdc++", LIBSTDCXX_RPM_FILE, LIBSTDCXX_MARKER_FILE));
    res.push(PrepareStep::RequireFile { path: ld_so_path() });
    res
}

/// What to look at before a step of `prepare` is taken.
pub enum Probe {
    /// Whether `which` finds this command.
    Tool(String),
    /// Whether this path exists.
    Path(String),
    /// Nothing: the step is taken whatever is there.
    Nothing,
}

/// A probe, with its text as a plain value.
pub enum ProbeView {
    Tool(Seq<char>),
    Path(Seq<char>),
    Nothing,
}

impl View for Probe {
    type V = ProbeView;

    open spec fn view(&self) -> ProbeView {
        match self {
            Probe::Tool(t) => ProbeView::Tool(t@),
            Probe::Path(p) => ProbeView::Path(p@),
            Probe::Nothing => ProbeView::Nothing,
        }
    }
}

/// The probe of a step: the tool for a tool step; the downloaded file for
/// a download; the marker file for an unpacking; the required file for the
/// last check; nothing for creating the directory, which is always done.
pub open spec fn probe_of(step: PrepareStepView) -> ProbeView {
    match step {
        PrepareStepView::EnsureTool { tool, .. } => ProbeView::Tool(tool),
        PrepareStepView::CreateDir { .. } => ProbeView::Nothing,
        PrepareStepView::Download { dest, .. } => ProbeView::Path(dest),
        PrepareStepView::Unpack { marker, .. } => ProbeView::Path(marker),
        PrepareStepView::RequireFile { path } => ProbeView::Path(path),
    }
}

/// What to look at before taking `step`.
pub fn prepare_probe(step: &PrepareStep) -> (res: Probe)
    ensures
        res@ == probe_of(step@),
{
    match step {
        PrepareStep::EnsureTool { tool, .. } => Probe::Tool(tool.clone()),
        PrepareStep::CreateDir { .. } => Probe::Nothing,
        PrepareStep::Download { dest, .. } => Probe::Path(dest.clone()),
        PrepareStep::Unpack { marker, .. } => Probe::Path(marker.clone()),
        PrepareStep::RequireFile { path } => Probe::Path(path.clone()),
    }
}

/// What a step of `prepare` does, given what its probe found.
pub enum PrepareAction {
    /// Nothing: the tool, file or marker is there already.
    Skip,
    /// Run this command to install a missing tool.
    Install(CommandLine),
    /// Create this directory and its parents.
    MakeDir(String),
    /// Run this command to download a missing package.
    Download(CommandLine),
    /// Run this command to unpack a package, then create the marker file.
    Unpack { command: CommandLine, marker: String },
    /// Fail: this file, which should be there by now, is missing.
    Missing(String),
}

/// An action, with its texts and command lines as plain values.
pub enum PrepareActionView {
    Skip,
    Install((Seq<char>, Seq<Seq<char>>)),
    MakeDir(Seq<char>),
    Download((Seq<char>, Seq<Seq<char>>)),
    Unpack { command: (Seq<char>, Seq<Seq<char>>), marker: Seq<char> },
    Missing(Seq<char>),
}

impl View for PrepareAction {
    type V = PrepareActionView;

    open spec fn view(&self) -> PrepareActionView {
        match self {
            PrepareAction::Skip => PrepareActionView::Skip,
            PrepareAction::Install(c) => PrepareActionView::Install(c@),
            PrepareAction::MakeDir(p) => PrepareActionView::MakeDir(p@),
            PrepareAction::Download(c) => PrepareActionView::Download(c@),
            PrepareAction::Unpack { command, marker } => PrepareActionView::Unpack {
                command: command@,
                marker: marker@,
            },
            PrepareAction::Missing(p) => PrepareActionView::Missing(p@),
        }
    }
}

/// The action of `step` where its probe found what it looks for
/// (`present`) or not: a present tool, file or marker means nothing to do;
/// a missing one means installing, downloading or unpacking, and, for the
/// last check, failing. The directory is created either way.
pub open spec fn action_of(step: PrepareStepView, present: bool) -> PrepareActionView {
    match step {
        PrepareStepView::EnsureTool { install, .. } => if present {
            PrepareActionView::Skip
        } else {
            PrepareActionView::Install(install)
        },
        PrepareStepView::CreateDir { path } => PrepareActionView::MakeDir(path),
        PrepareStepView::Download { download, .. } => if present {
            PrepareActionView::Skip
        } else {
            PrepareActionView::Download(download)
        },
        PrepareStepView::Unpack { unpack, marker, .. } => if present {
            PrepareActionView::Skip
        } else {
            PrepareActionView::Unpack { command: unpack, marker }
        },
        PrepareStepView::RequireFile { path } => if present {
            PrepareActionView::Skip
        } else {
            PrepareActionView::Missing(path)
        },
    }
}

/// What to do for `step`, given whether its probe found what it looks for.
pub fn prepare_step_action(step: &PrepareStep, present: bool) -> (res: PrepareAction)
    ensures
        res@ == action_of(step@, present),
{
    match step {
        PrepareStep::EnsureTool { install, .. } => if present {
            PrepareAction::Skip
        } else {
            PrepareAction::Install(install.copy())
        },
        PrepareStep::CreateDir { path } => PrepareAction::MakeDir(path.clone()),
        PrepareStep::Download { download, .. } => if present {
            PrepareAction::Skip
        } else {
            PrepareAction::Download(download.copy())
        },
        PrepareStep::Unpack { unpack, marker, .. } => if present {
            PrepareAction::Skip
        } else {
            PrepareAction::Unpack { command: unpack.copy(), marker: marker.clone() }
        },
        PrepareStep::RequireFile { path } => if present {
            PrepareAction::Skip
        } else {
            PrepareAction::Missing(path.clone())
        },
    }
}

/// `prepare` runs nothing a second time: where every probe finds what it
/// looks for, as after a run that went through, every step is skipped but
/// the creation of the directory, which does nothing to a directory that
/// is there. Where something is missing, it is installed, downloaded or
/// unpacked with the step's own command.
pub proof fn lemma_prepare_rerun_idle()
    ensures
        forall|i: int| 0 <= i < prepare_plan_of().len() ==> {
            let step = #[trigger] prepare_plan_of()[i];
            match action_of(step, true) {
                PrepareActionView::Skip => true,
                PrepareActionView::MakeDir(p) => step == PrepareStepView::CreateDir { path: p },
                _ => false,
            }
        },
        forall|i: int| 0 <= i < prepare_plan_of().len() ==> {
            let step = #[trigger] prepare_plan_of()[i];
            match step {
                PrepareStepView::EnsureTool { install, .. } =>
                    action_of(step, false) == PrepareActionView::Install(install),
                PrepareStepView::Download { download, .. } =>
                    action_of(step, false) == PrepareActionView::Download(download),
                PrepareStepView::Unpack { unpack, marker, .. } =>
                    action_of(step, false) == PrepareActionView::Unpack { command: unpack, marker },
                PrepareStepView::CreateDir { path } =>
                    action_of(step, false) == PrepareActionView::MakeDir(path),
                PrepareStepView::RequireFile { path } =>
                    action_of(step, false) == PrepareActionView::Missing(path),
            }
        },
{
}

/// What each step of `prepare` looks at before it is taken: the tool for
/// a tool step, the downloaded file for a download, the marker (not the
/// package) for an unpacking, the loader for the last check, and nothing
/// for the directory.
pub proof fn lemma_prepare_probes()
    ensures
        probe_of(prepare_plan_of()[0]) == ProbeView::Tool("patchelf"@),
        probe_of(prepare_plan_of()[1]) == ProbeView::Tool("rpm2cpio"@),
        probe_of(prepare_plan_of()[2]) == ProbeView::Tool("cpio"@),
        probe_of(prepare_plan_of()[3]) == ProbeView::Tool("wget"@),
        probe_of(prepare_plan_of()[4]) == ProbeView::Nothing,
        probe_of(prepare_plan_of()[5]) == ProbeView::Path("/root/usrlibs/glibc-2.38-36.tl4.x86_64.rpm"@),
        probe_of(prepare_plan_of()[6]) == ProbeView::Path("/root/usrlibs/libstdc++-12.3.1.4-2.tl4.x86_64.rpm"@),
        probe_of(prepare_plan_of()[7]) == ProbeView::Path("/root/usrlibs/.glibc_extracted"@),
        probe_of(prepare_plan_of()[8]) == ProbeView::Path("/root/usrlibs/.libstdcxx_extracted"@),
        probe_of(prepare_plan_of()[9]) == ProbeView::Path("/root/usrlibs/lib64/ld-linux-x86-64.so.2"@),
{
    lemma_prepare_plan_contents();
}

/// The package installed for a missing tool is `rpm` for `rpm2cpio` and
/// the tool's own name for every other tool.
pub proof fn lemma_package_of(tool: Seq<char>)
    ensures
        package_of("rpm2cpio"@) == "rpm"@,
        tool != "rpm2cpio"@ ==> package_of(tool) == tool,
{
}

} // verus!
