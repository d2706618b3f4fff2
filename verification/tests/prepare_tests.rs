use code_glibc_fixer::command::CommandLine;
use code_glibc_fixer::prepare::{
    download_command, extract_command, install_command, package_for_tool, prepare_plan, prepare_probe,
    prepare_step_action, PrepareAction, PrepareStep, Probe, USRLIBS_DIR,
};

fn command(c: &CommandLine) -> (String, Vec<String>) {
    (c.program.clone(), c.args.clone())
}

fn owned(program: &str, args: &[&str]) -> (String, Vec<String>) {
    (program.to_string(), args.iter().map(|a| a.to_string()).collect())
}

#[test]
fn rpm2cpio_comes_from_rpm() {
    assert_eq!(package_for_tool("rpm2cpio"), "rpm");
}

#[test]
fn other_tools_are_their_own_package() {
    assert_eq!(package_for_tool("cpio"), "cpio");
    assert_eq!(package_for_tool("wget"), "wget");
    assert_eq!(package_for_tool("patchelf"), "patchelf");
}

#[test]
fn install_runs_yum_under_sudo() {
    assert_eq!(command(&install_command("rpm")), owned("sudo", &["yum", "install", "-y", "rpm"]));
}

#[test]
fn download_runs_wget() {
    assert_eq!(
        command(&download_command("/root/usrlibs/a.rpm", "https://example/a.rpm")),
        owned("wget", &["-O", "/root/usrlibs/a.rpm", "https://example/a.rpm"])
    );
}

#[test]
fn extract_pipes_rpm2cpio_into_cpio() {
    assert_eq!(
        command(&extract_command("/root/usrlibs/a.rpm", "/root/usrlibs")),
        owned("sh", &["-c", "cd /root/usrlibs && rpm2cpio /root/usrlibs/a.rpm | cpio -idm"])
    );
}

#[test]
fn libraries_go_under_root_usrlibs() {
    assert_eq!(USRLIBS_DIR, "/root/usrlibs");
}

fn tool_step(step: &PrepareStep) -> (String, (String, Vec<String>)) {
    match step {
        PrepareStep::EnsureTool { tool, install } => (tool.clone(), command(install)),
        _ => panic!("expected a tool step"),
    }
}

#[test]
fn prepare_checks_the_tools_first() {
    let plan = prepare_plan();
    assert_eq!(plan.len(), 10);
    assert_eq!(tool_step(&plan[0]), ("patchelf".to_string(), owned("sudo", &["yum", "install", "-y", "patchelf"])));
    assert_eq!(tool_step(&plan[1]), ("rpm2cpio".to_string(), owned("sudo", &["yum", "install", "-y", "rpm"])));
    assert_eq!(tool_step(&plan[2]), ("cpio".to_string(), owned("sudo", &["yum", "install", "-y", "cpio"])));
    assert_eq!(tool_step(&plan[3]), ("wget".to_string(), owned("sudo", &["yum", "install", "-y", "wget"])));
}

#[test]
fn prepare_creates_the_library_directory() {
    match &prepare_plan()[4] {
        PrepareStep::CreateDir { path } => assert_eq!(path, "/root/usrlibs"),
        _ => panic!("expected the directory step"),
    }
}

#[test]
fn prepare_downloads_glibc_then_libstdcxx() {
    let plan = prepare_plan();
    match &plan[5] {
        PrepareStep::Download { name, dest, download } => {
            assert_eq!(name, "glibc");
            assert_eq!(dest, "/root/usrlibs/glibc-2.38-36.tl4.x86_64.rpm");
            assert_eq!(
                command(download),
                owned(
                    "wget",
                    &[
                        "-O",
                        "/root/usrlibs/glibc-2.38-36.tl4.x86_64.rpm",
                        "https://mirrors.tencent.com/tlinux/4/BaseOS/x86_64/os/Packages/glibc-2.38-36.tl4.x86_64.rpm",
                    ]
                )
            );
        }
        _ => panic!("expected a download"),
    }
    match &plan[6] {
        PrepareStep::Download { name, dest, download } => {
            assert_eq!(name, "libstdc++");
            assert_eq!(dest, "/root/usrlibs/libstdc++-12.3.1.4-2.tl4.x86_64.rpm");
            assert_eq!(
                download.args[2],
                "https://mirrors.tencent.com/tlinux/4/BaseOS/x86_64/os/Packages/libstdc++-12.3.1.4-2.tl4.x86_64.rpm"
            );
        }
        _ => panic!("expected a download"),
    }
}

#[test]
fn prepare_unpacks_both_into_usrlibs() {
    let plan = prepare_plan();
    match &plan[7] {
        PrepareStep::Unpack { name, rpm_path, marker, unpack } => {
            assert_eq!(name, "glibc");
            assert_eq!(rpm_path, "/root/usrlibs/glibc-2.38-36.tl4.x86_64.rpm");
            assert_eq!(marker, "/root/usrlibs/.glibc_extracted");
            assert_eq!(
                command(unpack),
                owned("sh", &["-c", "cd /root/usrlibs && rpm2cpio /root/usrlibs/glibc-2.38-36.tl4.x86_64.rpm | cpio -idm"])
            );
        }
        _ => panic!("expected an unpack step"),
    }
    match &plan[8] {
        PrepareStep::Unpack { name, rpm_path, marker, .. } => {
            assert_eq!(name, "libstdc++");
            assert_eq!(rpm_path, "/root/usrlibs/libstdc++-12.3.1.4-2.tl4.x86_64.rpm");
            assert_eq!(marker, "/root/usrlibs/.libstdcxx_extracted");
        }
        _ => panic!("expected an unpack step"),
    }
}

#[test]
fn prepare_ends_by_requiring_the_loader() {
    match &prepare_plan()[9] {
        PrepareStep::RequireFile { path } => assert_eq!(path, "/root/usrlibs/lib64/ld-linux-x86-64.so.2"),
        _ => panic!("expected the final check"),
    }
}

fn probe_text(p: Probe) -> String {
    match p {
        Probe::Tool(t) => format!("tool {}", t),
        Probe::Path(p) => format!("path {}", p),
        Probe::Nothing => "nothing".to_string(),
    }
}

#[test]
fn probes_look_at_the_tool_file_or_marker() {
    let plan = prepare_plan();
    let probes: Vec<String> = plan.iter().map(|s| probe_text(prepare_probe(s))).collect();
    assert_eq!(
        probes,
        vec![
            "tool patchelf",
            "tool rpm2cpio",
            "tool cpio",
            "tool wget",
            "nothing",
            "path /root/usrlibs/glibc-2.38-36.tl4.x86_64.rpm",
            "path /root/usrlibs/libstdc++-12.3.1.4-2.tl4.x86_64.rpm",
            "path /root/usrlibs/.glibc_extracted",
            "path /root/usrlibs/.libstdcxx_extracted",
            "path /root/usrlibs/lib64/ld-linux-x86-64.so.2",
        ]
    );
}

#[test]
fn a_second_prepare_runs_nothing() {
    for step in prepare_plan() {
        match prepare_step_action(&step, true) {
            PrepareAction::Skip => {}
            PrepareAction::MakeDir(p) => assert_eq!(p, "/root/usrlibs"),
            _ => panic!("a present probe must not run anything"),
        }
    }
}

#[test]
fn missing_things_are_installed_downloaded_unpacked() {
    let plan = prepare_plan();
    match prepare_step_action(&plan[1], false) {
        PrepareAction::Install(c) => assert_eq!(command(&c), owned("sudo", &["yum", "install", "-y", "rpm"])),
        _ => panic!("expected an install"),
    }
    match prepare_step_action(&plan[5], false) {
        PrepareAction::Download(c) => {
            assert_eq!(c.program, "wget");
            assert_eq!(c.args[1], "/root/usrlibs/glibc-2.38-36.tl4.x86_64.rpm");
        }
        _ => panic!("expected a download"),
    }
    match prepare_step_action(&plan[8], false) {
        PrepareAction::Unpack { command: c, marker } => {
            assert_eq!(c.program, "sh");
            assert_eq!(marker, "/root/usrlibs/.libstdcxx_extracted");
        }
        _ => panic!("expected an unpack"),
    }
    match prepare_step_action(&plan[9], false) {
        PrepareAction::Missing(p) => assert_eq!(p, "/root/usrlibs/lib64/ld-linux-x86-64.so.2"),
        _ => panic!("expected a failure"),
    }
    match prepare_step_action(&plan[4], false) {
        PrepareAction::MakeDir(p) => assert_eq!(p, "/root/usrlibs"),
        _ => panic!("expected the directory"),
    }
}
