# code_glibc_fixer

Makes VSCode Server run on hosts whose glibc is older than the one it needs
(for example glibc 2.17). `prepare` installs `patchelf`, `rpm2cpio`, `cpio`
and `wget` where missing and unpacks glibc 2.38 and libstdc++ 12 under
`/root/usrlibs`; `fix` points the `node` binary of every vscode-server entry
at that glibc with patchelf and injects overrides into its
`check-requirements.sh`; `fix --watch DIR` then fixes new entries as they
appear.

Layout:

- `src/` is the library, verified with Verus: paths (`paths`), text search
  (`text`), the script edit (`script`), the patchelf commands and the
  "already patched" check (`patchelf`), the steps of `prepare` and what each does given what is
  on disk (`prepare`),
  the decisions of watch mode (`watch`) and of a fix of an entry or a whole directory (`fix`).
- `app/main.rs` is the command line: it parses arguments, looks at the file
  system, runs the commands, reads inotify events and reports. The paths,
  command lines and script edit come from the library, and so do the
  decisions of what to run or skip, in `prepare` and for each part of an
  entry, given what it found on disk.
- `tests/` runs the library on concrete inputs.
