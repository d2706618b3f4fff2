//! The fix of a whole `bin` directory: which entries get fixed, what is
//! patched inside each, and how the run is summed up.
use vstd::prelude::*;
use crate::paths::{check_script_of, check_script_path, default_bin_dir, default_bin_dir_of,
    node_binary_of, node_binary_path};

verus! {

/// A directory entry as listed: its path, and whether it is a directory.
pub struct ListedEntry {
    pub path: String,
    pub is_dir: bool,
}

/// The paths of the entries of `entries` that are directories, in order.
pub open spec fn dir_paths(entries: Seq<ListedEntry>) -> Seq<Seq<char>>
    decreases entries.len(),
{
    if entries.len() == 0 {
        seq![]
    } else {
        let rest = dir_paths(entries.drop_last());
        if entries.last().is_dir {
            rest.push(entries.last().path@)
        } else {
            rest
        }
    }
}

/// The entries to fix depend on being a directory alone: none in an empty
/// listing; one more listed entry adds its path at the end exactly where it
/// is a directory, whatever the path; every listed directory's path is among
/// them, and each of them is the path of a listed directory.
pub proof fn lemma_dir_paths(entries: Seq<ListedEntry>, e: ListedEntry)
    ensures
        dir_paths(Seq::<ListedEntry>::empty()) == Seq::<Seq<char>>::empty(),
        e.is_dir ==> dir_paths(entries.push(e)) == dir_paths(entries).push(e.path@),
        !e.is_dir ==> dir_paths(entries.push(e)) == dir_paths(entries),
        forall|i: int| 0 <= i < entries.len() && #[trigger] entries[i].is_dir
            ==> dir_paths(entries).contains(entries[i].path@),
        forall|j: int| #![trigger dir_paths(entries)[j]] 0 <= j < dir_paths(entries).len() ==> exists|i: int|
            #![trigger entries[i]] 0 <= i < entries.len() && entries[i].is_dir && dir_paths(entries)[j] == entries[i].path@,
        dir_paths(entries).len() <= entries.len(),
        (forall|i: int| 0 <= i < entries.len() ==> #[trigger] entries[i].is_dir) ==> dir_paths(entries).len() == entries.len(),
    decreases entries.len(),
{
    assert(entries.push(e).drop_last() =~= entries);
    if entries.len() > 0 {
        let init = entries.drop_last();
        let last = entries.last();
        lemma_dir_paths(init, last);
        assert(init.push(last) =~= entries);
        assert forall|i: int| 0 <= i < entries.len() && #[trigger] entries[i].is_dir
            implies dir_paths(entries).contains(entries[i].path@) by {
            if i < entries.len() - 1 {
                assert(init[i] == entries[i]);
                let k = choose|k: int| 0 <= k < dir_paths(init).len() && dir_paths(init)[k] == init[i].path@;
                assert(dir_paths(entries)[k] == dir_paths(init)[k]);
            } else {
                assert(dir_paths(entries).last() == last.path@);
            }
        }
        assert forall|j: int| #![trigger dir_paths(entries)[j]] 0 <= j < dir_paths(entries).len() implies exists|i: int|
            #![trigger entries[i]] 0 <= i < entries.len() && entries[i].is_dir && dir_paths(entries)[j] == entries[i].path@ by {
            if j < dir_paths(init).len() {
                assert(dir_paths(entries)[j] == dir_paths(init)[j]);
                let i = choose|i: int| #![trigger init[i]]
                    0 <= i < init.len() && init[i].is_dir && dir_paths(init)[j] == init[i].path@;
                assert(entries[i] == init[i]);
                assert(entries[i].is_dir && dir_paths(entries)[j] == entries[i].path@);
            } else {
                assert(last.is_dir);
                assert(dir_paths(entries) == dir_paths(init).push(last.path@));
                assert(dir_paths(entries)[j] == last.path@);
                assert(entries[entries.len() - 1] == last);
            }
        }
        if forall|i: int| 0 <= i < entries.len() ==> #[trigger] entries[i].is_dir {
            assert forall|i: int| 0 <= i < init.len() implies #[trigger] init[i].is_dir by {
                assert(init[i] == entries[i]);
            }
            assert(entries[entries.len() - 1].is_dir);
        }
    } else {
        assert(dir_paths(entries).len() == 0);
    }
}

/// The vscode-server entries to fix among the listed contents of a `bin`
/// directory: those that are directories, in the order listed.
pub fn entries_to_fix(entries: &Vec<ListedEntry>) -> (res: Vec<String>)
    ensures
        res.deep_view() == dir_paths(entries@),
{
    let n = entries.len();
    let mut res: Vec<String> = Vec::new();
    let mut i: usize = 0;
    while i < n
        invariant
            n == entries@.len(),
            i <= n,
            res.deep_view() == dir_paths(entries@.take(i as int)),
        decreases n - i,
    {
        let ghost before = res.deep_view();
        assert(entries@.take(i + 1).drop_last() =~= entries@.take(i as int));
        if entries[i].is_dir {
            let p = entries[i].path.clone();
            res.push(p);
            assert(res.deep_view() =~= before.push(entries@[i as int].path@));
        }
        i = i + 1;
    }
    assert(entries@.take(n as int) =~= entries@);
    res
}

/// The number of `true` in `s`.
pub open spec fn count_true(s: Seq<bool>) -> nat
    decreases s.len(),
{
    if s.len() == 0 {
        0
    } else {
        count_true(s.drop_last()) + if s.last() { 1nat } else { 0nat }
    }
}

/// Each further success adds one to the count, and a failure adds nothing;
/// so a run where every entry was fixed counts them all.
pub proof fn lemma_count_true_steps(s: Seq<bool>)
    ensures
        count_true(Seq::<bool>::empty()) == 0,
        count_true(s.push(true)) == count_true(s) + 1,
        count_true(s.push(false)) == count_true(s),
        (forall|i: int| 0 <= i < s.len() ==> #[trigger] s[i]) ==> count_true(s) == s.len(),
        (forall|i: int| 0 <= i < s.len() ==> !#[trigger] s[i]) ==> count_true(s) == 0,
    decreases s.len(),
{
    assert(s.push(true).drop_last() =~= s);
    assert(s.push(false).drop_last() =~= s);
    if s.len() > 0 {
        let init = s.drop_last();
        lemma_count_true_steps(init);
        if forall|i: int| 0 <= i < s.len() ==> #[trigger] s[i] {
            assert forall|i: int| 0 <= i < init.len() implies #[trigger] init[i] by {
                assert(init[i] == s[i]);
            }
            assert(s[s.len() - 1]);
        }
        if forall|i: int| 0 <= i < s.len() ==> !#[trigger] s[i] {
            assert forall|i: int| 0 <= i < init.len() implies !#[trigger] init[i] by {
                assert(init[i] == s[i]);
            }
            assert(!s[s.len() - 1]);
        }
    }
}

/// A count of `true` is at most the length counted over.
pub proof fn lemma_count_true_bounded(s: Seq<bool>)
    ensures
        count_true(s) <= s.len(),
    decreases s.len(),
{
    if s.len() > 0 {
        lemma_count_true_bounded(s.drop_last());
    }
}

/// How many of the entries were fixed, given whether each fix succeeded.
pub fn count_fixed(results: &[bool]) -> (res: usize)
    ensures
        res == count_true(results@),
{
    let n = results.len();
    let mut count: usize = 0;
    let mut i: usize = 0;
    while i < n
        invariant
            n == results@.len(),
            i <= n,
            count == count_true(results@.take(i as int)),
        decreases n - i,
    {
        assert(results@.take(i + 1).drop_last() =~= results@.take(i as int));
        proof {
            lemma_count_true_bounded(results@.take(i as int));
        }
        if results[i] {
            count = count + 1;
        }
        i = i + 1;
    }
    assert(results@.take(n as int) =~= results@);
    count
}

/// How a fix of a whole `bin` directory ended.
#[derive(Debug, Clone, Copy, PartialEq, Eq, Structural)]
pub enum FixSummary {
    /// No entry was fixed.
    NothingFixed,
    /// This many entries were fixed; never zero.
    Fixed(usize),
}

/// The summary of a fix of a `bin` directory, given whether the fix of each
/// entry succeeded.
pub fn fix_summary(results: &[bool]) -> (res: FixSummary)
    ensures
        count_true(results@) == 0 ==> res == FixSummary::NothingFixed,
        count_true(results@) > 0 ==> res == FixSummary::Fixed(count_true(results@) as usize),
{
    let fixed = count_fixed(results);
    if fixed == 0 {
        FixSummary::NothingFixed
    } else {
        FixSummary::Fixed(fixed)
    }
}

/// A file of a vscode-server entry that the fix patches.
pub enum EntryPart {
    /// The `node` binary, given the glibc loader and library path.
    NodeBinary(String),
    /// The `check-requirements.sh` script, given the glibc override.
    CheckScript(String),
}

/// A part, with its path as a plain value.
pub enum EntryPartView {
    NodeBinary(Seq<char>),
    CheckScript(Seq<char>),
}

impl View for EntryPart {
    type V = EntryPartView;

    open spec fn view(&self) -> EntryPartView {
        match self {
            EntryPart::NodeBinary(p) => EntryPartView::NodeBinary(p@),
            EntryPart::CheckScript(p) => EntryPartView::CheckScript(p@),
        }
    }
}

/// The files of the entry `entry_dir` that the fix patches, in the order it
/// patches them: the `node` binary, then `check-requirements.sh`.
pub fn entry_parts(entry_dir: &str) -> (res: Vec<EntryPart>)
    ensures
        res@.len() == 2,
        res@[0]@ == EntryPartView::NodeBinary(node_binary_of(entry_dir@)),
        res@[1]@ == EntryPartView::CheckScript(check_script_of(entry_dir@)),
{
    let mut res: Vec<EntryPart> = Vec::new();
    res.push(EntryPart::NodeBinary(node_binary_path(entry_dir)));
    res.push(EntryPart::CheckScript(check_script_path(entry_dir)));
    res
}

/// What the fix does with a part of an entry.
pub enum EntryAction {
    /// Patch the `node` binary at this path with patchelf.
    PatchNodeBinary(String),
    /// Inject the glibc override into the script at this path.
    PatchCheckScript(String),
    /// Warn that the `node` binary at this path is missing, and go on.
    NodeBinaryMissing(String),
    /// Warn that the script at this path is missing, and go on.
    CheckScriptMissing(String),
}

/// An action, with its path as a plain value.
pub enum EntryActionView {
    PatchNodeBinary(Seq<char>),
    PatchCheckScript(Seq<char>),
    NodeBinaryMissing(Seq<char>),
    CheckScriptMissing(Seq<char>),
}

impl View for EntryAction {
    type V = EntryActionView;

    open spec fn view(&self) -> EntryActionView {
        match self {
            EntryAction::PatchNodeBinary(p) => EntryActionView::PatchNodeBinary(p@),
            EntryAction::PatchCheckScript(p) => EntryActionView::PatchCheckScript(p@),
            EntryAction::NodeBinaryMissing(p) => EntryActionView::NodeBinaryMissing(p@),
            EntryAction::CheckScriptMissing(p) => EntryActionView::CheckScriptMissing(p@),
        }
    }
}

/// A part that exists is patched; a missing one is skipped with a warning.
pub open spec fn entry_action_of(part: EntryPartView, present: bool) -> EntryActionView {
    match part {
        EntryPartView::NodeBinary(p) => if present {
            EntryActionView::PatchNodeBinary(p)
        } else {
            EntryActionView::NodeBinaryMissing(p)
        },
        EntryPartView::CheckScript(p) => if present {
            EntryActionView::PatchCheckScript(p)
        } else {
            EntryActionView::CheckScriptMissing(p)
        },
    }
}

/// A part whose file exists is patched, at that very path, by the patch
/// for its kind; a missing one is only reported, at that path.
pub proof fn lemma_entry_actions(path: Seq<char>)
    ensures
        entry_action_of(EntryPartView::NodeBinary(path), true) == EntryActionView::PatchNodeBinary(path),
        entry_action_of(EntryPartView::NodeBinary(path), false) == EntryActionView::NodeBinaryMissing(path),
        entry_action_of(EntryPartView::CheckScript(path), true) == EntryActionView::PatchCheckScript(path),
        entry_action_of(EntryPartView::CheckScript(path), false) == EntryActionView::CheckScriptMissing(path),
{
}

/// What to do with `part`, given whether its file exists.
pub fn entry_part_action(part: &EntryPart, present: bool) -> (res: EntryAction)
    ensures
        res@ == entry_action_of(part@, present),
{
    match part {
        EntryPart::NodeBinary(p) => if present {
            EntryAction::PatchNodeBinary(p.clone())
        } else {
            EntryAction::NodeBinaryMissing(p.clone())
        },
        EntryPart::CheckScript(p) => if present {
            EntryAction::PatchCheckScript(p.clone())
        } else {
            EntryAction::CheckScriptMissing(p.clone())
        },
    }
}

/// What `fix` works on.
pub enum FixMode {
    /// Fix the entries of this `bin` directory, then watch it for new ones.
    FixThenWatch(String),
    /// Fix the entries of this `bin` directory.
    FixAll(String),
}

/// The work of `fix`, given its `--watch` directory, its path argument and
/// the value of `HOME`: a `--watch` directory wins; otherwise the path
/// given, or else `~/.vscode-server/bin`.
pub fn fix_mode(watch: Option<String>, path: Option<String>, home: Option<&str>) -> (res: FixMode)
    ensures
        watch matches Some(w) ==> (res matches FixMode::FixThenWatch(d) && d@ == w@),
        watch is None ==> (res matches FixMode::FixAll(d) && d@ == match path {
            Some(p) => p@,
            None => default_bin_dir_of(match home {
                Some(h) => Some(h@),
                None => None,
            }),
        }),
{
    match watch {
        Some(w) => FixMode::FixThenWatch(w),
        None => match path {
            Some(p) => FixMode::FixAll(p),
            None => FixMode::FixAll(default_bin_dir(home)),
        },
    }
}

} // verus!
