//! The edit that makes `check-requirements.sh` of a vscode-server entry
//! accept the host's glibc and libstdc++: override lines injected right
//! after the first line (the shebang), marked so that a second run leaves
//! the script alone.
use vstd::prelude::*;
use crate::text::{chars_of, contains_seq, occurs_at, str_contains};

verus! {

/// The comment that marks a script as already patched.
pub const PATCH_MARKER: &'static str = "# patched by code_glibc_fixer";

/// The lines injected into the script: the marker comment, then the two
/// variables that the script's glibc and glibcxx checks set, forced to 1.
pub const OVERRIDE_BLOCK: &'static str = "# patched by code_glibc_fixer - force glibc/glibcxx checks to pass\nfound_required_glibc=1\nfound_required_glibcxx=1\n";

/// `i` is the position of the first line break of `s`.
pub open spec fn is_first_newline(s: Seq<char>, i: int) -> bool {
    &&& 0 <= i < s.len()
    &&& s[i] == '\n'
    &&& forall|j: int| 0 <= j < i ==> s[j] != '\n'
}

/// `s` holds a line break.
pub open spec fn has_newline(s: Seq<char>) -> bool {
    exists|i: int| is_first_newline(s, i)
}

/// `s` opens with `#!`, as a shebang line does.
pub open spec fn starts_with_shebang(s: Seq<char>) -> bool {
    s.len() >= 2 && s[0] == '#' && s[1] == '!'
}

/// `block` placed right after the first (shebang) line of `content`: after
/// its first line break; where `content` is a single shebang line without a
/// break, after that line and a break that closes it; where `content` has
/// neither a line break nor a shebang, in front of it, followed by a break.
pub open spec fn inject_after_shebang(content: Seq<char>, block: Seq<char>) -> Seq<char> {
    if has_newline(content) {
        let i = choose|i: int| is_first_newline(content, i);
        content.take(i + 1) + block + content.skip(i + 1)
    } else if starts_with_shebang(content) {
        content + seq!['\n'] + block
    } else {
        block + seq!['\n'] + content
    }
}

/// The script `content` with the override lines injected.
pub open spec fn overridden(content: Seq<char>) -> Seq<char> {
    inject_after_shebang(content, OVERRIDE_BLOCK@)
}

/// `content` already carries the patch marker.
pub open spec fn is_patched(content: Seq<char>) -> bool {
    contains_seq(content, PATCH_MARKER@)
}

/// A string with a line break anywhere has a first one.
pub proof fn lemma_newline_has_first(s: Seq<char>, j: int)
    requires
        0 <= j < s.len(),
        s[j] == '\n',
    ensures
        has_newline(s),
    decreases j,
{
    if exists|k: int| 0 <= k < j && s[k] == '\n' {
        let k = choose|k: int| 0 <= k < j && s[k] == '\n';
        lemma_newline_has_first(s, k);
    } else {
        assert(is_first_newline(s, j));
    }
}

/// A string has at most one first line break.
pub proof fn lemma_first_newline_unique(s: Seq<char>, i: int, j: int)
    requires
        is_first_newline(s, i),
        is_first_newline(s, j),
    ensures
        i == j,
{
}

/// The position at which the override lines start in the edited script.
pub open spec fn block_start(content: Seq<char>) -> int {
    if has_newline(content) {
        (choose|i: int| is_first_newline(content, i)) + 1
    } else if starts_with_shebang(content) {
        content.len() + 1int
    } else {
        0
    }
}

/// The override lines stand in full in the edited script, right after the
/// first line; so does the patch marker, which opens them.
pub proof fn lemma_override_block_present(content: Seq<char>)
    ensures
        occurs_at(overridden(content), OVERRIDE_BLOCK@, block_start(content)),
        occurs_at(overridden(content), PATCH_MARKER@, block_start(content)),
{
    reveal_strlit("# patched by code_glibc_fixer");
    reveal_strlit("# patched by code_glibc_fixer - force glibc/glibcxx checks to pass\nfound_required_glibc=1\nfound_required_glibcxx=1\n");
    let r = overridden(content);
    let b = OVERRIDE_BLOCK@;
    let m = PATCH_MARKER@;
    let p = block_start(content);
    assert(r.subrange(p, p + b.len()) =~= b);
    assert(r.subrange(p, p + m.len()) =~= b.subrange(0, m.len() as int));
    assert(b.subrange(0, m.len() as int) =~= m);
}

/// The edited script sets both variables that the glibc checks report
/// through, each on a line of its own: `found_required_glibc=1` and
/// `found_required_glibcxx=1`.
pub proof fn lemma_override_forces_checks(content: Seq<char>)
    ensures
        contains_seq(overridden(content), "\nfound_required_glibc=1\n"@),
        contains_seq(overridden(content), "\nfound_required_glibcxx=1\n"@),
{
    reveal_strlit("# patched by code_glibc_fixer - force glibc/glibcxx checks to pass\nfound_required_glibc=1\nfound_required_glibcxx=1\n");
    reveal_strlit("\nfound_required_glibc=1\n");
    reveal_strlit("\nfound_required_glibcxx=1\n");
    lemma_override_block_present(content);
    let r = overridden(content);
    let b = OVERRIDE_BLOCK@;
    let p = block_start(content);
    let g = "\nfound_required_glibc=1\n"@;
    let gx = "\nfound_required_glibcxx=1\n"@;
    let a = 66int;
    let c = 89int;
    assert(b.subrange(a, a + g.len()) =~= g);
    assert(b.subrange(c, c + gx.len()) =~= gx);
    assert(r.subrange(p + a, p + a + g.len()) =~= g) by {
        assert(r.subrange(p, p + b.len()) == b);
        assert forall|k: int| 0 <= k < g.len() implies r.subrange(p + a, p + a + g.len())[k] == g[k] by {
            assert(r.subrange(p, p + b.len())[a + k] == b[a + k]);
        }
    }
    assert(r.subrange(p + c, p + c + gx.len()) =~= gx) by {
        assert(r.subrange(p, p + b.len()) == b);
        assert forall|k: int| 0 <= k < gx.len() implies r.subrange(p + c, p + c + gx.len())[k] == gx[k] by {
            assert(r.subrange(p, p + b.len())[c + k] == b[c + k]);
        }
    }
    assert(occurs_at(r, g, p + a));
    assert(occurs_at(r, gx, p + c));
}

/// A script counts as patched exactly where it holds the text
/// `# patched by code_glibc_fixer` somewhere.
pub proof fn lemma_patched_means_marker(content: Seq<char>)
    ensures
        is_patched(content) <==> contains_seq(content, "# patched by code_glibc_fixer"@),
{
    reveal_strlit("# patched by code_glibc_fixer");
    assert(PATCH_MARKER@ =~= "# patched by code_glibc_fixer"@);
}

/// Patching is idempotent: an edited script carries the patch marker, so
/// patching it again leaves it as it is.
pub proof fn lemma_patch_idempotent(content: Seq<char>)
    ensures
        is_patched(overridden(content)),
{
    lemma_override_block_present(content);
}

/// The edit only adds: the first line (the shebang) stays the first line,
/// the rest of the script follows the override lines unchanged, and the
/// script grows by the override lines, plus a line break where it had none.
/// Only a script with neither a line break nor a shebang gets the override
/// lines in front.
pub proof fn lemma_override_keeps_script(content: Seq<char>)
    ensures
        has_newline(content) ==> {
            let p = block_start(content);
            let r = overridden(content);
            &&& r.take(p) == content.take(p)
            &&& is_first_newline(r, p - 1)
            &&& r.skip(p + OVERRIDE_BLOCK@.len()) == content.skip(p)
            &&& r.len() == content.len() + OVERRIDE_BLOCK@.len()
        },
        !has_newline(content) && starts_with_shebang(content) ==> {
            let r = overridden(content);
            &&& r.take(content.len() as int) == content
            &&& is_first_newline(r, content.len() as int)
            &&& r.skip(content.len() + 1int) == OVERRIDE_BLOCK@
            &&& r.len() == content.len() + OVERRIDE_BLOCK@.len() + 1
        },
        !has_newline(content) && !starts_with_shebang(content) ==> {
            let r = overridden(content);
            &&& r.skip(OVERRIDE_BLOCK@.len() + 1int) == content
            &&& r[OVERRIDE_BLOCK@.len() as int] == '\n'
            &&& r.len() == content.len() + OVERRIDE_BLOCK@.len() + 1
        },
{
    let r = overridden(content);
    let b = OVERRIDE_BLOCK@;
    if has_newline(content) {
        let p = block_start(content);
        let i = choose|i: int| is_first_newline(content, i);
        assert(r.take(p) =~= content.take(p));
        assert(r.skip(p + b.len()) =~= content.skip(p));
        assert forall|j: int| 0 <= j < p - 1 implies r[j] != '\n' by {
            assert(r[j] == content[j]);
        }
    } else if starts_with_shebang(content) {
        let n = content.len() as int;
        assert(r.take(n) =~= content);
        assert(r.skip(n + 1) =~= b);
        assert forall|j: int| 0 <= j < n implies r[j] != '\n' by {
            assert(r[j] == content[j]);
            if content[j] == '\n' {
                lemma_newline_has_first(content, j);
            }
        }
    } else {
        assert(r.skip(b.len() + 1int) =~= content);
    }
}

/// Where the override lines go, in terms of the script's characters alone:
/// right after the first line break; after a lone shebang line (opening
/// with `#!` and holding no line break) and a break that closes it; and in
/// front, followed by a break, of any other text without a line break.
pub proof fn lemma_override_placement(content: Seq<char>, i: int)
    ensures
        0 <= i < content.len() && content[i] == '\n' && (forall|j: int| 0 <= j < i ==> content[j] != '\n')
            ==> overridden(content) == content.take(i + 1) + OVERRIDE_BLOCK@ + content.skip(i + 1),
        (forall|j: int| 0 <= j < content.len() ==> content[j] != '\n') && content.len() >= 2
            && content[0] == '#' && content[1] == '!'
            ==> overridden(content) == content + seq!['\n'] + OVERRIDE_BLOCK@,
        (forall|j: int| 0 <= j < content.len() ==> content[j] != '\n')
            && !(content.len() >= 2 && content[0] == '#' && content[1] == '!')
            ==> overridden(content) == OVERRIDE_BLOCK@ + seq!['\n'] + content,
{
    if 0 <= i < content.len() && content[i] == '\n' && (forall|j: int| 0 <= j < i ==> content[j] != '\n') {
        assert(is_first_newline(content, i));
        let k = choose|k: int| is_first_newline(content, k);
        lemma_first_newline_unique(content, i, k);
    }
    if forall|j: int| 0 <= j < content.len() ==> content[j] != '\n' {
        assert(!has_newline(content));
    }
}

/// Injects the override lines right after the shebang line of `content` so
/// that the glibc checks of the script always pass. A shebang line without
/// a line break is closed by one before the override lines; a script with
/// neither gets the override lines, and a line break, in front.
pub fn inject_glibc_override(content: &str) -> (res: String)
    ensures
        res@ == overridden(content@),
{
    let chars = chars_of(content);
    let n = chars.len();
    let mut i: usize = 0;
    while i < n && chars[i] != '\n'
        invariant
            n == content@.len(),
            chars@ == content@,
            i <= n,
            forall|j: int| 0 <= j < i ==> content@[j] != '\n',
        decreases n - i,
    {
        i = i + 1;
    }
    if i < n {
        assert(is_first_newline(content@, i as int));
        proof {
            let k = choose|k: int| is_first_newline(content@, k);
            lemma_first_newline_unique(content@, i as int, k);
        }
        let mut res = String::from_str(content.substring_char(0, i + 1));
        res.append(OVERRIDE_BLOCK);
        res.append(content.substring_char(i + 1, n));
        assert(content@.subrange(0, i + 1) =~= content@.take(i + 1));
        assert(content@.subrange(i + 1, n as int) =~= content@.skip(i + 1));
        res
    } else if n >= 2 && chars[0] == '#' && chars[1] == '!' {
        assert(!has_newline(content@));
        let mut res = String::from_str(content);
        let newline = "\n";
        proof {
            reveal_strlit("\n");
        }
        res.append(newline);
        res.append(OVERRIDE_BLOCK);
        res
    } else {
        assert(!has_newline(content@));
        let mut res = String::from_str(OVERRIDE_BLOCK);
        let newline = "\n";
        proof {
            reveal_strlit("\n");
        }
        res.append(newline);
        res.append(content);
        res
    }
}

/// The patched text of a `check-requirements.sh` whose text is `content`,
/// or `None` where it carries the patch marker already and is left alone.
pub fn patch_script(content: &str) -> (res: Option<String>)
    ensures
        is_patched(content@) ==> res is None,
        !is_patched(content@) ==> (res matches Some(s) && s@ == overridden(content@)),
{
    if str_contains(content, PATCH_MARKER) {
        None
    } else {
        Some(inject_glibc_override(content))
    }
}

} // verus!
