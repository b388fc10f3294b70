//! Verified text-field extraction over package-manager output, and the
//! fstab filter: the brittle parsing the pipeline depends on, isolated
//! and specified exactly.

use crate::text::{
    after_last, chars_to_string, concat2, contains_str, copy_range, first_line_with, is_ws,
    lemma_line_end_bounds, line_end, push_char, spec_after_last, spec_contains,
    spec_first_line_with, spec_line_end, spec_match_at, spec_third_token, spec_token_after,
    third_token, to_chars, token_after,
};
use vstd::prelude::*;

verus! {

/// The kernel version the ZFS package's "Depends On" field pins: in
/// the first line containing "Depends On", the first whitespace token
/// after the last occurrence of `<linux>=`. None when the field or the
/// pin is absent, or nothing follows the pin.
pub open spec fn spec_depends_version(out: Seq<char>, linux: Seq<char>) -> Option<Seq<char>> {
    match spec_first_line_with(out, "Depends On"@, 0) {
        None => None,
        Some(line) => {
            let pat = linux.push('=');
            if spec_contains(line, pat) {
                spec_token_after(spec_after_last(line, pat), 0)
            } else {
                None
            }
        },
    }
}

/// The repository's kernel version: the third whitespace token of the
/// first line containing "Version" in `pacman -Si` output.
pub open spec fn spec_repo_version(out: Seq<char>) -> Option<Seq<char>> {
    match spec_first_line_with(out, "Version"@, 0) {
        None => None,
        Some(line) => spec_third_token(line),
    }
}

/// Executable `spec_depends_version`.
pub fn extract_depends_version(out: &str, linux: &str) -> (r: Option<String>)
    ensures
        r.deep_view() == spec_depends_version(out@, linux@),
{
    let ov = to_chars(out);
    let needle = to_chars("Depends On");
    match first_line_with(&ov, &needle) {
        None => None,
        Some(line) => {
            proof {
                assert(line@ =~= line.deep_view());
            }
            let mut pat = to_chars(linux);
            pat.push('=');
            match after_last(&line, &pat) {
                None => None,
                Some(rest) => {
                    proof {
                        assert(rest@ =~= rest.deep_view());
                    }
                    match token_after(&rest, 0) {
                        None => None,
                        Some(tok) => {
                            proof {
                                assert(tok@ =~= tok.deep_view());
                            }
                            Some(chars_to_string(&tok))
                        },
                    }
                },
            }
        },
    }
}

/// Executable `spec_repo_version`.
pub fn extract_repo_version(out: &str) -> (r: Option<String>)
    ensures
        r.deep_view() == spec_repo_version(out@),
{
    let ov = to_chars(out);
    let needle = to_chars("Version");
    match first_line_with(&ov, &needle) {
        None => None,
        Some(line) => {
            proof {
                assert(line@ =~= line.deep_view());
            }
            match third_token(&line) {
                None => None,
                Some(tok) => {
                    proof {
                        assert(tok@ =~= tok.deep_view());
                    }
                    Some(chars_to_string(&tok))
                },
            }
        },
    }
}

/// "zfs" stands at the head of `line`.
pub open spec fn spec_zfs_at(line: Seq<char>) -> bool {
    line.len() >= 3 && line[0] == 'z' && line[1] == 'f' && line[2] == 's'
}

/// One pass of `s;zfs[[:space:]]*;zfs zfsutil,;g` over a single line:
/// scanning left to right, each occurrence of "zfs" together with the
/// whitespace run that follows it becomes "zfs zfsutil,"; scanning
/// resumes after the replacement.
pub open spec fn spec_rewrite_zfs(line: Seq<char>) -> Seq<char>
    decreases line.len(), 0int,
{
    if line.len() == 0 {
        Seq::empty()
    } else if spec_zfs_at(line) {
        "zfs zfsutil,"@ + spec_rewrite_zfs_ws(line.skip(3))
    } else {
        seq![line[0]] + spec_rewrite_zfs(line.skip(1))
    }
}

/// Skips the whitespace run swallowed by a replacement, then resumes
/// the scan.
pub open spec fn spec_rewrite_zfs_ws(line: Seq<char>) -> Seq<char>
    decreases line.len(), 1int,
{
    if line.len() > 0 && is_ws(line[0]) {
        spec_rewrite_zfs_ws(line.skip(1))
    } else {
        spec_rewrite_zfs(line)
    }
}

/// The newline-separated lines of `s` (no terminator: a trailing
/// newline yields a final empty line).
pub open spec fn spec_split_lines(s: Seq<char>) -> Seq<Seq<char>>
    decreases s.len(),
    via spec_split_lines_dec
{
    let e = spec_line_end(s, 0);
    if e == s.len() {
        seq![s]
    } else {
        seq![s.subrange(0, e)] + spec_split_lines(s.skip(e + 1))
    }
}

#[via_fn]
proof fn spec_split_lines_dec(s: Seq<char>) {
    if s.len() > 0 {
        lemma_line_end_bounds(s, 0);
    }
}

/// The rewritten lines that survive the `grep "zfs zfsutil"` filter,
/// in order.
pub open spec fn spec_fstab_lines(lines: Seq<Seq<char>>) -> Seq<Seq<char>>
    decreases lines.len(),
{
    if lines.len() == 0 {
        Seq::empty()
    } else {
        let rl = spec_rewrite_zfs(lines[0]);
        let rest = spec_fstab_lines(lines.skip(1));
        if spec_contains(rl, "zfs zfsutil"@) {
            seq![rl] + rest
        } else {
            rest
        }
    }
}

/// Lines joined with single newlines.
pub open spec fn spec_join_lines(lines: Seq<Seq<char>>) -> Seq<char>
    decreases lines.len(),
{
    if lines.len() == 0 {
        Seq::empty()
    } else if lines.len() == 1 {
        lines[0]
    } else {
        lines[0] + seq!['\n'] + spec_join_lines(lines.skip(1))
    }
}

/// The fstab kept by the pipeline: every generated line rewritten to
/// force legacy ZFS mounting, only lines that then read "zfs zfsutil"
/// retained, joined with newlines.
pub open spec fn spec_fstab_filter(out: Seq<char>) -> Seq<char> {
    spec_join_lines(spec_fstab_lines(spec_split_lines(out)))
}

fn rewrite_from(v: &Vec<char>, i: usize) -> (r: String)
    requires
        i <= v@.len(),
    ensures
        r@ == spec_rewrite_zfs(v@.skip(i as int)),
    decreases v@.len() - i, 0int,
{
    let n = v.len();
    if i == n {
        proof {
            assert(v@.skip(i as int) =~= Seq::<char>::empty());
        }
        String::new()
    } else if n - i >= 3 && v[i] == 'z' && v[i + 1] == 'f' && v[i + 2] == 's' {
        proof {
            assert(v@.skip(i as int)[0] == v@[i as int]);
            assert(v@.skip(i as int)[1] == v@[i + 1]);
            assert(v@.skip(i as int)[2] == v@[i + 2]);
            assert(spec_zfs_at(v@.skip(i as int)));
            assert(v@.skip(i as int).skip(3) =~= v@.skip(i + 3));
        }
        let rest = rewrite_ws_from(v, i + 3);
        concat2("zfs zfsutil,", rest.as_str())
    } else {
        proof {
            assert(v@.skip(i as int)[0] == v@[i as int]);
            if v@.skip(i as int).len() >= 3 {
                assert(v@.skip(i as int)[1] == v@[i + 1]);
                assert(v@.skip(i as int)[2] == v@[i + 2]);
            }
            assert(!spec_zfs_at(v@.skip(i as int)));
            assert(v@.skip(i as int).skip(1) =~= v@.skip(i + 1));
        }
        let rest = rewrite_from(v, i + 1);
        let mut s = String::new();
        push_char(&mut s, v[i]);
        s.append(rest.as_str());
        proof {
            assert(Seq::<char>::empty().push(v@[i as int]) + rest@ =~= seq![
                v@.skip(i as int)[0],
            ] + rest@);
        }
        s
    }
}

fn rewrite_ws_from(v: &Vec<char>, i: usize) -> (r: String)
    requires
        i <= v@.len(),
    ensures
        r@ == spec_rewrite_zfs_ws(v@.skip(i as int)),
    decreases v@.len() - i, 1int,
{
    if i < v.len() {
        let c = v[i];
        if c == ' ' || c == '\t' || c == '\r' || c == '\n' {
            proof {
                assert(v@.skip(i as int)[0] == v@[i as int]);
                assert(is_ws(v@.skip(i as int)[0]));
                assert(v@.skip(i as int).skip(1) =~= v@.skip(i + 1));
            }
            return rewrite_ws_from(v, i + 1);
        }
        proof {
            assert(v@.skip(i as int)[0] == v@[i as int]);
        }
    }
    rewrite_from(v, i)
}

/// Executable `spec_rewrite_zfs` over a whole line.
pub fn rewrite_zfs_line(line: &str) -> (r: String)
    ensures
        r@ == spec_rewrite_zfs(line@),
{
    let v = to_chars(line);
    proof {
        assert(v@.skip(0) =~= v@);
    }
    rewrite_from(&v, 0)
}

proof fn lemma_line_end_shift(s: Seq<char>, i: int, j: int)
    requires
        0 <= i,
        0 <= j,
        i + j <= s.len(),
    ensures
        spec_line_end(s.skip(i), j) == spec_line_end(s, i + j) - i,
    decreases s.len() - i - j,
{
    if i + j < s.len() {
        assert(s.skip(i)[j] == s[i + j]);
        if s[i + j] != '\n' {
            lemma_line_end_shift(s, i, j + 1);
        }
    }
}

fn split_lines_from(v: &Vec<char>, i: usize) -> (r: Vec<Vec<char>>)
    requires
        i <= v@.len(),
    ensures
        r.deep_view() == spec_split_lines(v@.skip(i as int)),
    decreases v@.len() - i,
{
    let e = line_end(v, i);
    let line = copy_range(v, i, e);
    proof {
        lemma_line_end_shift(v@, i as int, 0);
        assert(spec_line_end(v@.skip(i as int), 0) == e - i);
        assert(line@ =~= v@.skip(i as int).subrange(0, e - i));
        assert(line.deep_view() =~= line@);
    }
    if e == v.len() {
        proof {
            assert(line@ =~= v@.skip(i as int));
        }
        let r: Vec<Vec<char>> = vec![line];
        proof {
            assert(r.deep_view() =~= seq![v@.skip(i as int)]);
        }
        r
    } else {
        let mut rest = split_lines_from(v, e + 1);
        proof {
            assert(v@.skip(i as int).skip(e - i + 1) =~= v@.skip(e + 1));
        }
        let ghost rest_deep = rest.deep_view();
        rest.insert(0, line);
        proof {
            assert(rest.deep_view() =~= seq![v@.skip(i as int).subrange(0, e - i)] + rest_deep);
        }
        rest
    }
}

fn fstab_keep_from(lines: &Vec<Vec<char>>, i: usize) -> (r: Vec<String>)
    requires
        i <= lines@.len(),
    ensures
        r.deep_view() == spec_fstab_lines(lines.deep_view().skip(i as int)),
    decreases lines@.len() - i,
{
    if i == lines.len() {
        proof {
            assert(lines.deep_view().skip(i as int) =~= Seq::<Seq<char>>::empty());
        }
        let r: Vec<String> = Vec::new();
        proof {
            assert(r.deep_view() =~= Seq::<Seq<char>>::empty());
        }
        r
    } else {
        proof {
            assert(lines[i as int].deep_view() =~= lines[i as int]@);
            assert(lines.deep_view().skip(i as int)[0] == lines[i as int]@);
            assert(lines[i as int]@.skip(0) =~= lines[i as int]@);
            assert(lines.deep_view().skip(i as int).skip(1) =~= lines.deep_view().skip(i + 1));
        }
        let rl = rewrite_from(&lines[i], 0);
        let mut rest = fstab_keep_from(lines, i + 1);
        let ghost rest_deep = rest.deep_view();
        if contains_str(rl.as_str(), "zfs zfsutil") {
            let ghost rl_view = rl@;
            rest.insert(0, rl);
            proof {
                assert(rest.deep_view() =~= seq![rl_view] + rest_deep);
            }
            rest
        } else {
            rest
        }
    }
}

fn join_from(lines: &Vec<String>, i: usize) -> (r: String)
    requires
        i <= lines@.len(),
    ensures
        r@ == spec_join_lines(lines.deep_view().skip(i as int)),
    decreases lines@.len() - i,
{
    if i == lines.len() {
        proof {
            assert(lines.deep_view().skip(i as int) =~= Seq::<Seq<char>>::empty());
        }
        String::new()
    } else if i + 1 == lines.len() {
        proof {
            assert(lines.deep_view().skip(i as int).len() == 1);
            assert(lines.deep_view().skip(i as int)[0] == lines[i as int]@);
        }
        lines[i].clone()
    } else {
        proof {
            assert(lines.deep_view().skip(i as int)[0] == lines[i as int]@);
            assert(lines.deep_view().skip(i as int).skip(1) =~= lines.deep_view().skip(i + 1));
        }
        let mut s = lines[i].clone();
        push_char(&mut s, '\n');
        let rest = join_from(lines, i + 1);
        s.append(rest.as_str());
        proof {
            assert(lines[i as int]@.push('\n') + rest@ =~= lines[i as int]@ + seq!['\n']
                + rest@);
        }
        s
    }
}

/// A match inside the right part of a concatenation survives in the whole.
pub proof fn lemma_contains_extend(a: Seq<char>, b: Seq<char>, p: Seq<char>)
    requires
        spec_contains(b, p),
    ensures
        spec_contains(a + b, p),
{
    let i = choose|i: int| spec_match_at(b, p, i);
    assert(spec_match_at(a + b, p, a.len() + i)) by {
        assert((a + b).subrange(a.len() + i, a.len() + i + p.len() as int) =~= b.subrange(
            i,
            i + p.len() as int,
        ));
    }
}

/// A match in a tail survives in the whole sequence.
pub proof fn lemma_contains_tail(l: Seq<char>, p: Seq<char>)
    requires
        l.len() > 0,
        spec_contains(l.skip(1), p),
    ensures
        spec_contains(l, p),
{
    lemma_contains_extend(seq![l[0]], l.skip(1), p);
    assert(seq![l[0]] + l.skip(1) =~= l);
}

/// A line that reads "zfs zfsutil" somewhere also reads "zfs" there.
pub proof fn lemma_zfsutil_implies_zfs(l: Seq<char>)
    requires
        spec_contains(l, "zfs zfsutil"@),
    ensures
        spec_contains(l, "zfs"@),
{
    reveal_strlit("zfs zfsutil");
    reveal_strlit("zfs");
    let i = choose|i: int| spec_match_at(l, "zfs zfsutil"@, i);
    assert(spec_match_at(l, "zfs"@, i)) by {
        assert(l.subrange(i, i + 11)[0] == 'z');
        assert(l.subrange(i, i + 11)[1] == 'f');
        assert(l.subrange(i, i + 11)[2] == 's');
        assert(l.subrange(i, i + 3) =~= "zfs"@);
    }
}

/// A line that never mentions "zfs" passes the rewrite unchanged.
pub proof fn lemma_rewrite_id(l: Seq<char>)
    requires
        !spec_contains(l, "zfs"@),
    ensures
        spec_rewrite_zfs(l) == l,
    decreases l.len(),
{
    reveal_strlit("zfs");
    if l.len() == 0 {
        assert(spec_rewrite_zfs(l) =~= l);
    } else if spec_zfs_at(l) {
        assert(spec_match_at(l, "zfs"@, 0)) by {
            assert(l.subrange(0, 3) =~= "zfs"@);
        }
    } else {
        if spec_contains(l.skip(1), "zfs"@) {
            lemma_contains_tail(l, "zfs"@);
        }
        lemma_rewrite_id(l.skip(1));
        assert(seq![l[0]] + l.skip(1) =~= l);
    }
}

/// A line that mentions "zfs" reads "zfs zfsutil" after the rewrite.
pub proof fn lemma_rewrite_keeps(l: Seq<char>)
    requires
        spec_contains(l, "zfs"@),
    ensures
        spec_contains(spec_rewrite_zfs(l), "zfs zfsutil"@),
    decreases l.len(),
{
    reveal_strlit("zfs");
    reveal_strlit("zfs zfsutil");
    reveal_strlit("zfs zfsutil,");
    let i = choose|i: int| spec_match_at(l, "zfs"@, i);
    assert(l.len() > 0);
    if spec_zfs_at(l) {
        let r = spec_rewrite_zfs(l);
        assert(r == "zfs zfsutil,"@ + spec_rewrite_zfs_ws(l.skip(3)));
        assert(spec_match_at(r, "zfs zfsutil"@, 0)) by {
            assert(r.subrange(0, 11) =~= "zfs zfsutil"@);
        }
    } else {
        assert(i != 0) by {
            if i == 0 {
                assert(l.subrange(0, 3)[0] == l[0]);
                assert(l.subrange(0, 3)[1] == l[1]);
                assert(l.subrange(0, 3)[2] == l[2]);
            }
        }
        assert(spec_match_at(l.skip(1), "zfs"@, i - 1)) by {
            assert(l.skip(1).subrange(i - 1, i + 2) =~= l.subrange(i, i + 3));
        }
        lemma_rewrite_keeps(l.skip(1));
        lemma_contains_extend(seq![l[0]], spec_rewrite_zfs(l.skip(1)), "zfs zfsutil"@);
    }
}

/// The rewrite leaves a line reading "zfs zfsutil" exactly when the
/// line referenced ZFS in the first place.
pub proof fn lemma_rewrite_keeps_iff(l: Seq<char>)
    ensures
        spec_contains(spec_rewrite_zfs(l), "zfs zfsutil"@) <==> spec_contains(l, "zfs"@),
{
    if spec_contains(l, "zfs"@) {
        lemma_rewrite_keeps(l);
    } else {
        lemma_rewrite_id(l);
        if spec_contains(spec_rewrite_zfs(l), "zfs zfsutil"@) {
            lemma_zfsutil_implies_zfs(l);
        }
    }
}

/// The fstab filter retains, in order, the rewrite of every line that
/// reads "zfs zfsutil" after the rewrite, and everything it emits is
/// the rewrite of some input line that referenced ZFS.
pub proof fn lemma_fstab_filter_law(lines: Seq<Seq<char>>)
    ensures
        forall|i: int|
            0 <= i < lines.len() && spec_contains(
                spec_rewrite_zfs(#[trigger] lines[i]),
                "zfs zfsutil"@,
            ) ==> spec_fstab_lines(lines).contains(spec_rewrite_zfs(lines[i])),
        forall|j: int|
            0 <= j < spec_fstab_lines(lines).len() ==> exists|i: int|
                0 <= i < lines.len() && #[trigger] spec_fstab_lines(lines)[j]
                    == spec_rewrite_zfs(lines[i]) && spec_contains(lines[i], "zfs"@),
    decreases lines.len(),
{
    if lines.len() > 0 {
        lemma_fstab_filter_law(lines.skip(1));
        lemma_rewrite_keeps_iff(lines[0]);
        let rl = spec_rewrite_zfs(lines[0]);
        let rest = spec_fstab_lines(lines.skip(1));
        let whole = spec_fstab_lines(lines);
        assert forall|i: int|
            0 <= i < lines.len() && spec_contains(
                spec_rewrite_zfs(#[trigger] lines[i]),
                "zfs zfsutil"@,
            ) implies whole.contains(spec_rewrite_zfs(lines[i])) by {
            if i == 0 {
                assert(whole[0] == rl);
            } else {
                assert(lines.skip(1)[i - 1] == lines[i]);
                let k = choose|k: int|
                    0 <= k < rest.len() && rest[k] == spec_rewrite_zfs(lines.skip(1)[i - 1]);
                if spec_contains(rl, "zfs zfsutil"@) {
                    assert(whole[k + 1] == rest[k]);
                } else {
                    assert(whole[k] == rest[k]);
                }
            }
        }
        assert forall|j: int| 0 <= j < whole.len() implies exists|i: int|
            0 <= i < lines.len() && #[trigger] whole[j] == spec_rewrite_zfs(lines[i])
                && spec_contains(lines[i], "zfs"@) by {
            if spec_contains(rl, "zfs zfsutil"@) {
                if j == 0 {
                    assert(whole[j] == spec_rewrite_zfs(lines[0]) && spec_contains(
                        lines[0],
                        "zfs"@,
                    ));
                } else {
                    assert(whole[j] == rest[j - 1]);
                    let i0 = choose|i0: int|
                        0 <= i0 < lines.skip(1).len() && rest[j - 1] == spec_rewrite_zfs(
                            lines.skip(1)[i0],
                        ) && spec_contains(lines.skip(1)[i0], "zfs"@);
                    assert(lines.skip(1)[i0] == lines[i0 + 1]);
                    assert(whole[j] == spec_rewrite_zfs(lines[i0 + 1]) && spec_contains(
                        lines[i0 + 1],
                        "zfs"@,
                    ));
                }
            } else {
                assert(whole[j] == rest[j]);
                let i0 = choose|i0: int|
                    0 <= i0 < lines.skip(1).len() && rest[j] == spec_rewrite_zfs(
                        lines.skip(1)[i0],
                    ) && spec_contains(lines.skip(1)[i0], "zfs"@);
                assert(lines.skip(1)[i0] == lines[i0 + 1]);
                assert(whole[j] == spec_rewrite_zfs(lines[i0 + 1]) && spec_contains(
                    lines[i0 + 1],
                    "zfs"@,
                ));
            }
        }
    }
}

/// Executable `spec_fstab_filter`: the fstab-generation filter.
pub fn fstab_filter(out: &str) -> (r: String)
    ensures
        r@ == spec_fstab_filter(out@),
{
    let v = to_chars(out);
    proof {
        assert(v@.skip(0) =~= v@);
    }
    let lines = split_lines_from(&v, 0);
    proof {
        assert(lines.deep_view().skip(0) =~= lines.deep_view());
    }
    let kept = fstab_keep_from(&lines, 0);
    proof {
        assert(kept.deep_view().skip(0) =~= kept.deep_view());
    }
    join_from(&kept, 0)
}

} // verus!
