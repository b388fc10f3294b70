//! Verified text utilities: the character-level operations that the
//! descriptor derivations, the package-output parsing and the plan
//! builders are specified and proved against.

use vstd::prelude::*;

verus! {

/// Whitespace as the field splitters (`awk`, shell word splitting) see it.
pub open spec fn is_ws(c: char) -> bool {
    c == ' ' || c == '\t' || c == '\r' || c == '\n'
}

/// ASCII decimal digit.
pub open spec fn is_digit(c: char) -> bool {
    '0' <= c && c <= '9'
}

/// Relies on std's `String::push`: appends the given character to the
/// end of the string.
#[verifier::external_body]
pub(crate) fn push_char(s: &mut String, c: char)
    ensures
        final(s)@ == old(s)@.push(c),
{
    s.push(c);
}

/// Collects the characters of a string slice into a vector.
pub fn to_chars(s: &str) -> (v: Vec<char>)
    ensures
        v@ == s@,
{
    let n = s.unicode_len();
    let mut v: Vec<char> = Vec::new();
    let mut i: usize = 0;
    while i < n
        invariant
            i <= n,
            n == s@.len(),
            v@ == s@.take(i as int),
        decreases n - i,
    {
        let c = s.get_char(i);
        v.push(c);
        i = i + 1;
        proof {
            assert(s@.take(i as int) =~= s@.take(i - 1).push(s@[i - 1]));
        }
    }
    proof {
        assert(s@.take(n as int) =~= s@);
    }
    v
}

/// Builds a string out of a vector of characters.
pub fn chars_to_string(v: &Vec<char>) -> (s: String)
    ensures
        s@ == v@,
{
    let mut s = String::new();
    let mut i: usize = 0;
    while i < v.len()
        invariant
            i <= v.len(),
            s@ == v@.take(i as int),
        decreases v.len() - i,
    {
        push_char(&mut s, v[i]);
        i = i + 1;
        proof {
            assert(v@.take(i as int) =~= v@.take(i - 1).push(v@[i - 1]));
        }
    }
    proof {
        assert(v@.take(v.len() as int) =~= v@);
    }
    s
}

/// Character-for-character equality of two string slices.
pub fn str_eq(a: &str, b: &str) -> (r: bool)
    ensures
        r == (a@ == b@),
{
    let na = a.unicode_len();
    let nb = b.unicode_len();
    if na != nb {
        return false;
    }
    let mut i: usize = 0;
    while i < na
        invariant
            i <= na,
            na == a@.len(),
            na == b@.len(),
            forall|j: int| 0 <= j < i ==> a@[j] == b@[j],
        decreases na - i,
    {
        if a.get_char(i) != b.get_char(i) {
            return false;
        }
        i = i + 1;
    }
    proof {
        assert(a@ =~= b@);
    }
    true
}

/// Concatenation of two string slices.
pub fn concat2(a: &str, b: &str) -> (r: String)
    ensures
        r@ == a@ + b@,
{
    let mut r = a.to_owned();
    r.append(b);
    r
}

/// Concatenation of three string slices.
pub fn concat3(a: &str, b: &str, c: &str) -> (r: String)
    ensures
        r@ == a@ + b@ + c@,
{
    let mut r = a.to_owned();
    r.append(b);
    r.append(c);
    r
}

/// Concatenation of four string slices.
pub fn concat4(a: &str, b: &str, c: &str, d: &str) -> (r: String)
    ensures
        r@ == a@ + b@ + c@ + d@,
{
    let mut r = a.to_owned();
    r.append(b);
    r.append(c);
    r.append(d);
    r
}

/// The decimal digit with value `d` (`d < 10`).
pub open spec fn spec_digit_char(d: nat) -> char {
    if d == 0 {
        '0'
    } else if d == 1 {
        '1'
    } else if d == 2 {
        '2'
    } else if d == 3 {
        '3'
    } else if d == 4 {
        '4'
    } else if d == 5 {
        '5'
    } else if d == 6 {
        '6'
    } else if d == 7 {
        '7'
    } else if d == 8 {
        '8'
    } else {
        '9'
    }
}

/// The usual decimal rendering of `n`, most significant digit first,
/// no sign and no leading zeros (`0` renders as "0").
pub open spec fn spec_dec(n: nat) -> Seq<char>
    decreases n,
{
    if n < 10 {
        seq![spec_digit_char(n)]
    } else {
        spec_dec(n / 10).push(spec_digit_char(n % 10))
    }
}

fn digit_char(d: u64) -> (c: char)
    requires
        d < 10,
    ensures
        c == spec_digit_char(d as nat),
{
    if d == 0 {
        '0'
    } else if d == 1 {
        '1'
    } else if d == 2 {
        '2'
    } else if d == 3 {
        '3'
    } else if d == 4 {
        '4'
    } else if d == 5 {
        '5'
    } else if d == 6 {
        '6'
    } else if d == 7 {
        '7'
    } else if d == 8 {
        '8'
    } else {
        '9'
    }
}

/// Renders `n` in decimal.
pub fn u64_to_dec(n: u64) -> (s: String)
    ensures
        s@ == spec_dec(n as nat),
    decreases n,
{
    if n < 10 {
        let mut s = String::new();
        push_char(&mut s, digit_char(n));
        proof {
            assert(Seq::<char>::empty().push(spec_digit_char(n as nat)) =~= seq![
                spec_digit_char(n as nat),
            ]);
        }
        s
    } else {
        let mut s = u64_to_dec(n / 10);
        push_char(&mut s, digit_char(n % 10));
        s
    }
}

/// `p` occurs in `s` starting at index `i`.
pub open spec fn spec_match_at(s: Seq<char>, p: Seq<char>, i: int) -> bool {
    0 <= i && i + p.len() <= s.len() && s.subrange(i, i + p.len() as int) == p
}

/// `p` occurs somewhere in `s` (substring containment).
pub open spec fn spec_contains(s: Seq<char>, p: Seq<char>) -> bool {
    exists|i: int| spec_match_at(s, p, i)
}

/// `i` is the index of the last occurrence of `p` in `s`.
pub open spec fn spec_is_last_match(s: Seq<char>, p: Seq<char>, i: int) -> bool {
    spec_match_at(s, p, i) && forall|j: int| j > i ==> !spec_match_at(s, p, j)
}

/// What remains of `s` after the last occurrence of `p`; meaningful
/// only when `p` occurs in `s`.
pub open spec fn spec_after_last(s: Seq<char>, p: Seq<char>) -> Seq<char>
    decreases s.len(),
{
    if s.len() > 0 && spec_contains(s.skip(1), p) {
        spec_after_last(s.skip(1), p)
    } else {
        s.skip(p.len() as int)
    }
}

/// The last match pins `spec_after_last` down exactly.
pub proof fn lemma_after_last_at(s: Seq<char>, p: Seq<char>, i: int)
    requires
        p.len() > 0,
        spec_is_last_match(s, p, i),
    ensures
        spec_after_last(s, p) == s.skip(i + p.len() as int),
    decreases s.len(),
{
    if i > 0 {
        assert(spec_match_at(s.skip(1), p, i - 1)) by {
            assert(s.skip(1).subrange(i - 1, i - 1 + p.len() as int) =~= s.subrange(
                i,
                i + p.len() as int,
            ));
        }
        assert forall|j: int| j > i - 1 implies !spec_match_at(s.skip(1), p, j) by {
            if spec_match_at(s.skip(1), p, j) {
                assert(spec_match_at(s, p, j + 1)) by {
                    assert(s.subrange(j + 1, j + 1 + p.len() as int) =~= s.skip(1).subrange(
                        j,
                        j + p.len() as int,
                    ));
                }
            }
        }
        lemma_after_last_at(s.skip(1), p, i - 1);
        assert(s.skip(1).skip(i - 1 + p.len() as int) =~= s.skip(i + p.len() as int));
    } else {
        assert(i == 0);
        assert(!spec_contains(s.skip(1), p)) by {
            if spec_contains(s.skip(1), p) {
                let j = choose|j: int| spec_match_at(s.skip(1), p, j);
                assert(spec_match_at(s, p, j + 1)) by {
                    assert(s.subrange(j + 1, j + 1 + p.len() as int) =~= s.skip(1).subrange(
                        j,
                        j + p.len() as int,
                    ));
                }
            }
        }
    }
}

/// Does `p` occur in `s` at position `i`? Total: out-of-range `i` gives false.
pub fn match_at(s: &Vec<char>, p: &Vec<char>, i: usize) -> (r: bool)
    ensures
        r == spec_match_at(s@, p@, i as int),
{
    if i > s.len() || p.len() > s.len() - i {
        return false;
    }
    let mut j: usize = 0;
    while j < p.len()
        invariant
            j <= p.len(),
            i + p.len() <= s.len(),
            forall|k: int| 0 <= k < j ==> s@[i + k] == p@[k],
        decreases p.len() - j,
    {
        if s[i + j] != p[j] {
            proof {
                assert(s@.subrange(i as int, i + p@.len() as int)[j as int] == s@[i + j]);
            }
            return false;
        }
        j = j + 1;
    }
    proof {
        assert(s@.subrange(i as int, i + p@.len() as int) =~= p@);
    }
    true
}

/// The index of the last occurrence of `p` in `s`, if any.
pub fn find_last(s: &Vec<char>, p: &Vec<char>) -> (r: Option<usize>)
    requires
        p@.len() > 0,
    ensures
        r matches Some(i) ==> spec_is_last_match(s@, p@, i as int),
        r is None ==> !spec_contains(s@, p@),
{
    let mut i: usize = 0;
    let mut r: Option<usize> = None;
    while i < s.len()
        invariant
            p@.len() > 0,
            i <= s.len(),
            r matches Some(m) ==> spec_match_at(s@, p@, m as int) && forall|j: int|
                m < j < i ==> !spec_match_at(s@, p@, j),
            r is None ==> forall|j: int| j < i ==> !spec_match_at(s@, p@, j),
        decreases s.len() - i,
    {
        if match_at(s, p, i) {
            r = Some(i);
        }
        i = i + 1;
    }
    proof {
        assert(forall|j: int| j >= s@.len() ==> !spec_match_at(s@, p@, j));
    }
    r
}

/// Substring containment, executable.
pub fn contains_vec(s: &Vec<char>, p: &Vec<char>) -> (r: bool)
    ensures
        r == spec_contains(s@, p@),
{
    if p.len() == 0 {
        proof {
            assert(spec_match_at(s@, p@, 0)) by {
                assert(s@.subrange(0, 0) =~= p@);
            }
        }
        return true;
    }
    match find_last(s, p) {
        Some(_) => true,
        None => false,
    }
}

/// Containment of one string slice in another.
pub fn contains_str(s: &str, p: &str) -> (r: bool)
    ensures
        r == spec_contains(s@, p@),
{
    let sv = to_chars(s);
    let pv = to_chars(p);
    contains_vec(&sv, &pv)
}

/// The number of entries that contain `base` as a substring.
pub open spec fn spec_count_matching(entries: Seq<Seq<char>>, base: Seq<char>) -> nat
    decreases entries.len(),
{
    if entries.len() == 0 {
        0
    } else {
        spec_count_matching(entries.drop_last(), base) + if spec_contains(
            entries.last(),
            base,
        ) {
            1nat
        } else {
            0nat
        }
    }
}

/// Counting never exceeds the number of entries.
pub proof fn lemma_count_matching_le(entries: Seq<Seq<char>>, base: Seq<char>)
    ensures
        spec_count_matching(entries, base) <= entries.len(),
    decreases entries.len(),
{
    if entries.len() > 0 {
        lemma_count_matching_le(entries.drop_last(), base);
    }
}

/// Counts the entries containing `base` as a substring.
pub fn count_matching(entries: &Vec<String>, base: &str) -> (n: usize)
    ensures
        n as nat == spec_count_matching(entries.deep_view(), base@),
        n <= entries@.len(),
{
    let bv = to_chars(base);
    let mut n: usize = 0;
    let mut i: usize = 0;
    while i < entries.len()
        invariant
            i <= entries@.len(),
            n <= i,
            bv@ == base@,
            n as nat == spec_count_matching(entries.deep_view().take(i as int), base@),
        decreases entries@.len() - i,
    {
        let ev = to_chars(entries[i].as_str());
        proof {
            assert(entries.deep_view().take(i + 1).drop_last() =~= entries.deep_view().take(
                i as int,
            ));
            assert(entries.deep_view().take(i + 1).last() == entries@[i as int]@);
        }
        if contains_vec(&ev, &bv) {
            n = n + 1;
        }
        i = i + 1;
    }
    proof {
        assert(entries.deep_view().take(entries@.len() as int) =~= entries.deep_view());
        lemma_count_matching_le(entries.deep_view(), base@);
    }
    n
}

/// The index of the first whitespace character at or after `i`, or the
/// length of `s` if there is none.
pub open spec fn spec_tok_end(s: Seq<char>, i: int) -> int
    decreases s.len() - i,
{
    if i < 0 || i >= s.len() {
        s.len() as int
    } else if is_ws(s[i]) {
        i
    } else {
        spec_tok_end(s, i + 1)
    }
}

/// The index of the first non-whitespace character at or after `i`, or
/// the length of `s` if there is none.
pub open spec fn spec_skip_ws(s: Seq<char>, i: int) -> int
    decreases s.len() - i,
{
    if i < 0 || i >= s.len() {
        s.len() as int
    } else if !is_ws(s[i]) {
        i
    } else {
        spec_skip_ws(s, i + 1)
    }
}

pub proof fn lemma_tok_end_bounds(s: Seq<char>, i: int)
    requires
        0 <= i <= s.len(),
    ensures
        i <= spec_tok_end(s, i) <= s.len(),
    decreases s.len() - i,
{
    if i < s.len() && !is_ws(s[i]) {
        lemma_tok_end_bounds(s, i + 1);
    }
}

pub proof fn lemma_skip_ws_bounds(s: Seq<char>, i: int)
    requires
        0 <= i <= s.len(),
    ensures
        i <= spec_skip_ws(s, i) <= s.len(),
    decreases s.len() - i,
{
    if i < s.len() && is_ws(s[i]) {
        lemma_skip_ws_bounds(s, i + 1);
    }
}

/// The whitespace-delimited token that starts at or after `i`, or None
/// if only whitespace remains.
pub open spec fn spec_token_after(s: Seq<char>, i: int) -> Option<Seq<char>> {
    let a = spec_skip_ws(s, i);
    if a >= s.len() {
        None
    } else {
        Some(s.subrange(a, spec_tok_end(s, a)))
    }
}

/// The third whitespace-delimited token of `s` (`awk '{ print $3 }'`),
/// if `s` has at least three tokens.
pub open spec fn spec_third_token(s: Seq<char>) -> Option<Seq<char>> {
    let a0 = spec_skip_ws(s, 0);
    let e0 = spec_tok_end(s, a0);
    let a1 = spec_skip_ws(s, e0);
    let e1 = spec_tok_end(s, a1);
    if a0 >= s.len() || a1 >= s.len() {
        None
    } else {
        spec_token_after(s, e1)
    }
}

fn is_ws_exec(c: char) -> (r: bool)
    ensures
        r == is_ws(c),
{
    c == ' ' || c == '\t' || c == '\r' || c == '\n'
}

/// Executable `spec_tok_end`.
pub fn tok_end(v: &Vec<char>, i: usize) -> (r: usize)
    requires
        i <= v@.len(),
    ensures
        r == spec_tok_end(v@, i as int),
        i <= r <= v@.len(),
    decreases v@.len() - i,
{
    if i >= v.len() {
        v.len()
    } else if is_ws_exec(v[i]) {
        i
    } else {
        tok_end(v, i + 1)
    }
}

/// Executable `spec_skip_ws`.
pub fn skip_ws(v: &Vec<char>, i: usize) -> (r: usize)
    requires
        i <= v@.len(),
    ensures
        r == spec_skip_ws(v@, i as int),
        i <= r <= v@.len(),
    decreases v@.len() - i,
{
    if i >= v.len() {
        v.len()
    } else if !is_ws_exec(v[i]) {
        i
    } else {
        skip_ws(v, i + 1)
    }
}

/// Copies `v[a..b]` out into a fresh vector.
pub fn copy_range(v: &Vec<char>, a: usize, b: usize) -> (r: Vec<char>)
    requires
        a <= b <= v@.len(),
    ensures
        r@ == v@.subrange(a as int, b as int),
{
    let mut r: Vec<char> = Vec::new();
    let mut i: usize = a;
    while i < b
        invariant
            a <= i <= b <= v@.len(),
            r@ == v@.subrange(a as int, i as int),
        decreases b - i,
    {
        r.push(v[i]);
        i = i + 1;
        proof {
            assert(v@.subrange(a as int, i as int) =~= v@.subrange(a as int, i - 1).push(
                v@[i - 1],
            ));
        }
    }
    r
}

/// Executable `spec_token_after`.
pub fn token_after(v: &Vec<char>, i: usize) -> (r: Option<Vec<char>>)
    requires
        i <= v@.len(),
    ensures
        r.deep_view() == spec_token_after(v@, i as int),
{
    let a = skip_ws(v, i);
    if a >= v.len() {
        None
    } else {
        let e = tok_end(v, a);
        Some(copy_range(v, a, e))
    }
}

/// Executable `spec_third_token`.
pub fn third_token(v: &Vec<char>) -> (r: Option<Vec<char>>)
    ensures
        r.deep_view() == spec_third_token(v@),
{
    let a0 = skip_ws(v, 0);
    if a0 >= v.len() {
        return None;
    }
    let e0 = tok_end(v, a0);
    let a1 = skip_ws(v, e0);
    if a1 >= v.len() {
        return None;
    }
    let e1 = tok_end(v, a1);
    token_after(v, e1)
}

/// The index of the first newline at or after `i`, or the length of `s`.
pub open spec fn spec_line_end(s: Seq<char>, i: int) -> int
    decreases s.len() - i,
{
    if i < 0 || i >= s.len() {
        s.len() as int
    } else if s[i] == '\n' {
        i
    } else {
        spec_line_end(s, i + 1)
    }
}

pub proof fn lemma_line_end_bounds(s: Seq<char>, i: int)
    requires
        0 <= i <= s.len(),
    ensures
        i <= spec_line_end(s, i) <= s.len(),
    decreases s.len() - i,
{
    if i < s.len() && s[i] != '\n' {
        lemma_line_end_bounds(s, i + 1);
    }
}

/// The first newline-delimited line, starting the scan at `i`, that
/// contains `p` as a substring (the `grep` that keeps only the first hit).
pub open spec fn spec_first_line_with(s: Seq<char>, p: Seq<char>, i: int) -> Option<Seq<char>>
    decreases s.len() - i,
    via spec_first_line_with_dec
{
    if !(0 <= i <= s.len()) || i == s.len() {
        None
    } else {
        let e = spec_line_end(s, i);
        let line = s.subrange(i, e);
        if spec_contains(line, p) {
            Some(line)
        } else if e == s.len() {
            None
        } else {
            spec_first_line_with(s, p, e + 1)
        }
    }
}

#[via_fn]
proof fn spec_first_line_with_dec(s: Seq<char>, p: Seq<char>, i: int) {
    if 0 <= i < s.len() {
        lemma_line_end_bounds(s, i);
    }
}

/// Executable `spec_line_end`.
pub fn line_end(v: &Vec<char>, i: usize) -> (r: usize)
    requires
        i <= v@.len(),
    ensures
        r == spec_line_end(v@, i as int),
        i <= r <= v@.len(),
    decreases v@.len() - i,
{
    if i >= v.len() {
        v.len()
    } else if v[i] == '\n' {
        i
    } else {
        line_end(v, i + 1)
    }
}

fn first_line_with_from(v: &Vec<char>, p: &Vec<char>, i: usize) -> (r: Option<Vec<char>>)
    requires
        i <= v@.len(),
    ensures
        r.deep_view() == spec_first_line_with(v@, p@, i as int),
    decreases v@.len() - i,
{
    if i == v.len() {
        None
    } else {
        let e = line_end(v, i);
        let line = copy_range(v, i, e);
        if contains_vec(&line, p) {
            Some(line)
        } else if e == v.len() {
            None
        } else {
            first_line_with_from(v, p, e + 1)
        }
    }
}

/// The first line of `v` containing `p`.
pub fn first_line_with(v: &Vec<char>, p: &Vec<char>) -> (r: Option<Vec<char>>)
    ensures
        r.deep_view() == spec_first_line_with(v@, p@, 0),
{
    first_line_with_from(v, p, 0)
}

/// The remainder of `s` after the last occurrence of `p`, if `p` occurs.
pub fn after_last(s: &Vec<char>, p: &Vec<char>) -> (r: Option<Vec<char>>)
    requires
        p@.len() > 0,
    ensures
        r is Some <==> spec_contains(s@, p@),
        r matches Some(v) ==> v@ == spec_after_last(s@, p@),
{
    let n = s.len();
    match find_last(s, p) {
        Some(i) => {
            proof {
                assert(spec_match_at(s@, p@, i as int));
                assert(i + p@.len() <= s@.len());
                lemma_after_last_at(s@, p@, i as int);
                assert(s@.subrange(i + p@.len() as int, s@.len() as int) =~= s@.skip(
                    i + p@.len() as int,
                ));
            }
            Some(copy_range(s, i + p.len(), n))
        },
        None => None,
    }
}

/// The final path component: what follows the last `/`, or all of `s`
/// if it has no `/`.
pub open spec fn spec_last_component(s: Seq<char>) -> Seq<char> {
    if spec_contains(s, seq!['/']) {
        spec_after_last(s, seq!['/'])
    } else {
        s
    }
}

/// The parent directory of a path: what precedes the last `/` (the
/// root `/` if the last slash leads), or empty if `s` has no `/`.
pub open spec fn spec_parent_dir(s: Seq<char>) -> Seq<char> {
    if spec_contains(s, seq!['/']) {
        let j = s.len() - spec_after_last(s, seq!['/']).len() - 1;
        if j == 0 {
            seq!['/']
        } else {
            s.take(j as int)
        }
    } else {
        Seq::empty()
    }
}

/// Executable `spec_last_component`.
pub fn last_component(s: &str) -> (r: String)
    ensures
        r@ == spec_last_component(s@),
{
    let v = to_chars(s);
    let slash: Vec<char> = vec!['/'];
    proof {
        assert(slash@ =~= seq!['/']);
    }
    match find_last(&v, &slash) {
        Some(i) => {
            proof {
                assert(spec_match_at(v@, slash@, i as int));
                assert(spec_contains(v@, seq!['/']));
                lemma_after_last_at(v@, slash@, i as int);
                assert(v@.subrange(i + 1, v@.len() as int) =~= v@.skip(i + 1));
            }
            let n = v.len();
            let part = copy_range(&v, i + 1, n);
            chars_to_string(&part)
        },
        None => s.to_owned(),
    }
}

/// Executable `spec_parent_dir`.
pub fn parent_dir(s: &str) -> (r: String)
    ensures
        r@ == spec_parent_dir(s@),
{
    let v = to_chars(s);
    let slash: Vec<char> = vec!['/'];
    proof {
        assert(slash@ =~= seq!['/']);
    }
    match find_last(&v, &slash) {
        Some(i) => {
            proof {
                assert(spec_match_at(v@, slash@, i as int));
                assert(spec_contains(v@, seq!['/']));
                lemma_after_last_at(v@, slash@, i as int);
                assert(v@.skip(i + 1).len() == v@.len() - i - 1);
            }
            if i == 0 {
                chars_to_string(&slash)
            } else {
                let part = copy_range(&v, 0, i);
                proof {
                    assert(v@.subrange(0, i as int) =~= v@.take(i as int));
                }
                chars_to_string(&part)
            }
        },
        None => String::new(),
    }
}

} // verus!
