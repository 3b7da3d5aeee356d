//! The LaTeX-subset normalizer: a bounded, pattern-based rewrite from
//! LaTeX-flavored markup to the plain arithmetic syntax the evaluator accepts.

use vstd::prelude::*;
use vstd::string::StrSliceExecFns;

verus! {

/// Replacement of every occurrence of `pat` in `s`, scanning left to right
/// from position `i`, non-overlapping, leftmost occurrence first.
pub open spec fn replace_from(s: Seq<char>, pat: Seq<char>, rep: Seq<char>, i: int) -> Seq<char>
    decreases s.len() - i,
{
    if i < 0 || i >= s.len() {
        Seq::empty()
    } else if pat.len() > 0 && i + pat.len() <= s.len() && s.subrange(i, i + pat.len() as int)
        == pat {
        rep + replace_from(s, pat, rep, i + pat.len() as int)
    } else {
        seq![s[i]] + replace_from(s, pat, rep, i + 1)
    }
}

/// Replacement of every occurrence of `pat` in `s`, leftmost first,
/// non-overlapping: the semantics of `str::replace`.
pub open spec fn replace_all(s: Seq<char>, pat: Seq<char>, rep: Seq<char>) -> Seq<char> {
    replace_from(s, pat, rep, 0)
}

/// Whether `pat` occurs in `s` starting exactly at position `i`.
pub open spec fn occurs_at(s: Seq<char>, pat: Seq<char>, i: int) -> bool {
    0 <= i && i + pat.len() <= s.len() && s.subrange(i, i + pat.len() as int) == pat
}

/// Decides `occurs_at` by a character scan.
fn occurs_at_exec(s: &Vec<char>, pat: &Vec<char>, i: usize) -> (r: bool)
    requires
        i <= s@.len(),
    ensures
        r == occurs_at(s@, pat@, i as int),
{
    if pat.len() > s.len() - i {
        assert(!occurs_at(s@, pat@, i as int));
        return false;
    }
    let mut j: usize = 0;
    while j < pat.len()
        invariant
            i + pat@.len() <= s@.len() <= usize::MAX,
            0 <= j <= pat@.len(),
            forall|k: int| 0 <= k < j ==> s@[i + k] == pat@[k],
        decreases pat@.len() - j,
    {
        if s[i + j] != pat[j] {
            assert(s@.subrange(i as int, i + pat@.len() as int)[j as int] == s@[i + j]);
            assert(s@.subrange(i as int, i + pat@.len() as int) != pat@);
            return false;
        }
        j += 1;
    }
    assert(s@.subrange(i as int, i + pat@.len() as int) =~= pat@);
    true
}

/// Executable form of `replace_all`.
#[verifier::rlimit(50)]
fn replace_all_exec(s: &Vec<char>, pat: &Vec<char>, rep: &Vec<char>) -> (r: Vec<char>)
    requires
        pat@.len() > 0,
    ensures
        r@ == replace_all(s@, pat@, rep@),
{
    let mut out: Vec<char> = Vec::new();
    let mut i: usize = 0;
    while i < s.len()
        invariant
            pat@.len() > 0,
            0 <= i <= s@.len(),
            out@ + replace_from(s@, pat@, rep@, i as int) == replace_from(s@, pat@, rep@, 0),
        decreases s@.len() - i,
    {
        if occurs_at_exec(s, pat, i) {
            let ghost out0 = out@;
            let ghost i0 = i as int;
            let mut k: usize = 0;
            while k < rep.len()
                invariant
                    0 <= k <= rep@.len(),
                    out@ == out0 + rep@.subrange(0, k as int),
                decreases rep@.len() - k,
            {
                out.push(rep[k]);
                assert(out@ =~= out0 + rep@.subrange(0, k + 1));
                k += 1;
            }
            assert(out@ =~= out0 + rep@);
            assert(replace_from(s@, pat@, rep@, i0) == rep@ + replace_from(
                s@,
                pat@,
                rep@,
                i0 + pat@.len(),
            ));
            i += pat.len();
            assert(out@ + replace_from(s@, pat@, rep@, i as int) =~= out0 + replace_from(
                s@,
                pat@,
                rep@,
                i0,
            ));
        } else {
            assert(replace_from(s@, pat@, rep@, i as int) == seq![s@[i as int]] + replace_from(
                s@,
                pat@,
                rep@,
                i + 1,
            ));
            out.push(s[i]);
            i += 1;
            assert(out@ + replace_from(s@, pat@, rep@, i as int) =~= replace_from(
                s@,
                pat@,
                rep@,
                0,
            ));
        }
    }
    assert(out@ + replace_from(s@, pat@, rep@, i as int) =~= out@);
    out
}

/// First position at or after `from` holding a closing brace, or the length
/// of `s` when there is none.
pub open spec fn find_close(s: Seq<char>, from: int) -> int
    decreases s.len() - from,
{
    if from < 0 || from >= s.len() {
        s.len() as int
    } else if s[from] == '}' {
        from
    } else {
        find_close(s, from + 1)
    }
}

fn find_close_exec(s: &Vec<char>, from: usize) -> (r: usize)
    requires
        from <= s@.len(),
    ensures
        r == find_close(s@, from as int),
        from <= r <= s@.len(),
{
    let mut j: usize = from;
    while j < s.len()
        invariant
            from <= j <= s@.len(),
            find_close(s@, from as int) == find_close(s@, j as int),
        decreases s@.len() - j,
    {
        if s[j] == '}' {
            return j;
        }
        j += 1;
    }
    j
}

/// The six characters that open a LaTeX fraction.
pub open spec fn frac_prefix() -> Seq<char> {
    seq!['\\', 'f', 'r', 'a', 'c', '{']
}

/// The six characters that open a LaTeX square root.
pub open spec fn sqrt_prefix() -> Seq<char> {
    seq!['\\', 's', 'q', 'r', 't', '{']
}

/// A fraction `\frac{A}{B}` matched at position `i`, where `A` and `B` are
/// nonempty runs of characters other than a closing brace: the positions of
/// the brace closing `A` and of the brace closing `B`, or nothing.
pub open spec fn frac_match(s: Seq<char>, i: int) -> Option<(int, int)> {
    if occurs_at(s, frac_prefix(), i) {
        let ae = find_close(s, i + 6);
        if i + 6 < ae && ae + 1 < s.len() && s[ae + 1] == '{' {
            let be = find_close(s, ae + 2);
            if ae + 2 < be && be < s.len() {
                Some((ae, be))
            } else {
                None
            }
        } else {
            None
        }
    } else {
        None
    }
}

/// The text a matched fraction is rewritten to: `((A)/(B))`.
pub open spec fn frac_build(a: Seq<char>, b: Seq<char>) -> Seq<char> {
    seq!['(', '('] + a + seq![')', '/', '('] + b + seq![')', ')']
}

/// One left-to-right pass of fraction rewriting over `s`, starting at `i`:
/// each leftmost, non-overlapping match of `\frac{A}{B}` becomes `((A)/(B))`.
pub open spec fn frac_pass_from(s: Seq<char>, i: int) -> Seq<char>
    decreases s.len() - i,
{
    if i < 0 || i >= s.len() {
        Seq::empty()
    } else {
        match frac_match(s, i) {
            Some((ae, be)) => frac_build(s.subrange(i + 6, ae), s.subrange(ae + 2, be))
                + frac_pass_from(s, be + 1),
            None => seq![s[i]] + frac_pass_from(s, i + 1),
        }
    }
}

pub open spec fn frac_pass(s: Seq<char>) -> Seq<char> {
    frac_pass_from(s, 0)
}

/// Fraction rewriting iterated to a fixed point, with at most `fuel` passes.
pub open spec fn frac_fix(s: Seq<char>, fuel: nat) -> Seq<char>
    decreases fuel,
{
    if fuel == 0 {
        s
    } else {
        let t = frac_pass(s);
        if t == s {
            s
        } else {
            frac_fix(t, (fuel - 1) as nat)
        }
    }
}

/// The fraction rule: passes repeated until nothing changes. One pass removes
/// at least one brace pair per match, so one pass more than the length of the
/// input always reaches the fixed point; the fuel is a defensive cap.
pub open spec fn frac_rewrite(s: Seq<char>) -> Seq<char> {
    frac_fix(s, s.len() + 1)
}

/// A square root `\sqrt{A}` matched at position `i`, with `A` a nonempty run
/// of characters other than a closing brace: the position of the brace
/// closing `A`, or nothing.
pub open spec fn sqrt_match(s: Seq<char>, i: int) -> Option<int> {
    if occurs_at(s, sqrt_prefix(), i) {
        let ae = find_close(s, i + 6);
        if i + 6 < ae && ae < s.len() {
            Some(ae)
        } else {
            None
        }
    } else {
        None
    }
}

/// The text a matched square root is rewritten to: `sqrt(A)`.
pub open spec fn sqrt_build(a: Seq<char>) -> Seq<char> {
    seq!['s', 'q', 'r', 't', '('] + a + seq![')']
}

/// One left-to-right pass of square-root rewriting over `s`, starting at `i`.
pub open spec fn sqrt_pass_from(s: Seq<char>, i: int) -> Seq<char>
    decreases s.len() - i,
{
    if i < 0 || i >= s.len() {
        Seq::empty()
    } else {
        match sqrt_match(s, i) {
            Some(ae) => sqrt_build(s.subrange(i + 6, ae)) + sqrt_pass_from(s, ae + 1),
            None => seq![s[i]] + sqrt_pass_from(s, i + 1),
        }
    }
}

pub open spec fn sqrt_pass(s: Seq<char>) -> Seq<char> {
    sqrt_pass_from(s, 0)
}

fn push_range(out: &mut Vec<char>, s: &Vec<char>, from: usize, to: usize)
    requires
        from <= to <= s@.len(),
    ensures
        final(out)@ == old(out)@ + s@.subrange(from as int, to as int),
{
    let ghost out0 = out@;
    let mut k: usize = from;
    while k < to
        invariant
            from <= k <= to <= s@.len(),
            out@ == out0 + s@.subrange(from as int, k as int),
        decreases to - k,
    {
        out.push(s[k]);
        assert(out@ =~= out0 + s@.subrange(from as int, k + 1));
        k += 1;
    }
    assert(out@ =~= out0 + s@.subrange(from as int, to as int));
}

fn frac_match_exec(s: &Vec<char>, pref: &Vec<char>, i: usize) -> (r: Option<(usize, usize)>)
    requires
        pref@ == frac_prefix(),
        i <= s@.len(),
    ensures
        match r {
            Some((ae, be)) => frac_match(s@, i as int) == Some((ae as int, be as int)) && i + 6
                < ae && ae + 2 < be && be < s@.len(),
            None => frac_match(s@, i as int) is None,
        },
{
    if !occurs_at_exec(s, pref, i) {
        return None;
    }
    let n = s.len();
    assert(i + 6 <= n);
    let ae = find_close_exec(s, i + 6);
    if !(i + 6 < ae && ae < n) {
        return None;
    }
    if !(ae + 1 < n) {
        return None;
    }
    if s[ae + 1] != '{' {
        return None;
    }
    let be = find_close_exec(s, ae + 2);
    if ae + 2 < be && be < n {
        Some((ae, be))
    } else {
        None
    }
}

#[verifier::rlimit(80)]
fn frac_pass_exec(s: &Vec<char>, pref: &Vec<char>) -> (r: Vec<char>)
    requires
        pref@ == frac_prefix(),
    ensures
        r@ == frac_pass(s@),
{
    let mut out: Vec<char> = Vec::new();
    let mut i: usize = 0;
    while i < s.len()
        invariant
            pref@ == frac_prefix(),
            0 <= i <= s@.len(),
            out@ + frac_pass_from(s@, i as int) == frac_pass_from(s@, 0),
        decreases s@.len() - i,
    {
        match frac_match_exec(s, pref, i) {
            Some((ae, be)) => {
                let ghost out0 = out@;
                let ghost i0 = i as int;
                out.push('(');
                out.push('(');
                push_range(&mut out, s, i + 6, ae);
                out.push(')');
                out.push('/');
                out.push('(');
                push_range(&mut out, s, ae + 2, be);
                out.push(')');
                out.push(')');
                assert(out@ =~= out0 + frac_build(
                    s@.subrange(i0 + 6, ae as int),
                    s@.subrange(ae + 2, be as int),
                ));
                i = be + 1;
                assert(out@ + frac_pass_from(s@, i as int) =~= frac_pass_from(s@, 0));
            },
            None => {
                out.push(s[i]);
                i += 1;
                assert(out@ + frac_pass_from(s@, i as int) =~= frac_pass_from(s@, 0));
            },
        }
    }
    assert(out@ + frac_pass_from(s@, i as int) =~= out@);
    out
}

fn chars_eq(a: &Vec<char>, b: &Vec<char>) -> (r: bool)
    ensures
        r == (a@ == b@),
{
    if a.len() != b.len() {
        return false;
    }
    let mut i: usize = 0;
    while i < a.len()
        invariant
            a@.len() == b@.len(),
            0 <= i <= a@.len(),
            forall|k: int| 0 <= k < i ==> a@[k] == b@[k],
        decreases a@.len() - i,
    {
        if a[i] != b[i] {
            return false;
        }
        i += 1;
    }
    assert(a@ =~= b@);
    true
}

#[verifier::loop_isolation(false)]
fn frac_rewrite_exec(v: Vec<char>, pref: &Vec<char>) -> (r: Vec<char>)
    requires
        pref@ == frac_prefix(),
    ensures
        r@ == frac_rewrite(v@),
{
    let ghost orig = v@;
    let mut cur = v;
    let mut fuel: usize = cur.len();
    loop
        invariant
            pref@ == frac_prefix(),
            frac_fix(cur@, fuel as nat + 1) == frac_fix(orig, orig.len() + 1),
        decreases fuel,
    {
        let next = frac_pass_exec(&cur, pref);
        if chars_eq(&next, &cur) {
            assert(frac_fix(cur@, fuel as nat + 1) == cur@);
            return cur;
        }
        if fuel == 0 {
            assert(frac_fix(next@, 0) == next@);
            assert(frac_fix(cur@, 1) == next@);
            return next;
        }
        fuel -= 1;
        assert(frac_fix(next@, fuel as nat + 1) == frac_fix(cur@, fuel as nat + 2));
        cur = next;
    }
}

fn sqrt_match_exec(s: &Vec<char>, pref: &Vec<char>, i: usize) -> (r: Option<usize>)
    requires
        pref@ == sqrt_prefix(),
        i <= s@.len(),
    ensures
        match r {
            Some(ae) => sqrt_match(s@, i as int) == Some(ae as int) && i + 6 < ae && ae
                < s@.len(),
            None => sqrt_match(s@, i as int) is None,
        },
{
    if !occurs_at_exec(s, pref, i) {
        return None;
    }
    let n = s.len();
    assert(i + 6 <= n);
    let ae = find_close_exec(s, i + 6);
    if i + 6 < ae && ae < n {
        Some(ae)
    } else {
        None
    }
}

#[verifier::rlimit(80)]
fn sqrt_pass_exec(s: &Vec<char>, pref: &Vec<char>) -> (r: Vec<char>)
    requires
        pref@ == sqrt_prefix(),
    ensures
        r@ == sqrt_pass(s@),
{
    let mut out: Vec<char> = Vec::new();
    let mut i: usize = 0;
    while i < s.len()
        invariant
            pref@ == sqrt_prefix(),
            0 <= i <= s@.len(),
            out@ + sqrt_pass_from(s@, i as int) == sqrt_pass_from(s@, 0),
        decreases s@.len() - i,
    {
        match sqrt_match_exec(s, pref, i) {
            Some(ae) => {
                let ghost out0 = out@;
                let ghost i0 = i as int;
                out.push('s');
                out.push('q');
                out.push('r');
                out.push('t');
                out.push('(');
                push_range(&mut out, s, i + 6, ae);
                out.push(')');
                assert(out@ =~= out0 + sqrt_build(s@.subrange(i0 + 6, ae as int)));
                i = ae + 1;
                assert(out@ + sqrt_pass_from(s@, i as int) =~= sqrt_pass_from(s@, 0));
            },
            None => {
                out.push(s[i]);
                i += 1;
                assert(out@ + sqrt_pass_from(s@, i as int) =~= sqrt_pass_from(s@, 0));
            },
        }
    }
    assert(out@ + sqrt_pass_from(s@, i as int) =~= out@);
    out
}

/// The whole normalization: the fraction rule to a fixed point, then the
/// square-root rule, then the literal substitutions for multiplication
/// signs, scoped parentheses and the constant, then the residual braces.
pub open spec fn spec_normalize(s: Seq<char>) -> Seq<char> {
    let s1 = frac_rewrite(s);
    let s2 = sqrt_pass(s1);
    let s3 = replace_all(s2, seq!['\\', 'c', 'd', 'o', 't'], seq!['*']);
    let s4 = replace_all(s3, seq!['\\', 't', 'i', 'm', 'e', 's'], seq!['*']);
    let s5 = replace_all(s4, seq!['\\', 'l', 'e', 'f', 't', '('], seq!['(']);
    let s6 = replace_all(s5, seq!['\\', 'r', 'i', 'g', 'h', 't', ')'], seq![')']);
    let s7 = replace_all(s6, seq!['\\', 'p', 'i'], seq!['p', 'i']);
    let s8 = replace_all(s7, seq!['{'], seq!['(']);
    replace_all(s8, seq!['}'], seq![')'])
}

fn str_to_chars(s: &str) -> (r: Vec<char>)
    ensures
        r@ == s@,
{
    let n = s.unicode_len();
    let mut v: Vec<char> = Vec::new();
    let mut i: usize = 0;
    while i < n
        invariant
            0 <= i <= n,
            n == s@.len(),
            v@ == s@.subrange(0, i as int),
        decreases n - i,
    {
        let c = s.get_char(i);
        v.push(c);
        assert(v@ =~= s@.subrange(0, i + 1));
        i += 1;
    }
    assert(v@ =~= s@);
    v
}

/// Relies on `String::push`: appends exactly one character to the string.
#[verifier::external_body]
fn push_char(s: &mut String, c: char)
    ensures
        final(s)@ == old(s)@.push(c),
{
    s.push(c);
}

fn chars_to_string(v: &Vec<char>) -> (r: String)
    ensures
        r@ == v@,
{
    let mut out = String::new();
    let mut i: usize = 0;
    while i < v.len()
        invariant
            0 <= i <= v@.len(),
            out@ == v@.subrange(0, i as int),
        decreases v@.len() - i,
    {
        push_char(&mut out, v[i]);
        assert(out@ =~= v@.subrange(0, i + 1));
        i += 1;
    }
    assert(out@ =~= v@);
    out
}

/// The normalizer over character vectors.
pub fn normalize_chars(v: Vec<char>) -> (r: Vec<char>)
    ensures
        r@ == spec_normalize(v@),
{
    let frac_pref = str_to_chars("\\frac{");
    proof {
        reveal_strlit("\\frac{");
    }
    assert(frac_pref@ =~= frac_prefix());
    let sqrt_pref = str_to_chars("\\sqrt{");
    proof {
        reveal_strlit("\\sqrt{");
    }
    assert(sqrt_pref@ =~= sqrt_prefix());
    let cdot = str_to_chars("\\cdot");
    proof {
        reveal_strlit("\\cdot");
    }
    assert(cdot@ =~= seq!['\\', 'c', 'd', 'o', 't']);
    let times = str_to_chars("\\times");
    proof {
        reveal_strlit("\\times");
    }
    assert(times@ =~= seq!['\\', 't', 'i', 'm', 'e', 's']);
    let leftp = str_to_chars("\\left(");
    proof {
        reveal_strlit("\\left(");
    }
    assert(leftp@ =~= seq!['\\', 'l', 'e', 'f', 't', '(']);
    let rightp = str_to_chars("\\right)");
    proof {
        reveal_strlit("\\right)");
    }
    assert(rightp@ =~= seq!['\\', 'r', 'i', 'g', 'h', 't', ')']);
    let pi_pat = str_to_chars("\\pi");
    proof {
        reveal_strlit("\\pi");
    }
    assert(pi_pat@ =~= seq!['\\', 'p', 'i']);
    let star = str_to_chars("*");
    proof {
        reveal_strlit("*");
    }
    assert(star@ =~= seq!['*']);
    let lpar = str_to_chars("(");
    proof {
        reveal_strlit("(");
    }
    assert(lpar@ =~= seq!['(']);
    let rpar = str_to_chars(")");
    proof {
        reveal_strlit(")");
    }
    assert(rpar@ =~= seq![')']);
    let pi_rep = str_to_chars("pi");
    proof {
        reveal_strlit("pi");
    }
    assert(pi_rep@ =~= seq!['p', 'i']);
    let lbrace = str_to_chars("{");
    proof {
        reveal_strlit("{");
    }
    assert(lbrace@ =~= seq!['{']);
    let rbrace = str_to_chars("}");
    proof {
        reveal_strlit("}");
    }
    assert(rbrace@ =~= seq!['}']);
    let s1 = frac_rewrite_exec(v, &frac_pref);
    let s2 = sqrt_pass_exec(&s1, &sqrt_pref);
    let s3 = replace_all_exec(&s2, &cdot, &star);
    let s4 = replace_all_exec(&s3, &times, &star);
    let s5 = replace_all_exec(&s4, &leftp, &lpar);
    let s6 = replace_all_exec(&s5, &rightp, &rpar);
    let s7 = replace_all_exec(&s6, &pi_pat, &pi_rep);
    let s8 = replace_all_exec(&s7, &lbrace, &lpar);
    replace_all_exec(&s8, &rbrace, &rpar)
}

proof fn lemma_replace_from_absent(s: Seq<char>, pat: Seq<char>, rep: Seq<char>, i: int)
    requires
        0 <= i <= s.len(),
        pat.len() > 0,
        forall|k: int| 0 <= k < s.len() ==> s[k] != pat[0],
    ensures
        replace_from(s, pat, rep, i) == s.skip(i),
    decreases s.len() - i,
{
    if i >= s.len() {
        assert(s.skip(i) =~= Seq::<char>::empty());
    } else {
        if i + pat.len() <= s.len() && s.subrange(i, i + pat.len() as int) == pat {
            assert(s.subrange(i, i + pat.len() as int)[0] == s[i]);
            assert(false);
        }
        lemma_replace_from_absent(s, pat, rep, i + 1);
        assert(seq![s[i]] + s.skip(i + 1) =~= s.skip(i));
    }
}

proof fn lemma_frac_pass_from_absent(s: Seq<char>, i: int)
    requires
        0 <= i <= s.len(),
        forall|k: int| 0 <= k < s.len() ==> s[k] != '\\',
    ensures
        frac_pass_from(s, i) == s.skip(i),
    decreases s.len() - i,
{
    if i >= s.len() {
        assert(s.skip(i) =~= Seq::<char>::empty());
    } else {
        if occurs_at(s, frac_prefix(), i) {
            assert(s.subrange(i, i + 6)[0] == s[i]);
            assert(frac_prefix()[0] == '\\');
            assert(false);
        }
        assert(frac_match(s, i) is None);
        lemma_frac_pass_from_absent(s, i + 1);
        assert(seq![s[i]] + s.skip(i + 1) =~= s.skip(i));
    }
}

proof fn lemma_sqrt_pass_from_absent(s: Seq<char>, i: int)
    requires
        0 <= i <= s.len(),
        forall|k: int| 0 <= k < s.len() ==> s[k] != '\\',
    ensures
        sqrt_pass_from(s, i) == s.skip(i),
    decreases s.len() - i,
{
    if i >= s.len() {
        assert(s.skip(i) =~= Seq::<char>::empty());
    } else {
        if occurs_at(s, sqrt_prefix(), i) {
            assert(s.subrange(i, i + 6)[0] == s[i]);
            assert(sqrt_prefix()[0] == '\\');
            assert(false);
        }
        assert(sqrt_match(s, i) is None);
        lemma_sqrt_pass_from_absent(s, i + 1);
        assert(seq![s[i]] + s.skip(i + 1) =~= s.skip(i));
    }
}

proof fn lemma_frac_pass_from_shrinks(s: Seq<char>, i: int)
    requires
        0 <= i <= s.len(),
    ensures
        frac_pass_from(s, i) == s.skip(i) || frac_pass_from(s, i).len() <= s.len() - i - 2,
    decreases s.len() - i,
{
    if i >= s.len() {
        assert(s.skip(i) =~= Seq::<char>::empty());
    } else {
        match frac_match(s, i) {
            Some((ae, be)) => {
                lemma_frac_pass_from_shrinks(s, be + 1);
                assert(s.skip(be + 1).len() == s.len() - (be + 1));
                assert(frac_build(s.subrange(i + 6, ae), s.subrange(ae + 2, be)).len() == (be + 1
                    - i) - 2);
            },
            None => {
                lemma_frac_pass_from_shrinks(s, i + 1);
                if frac_pass_from(s, i + 1) == s.skip(i + 1) {
                    assert(seq![s[i]] + s.skip(i + 1) =~= s.skip(i));
                }
            },
        }
    }
}

proof fn lemma_frac_fix_converges(s: Seq<char>, fuel: nat)
    requires
        2 * fuel >= s.len(),
    ensures
        frac_pass(frac_fix(s, fuel)) == frac_fix(s, fuel),
    decreases fuel,
{
    lemma_frac_pass_from_shrinks(s, 0);
    assert(s.skip(0) =~= s);
    if fuel == 0 {
        assert(frac_pass(s) == s);
    } else {
        let t = frac_pass(s);
        if t != s {
            lemma_frac_fix_converges(t, (fuel - 1) as nat);
        }
    }
}

/// The fraction rule really reaches its fixed point: a changing pass always
/// shortens the text, so the defensive cap of one pass more than the length
/// of the input never cuts the iteration short, and one further pass over
/// the result changes nothing.
pub proof fn lemma_frac_rewrite_fixed_point(s: Seq<char>)
    ensures
        frac_pass(frac_rewrite(s)) == frac_rewrite(s),
{
    lemma_frac_fix_converges(s, s.len() + 1);
}

/// Normalization changes nothing on input that holds none of the recognized
/// patterns: without a backslash and without braces, every rewrite rule
/// leaves the text as it stands.
pub proof fn lemma_normalize_clean_identity(s: Seq<char>)
    requires
        forall|k: int| 0 <= k < s.len() ==> s[k] != '\\' && s[k] != '{' && s[k] != '}',
    ensures
        spec_normalize(s) == s,
{
    assert(s.skip(0) =~= s);
    lemma_frac_pass_from_absent(s, 0);
    assert(frac_pass(s) == s);
    assert(frac_rewrite(s) == s);
    lemma_sqrt_pass_from_absent(s, 0);
    assert(sqrt_pass(s) == s);
    lemma_replace_from_absent(s, seq!['\\', 'c', 'd', 'o', 't'], seq!['*'], 0);
    lemma_replace_from_absent(s, seq!['\\', 't', 'i', 'm', 'e', 's'], seq!['*'], 0);
    lemma_replace_from_absent(s, seq!['\\', 'l', 'e', 'f', 't', '('], seq!['('], 0);
    lemma_replace_from_absent(s, seq!['\\', 'r', 'i', 'g', 'h', 't', ')'], seq![')'], 0);
    lemma_replace_from_absent(s, seq!['\\', 'p', 'i'], seq!['p', 'i'], 0);
    lemma_replace_from_absent(s, seq!['{'], seq!['('], 0);
    lemma_replace_from_absent(s, seq!['}'], seq![')'], 0);
}

/// Rewrites an expression in the LaTeX subset to the plain syntax the
/// evaluator reads. Total: any input yields some output, at worst one the
/// evaluator will itself reject.
pub fn normalize(input: &str) -> (r: String)
    ensures
        r@ == spec_normalize(input@),
{
    let chars = str_to_chars(input);
    let out = normalize_chars(chars);
    chars_to_string(&out)
}

} // verus!

