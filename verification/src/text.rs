//! Line splitting and whitespace tokenization for the textual output of
//! `adb`, together with the lemmas that characterize them.

use vstd::prelude::*;

verus! {

/// Characters treated as blank when a line is split into tokens: the Unicode
/// white-space set.
pub open spec fn is_space_char(c: char) -> bool {
    c == '\t' || c == '\n' || c == '\u{b}' || c == '\u{c}' || c == '\r' || c == ' '
        || c == '\u{85}' || c == '\u{a0}' || c == '\u{1680}' || c == '\u{2000}'
        || c == '\u{2001}' || c == '\u{2002}' || c == '\u{2003}' || c == '\u{2004}'
        || c == '\u{2005}' || c == '\u{2006}' || c == '\u{2007}' || c == '\u{2008}'
        || c == '\u{2009}' || c == '\u{200a}' || c == '\u{2028}' || c == '\u{2029}'
        || c == '\u{202f}' || c == '\u{205f}' || c == '\u{3000}'
}

/// Index of the first newline in `s` at or after `i`, or -1 if there is none.
pub open spec fn find_newline_from(s: Seq<char>, i: nat) -> int
    decreases s.len() - i,
{
    if i >= s.len() {
        -1
    } else if s[i as int] == '\n' {
        i as int
    } else {
        find_newline_from(s, (i + 1) as nat)
    }
}

/// Index of the first blank character in `s` at or after `i`, or -1.
pub open spec fn find_space_from(s: Seq<char>, i: nat) -> int
    decreases s.len() - i,
{
    if i >= s.len() {
        -1
    } else if is_space_char(s[i as int]) {
        i as int
    } else {
        find_space_from(s, (i + 1) as nat)
    }
}

/// Index of the first non-blank character in `s` at or after `i`, or -1.
pub open spec fn find_nonspace_from(s: Seq<char>, i: nat) -> int
    decreases s.len() - i,
{
    if i >= s.len() {
        -1
    } else if !is_space_char(s[i as int]) {
        i as int
    } else {
        find_nonspace_from(s, (i + 1) as nat)
    }
}

/// [`find_newline_from`] returns -1 exactly when no newline follows, and
/// otherwise the least index of one.
pub proof fn lemma_find_newline_from(s: Seq<char>, i: nat)
    ensures
        ({
            let r = find_newline_from(s, i);
            &&& r == -1 ==> forall|j: int| i <= j < s.len() ==> s[j] != '\n'
            &&& r != -1 ==> i <= r < s.len() && s[r] == '\n' && (forall|j: int|
                i <= j < r ==> s[j] != '\n')
        }),
    decreases s.len() - i,
{
    if i < s.len() && s[i as int] != '\n' {
        lemma_find_newline_from(s, (i + 1) as nat);
    }
}

/// [`find_space_from`] returns -1 exactly when no blank character follows,
/// and otherwise the least index of one.
pub proof fn lemma_find_space_from(s: Seq<char>, i: nat)
    ensures
        ({
            let r = find_space_from(s, i);
            &&& r == -1 ==> forall|j: int| i <= j < s.len() ==> !is_space_char(s[j])
            &&& r != -1 ==> i <= r < s.len() && is_space_char(s[r]) && (forall|j: int|
                i <= j < r ==> !is_space_char(s[j]))
        }),
    decreases s.len() - i,
{
    if i < s.len() && !is_space_char(s[i as int]) {
        lemma_find_space_from(s, (i + 1) as nat);
    }
}

/// [`find_nonspace_from`] returns -1 exactly when only blank characters
/// follow, and otherwise the least index of a non-blank one.
pub proof fn lemma_find_nonspace_from(s: Seq<char>, i: nat)
    ensures
        ({
            let r = find_nonspace_from(s, i);
            &&& r == -1 ==> forall|j: int| i <= j < s.len() ==> is_space_char(s[j])
            &&& r != -1 ==> i <= r < s.len() && !is_space_char(s[r]) && (forall|j: int|
                i <= j < r ==> is_space_char(s[j]))
        }),
    decreases s.len() - i,
{
    if i < s.len() && is_space_char(s[i as int]) {
        lemma_find_nonspace_from(s, (i + 1) as nat);
    }
}

/// The lines of `s`: the maximal stretches between newline characters. A text
/// without a newline is a single line, so the result is never empty.
pub open spec fn split_lines(s: Seq<char>) -> Seq<Seq<char>>
    decreases s.len(),
    via split_lines_decreases
{
    let k = find_newline_from(s, 0);
    if k == -1 {
        seq![s]
    } else {
        seq![s.take(k)].add(split_lines(s.skip(k + 1)))
    }
}

#[via_fn]
proof fn split_lines_decreases(s: Seq<char>) {
    lemma_find_newline_from(s, 0);
}

/// The blank-separated tokens of `s`, in order: each token is a maximal
/// stretch of non-blank characters.
pub open spec fn split_tokens(s: Seq<char>) -> Seq<Seq<char>>
    decreases s.len(),
    via split_tokens_decreases
{
    let b = find_nonspace_from(s, 0);
    if b == -1 {
        Seq::empty()
    } else {
        let e = find_space_from(s, b as nat);
        if e == -1 {
            seq![s.skip(b)]
        } else {
            seq![s.subrange(b, e)].add(split_tokens(s.skip(e)))
        }
    }
}

#[via_fn]
proof fn split_tokens_decreases(s: Seq<char>) {
    lemma_find_nonspace_from(s, 0);
    let b = find_nonspace_from(s, 0);
    if b != -1 {
        lemma_find_space_from(s, b as nat);
    }
}

/// Decides whether `c` counts as blank.
pub fn is_space(c: char) -> (r: bool)
    ensures
        r == is_space_char(c),
{
    c == '\t' || c == '\n' || c == '\u{b}' || c == '\u{c}' || c == '\r' || c == ' '
        || c == '\u{85}' || c == '\u{a0}' || c == '\u{1680}' || c == '\u{2000}'
        || c == '\u{2001}' || c == '\u{2002}' || c == '\u{2003}' || c == '\u{2004}'
        || c == '\u{2005}' || c == '\u{2006}' || c == '\u{2007}' || c == '\u{2008}'
        || c == '\u{2009}' || c == '\u{200a}' || c == '\u{2028}' || c == '\u{2029}'
        || c == '\u{202f}' || c == '\u{205f}' || c == '\u{3000}'
}

/// First newline of `s` at or after `from`, as an index into the characters.
fn find_newline(s: &str, from: usize) -> (r: Option<usize>)
    requires
        from <= s@.len(),
    ensures
        match r {
            Some(k) => k == find_newline_from(s@, from as nat) && from <= k < s@.len()
                && s@[k as int] == '\n',
            None => find_newline_from(s@, from as nat) == -1,
        },
{
    let n = s.unicode_len();
    let mut i = from;
    while i < n
        invariant
            from <= i <= n,
            n == s@.len(),
            find_newline_from(s@, from as nat) == find_newline_from(s@, i as nat),
        decreases n - i,
    {
        if s.get_char(i) == '\n' {
            return Some(i);
        }
        i = i + 1;
    }
    None
}

/// First blank character of `s` at or after `from`.
fn find_space(s: &str, from: usize) -> (r: Option<usize>)
    requires
        from <= s@.len(),
    ensures
        match r {
            Some(k) => k == find_space_from(s@, from as nat) && from <= k < s@.len()
                && is_space_char(s@[k as int]),
            None => find_space_from(s@, from as nat) == -1,
        },
{
    let n = s.unicode_len();
    let mut i = from;
    while i < n
        invariant
            from <= i <= n,
            n == s@.len(),
            find_space_from(s@, from as nat) == find_space_from(s@, i as nat),
        decreases n - i,
    {
        if is_space(s.get_char(i)) {
            return Some(i);
        }
        i = i + 1;
    }
    None
}

/// First non-blank character of `s` at or after `from`.
fn find_nonspace(s: &str, from: usize) -> (r: Option<usize>)
    requires
        from <= s@.len(),
    ensures
        match r {
            Some(k) => k == find_nonspace_from(s@, from as nat) && from <= k < s@.len()
                && !is_space_char(s@[k as int]),
            None => find_nonspace_from(s@, from as nat) == -1,
        },
{
    let n = s.unicode_len();
    let mut i = from;
    while i < n
        invariant
            from <= i <= n,
            n == s@.len(),
            find_nonspace_from(s@, from as nat) == find_nonspace_from(s@, i as nat),
        decreases n - i,
    {
        if !is_space(s.get_char(i)) {
            return Some(i);
        }
        i = i + 1;
    }
    None
}

/// Splits `s` into its lines, as [`split_lines`] describes.
pub fn lines_of(s: &str) -> (r: Vec<String>)
    ensures
        r@.len() == split_lines(s@).len(),
        forall|i: int| 0 <= i < r@.len() ==> (#[trigger] r@[i])@ == split_lines(s@)[i],
    decreases s@.len(),
{
    let n = s.unicode_len();
    match find_newline(s, 0) {
        None => {
            let mut out: Vec<String> = Vec::new();
            out.push(s.to_owned());
            out
        },
        Some(k) => {
            let head = s.substring_char(0, k).to_owned();
            let tail = s.substring_char(k + 1, n);
            assert(tail@ == s@.skip(k + 1));
            let mut rest = lines_of(tail);
            let ghost rest_view = rest@;
            let mut out: Vec<String> = Vec::new();
            out.push(head);
            out.append(&mut rest);
            proof {
                let model = split_lines(s@);
                assert(model == seq![s@.take(k as int)].add(split_lines(s@.skip(k + 1))));
                assert(out@.len() == model.len());
                assert forall|i: int| 0 <= i < out@.len() implies (#[trigger] out@[i])@
                    == model[i] by {
                    if i == 0 {
                        assert(head@ == s@.take(k as int));
                    } else {
                        assert(out@[i] == rest_view[i - 1]);
                        assert(model[i] == split_lines(s@.skip(k + 1))[i - 1]);
                    }
                }
            }
            out
        },
    }
}

/// Splits `s` into its blank-separated tokens, as [`split_tokens`] describes.
pub fn tokens_of(s: &str) -> (r: Vec<String>)
    ensures
        r@.len() == split_tokens(s@).len(),
        forall|i: int| 0 <= i < r@.len() ==> (#[trigger] r@[i])@ == split_tokens(s@)[i],
    decreases s@.len(),
{
    let n = s.unicode_len();
    match find_nonspace(s, 0) {
        None => Vec::new(),
        Some(b) => {
            match find_space(s, b) {
                None => {
                    let tok = s.substring_char(b, n).to_owned();
                    let mut out: Vec<String> = Vec::new();
                    out.push(tok);
                    proof {
                        let model = split_tokens(s@);
                        assert(model == seq![s@.skip(b as int)]);
                        assert(tok@ == s@.skip(b as int));
                    }
                    out
                },
                Some(e) => {
                    let tok = s.substring_char(b, e).to_owned();
                    let rest_str = s.substring_char(e, n);
                    assert(rest_str@ == s@.skip(e as int));
                    let mut rest = tokens_of(rest_str);
                    let ghost rest_view = rest@;
                    let mut out: Vec<String> = Vec::new();
                    out.push(tok);
                    out.append(&mut rest);
                    proof {
                        let model = split_tokens(s@);
                        assert(model == seq![s@.subrange(b as int, e as int)].add(
                            split_tokens(s@.skip(e as int))));
                        assert(out@.len() == model.len());
                        assert forall|i: int| 0 <= i < out@.len() implies (#[trigger] out@[i])@
                            == model[i] by {
                            if i == 0 {
                                assert(tok@ == s@.subrange(b as int, e as int));
                            } else {
                                assert(out@[i] == rest_view[i - 1]);
                                assert(model[i] == split_tokens(s@.skip(e as int))[i - 1]);
                            }
                        }
                    }
                    out
                },
            }
        },
    }
}

} // verus!
