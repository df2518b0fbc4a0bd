//! Removal of ANSI colour and cursor sequences (`ESC [ digits-and-semicolons
//! final-letter`, final letter one of `m G K H J`) from console output.

use vstd::prelude::*;

use crate::text::{chars_of, string_of};

verus! {

pub open spec fn is_param_char(c: char) -> bool {
    ('0' <= c && c <= '9') || c == ';'
}

pub open spec fn is_final_char(c: char) -> bool {
    c == 'm' || c == 'G' || c == 'K' || c == 'H' || c == 'J'
}

/// End of the run of parameter characters that starts at `j`.
pub open spec fn param_end(s: Seq<char>, j: int) -> int
    decreases s.len() - j,
{
    if 0 <= j < s.len() && is_param_char(s[j]) {
        param_end(s, j + 1)
    } else {
        j
    }
}

/// Length of the escape sequence that starts at `i`, if one does.
pub open spec fn seq_len_at(s: Seq<char>, i: int) -> Option<int> {
    if 0 <= i && i + 1 < s.len() && s[i] == '\u{1b}' && s[i + 1] == '[' {
        let j = param_end(s, i + 2);
        if j < s.len() && is_final_char(s[j]) {
            Some(j + 1 - i)
        } else {
            None
        }
    } else {
        None
    }
}

/// The text from `i` on, with every escape sequence removed, scanning from
/// the left as a regex replace-all does.
pub open spec fn strip_from(s: Seq<char>, i: int) -> Seq<char>
    decreases s.len() - i,
{
    if i < 0 || i >= s.len() {
        Seq::empty()
    } else {
        match seq_len_at(s, i) {
            Some(n) => if n > 0 {
                strip_from(s, i + n)
            } else {
                Seq::empty()
            },
            None => seq![s[i]] + strip_from(s, i + 1),
        }
    }
}

/// One left-to-right pass, as a regex replace-all makes it.
pub open spec fn strip_pass(s: Seq<char>) -> Seq<char> {
    strip_from(s, 0)
}

/// The text with passes repeated until none removes anything: removing a
/// sequence can join the characters around it into a new one, which the
/// next pass removes.
pub open spec fn strip_spec(s: Seq<char>) -> Seq<char>
    decreases s.len(),
{
    if strip_pass(s).len() < s.len() {
        strip_spec(strip_pass(s))
    } else {
        strip_pass(s)
    }
}

proof fn lemma_param_end_bounds(s: Seq<char>, j: int)
    requires
        0 <= j,
    ensures
        j <= param_end(s, j),
        param_end(s, j) <= s.len() || param_end(s, j) == j,
        forall|k: int| j <= k < param_end(s, j) ==> is_param_char(#[trigger] s[k]),
    decreases s.len() - j,
{
    if 0 <= j < s.len() && is_param_char(s[j]) {
        lemma_param_end_bounds(s, j + 1);
    }
}

proof fn lemma_seq_len_positive(s: Seq<char>, i: int)
    requires
        seq_len_at(s, i) is Some,
    ensures
        seq_len_at(s, i)->0 >= 3,
        i + seq_len_at(s, i)->0 <= s.len(),
{
    lemma_param_end_bounds(s, i + 2);
}

/// A pass never lengthens the text, and leaves it as it is when it keeps
/// its length.
proof fn lemma_pass_len(s: Seq<char>, i: int)
    requires
        0 <= i <= s.len(),
    ensures
        strip_from(s, i).len() <= s.len() - i,
        strip_from(s, i).len() == s.len() - i ==> strip_from(s, i) == s.subrange(
            i,
            s.len() as int,
        ),
    decreases s.len() - i,
{
    if i < s.len() {
        match seq_len_at(s, i) {
            Some(n) => {
                lemma_seq_len_positive(s, i);
                lemma_pass_len(s, i + n);
            },
            None => {
                lemma_pass_len(s, i + 1);
                assert(seq![s[i]] + s.subrange(i + 1, s.len() as int) =~= s.subrange(
                    i,
                    s.len() as int,
                ));
            },
        }
    } else {
        assert(s.subrange(i, s.len() as int) =~= Seq::<char>::empty());
    }
}

/// The result of stripping is a fixed point of a pass.
proof fn lemma_strip_is_fixed(s: Seq<char>)
    ensures
        strip_pass(strip_spec(s)) == strip_spec(s),
    decreases s.len(),
{
    lemma_pass_len(s, 0);
    if strip_pass(s).len() < s.len() {
        lemma_strip_is_fixed(strip_pass(s));
    } else {
        assert(s.subrange(0, s.len() as int) =~= s);
    }
}

/// Stripping is idempotent: stripped text holds no escape sequence that a
/// further strip could remove.
pub proof fn lemma_strip_idempotent(x: Seq<char>)
    ensures
        strip_spec(strip_spec(x)) == strip_spec(x),
{
    let y = strip_spec(x);
    lemma_strip_is_fixed(x);
    lemma_pass_len(y, 0);
}

fn seq_len_exec(v: &Vec<char>, i: usize) -> (r: Option<usize>)
    ensures
        match (r, seq_len_at(v@, i as int)) {
            (Some(a), Some(b)) => a == b,
            (None, None) => true,
            _ => false,
        },
{
    if i < v.len() && v.len() - i >= 2 && v[i] == '\u{1b}' && v[i + 1] == '[' {
        let mut j: usize = i + 2;
        proof {
            lemma_param_end_bounds(v@, i + 2);
        }
        while j < v.len() && (('0' <= v[j] && v[j] <= '9') || v[j] == ';')
            invariant
                i + 2 <= j <= v.len(),
                param_end(v@, j as int) == param_end(v@, i + 2),
            decreases v.len() - j,
        {
            j = j + 1;
        }
        if j < v.len() && (v[j] == 'm' || v[j] == 'G' || v[j] == 'K' || v[j] == 'H' || v[j]
            == 'J') {
            Some(j + 1 - i)
        } else {
            None
        }
    } else {
        None
    }
}

/// One pass over `v`.
fn strip_once(v: &Vec<char>) -> (out: Vec<char>)
    ensures
        out@ == strip_pass(v@),
{
    let mut out: Vec<char> = Vec::new();
    let mut i: usize = 0;
    while i < v.len()
        invariant
            i <= v.len(),
            out@ + strip_from(v@, i as int) == strip_pass(v@),
        decreases v.len() - i,
    {
        match seq_len_exec(v, i) {
            Some(n) => {
                proof {
                    lemma_seq_len_positive(v@, i as int);
                }
                i = i + n;
            },
            None => {
                let ghost before = out@;
                out.push(v[i]);
                assert(before + strip_from(v@, i as int) =~= out@ + strip_from(v@, i + 1));
                i = i + 1;
            },
        }
    }
    assert(out@ + strip_from(v@, i as int) =~= out@);
    out
}

/// `input` without its ANSI escape sequences, including those that only
/// form once others are removed.
pub fn strip_ansi(input: &str) -> (r: String)
    ensures
        r@ == strip_spec(input@),
{
    let mut v = chars_of(input);
    loop
        invariant
            strip_spec(v@) == strip_spec(input@),
        decreases v.len(),
    {
        let w = strip_once(&v);
        proof {
            lemma_pass_len(v@, 0);
        }
        if w.len() < v.len() {
            v = w;
        } else {
            return string_of(&w);
        }
    }
}

} // verus!
