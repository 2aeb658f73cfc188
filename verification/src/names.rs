//! Name normalization: turning a decorated display label into the canonical
//! session identifier that external commands accept.
//!
//! A display label may carry ANSI styling sequences and a bracketed status
//! suffix such as `" [Created 2 mins ago]"`. The canonical form is the text
//! before the first `" ["`, trimmed, with every ANSI styling sequence
//! removed.

use vstd::prelude::*;

verus! {

use vstd::string::StrSliceExecFns;
use crate::chars::trim_spec;
use crate::chars::trim_str;

/// A parameter character of an ANSI control sequence: the bytes from `0`
/// through `?`.
pub open spec fn is_csi_param(c: char) -> bool {
    '0' <= c && c <= '?'
}

/// Length of the leading run of parameter characters.
pub open spec fn csi_run_len(s: Seq<char>) -> int
    decreases s.len(),
{
    if s.len() > 0 && is_csi_param(s[0]) {
        1 + csi_run_len(s.skip(1))
    } else {
        0
    }
}

/// Length of the ANSI styling sequence starting at the head of `s`, or 0 if
/// none starts there: an escape, `[`, any run of parameter characters, and a
/// final `m` or `K`.
pub open spec fn ansi_match_len(s: Seq<char>) -> int {
    if s.len() >= 2 && s[0] == '\x1b' && s[1] == '[' {
        let run = csi_run_len(s.skip(2));
        if 2 + run < s.len() && (s[2 + run] == 'm' || s[2 + run] == 'K') {
            3 + run
        } else {
            0
        }
    } else {
        0
    }
}

/// The sequence with every ANSI styling sequence removed, scanning left to
/// right and dropping each leftmost match whole.
pub open spec fn strip_ansi(s: Seq<char>) -> Seq<char>
    decreases s.len(),
{
    if s.len() == 0 {
        Seq::empty()
    } else if 1 <= ansi_match_len(s) <= s.len() {
        strip_ansi(s.skip(ansi_match_len(s)))
    } else {
        seq![s[0]] + strip_ansi(s.skip(1))
    }
}

/// Relies on `regex::Regex::new` and `regex::Regex::replace_all`: replaces
/// every non-overlapping leftmost match of the fixed pattern
/// `\x1B\[[0-?9;]*[mK]` with nothing. The parameter class is disjoint from
/// the final `m`/`K`, so each match is exactly an escape, `[`, the maximal
/// parameter run, and the final byte — which is what [`strip_ansi`] states.
#[verifier::external_body]
fn strip_ansi_codes(input: &str) -> (r: String)
    ensures
        r@ == strip_ansi(input@),
{
    let ansi_regex = regex::Regex::new(r"\x1B\[[0-?9;]*[mK]").unwrap();
    ansi_regex.replace_all(input, "").to_string()
}

/// Whether the bracketed-suffix marker `" ["` starts at position `i`.
pub open spec fn marker_at(s: Seq<char>, i: int) -> bool {
    0 <= i && i + 1 < s.len() && s[i] == ' ' && s[i + 1] == '['
}

/// The prefix of `s` before the first `" ["` marker, or all of `s` when no
/// marker occurs.
pub open spec fn before_bracket_spec(s: Seq<char>) -> Seq<char>
    decreases s.len(),
{
    if s.len() < 2 {
        s
    } else if s[0] == ' ' && s[1] == '[' {
        Seq::empty()
    } else {
        seq![s[0]] + before_bracket_spec(s.skip(1))
    }
}

proof fn lemma_before_bracket_hit(s: Seq<char>, i: int)
    requires
        marker_at(s, i),
        forall|j: int| 0 <= j < i ==> !marker_at(s, j),
    ensures
        before_bracket_spec(s) == s.take(i),
    decreases i,
{
    if i == 0 {
        assert(s.take(0) =~= Seq::<char>::empty());
    } else {
        let t = s.skip(1);
        assert(!marker_at(s, 0));
        assert(marker_at(t, i - 1));
        assert(forall|j: int| 0 <= j < i - 1 ==> !(#[trigger] marker_at(s, j + 1)));
        assert forall|j: int| 0 <= j < i - 1 implies !(#[trigger] marker_at(t, j)) by {
            assert(!marker_at(s, j + 1));
            assert(t[j] == s[j + 1]);
            if j + 1 < t.len() {
                assert(t[j + 1] == s[j + 2]);
            }
        }
        lemma_before_bracket_hit(t, i - 1);
        assert(seq![s[0]] + t.take(i - 1) =~= s.take(i));
    }
}

proof fn lemma_before_bracket_miss(s: Seq<char>)
    requires
        forall|j: int| !marker_at(s, j),
    ensures
        before_bracket_spec(s) == s,
    decreases s.len(),
{
    if s.len() < 2 {
    } else {
        let t = s.skip(1);
        assert(!marker_at(s, 0));
        assert(forall|j: int| 0 <= j ==> !(#[trigger] marker_at(s, j + 1)));
        assert forall|j: int| !(#[trigger] marker_at(t, j)) by {
            if 0 <= j && j + 1 < t.len() {
                assert(!marker_at(s, j + 1));
                assert(t[j] == s[j + 1]);
                assert(t[j + 1] == s[j + 2]);
            }
        }
        lemma_before_bracket_miss(t);
        assert(seq![s[0]] + t =~= s);
    }
}

/// The canonical form of a display label: the prefix before the first
/// `" ["`, trimmed, with ANSI styling sequences removed.
pub open spec fn parse_name_spec(s: Seq<char>) -> Seq<char> {
    strip_ansi(trim_spec(before_bracket_spec(s)))
}

/// Normalizes a display-form session label to its canonical identifier.
pub fn parse_name(input: &str) -> (r: String)
    ensures
        r@ == parse_name_spec(input@),
{
    let n = input.unicode_len();
    let mut i: usize = 0;
    while i + 1 < n && !(input.get_char(i) == ' ' && input.get_char(i + 1) == '[')
        invariant
            0 <= i <= n,
            i > 0 ==> i < n,
            n == input@.len(),
            forall|j: int| 0 <= j < i ==> !marker_at(input@, j),
        decreases n - i,
    {
        i = i + 1;
    }
    let base = if i + 1 < n {
        proof {
            lemma_before_bracket_hit(input@, i as int);
        }
        input.substring_char(0, i)
    } else {
        proof {
            assert(forall|j: int| j >= i ==> !marker_at(input@, j));
            lemma_before_bracket_miss(input@);
        }
        input
    };
    let trimmed = trim_str(base);
    strip_ansi_codes(trimmed)
}

} // verus!
