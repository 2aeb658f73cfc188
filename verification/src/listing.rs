//! Turning the raw session-listing output of the multiplexer into session
//! names: the text is split into lines, each line is trimmed, and empty
//! lines are dropped.

use vstd::prelude::*;

verus! {

use vstd::string::StrSliceExecFns;
use vstd::string::StringExecFns;
use crate::chars::trim_spec;
use crate::chars::trim_str;

/// The segments of `s` between newline characters, in order. A text with
/// `n` newlines has `n + 1` segments, empty ones included.
pub open spec fn split_lines_spec(s: Seq<char>) -> Seq<Seq<char>>
    decreases s.len(),
{
    if s.len() == 0 {
        seq![Seq::empty()]
    } else if s[0] == '\n' {
        seq![Seq::<char>::empty()] + split_lines_spec(s.skip(1))
    } else {
        let rest = split_lines_spec(s.skip(1));
        seq![seq![s[0]] + rest[0]] + rest.skip(1)
    }
}

/// The session names in a listing: its lines, trimmed, without the empty
/// ones.
pub open spec fn session_lines_spec(s: Seq<char>) -> Seq<Seq<char>> {
    split_lines_spec(s).map_values(|l: Seq<char>| trim_spec(l)).filter(
        |l: Seq<char>| l.len() > 0,
    )
}

proof fn lemma_split_lines_len(s: Seq<char>)
    ensures
        split_lines_spec(s).len() >= 1,
    decreases s.len(),
{
    if s.len() == 0 {
    } else {
        lemma_split_lines_len(s.skip(1));
    }
}

proof fn lemma_split_at_first_nl(s: Seq<char>, i: int)
    requires
        0 <= i < s.len(),
        s[i] == '\n',
        forall|j: int| 0 <= j < i ==> s[j] != '\n',
    ensures
        split_lines_spec(s) == seq![s.take(i)] + split_lines_spec(s.skip(i + 1)),
    decreases i,
{
    if i == 0 {
        assert(s.take(0) =~= Seq::<char>::empty());
        assert(s.skip(1) =~= s.skip(i + 1));
    } else {
        let t = s.skip(1);
        assert(t[i - 1] == '\n');
        assert(forall|j: int| 0 <= j < i - 1 ==> #[trigger] t[j] == s[j + 1]);
        lemma_split_at_first_nl(t, i - 1);
        lemma_split_lines_len(t.skip(i));
        assert(t.take(i - 1) == split_lines_spec(t)[0]);
        assert(seq![s[0]] + t.take(i - 1) =~= s.take(i));
        assert(t.skip(i) =~= s.skip(i + 1));
        assert((seq![t.take(i - 1)] + split_lines_spec(t.skip(i))).skip(1) =~= split_lines_spec(
            t.skip(i),
        ));
        assert(split_lines_spec(s) =~= seq![s.take(i)] + split_lines_spec(s.skip(i + 1)));
    }
}

proof fn lemma_split_no_nl(s: Seq<char>)
    requires
        forall|j: int| 0 <= j < s.len() ==> s[j] != '\n',
    ensures
        split_lines_spec(s) == seq![s],
    decreases s.len(),
{
    if s.len() == 0 {
        assert(s =~= Seq::<char>::empty());
    } else {
        let t = s.skip(1);
        assert(forall|j: int| 0 <= j < t.len() ==> #[trigger] t[j] == s[j + 1]);
        lemma_split_no_nl(t);
        assert(seq![s[0]] + t =~= s);
        assert(split_lines_spec(s) =~= seq![s]);
    }
}

proof fn lemma_session_lines_cons(s: Seq<char>, i: int)
    requires
        0 <= i < s.len(),
        s[i] == '\n',
        forall|j: int| 0 <= j < i ==> s[j] != '\n',
    ensures
        session_lines_spec(s) == (if trim_spec(s.take(i)).len() > 0 {
            seq![trim_spec(s.take(i))]
        } else {
            Seq::<Seq<char>>::empty()
        }) + session_lines_spec(s.skip(i + 1)),
{
    lemma_split_at_first_nl(s, i);
    let head = s.take(i);
    let rest = split_lines_spec(s.skip(i + 1));
    let tr = |l: Seq<char>| trim_spec(l);
    let ne = |l: Seq<char>| l.len() > 0;
    assert((seq![head] + rest).map_values(tr) =~= seq![trim_spec(head)] + rest.map_values(tr));
    Seq::filter_distributes_over_add(seq![trim_spec(head)], rest.map_values(tr), ne);
    reveal_with_fuel(Seq::filter, 2);
    assert(seq![trim_spec(head)].filter(ne) =~= (if trim_spec(head).len() > 0 {
        seq![trim_spec(head)]
    } else {
        Seq::<Seq<char>>::empty()
    }));
}

proof fn lemma_session_lines_last(s: Seq<char>)
    requires
        forall|j: int| 0 <= j < s.len() ==> s[j] != '\n',
    ensures
        session_lines_spec(s) == (if trim_spec(s).len() > 0 {
            seq![trim_spec(s)]
        } else {
            Seq::<Seq<char>>::empty()
        }),
{
    lemma_split_no_nl(s);
    let tr = |l: Seq<char>| trim_spec(l);
    let ne = |l: Seq<char>| l.len() > 0;
    assert(seq![s].map_values(tr) =~= seq![trim_spec(s)]);
    reveal_with_fuel(Seq::filter, 2);
    assert(seq![trim_spec(s)].filter(ne) =~= (if trim_spec(s).len() > 0 {
        seq![trim_spec(s)]
    } else {
        Seq::<Seq<char>>::empty()
    }));
}

/// Splits a raw session listing into its non-empty trimmed lines, each a
/// display-form session name, in the order the environment reported them.
pub fn parse_session_list(s: &str) -> (r: Vec<String>)
    ensures
        r@.map_values(|x: String| x@) == session_lines_spec(s@),
    decreases s@.len(),
{
    let n = s.unicode_len();
    let mut i: usize = 0;
    while i < n && !(s.get_char(i) == '\n')
        invariant
            0 <= i <= n,
            n == s@.len(),
            forall|j: int| 0 <= j < i ==> s@[j] != '\n',
        decreases n - i,
    {
        i = i + 1;
    }
    if i < n {
        let head = s.substring_char(0, i);
        let tail = s.substring_char(i + 1, n);
        let t = trim_str(head);
        let mut rest = parse_session_list(tail);
        proof {
            lemma_session_lines_cons(s@, i as int);
            assert(s@.take(i as int) =~= s@.subrange(0, i as int));
            assert(s@.skip(i + 1) =~= s@.subrange(i + 1, n as int));
        }
        if t.is_empty() {
            proof {
                assert(rest@.map_values(|x: String| x@) =~= session_lines_spec(s@));
            }
            rest
        } else {
            let mut out: Vec<String> = Vec::new();
            out.push(String::from_str(t));
            out.append(&mut rest);
            proof {
                assert(out@.map_values(|x: String| x@) =~= session_lines_spec(s@));
            }
            out
        }
    } else {
        let t = trim_str(s);
        proof {
            lemma_session_lines_last(s@);
        }
        if t.is_empty() {
            let out: Vec<String> = Vec::new();
            proof {
                assert(out@.map_values(|x: String| x@) =~= session_lines_spec(s@));
            }
            out
        } else {
            let mut out: Vec<String> = Vec::new();
            out.push(String::from_str(t));
            proof {
                assert(out@.map_values(|x: String| x@) =~= session_lines_spec(s@));
            }
            out
        }
    }
}

} // verus!
