//! Shell quoting, and the shaping of what a shell command printed.

use vstd::prelude::*;
use crate::text::{blank, chars_of, decode_lossy, is_blank, push_char, utf8_lossy};

verus! {

/// What `shq` writes for one character of its input: a single quote closes
/// the quoted run, is given escaped, and a new run opens (`'\''`); any other
/// character stands as it is.
pub open spec fn quote_piece(c: char) -> Seq<char> {
    if c == '\'' {
        seq!['\'', '\\', '\'', '\'']
    } else {
        seq![c]
    }
}

/// The pieces of all characters of `s`, in order.
pub open spec fn quoted_body(s: Seq<char>) -> Seq<char>
    decreases s.len(),
{
    if s.len() == 0 {
        Seq::empty()
    } else {
        quote_piece(s[0]) + quoted_body(s.drop_first())
    }
}

/// `s` as one single-quoted shell word: `'`, the pieces, `'`.
pub open spec fn shell_quoted(s: Seq<char>) -> Seq<char> {
    seq!['\''] + quoted_body(s) + seq!['\'']
}

/// The text that a POSIX shell makes of the word `w`, read from its start
/// (`quoted` tells whether a single-quoted run is open), when `w` consists of
/// single-quoted runs and backslash-escaped characters only. Inside a quoted
/// run every character but `'` stands for itself; outside, `'` opens a run and
/// `\` takes the next character literally. `None` for any other word: an
/// unterminated run, or an unquoted character that the shell could split on,
/// expand or interpret.
pub open spec fn shell_word_from(w: Seq<char>, quoted: bool) -> Option<Seq<char>>
    decreases w.len(),
{
    if w.len() == 0 {
        if quoted {
            None
        } else {
            Some(Seq::empty())
        }
    } else if quoted {
        if w[0] == '\'' {
            shell_word_from(w.drop_first(), false)
        } else {
            match shell_word_from(w.drop_first(), true) {
                Some(r) => Some(seq![w[0]] + r),
                None => None,
            }
        }
    } else if w[0] == '\'' {
        shell_word_from(w.drop_first(), true)
    } else if w[0] == '\\' && w.len() >= 2 {
        match shell_word_from(w.subrange(2, w.len() as int), false) {
            Some(r) => Some(seq![w[1]] + r),
            None => None,
        }
    } else {
        None
    }
}

/// The text that a POSIX shell makes of the word `w`, if `w` is made of quoted
/// runs and escapes only.
pub open spec fn shell_word(w: Seq<char>) -> Option<Seq<char>> {
    shell_word_from(w, false)
}

proof fn lemma_quoted_body_push(s: Seq<char>, c: char)
    ensures
        quoted_body(s.push(c)) == quoted_body(s) + quote_piece(c),
    decreases s.len(),
{
    if s.len() == 0 {
        let sc = s.push(c);
        assert(sc.drop_first() =~= Seq::<char>::empty());
        assert(quoted_body(sc.drop_first()) == Seq::<char>::empty());
        assert(quoted_body(s) == Seq::<char>::empty());
        assert(quoted_body(sc) == quote_piece(sc[0]) + quoted_body(sc.drop_first()));
        assert(quoted_body(sc) =~= quoted_body(s) + quote_piece(c));
    } else {
        assert(s.push(c).drop_first() =~= s.drop_first().push(c));
        lemma_quoted_body_push(s.drop_first(), c);
        assert(quoted_body(s.push(c)) =~= quoted_body(s) + quote_piece(c));
    }
}

/// Inside an open quoted run, the pieces of `s` read back as `s`.
proof fn lemma_quoted_body_reads_back(s: Seq<char>, t: Seq<char>)
    ensures
        shell_word_from(quoted_body(s) + t, true) == (match shell_word_from(t, true) {
            Some(r) => Some(s + r),
            None => None::<Seq<char>>,
        }),
    decreases s.len(),
{
    if s.len() == 0 {
        assert(quoted_body(s) + t =~= t);
        assert(s + Seq::<char>::empty() =~= s);
        match shell_word_from(t, true) {
            Some(r) => {
                assert(s + r =~= r);
            },
            None => {},
        }
    } else {
        let c = s[0];
        let rest = s.drop_first();
        lemma_quoted_body_reads_back(rest, t);
        let w = quoted_body(s) + t;
        let inner = quoted_body(rest) + t;
        let tail = shell_word_from(inner, true);
        assert(quoted_body(s) == quote_piece(c) + quoted_body(rest));
        if c == '\'' {
            let w1 = seq!['\\', '\'', '\''] + inner;
            let w2 = seq!['\''] + inner;
            assert(w =~= seq!['\''] + w1);
            assert(w.drop_first() =~= w1);
            assert(w1.subrange(2, w1.len() as int) =~= w2);
            assert(w2.drop_first() =~= inner);
            assert(shell_word_from(w2, false) == tail);
            assert(shell_word_from(w1, false) == (match tail {
                Some(r) => Some(seq!['\''] + r),
                None => None::<Seq<char>>,
            }));
            assert(shell_word_from(w, true) == shell_word_from(w1, false));
        } else {
            assert(w =~= seq![c] + inner);
            assert(w.drop_first() =~= inner);
            assert(shell_word_from(w, true) == (match tail {
                Some(r) => Some(seq![c] + r),
                None => None::<Seq<char>>,
            }));
        }
        match shell_word_from(t, true) {
            Some(r) => {
                assert(seq![c] + (rest + r) =~= s + r);
            },
            None => {},
        }
    }
}

/// Law: the word that `shq` makes of `s` is read by a POSIX shell as exactly
/// `s`, as one word in which nothing is split, expanded or interpreted.
pub proof fn lemma_shq_reads_back(s: Seq<char>)
    ensures
        shell_word(shell_quoted(s)) == Some(s),
{
    let w = shell_quoted(s);
    let t = seq!['\''];
    assert(w.drop_first() =~= quoted_body(s) + t);
    assert(t.drop_first() =~= Seq::<char>::empty());
    assert(shell_word_from(Seq::<char>::empty(), false) == Some(Seq::<char>::empty()));
    assert(shell_word_from(t, true) == Some(Seq::<char>::empty()));
    lemma_quoted_body_reads_back(s, t);
    assert(s + Seq::<char>::empty() =~= s);
}

/// Escape a string for safe single-quoted embedding in a shell command.
pub fn shq(s: &str) -> (r: String)
    ensures
        r@ == shell_quoted(s@),
{
    let cs = chars_of(s);
    let mut out = String::new();
    push_char(&mut out, '\'');
    let mut i: usize = 0;
    while i < cs.len()
        invariant
            cs@ == s@,
            i <= cs@.len(),
            out@ == seq!['\''] + quoted_body(s@.take(i as int)),
        decreases cs@.len() - i,
    {
        let c = cs[i];
        if c == '\'' {
            push_char(&mut out, '\'');
            push_char(&mut out, '\\');
            push_char(&mut out, '\'');
            push_char(&mut out, '\'');
        } else {
            push_char(&mut out, c);
        }
        proof {
            assert(s@.take(i + 1) =~= s@.take(i as int).push(c));
            lemma_quoted_body_push(s@.take(i as int), c);
        }
        i = i + 1;
        assert(out@ =~= seq!['\''] + quoted_body(s@.take(i as int)));
    }
    push_char(&mut out, '\'');
    assert(s@.take(cs@.len() as int) =~= s@);
    assert(out@ =~= shell_quoted(s@));
    out
}

/// What `sh` reports as a command's output: its standard output, then, when
/// the standard error holds more than white space, that error text, on a line
/// of its own.
pub open spec fn merged_output(out: Seq<char>, err: Seq<char>) -> Seq<char> {
    if blank(err) {
        out
    } else if out.len() > 0 && out.last() != '\n' {
        out + seq!['\n'] + err
    } else {
        out + err
    }
}

/// The outcome of a command that ran: whether it succeeded, and its standard
/// output and standard error (decoded leniently as UTF-8) merged.
pub fn shell_outcome(success: bool, stdout: &[u8], stderr: &[u8]) -> (r: (bool, String))
    ensures
        r.0 == success,
        r.1@ == merged_output(utf8_lossy(stdout@), utf8_lossy(stderr@)),
{
    let mut s = decode_lossy(stdout);
    let e = decode_lossy(stderr);
    if !is_blank(e.as_str()) {
        let cs = chars_of(s.as_str());
        if cs.len() > 0 && cs[cs.len() - 1] != '\n' {
            push_char(&mut s, '\n');
        }
        s.append(e.as_str());
    }
    (success, s)
}

/// The outcome of a command that could not be started: failure, and a
/// message naming the reason.
pub fn spawn_failure(reason: &str) -> (r: (bool, String))
    ensures
        !r.0,
        r.1@ == "failed to spawn: "@ + reason@,
{
    let mut s = String::from_str("failed to spawn: ");
    s.append(reason);
    (false, s)
}

} // verus!
