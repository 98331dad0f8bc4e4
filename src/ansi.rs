use vstd::prelude::*;

verus! {

/// A parameter character of an escape sequence: a digit or a semicolon.
pub open spec fn is_param_char(c: char) -> bool {
    ('0' <= c && c <= '9') || c == ';'
}

/// A character that ends an escape sequence.
pub open spec fn is_final_char(c: char) -> bool {
    c == 'm' || c == 'G' || c == 'K' || c == 'H'
}

/// Length of the run of parameter characters at the start of `s`.
pub open spec fn param_run(s: Seq<char>) -> nat
    decreases s.len(),
{
    if s.len() > 0 && is_param_char(s[0]) {
        1 + param_run(s.drop_first())
    } else {
        0
    }
}

/// Length of the escape sequence (ESC, `[`, parameters, one final character)
/// that starts `s`, or 0 where none does.
pub open spec fn sequence_len(s: Seq<char>) -> nat {
    if s.len() >= 2 && s[0] == '\x1b' && s[1] == '[' {
        let k: int = 2 + param_run(s.subrange(2, s.len() as int)) as int;
        if k < s.len() && is_final_char(s[k]) {
            (k + 1) as nat
        } else {
            0
        }
    } else {
        0
    }
}

/// `s` with every escape sequence removed, scanning left to right and
/// resuming after each removed sequence.
pub open spec fn ansi_stripped(s: Seq<char>) -> Seq<char>
    decreases s.len(),
{
    if s.len() == 0 {
        s
    } else if sequence_len(s) > 0 {
        ansi_stripped(s.subrange(sequence_len(s) as int, s.len() as int))
    } else {
        seq![s[0]] + ansi_stripped(s.drop_first())
    }
}

/// Some escape sequence starts somewhere in `s`.
pub open spec fn has_escape_sequence(s: Seq<char>) -> bool {
    exists|i: int| 0 <= i < s.len() && #[trigger] sequence_len(s.subrange(i, s.len() as int)) > 0
}

/// The pattern handed to the regex engine: ESC, `[`, digits or semicolons,
/// then one of `m`, `G`, `K`, `H`.
pub open spec fn escape_pattern() -> Seq<char> {
    "\x1b\\[[0-9;]*[mGKH]"@
}

/// Relies on `regex::Regex::new` and `regex::Regex::replace_all` with an empty
/// replacement: for the escape pattern, the regex's leftmost-first,
/// non-overlapping matches are exactly the sequences that `ansi_stripped`
/// removes (the parameter class and the final class are disjoint, so the
/// greedy repetition never has to give anything back), and everything else is
/// kept as it stands. The pattern is valid, so `new` does not fail.
#[verifier::external_body]
fn regex_remove_all(pattern: &str, text: &str) -> (r: String)
    requires
        pattern@ == escape_pattern(),
    ensures
        r@ == ansi_stripped(text@),
{
    regex::Regex::new(pattern).unwrap().replace_all(text, "").into_owned()
}

/// Removes every terminal escape sequence from `text`.
pub fn strip_ansi_codes(text: &str) -> (r: String)
    ensures
        r@ == ansi_stripped(text@),
{
    regex_remove_all("\x1b\\[[0-9;]*[mGKH]", text)
}

proof fn lemma_stripped_not_longer(s: Seq<char>)
    ensures
        ansi_stripped(s).len() <= s.len(),
        has_escape_sequence(s) ==> ansi_stripped(s).len() < s.len(),
    decreases s.len(),
{
    if s.len() == 0 {
    } else if sequence_len(s) > 0 {
        let rest = s.subrange(sequence_len(s) as int, s.len() as int);
        lemma_stripped_not_longer(rest);
    } else {
        let rest = s.drop_first();
        lemma_stripped_not_longer(rest);
        if has_escape_sequence(s) {
            let i = choose|i: int| 0 <= i < s.len() && #[trigger] sequence_len(s.subrange(i, s.len() as int)) > 0;
            assert(i != 0) by {
                assert(s.subrange(0, s.len() as int) =~= s);
            }
            assert(rest.subrange(i - 1, rest.len() as int) =~= s.subrange(i, s.len() as int));
            assert(sequence_len(rest.subrange(i - 1, rest.len() as int)) > 0);
        }
    }
}

proof fn lemma_stripped_unchanged(s: Seq<char>)
    requires
        !has_escape_sequence(s),
    ensures
        ansi_stripped(s) == s,
    decreases s.len(),
{
    if s.len() > 0 {
        assert(s.subrange(0, s.len() as int) =~= s);
        assert(sequence_len(s.subrange(0, s.len() as int)) == 0);
        let rest = s.drop_first();
        assert forall|i: int| 0 <= i < rest.len() implies #[trigger] sequence_len(
            rest.subrange(i, rest.len() as int),
        ) == 0 by {
            assert(rest.subrange(i, rest.len() as int) =~= s.subrange(i + 1, s.len() as int));
        }
        lemma_stripped_unchanged(rest);
        assert(seq![s[0]] + rest =~= s);
    }
}

/// Stripping leaves a text unchanged exactly when no escape sequence starts
/// anywhere in it.
pub proof fn lemma_strip_fixed_point(s: Seq<char>)
    ensures
        (ansi_stripped(s) == s) == !has_escape_sequence(s),
{
    lemma_stripped_not_longer(s);
    if !has_escape_sequence(s) {
        lemma_stripped_unchanged(s);
    }
}

/// Stripping twice gives what stripping once gives, for every text whose
/// stripped form holds no escape sequence. Outside those texts it does not
/// hold: removing a sequence can join the pieces around it into a new one.
pub proof fn lemma_strip_idempotent(s: Seq<char>)
    requires
        !has_escape_sequence(ansi_stripped(s)),
    ensures
        ansi_stripped(ansi_stripped(s)) == ansi_stripped(s),
{
    lemma_strip_fixed_point(ansi_stripped(s));
}

} // verus!
