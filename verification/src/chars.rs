//! Character-sequence utilities shared by the transpiler: substring search,
//! substring replacement, line splitting and joining, decimal rendering, and
//! the conversions between `String` and `Vec<char>`.

use vstd::prelude::*;
use vstd::string::StrSliceExecFns;

verus! {

/// The Unicode lowercase equivalent of a character sequence, as
/// `str::to_lowercase` computes it. The result depends on the characters
/// alone.
pub uninterp spec fn lower_of(s: Seq<char>) -> Seq<char>;

/// Relies on str::to_lowercase: returns the lowercase equivalent of the
/// string, a function of its characters alone.
#[verifier::external_body]
pub fn lowercase(s: &str) -> (r: String)
    ensures
        r@ == lower_of(s@),
{
    s.to_lowercase()
}

/// Relies on String's FromIterator implementation: collecting characters
/// yields the string holding exactly those characters in order.
#[verifier::external_body]
pub fn string_from_chars(v: &Vec<char>) -> (s: String)
    ensures
        s@ == v@,
{
    v.iter().collect()
}

/// The characters of a string, as a vector.
pub fn str_to_chars(s: &str) -> (v: Vec<char>)
    ensures
        v@ == s@,
{
    let n = s.unicode_len();
    let mut v: Vec<char> = Vec::new();
    let mut i: usize = 0;
    while i < n
        invariant
            i <= n,
            n == s@.len(),
            v@ == s@.take(i as int),
        decreases n - i,
    {
        let c = s.get_char(i);
        v.push(c);
        i = i + 1;
        assert(v@ =~= s@.take(i as int));
    }
    assert(v@ =~= s@);
    v
}

/// Appends all characters of `src` to `out`.
pub fn extend_vec(out: &mut Vec<char>, src: &Vec<char>)
    ensures
        final(out)@ == old(out)@ + src@,
{
    let n = src.len();
    let mut i: usize = 0;
    while i < n
        invariant
            i <= n,
            n == src@.len(),
            out@ == old(out)@ + src@.take(i as int),
        decreases n - i,
    {
        out.push(src[i]);
        i = i + 1;
        assert(out@ =~= old(out)@ + src@.take(i as int));
    }
    assert(out@ =~= old(out)@ + src@);
}

/// Whether `pat` occurs as a contiguous subsequence of `s`.
pub open spec fn contains_sub(s: Seq<char>, pat: Seq<char>) -> bool {
    exists|i: int| 0 <= i && i + pat.len() <= s.len() && #[trigger] s.subrange(i, i + pat.len())
        == pat
}

/// Whether `pat` occurs in `s` starting at position `at`.
pub fn match_at(s: &Vec<char>, pat: &Vec<char>, at: usize) -> (r: bool)
    requires
        at + pat@.len() <= s@.len(),
    ensures
        r == (s@.subrange(at as int, at + pat@.len()) == pat@),
{
    let slen = s.len();
    let mut j: usize = 0;
    while j < pat.len()
        invariant
            j <= pat@.len(),
            at + pat@.len() <= s@.len(),
            s@.len() == slen,
            forall|k: int| 0 <= k < j ==> s@[at + k] == pat@[k],
        decreases pat@.len() - j,
    {
        if s[at + j] != pat[j] {
            assert(s@.subrange(at as int, at + pat@.len())[j as int] != pat@[j as int]);
            return false;
        }
        j = j + 1;
    }
    assert(s@.subrange(at as int, at + pat@.len()) =~= pat@);
    true
}

/// Substring search, as `str::contains` decides it for non-empty patterns.
pub fn contains_chars(s: &Vec<char>, pat: &Vec<char>) -> (r: bool)
    requires
        pat@.len() >= 1,
    ensures
        r == contains_sub(s@, pat@),
{
    if s.len() < pat.len() {
        assert(!contains_sub(s@, pat@));
        return false;
    }
    let lim = s.len() - pat.len();
    let mut i: usize = 0;
    while i <= lim
        invariant
            pat@.len() >= 1,
            lim == s@.len() - pat@.len(),
            s@.len() <= usize::MAX,
            i <= lim + 1,
            forall|k: int| 0 <= k < i ==> #[trigger] s@.subrange(k, k + pat@.len()) != pat@,
        decreases lim + 1 - i,
    {
        if match_at(s, pat, i) {
            assert(contains_sub(s@, pat@));
            return true;
        }
        i = i + 1;
    }
    assert(!contains_sub(s@, pat@));
    false
}

/// `s` with every occurrence of `pat` replaced by `rep`, scanning from the
/// left and never overlapping, as `str::replace` does.
pub open spec fn replace_all(s: Seq<char>, pat: Seq<char>, rep: Seq<char>) -> Seq<char>
    decreases s.len(),
{
    if pat.len() == 0 || s.len() < pat.len() {
        s
    } else if s.take(pat.len() as int) == pat {
        rep + replace_all(s.skip(pat.len() as int), pat, rep)
    } else {
        seq![s[0]] + replace_all(s.skip(1), pat, rep)
    }
}

/// Replaces every occurrence of `pat` in `s` by `rep`.
pub fn replace_all_chars(s: &Vec<char>, pat: &Vec<char>, rep: &Vec<char>) -> (r: Vec<char>)
    requires
        pat@.len() >= 1,
    ensures
        r@ == replace_all(s@, pat@, rep@),
{
    let mut out: Vec<char> = Vec::new();
    let mut i: usize = 0;
    proof {
        assert(s@.skip(0) =~= s@);
    }
    while i < s.len()
        invariant
            pat@.len() >= 1,
            i <= s@.len(),
            replace_all(s@, pat@, rep@) == out@ + replace_all(s@.skip(i as int), pat@, rep@),
        decreases s@.len() - i,
    {
        if pat.len() <= s.len() - i && match_at(s, pat, i) {
            proof {
                assert(s@.skip(i as int).take(pat@.len() as int) =~= s@.subrange(
                    i as int,
                    i + pat@.len(),
                ));
                assert(s@.skip(i as int).skip(pat@.len() as int) =~= s@.skip(i + pat@.len()));
            }
            extend_vec(&mut out, rep);
            i = i + pat.len();
            assert(replace_all(s@, pat@, rep@) =~= out@ + replace_all(
                s@.skip(i as int),
                pat@,
                rep@,
            ));
        } else {
            proof {
                if pat@.len() <= s@.len() - i {
                    assert(s@.skip(i as int).take(pat@.len() as int) =~= s@.subrange(
                        i as int,
                        i + pat@.len(),
                    ));
                }
                assert(s@.skip(i as int).skip(1) =~= s@.skip(i + 1));
                assert(s@.skip(i as int)[0] == s@[i as int]);
            }
            out.push(s[i]);
            i = i + 1;
            assert(replace_all(s@, pat@, rep@) =~= out@ + replace_all(
                s@.skip(i as int),
                pat@,
                rep@,
            ));
        }
    }
    assert(s@.skip(i as int) =~= Seq::<char>::empty());
    assert(out@ =~= replace_all(s@, pat@, rep@));
    out
}

/// The lines of `s`, split on line feeds. The empty sequence has one empty
/// line; a trailing line feed yields a trailing empty line.
pub open spec fn split_lines(s: Seq<char>) -> Seq<Seq<char>>
    decreases s.len(),
{
    if s.len() == 0 {
        seq![Seq::<char>::empty()]
    } else if s[0] == '\n' {
        seq![Seq::<char>::empty()] + split_lines(s.skip(1))
    } else {
        seq![seq![s[0]] + split_lines(s.skip(1))[0]] + split_lines(s.skip(1)).skip(1)
    }
}

pub proof fn lemma_split_lines_len(s: Seq<char>)
    ensures
        split_lines(s).len() >= 1,
    decreases s.len(),
{
    if s.len() != 0 {
        lemma_split_lines_len(s.skip(1));
    }
}

/// Splits `s` into its lines.
pub fn split_lines_vec(s: &Vec<char>) -> (r: Vec<Vec<char>>)
    ensures
        r.deep_view() == split_lines(s@),
{
    let mut lines: Vec<Vec<char>> = Vec::new();
    let mut cur: Vec<char> = Vec::new();
    let mut i: usize = 0;
    proof {
        lemma_split_lines_len(s@);
        assert(s@.skip(0) =~= s@);
        assert(split_lines(s@) =~~= lines.deep_view() + seq![cur@ + split_lines(s@)[0]]
            + split_lines(s@).skip(1));
    }
    while i < s.len()
        invariant
            i <= s@.len(),
            split_lines(s@.skip(i as int)).len() >= 1,
            split_lines(s@) == lines.deep_view() + seq![
                cur@ + split_lines(s@.skip(i as int))[0],
            ] + split_lines(s@.skip(i as int)).skip(1),
        decreases s@.len() - i,
    {
        proof {
            assert(s@.skip(i as int).skip(1) =~= s@.skip(i + 1));
            assert(s@.skip(i as int)[0] == s@[i as int]);
            lemma_split_lines_len(s@.skip(i + 1));
        }
        let ghost prev_lines = lines.deep_view();
        let ghost prev_cur = cur@;
        let c = s[i];
        if c == '\n' {
            lines.push(cur);
            cur = Vec::new();
            proof {
                assert(lines.deep_view() =~~= prev_lines.push(prev_cur));
                assert(split_lines(s@.skip(i as int)) =~= seq![Seq::<char>::empty()]
                    + split_lines(s@.skip(i + 1)));
                assert(prev_cur + Seq::<char>::empty() =~= prev_cur);
                assert(split_lines(s@) =~~= lines.deep_view() + seq![
                    cur@ + split_lines(s@.skip(i + 1))[0],
                ] + split_lines(s@.skip(i + 1)).skip(1));
            }
        } else {
            cur.push(c);
            proof {
                let tail = split_lines(s@.skip(i + 1));
                assert(split_lines(s@.skip(i as int)) =~= seq![seq![s@[i as int]] + tail[0]]
                    + tail.skip(1));
                assert(cur@ + tail[0] =~= prev_cur + (seq![s@[i as int]] + tail[0]));
                assert(split_lines(s@) =~~= lines.deep_view() + seq![cur@ + tail[0]] + tail.skip(
                    1,
                ));
            }
        }
        i = i + 1;
    }
    proof {
        assert(s@.skip(i as int) =~= Seq::<char>::empty());
        assert(split_lines(Seq::<char>::empty()) =~= seq![Seq::<char>::empty()]);
        assert(cur@ + Seq::<char>::empty() =~= cur@);
    }
    let ghost flines = lines.deep_view();
    let ghost fcur = cur@;
    lines.push(cur);
    proof {
        assert(lines.deep_view() =~~= flines.push(fcur));
        assert(lines.deep_view() =~~= split_lines(s@));
    }
    lines
}

/// `parts` joined with a line feed between adjacent parts, and none at the
/// end, as `[String]::join` with a line-feed separator.
pub open spec fn join_nl(parts: Seq<Seq<char>>) -> Seq<char>
    decreases parts.len(),
{
    if parts.len() == 0 {
        Seq::<char>::empty()
    } else if parts.len() == 1 {
        parts[0]
    } else {
        parts[0] + seq!['\n'] + join_nl(parts.skip(1))
    }
}

pub proof fn lemma_join_nl_push(parts: Seq<Seq<char>>, x: Seq<char>)
    ensures
        join_nl(parts.push(x)) == if parts.len() == 0 {
            x
        } else {
            join_nl(parts) + seq!['\n'] + x
        },
    decreases parts.len(),
{
    if parts.len() == 0 {
        assert(parts.push(x)[0] == x);
    } else {
        lemma_join_nl_push(parts.skip(1), x);
        assert(parts.push(x).skip(1) =~= parts.skip(1).push(x));
        if parts.len() == 1 {
            assert(join_nl(parts.push(x)) =~= parts[0] + seq!['\n'] + x);
            assert(join_nl(parts) + seq!['\n'] + x =~= parts[0] + seq!['\n'] + x);
        } else {
            assert(join_nl(parts.push(x)) =~= parts[0] + seq!['\n'] + (join_nl(parts.skip(1))
                + seq!['\n'] + x));
            assert(join_nl(parts) + seq!['\n'] + x =~= parts[0] + seq!['\n'] + (join_nl(
                parts.skip(1),
            ) + seq!['\n'] + x));
        }
    }
}

/// A line after the heredoc rewrite: every occurrence of a double-quoted
/// `EOF` heredoc opener gains a tab inside the quotes; failing that, the same
/// for a single-quoted one; otherwise the line is unchanged. Because every
/// non-empty line is also indented with one tab, the terminator line of such
/// a heredoc becomes tab-prefixed, and embedding the same tab in the quoted
/// delimiter keeps the two matching character for character.
pub open spec fn rewrite_heredoc(l: Seq<char>) -> Seq<char> {
    if contains_sub(l, "<< \"EOF\""@) {
        replace_all(l, "<< \"EOF\""@, "<< \"\tEOF\""@)
    } else if contains_sub(l, "<< 'EOF'"@) {
        replace_all(l, "<< 'EOF'"@, "<< '\tEOF'"@)
    } else {
        l
    }
}

/// One code line as emitted: a tab if the line is non-empty, then the line
/// after the heredoc rewrite.
pub open spec fn indent_line(l: Seq<char>) -> Seq<char> {
    (if l.len() == 0 {
        Seq::<char>::empty()
    } else {
        seq!['\t']
    }) + rewrite_heredoc(l)
}

/// Code-block text as emitted: each line indented and rewritten, lines
/// re-joined with line feeds and no trailing line feed.
pub open spec fn indent_code(text: Seq<char>) -> Seq<char> {
    join_nl(split_lines(text).map_values(|l: Seq<char>| indent_line(l)))
}

/// The prefix of `s` up to but not including its first space, as the first
/// piece that `str::split` on a space yields.
pub open spec fn first_token(s: Seq<char>) -> Seq<char>
    decreases s.len(),
{
    if s.len() == 0 || s[0] == ' ' {
        Seq::<char>::empty()
    } else {
        seq![s[0]] + first_token(s.skip(1))
    }
}

/// The prefix of `s` up to its first space.
pub fn first_token_chars(s: &Vec<char>) -> (r: Vec<char>)
    ensures
        r@ == first_token(s@),
{
    let mut out: Vec<char> = Vec::new();
    let mut i: usize = 0;
    proof {
        assert(s@.skip(0) =~= s@);
    }
    while i < s.len()
        invariant
            i <= s@.len(),
            forall|k: int| 0 <= k < i ==> s@[k] != ' ',
            first_token(s@) == out@ + first_token(s@.skip(i as int)),
        decreases s@.len() - i,
    {
        proof {
            assert(s@.skip(i as int)[0] == s@[i as int]);
            assert(s@.skip(i as int).skip(1) =~= s@.skip(i + 1));
        }
        let c = s[i];
        if c == ' ' {
            assert(out@ =~= first_token(s@));
            return out;
        }
        out.push(c);
        i = i + 1;
        assert(first_token(s@) =~= out@ + first_token(s@.skip(i as int)));
    }
    assert(s@.skip(i as int) =~= Seq::<char>::empty());
    assert(out@ =~= first_token(s@));
    out
}

/// The decimal digit character for `d`.
pub open spec fn digit_char(d: nat) -> char {
    if d == 0 {
        '0'
    } else if d == 1 {
        '1'
    } else if d == 2 {
        '2'
    } else if d == 3 {
        '3'
    } else if d == 4 {
        '4'
    } else if d == 5 {
        '5'
    } else if d == 6 {
        '6'
    } else if d == 7 {
        '7'
    } else if d == 8 {
        '8'
    } else {
        '9'
    }
}

/// The decimal representation of `n`, most significant digit first, with no
/// leading zeros, as integer formatting renders it.
pub open spec fn dec_rep(n: nat) -> Seq<char>
    decreases n,
{
    if n < 10 {
        seq![digit_char(n)]
    } else {
        dec_rep(n / 10).push(digit_char(n % 10))
    }
}

fn digit_char_exec(d: usize) -> (c: char)
    requires
        d < 10,
    ensures
        c == digit_char(d as nat),
{
    if d == 0 {
        '0'
    } else if d == 1 {
        '1'
    } else if d == 2 {
        '2'
    } else if d == 3 {
        '3'
    } else if d == 4 {
        '4'
    } else if d == 5 {
        '5'
    } else if d == 6 {
        '6'
    } else if d == 7 {
        '7'
    } else if d == 8 {
        '8'
    } else {
        '9'
    }
}

/// The decimal representation of `n`.
pub fn dec_chars(n: usize) -> (r: Vec<char>)
    ensures
        r@ == dec_rep(n as nat),
    decreases n,
{
    if n < 10 {
        let mut out: Vec<char> = Vec::new();
        out.push(digit_char_exec(n));
        assert(out@ =~= dec_rep(n as nat));
        out
    } else {
        let mut out = dec_chars(n / 10);
        out.push(digit_char_exec(n % 10));
        out
    }
}

} // verus!
