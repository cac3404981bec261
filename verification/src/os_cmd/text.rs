//! Character-level text utilities shared by the tokenizer and the comment
//! stripper: whitespace predicates, trimming, line splitting and string
//! comparison, each proved against a direct specification.

use vstd::prelude::*;
use vstd::string::*;

verus! {

/// The ASCII whitespace characters, as `str::trim_ascii` understands them.
pub open spec fn is_ascii_ws_char(c: char) -> bool {
    c == ' ' || c == '\t' || c == '\n' || c == '\r' || c == '\u{c}'
}

/// The Unicode white-space characters, as `char::is_whitespace` understands
/// them (the characters with the `White_Space` property).
pub open spec fn is_space_char(c: char) -> bool {
    ||| c as u32 == 0x20
    ||| (0x9 <= c as u32 && c as u32 <= 0xd)
    ||| c as u32 == 0x85
    ||| c as u32 == 0xa0
    ||| c as u32 == 0x1680
    ||| (0x2000 <= c as u32 && c as u32 <= 0x200a)
    ||| c as u32 == 0x2028
    ||| c as u32 == 0x2029
    ||| c as u32 == 0x202f
    ||| c as u32 == 0x205f
    ||| c as u32 == 0x3000
}

/// Decides `is_ascii_ws_char`.
pub fn is_ascii_ws(c: char) -> (r: bool)
    ensures
        r == is_ascii_ws_char(c),
{
    c == ' ' || c == '\t' || c == '\n' || c == '\r' || c == '\u{c}'
}

/// Decides `is_space_char`.
pub fn is_space(c: char) -> (r: bool)
    ensures
        r == is_space_char(c),
{
    let u = c as u32;
    u == 0x20 || (0x9 <= u && u <= 0xd) || u == 0x85 || u == 0xa0 || u == 0x1680 || (0x2000 <= u
        && u <= 0x200a) || u == 0x2028 || u == 0x2029 || u == 0x202f || u == 0x205f || u == 0x3000
}

/// Relies on `String::push`: appends exactly the given character.
#[verifier::external_body]
pub(crate) fn push_char(s: &mut String, c: char)
    ensures
        final(s)@ == old(s)@.push(c),
{
    s.push(c);
}

/// Compares two string slices character by character.
pub fn str_eq(a: &str, b: &str) -> (r: bool)
    ensures
        r == (a@ == b@),
{
    let na = a.unicode_len();
    let nb = b.unicode_len();
    if na != nb {
        return false;
    }
    let mut i: usize = 0;
    while i < na
        invariant
            i <= na,
            na == a@.len(),
            na == b@.len(),
            forall|j: int| 0 <= j < i ==> a@[j] == b@[j],
        decreases na - i,
    {
        if a.get_char(i) != b.get_char(i) {
            return false;
        }
        i += 1;
    }
    proof {
        assert(a@ =~= b@);
    }
    true
}

/// What is left of `s` once every leading ASCII whitespace character is gone.
pub open spec fn ltrim_ascii(s: Seq<char>) -> Seq<char>
    decreases s.len(),
{
    if s.len() > 0 && is_ascii_ws_char(s[0]) {
        ltrim_ascii(s.drop_first())
    } else {
        s
    }
}

/// What is left of `s` once every trailing ASCII whitespace character is gone.
pub open spec fn rtrim_ascii(s: Seq<char>) -> Seq<char>
    decreases s.len(),
{
    if s.len() > 0 && is_ascii_ws_char(s.last()) {
        rtrim_ascii(s.drop_last())
    } else {
        s
    }
}

/// `s` with leading and trailing ASCII whitespace removed.
pub open spec fn trim_ascii_spec(s: Seq<char>) -> Seq<char> {
    rtrim_ascii(ltrim_ascii(s))
}

proof fn lemma_ltrim_skip(s: Seq<char>, i: int)
    requires
        0 <= i <= s.len(),
        forall|j: int| 0 <= j < i ==> is_ascii_ws_char(s[j]),
    ensures
        ltrim_ascii(s) == ltrim_ascii(s.skip(i)),
    decreases i,
{
    if i > 0 {
        assert(s.drop_first() == s.skip(1));
        lemma_ltrim_skip(s.skip(1), i - 1);
        assert(s.skip(1).skip(i - 1) == s.skip(i));
    } else {
        assert(s.skip(0) == s);
    }
}

proof fn lemma_rtrim_take(s: Seq<char>, i: int)
    requires
        0 <= i <= s.len(),
        forall|j: int| i <= j < s.len() ==> is_ascii_ws_char(s[j]),
    ensures
        rtrim_ascii(s) == rtrim_ascii(s.take(i)),
    decreases s.len() - i,
{
    if i < s.len() {
        assert(s.drop_last() == s.take(s.len() - 1));
        lemma_rtrim_take(s.take(s.len() - 1), i);
        assert(s.take(s.len() - 1).take(i) == s.take(i));
    } else {
        assert(s.take(i) == s);
    }
}

/// Removes leading and trailing ASCII whitespace, as `str::trim_ascii` does.
pub fn trim_ascii_ws(s: &str) -> (r: &str)
    ensures
        r@ == trim_ascii_spec(s@),
{
    let n = s.unicode_len();
    let mut start: usize = 0;
    while start < n && is_ascii_ws(s.get_char(start))
        invariant
            start <= n,
            n == s@.len(),
            forall|j: int| 0 <= j < start ==> is_ascii_ws_char(s@[j]),
        decreases n - start,
    {
        start += 1;
    }
    proof {
        lemma_ltrim_skip(s@, start as int);
        assert(ltrim_ascii(s@) == s@.skip(start as int));
    }
    let mut end: usize = n;
    while end > start && is_ascii_ws(s.get_char(end - 1))
        invariant
            start <= end <= n,
            n == s@.len(),
            ltrim_ascii(s@) == s@.skip(start as int),
            forall|j: int| end <= j < n ==> is_ascii_ws_char(s@[j]),
        decreases end,
    {
        end -= 1;
    }
    proof {
        let t = s@.skip(start as int);
        lemma_rtrim_take(t, end - start as int);
        assert(t.take(end - start as int) == s@.subrange(start as int, end as int));
        if end > start {
            assert(!is_ascii_ws_char(t.take(end - start as int).last()));
        }
        assert(rtrim_ascii(t) == s@.subrange(start as int, end as int));
    }
    s.substring_char(start, end)
}

/// One trailing carriage return removed, as `str::lines` removes it from a
/// line that ended in `\r\n`.
pub open spec fn chomp_cr(l: Seq<char>) -> Seq<char> {
    if l.len() > 0 && l.last() == '\r' { l.drop_last() } else { l }
}

/// The lines of `s[start..]` when scanning stands at `pos` with the current
/// line having begun at `start`: the split that `str::lines` performs, with
/// `\r\n` endings chomped and no empty line after a final newline.
pub open spec fn lines_from(s: Seq<char>, start: int, pos: int) -> Seq<Seq<char>>
    decreases s.len() - pos,
{
    if !(0 <= start <= pos <= s.len()) {
        Seq::empty()
    } else if pos == s.len() {
        if start < pos {
            seq![s.subrange(start, pos)]
        } else {
            Seq::empty()
        }
    } else if s[pos] == '\n' {
        seq![chomp_cr(s.subrange(start, pos))] + lines_from(s, pos + 1, pos + 1)
    } else {
        lines_from(s, start, pos + 1)
    }
}

/// The lines of `s`, as `str::lines` yields them.
pub open spec fn lines_of(s: Seq<char>) -> Seq<Seq<char>> {
    lines_from(s, 0, 0)
}

/// `l` with its leading Unicode whitespace removed.
pub open spec fn ltrim_space(l: Seq<char>) -> Seq<char>
    decreases l.len(),
{
    if l.len() > 0 && is_space_char(l[0]) {
        ltrim_space(l.drop_first())
    } else {
        l
    }
}

/// Whether the first non-whitespace characters of the line are `//`.
pub open spec fn is_comment_line(l: Seq<char>) -> bool {
    let t = ltrim_space(l);
    t.len() >= 2 && t[0] == '/' && t[1] == '/'
}

proof fn lemma_ltrim_space_skip(s: Seq<char>, i: int)
    requires
        0 <= i <= s.len(),
        forall|j: int| 0 <= j < i ==> is_space_char(s[j]),
    ensures
        ltrim_space(s) == ltrim_space(s.skip(i)),
    decreases i,
{
    if i > 0 {
        assert(s.drop_first() == s.skip(1));
        lemma_ltrim_space_skip(s.skip(1), i - 1);
        assert(s.skip(1).skip(i - 1) == s.skip(i));
    } else {
        assert(s.skip(0) == s);
    }
}

/// Decides `is_comment_line`.
pub fn line_is_comment(l: &str) -> (r: bool)
    ensures
        r == is_comment_line(l@),
{
    let n = l.unicode_len();
    let mut i: usize = 0;
    while i < n && is_space(l.get_char(i))
        invariant
            i <= n,
            n == l@.len(),
            forall|j: int| 0 <= j < i ==> is_space_char(l@[j]),
        decreases n - i,
    {
        i += 1;
    }
    proof {
        lemma_ltrim_space_skip(l@, i as int);
        assert(ltrim_space(l@) == l@.skip(i as int));
    }
    if i < n && i + 1 < n {
        l.get_char(i) == '/' && l.get_char(i + 1) == '/'
    } else {
        false
    }
}

/// Concatenation of the given lines, with nothing between them.
pub open spec fn join_lines(ls: Seq<Seq<char>>) -> Seq<char>
    decreases ls.len(),
{
    if ls.len() == 0 {
        Seq::empty()
    } else {
        ls[0] + join_lines(ls.drop_first())
    }
}

pub proof fn lemma_join_lines_add(a: Seq<Seq<char>>, b: Seq<Seq<char>>)
    ensures
        join_lines(a + b) == join_lines(a) + join_lines(b),
    decreases a.len(),
{
    if a.len() == 0 {
        assert(a + b == b);
        assert(join_lines(a) + join_lines(b) =~= join_lines(b));
    } else {
        assert((a + b).drop_first() == a.drop_first() + b);
        lemma_join_lines_add(a.drop_first(), b);
        assert((a + b)[0] == a[0]);
        assert(join_lines(a + b) =~= join_lines(a) + join_lines(b));
    }
}

/// Concatenation of two strings.
pub fn str_concat(a: &str, b: &str) -> (r: String)
    ensures
        r@ == a@ + b@,
{
    let mut s = String::from_str(a);
    s.append(b);
    s
}

/// The parts joined with the separator between every two of them.
pub open spec fn join_sep(parts: Seq<Seq<char>>, sep: Seq<char>) -> Seq<char>
    decreases parts.len(),
{
    if parts.len() == 0 {
        Seq::empty()
    } else if parts.len() == 1 {
        parts[0]
    } else {
        parts[0] + sep + join_sep(parts.drop_first(), sep)
    }
}

pub proof fn lemma_join_sep_push(parts: Seq<Seq<char>>, sep: Seq<char>, x: Seq<char>)
    ensures
        join_sep(parts.push(x), sep) == if parts.len() == 0 {
            x
        } else {
            join_sep(parts, sep) + sep + x
        },
    decreases parts.len(),
{
    let whole = parts.push(x);
    if parts.len() == 0 {
        assert(whole.len() == 1);
        assert(whole[0] == x);
    } else if parts.len() == 1 {
        assert(whole.drop_first() =~= seq![x]);
        assert(join_sep(whole.drop_first(), sep) == x);
        assert(join_sep(parts, sep) == parts[0]);
        assert(join_sep(whole, sep) == whole[0] + sep + join_sep(whole.drop_first(), sep));
    } else {
        assert(whole.drop_first() =~= parts.drop_first().push(x));
        lemma_join_sep_push(parts.drop_first(), sep, x);
        assert(join_sep(whole, sep) =~= join_sep(parts, sep) + sep + x);
    }
}

/// Joins owned strings with a separator.
pub fn join_owned(parts: &Vec<String>, sep: &str) -> (r: String)
    ensures
        r@ == join_sep(parts.deep_view(), sep@),
{
    let ghost dv = parts.deep_view();
    let mut out = String::new();
    let mut i: usize = 0;
    while i < parts.len()
        invariant
            i <= parts.len(),
            dv == parts.deep_view(),
            dv.len() == parts@.len(),
            out@ == join_sep(dv.take(i as int), sep@),
        decreases parts.len() - i,
    {
        if i > 0 {
            out.append(sep);
        }
        out.append(parts[i].as_str());
        proof {
            assert(dv.take(i + 1) =~= dv.take(i as int).push(dv[i as int]));
            lemma_join_sep_push(dv.take(i as int), sep@, dv[i as int]);
        }
        i += 1;
    }
    proof {
        assert(dv.take(dv.len() as int) =~= dv);
    }
    out
}

/// Joins borrowed strings with a separator.
pub fn join_borrowed(parts: &Vec<&str>, sep: &str) -> (r: String)
    ensures
        r@ == join_sep(parts.deep_view(), sep@),
{
    let ghost dv = parts.deep_view();
    let mut out = String::new();
    let mut i: usize = 0;
    while i < parts.len()
        invariant
            i <= parts.len(),
            dv == parts.deep_view(),
            dv.len() == parts@.len(),
            out@ == join_sep(dv.take(i as int), sep@),
        decreases parts.len() - i,
    {
        if i > 0 {
            out.append(sep);
        }
        out.append(parts[i]);
        proof {
            assert(dv.take(i + 1) =~= dv.take(i as int).push(dv[i as int]));
            lemma_join_sep_push(dv.take(i as int), sep@, dv[i as int]);
        }
        i += 1;
    }
    proof {
        assert(dv.take(dv.len() as int) =~= dv);
    }
    out
}

/// The decimal digit character for a value below ten.
pub open spec fn dec_digit(d: int) -> char {
    if d == 0 {
        '0'
    } else if d == 1 {
        '1'
    } else if d == 2 {
        '2'
    } else if d == 3 {
        '3'
    } else if d == 4 {
        '4'
    } else if d == 5 {
        '5'
    } else if d == 6 {
        '6'
    } else if d == 7 {
        '7'
    } else if d == 8 {
        '8'
    } else {
        '9'
    }
}

/// The decimal digits of `n`, most significant first, without leading zeros
/// (except for `n == 0` itself).
pub open spec fn dec_chars(n: nat) -> Seq<char>
    decreases n,
{
    if n < 10 {
        seq![dec_digit(n as int)]
    } else {
        dec_chars(n / 10).push(dec_digit((n % 10) as int))
    }
}

fn dec_digit_char(d: usize) -> (r: char)
    requires
        d < 10,
    ensures
        r == dec_digit(d as int),
{
    if d == 0 {
        '0'
    } else if d == 1 {
        '1'
    } else if d == 2 {
        '2'
    } else if d == 3 {
        '3'
    } else if d == 4 {
        '4'
    } else if d == 5 {
        '5'
    } else if d == 6 {
        '6'
    } else if d == 7 {
        '7'
    } else if d == 8 {
        '8'
    } else {
        '9'
    }
}

/// Writes `n` in decimal.
pub fn usize_to_string(n: usize) -> (r: String)
    ensures
        r@ == dec_chars(n as nat),
    decreases n,
{
    let digit = dec_digit_char(n % 10);
    if n < 10 {
        let mut s = String::new();
        push_char(&mut s, digit);
        proof {
            assert(s@ =~= seq![dec_digit(n as int)]);
        }
        s
    } else {
        let mut s = usize_to_string(n / 10);
        push_char(&mut s, digit);
        s
    }
}

/// Whether a line survives comment stripping.
pub open spec fn keep_line(l: Seq<char>) -> bool {
    !is_comment_line(l)
}

/// The surviving lines of `s[start..]`, scanning from `pos`; see `lines_from`.
pub open spec fn kept_from(s: Seq<char>, start: int, pos: int) -> Seq<Seq<char>> {
    lines_from(s, start, pos).filter(|l: Seq<char>| keep_line(l))
}

/// The lines of `s` that are not comment lines, in order.
pub open spec fn kept_lines(s: Seq<char>) -> Seq<Seq<char>> {
    kept_from(s, 0, 0)
}

/// The text that survives comment stripping: every line whose first
/// non-whitespace characters are `//` is dropped, and the remaining lines are
/// concatenated with nothing between them.
pub open spec fn strip_comments(s: Seq<char>) -> Seq<char> {
    join_lines(kept_lines(s))
}

/// Comment stripping is complete: no comment line survives it, every line
/// of the input that is not a comment line survives, and the stripped text
/// is built from the surviving lines alone.
pub proof fn lemma_no_comment_line_survives(s: Seq<char>)
    ensures
        forall|i: int| 0 <= i < kept_lines(s).len() ==> !is_comment_line(#[trigger] kept_lines(s)[i]),
        forall|i: int|
            0 <= i < lines_of(s).len() && !is_comment_line(#[trigger] lines_of(s)[i])
                ==> kept_lines(s).contains(lines_of(s)[i]),
        strip_comments(s) == join_lines(kept_lines(s)),
{
    let pred = |l: Seq<char>| keep_line(l);
    assert forall|i: int| 0 <= i < kept_lines(s).len() implies !is_comment_line(
        #[trigger] kept_lines(s)[i],
    ) by {
        lines_of(s).lemma_filter_pred(pred, i);
    }
    assert forall|i: int|
        0 <= i < lines_of(s).len() && !is_comment_line(#[trigger] lines_of(s)[i]) implies kept_lines(
        s,
    ).contains(lines_of(s)[i]) by {
        lines_of(s).lemma_filter_contains(pred, i);
    }
}

pub proof fn lemma_join_lines_singleton(l: Seq<char>)
    ensures
        join_lines(seq![l]) == l,
{
    assert(seq![l].drop_first() =~= Seq::<Seq<char>>::empty());
    assert(join_lines(Seq::<Seq<char>>::empty()) =~= Seq::<char>::empty());
    assert(join_lines(seq![l]) =~= l);
}

proof fn lemma_filter_singleton(l: Seq<char>)
    ensures
        seq![l].filter(|x: Seq<char>| keep_line(x)) == if keep_line(l) {
            seq![l]
        } else {
            Seq::<Seq<char>>::empty()
        },
{
    reveal_with_fuel(Seq::<Seq<char>>::filter, 2);
    assert(seq![l].drop_last() =~= Seq::<Seq<char>>::empty());
    if keep_line(l) {
        assert(seq![l].filter(|x: Seq<char>| keep_line(x)) =~= seq![l]);
    } else {
        assert(seq![l].filter(|x: Seq<char>| keep_line(x)) =~= Seq::<Seq<char>>::empty());
    }
}

/// Scanning past a character that is not a newline keeps the surviving
/// lines unchanged.
pub proof fn lemma_kept_from_step(s: Seq<char>, start: int, pos: int)
    requires
        0 <= start <= pos < s.len(),
        s[pos] != '\n',
    ensures
        kept_from(s, start, pos) == kept_from(s, start, pos + 1),
{
}

/// Scanning past a newline finishes the current line: it survives exactly
/// when it is not a comment line, and scanning goes on behind the newline.
pub proof fn lemma_kept_from_newline(s: Seq<char>, start: int, pos: int)
    requires
        0 <= start <= pos < s.len(),
        s[pos] == '\n',
    ensures
        kept_from(s, start, pos) == (if keep_line(chomp_cr(s.subrange(start, pos))) {
            seq![chomp_cr(s.subrange(start, pos))]
        } else {
            Seq::<Seq<char>>::empty()
        }) + kept_from(s, pos + 1, pos + 1),
{
    let l = chomp_cr(s.subrange(start, pos));
    assert(lines_from(s, start, pos) == seq![l] + lines_from(s, pos + 1, pos + 1));
    Seq::filter_distributes_over_add(
        seq![l],
        lines_from(s, pos + 1, pos + 1),
        |x: Seq<char>| keep_line(x),
    );
    lemma_filter_singleton(l);
}

/// At the end of the input the current line, if any, survives exactly when
/// it is not a comment line; nothing follows it.
pub proof fn lemma_kept_from_end(s: Seq<char>, start: int)
    requires
        0 <= start <= s.len(),
    ensures
        kept_from(s, start, s.len() as int) == if start < s.len() && keep_line(
            s.subrange(start, s.len() as int),
        ) {
            seq![s.subrange(start, s.len() as int)]
        } else {
            Seq::<Seq<char>>::empty()
        },
{
    reveal_with_fuel(Seq::<Seq<char>>::filter, 2);
    if start < s.len() {
        let l = s.subrange(start, s.len() as int);
        assert(lines_from(s, start, s.len() as int) == seq![l]);
        lemma_filter_singleton(l);
    } else {
        assert(lines_from(s, start, s.len() as int) == Seq::<Seq<char>>::empty());
    }
}

} // verus!
