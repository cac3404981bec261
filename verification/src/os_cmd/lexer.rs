//! POSIX-shell-like word splitting, without invoking a shell.
//!
//! Raw command text is split on unquoted blanks; single quotes keep their
//! contents verbatim; double quotes keep blanks and honour backslash escapes
//! for `$`, backtick, `"` and `\` (and drop an escaped newline); an unquoted
//! backslash escapes the next character; `#` at a word-start position begins
//! a comment that runs to the end of the line. Shell metacharacters are not
//! interpreted: this is lexical splitting only. Input that ends inside a
//! quotation or right after a backslash is erroneous: the unfinished word is
//! thrown away and the split is flagged as failed.

use vstd::prelude::*;
use vstd::string::*;

use crate::os_cmd::text::push_char;

verus! {

/// Where the splitter stands between two characters.
#[derive(Clone, Copy, PartialEq, Eq, Structural, Debug)]
pub enum LexMode {
    /// Between words, skipping blanks.
    Delim,
    /// Inside a `#` comment, skipping to the end of the line.
    Comment,
    /// Inside an unquoted word.
    Word,
    /// Inside a word, right after an unquoted backslash.
    WordEsc,
    /// Inside a single-quoted part of a word.
    Single,
    /// Inside a double-quoted part of a word.
    Double,
    /// Inside a double-quoted part, right after a backslash.
    DoubleEsc,
}

/// The full state of the splitter: mode, word collected so far, words done.
pub struct LexState {
    pub mode: LexMode,
    pub cur: Seq<char>,
    pub toks: Seq<Seq<char>>,
}

/// The state after reading one more character.
pub open spec fn lex_step(st: LexState, c: char) -> LexState {
    match st.mode {
        LexMode::Delim => if c == ' ' || c == '\t' || c == '\n' {
            st
        } else if c == '#' {
            LexState { mode: LexMode::Comment, cur: st.cur, toks: st.toks }
        } else if c == '"' {
            LexState { mode: LexMode::Double, cur: st.cur, toks: st.toks }
        } else if c == '\'' {
            LexState { mode: LexMode::Single, cur: st.cur, toks: st.toks }
        } else if c == '\\' {
            LexState { mode: LexMode::WordEsc, cur: st.cur, toks: st.toks }
        } else {
            LexState { mode: LexMode::Word, cur: st.cur.push(c), toks: st.toks }
        },
        LexMode::Comment => if c == '\n' {
            LexState { mode: LexMode::Delim, cur: st.cur, toks: st.toks }
        } else {
            st
        },
        LexMode::Word => if c == ' ' || c == '\t' || c == '\n' {
            LexState { mode: LexMode::Delim, cur: Seq::empty(), toks: st.toks.push(st.cur) }
        } else if c == '"' {
            LexState { mode: LexMode::Double, cur: st.cur, toks: st.toks }
        } else if c == '\'' {
            LexState { mode: LexMode::Single, cur: st.cur, toks: st.toks }
        } else if c == '\\' {
            LexState { mode: LexMode::WordEsc, cur: st.cur, toks: st.toks }
        } else {
            LexState { mode: LexMode::Word, cur: st.cur.push(c), toks: st.toks }
        },
        LexMode::WordEsc => if c == '\n' {
            LexState { mode: LexMode::Word, cur: st.cur, toks: st.toks }
        } else {
            LexState { mode: LexMode::Word, cur: st.cur.push(c), toks: st.toks }
        },
        LexMode::Single => if c == '\'' {
            LexState { mode: LexMode::Word, cur: st.cur, toks: st.toks }
        } else {
            LexState { mode: LexMode::Single, cur: st.cur.push(c), toks: st.toks }
        },
        LexMode::Double => if c == '"' {
            LexState { mode: LexMode::Word, cur: st.cur, toks: st.toks }
        } else if c == '\\' {
            LexState { mode: LexMode::DoubleEsc, cur: st.cur, toks: st.toks }
        } else {
            LexState { mode: LexMode::Double, cur: st.cur.push(c), toks: st.toks }
        },
        LexMode::DoubleEsc => if c == '$' || c == '`' || c == '"' || c == '\\' {
            LexState { mode: LexMode::Double, cur: st.cur.push(c), toks: st.toks }
        } else if c == '\n' {
            LexState { mode: LexMode::Double, cur: st.cur, toks: st.toks }
        } else {
            LexState { mode: LexMode::Double, cur: st.cur.push('\\').push(c), toks: st.toks }
        },
    }
}

/// The state after reading the first `n` characters of `s`.
pub open spec fn lex_at(s: Seq<char>, n: int) -> LexState
    decreases n,
{
    if n <= 0 {
        LexState { mode: LexMode::Delim, cur: Seq::empty(), toks: Seq::empty() }
    } else {
        lex_step(lex_at(s, n - 1), s[n - 1])
    }
}

/// The words of a finished split: an unquoted word still open at the end of
/// the input is emitted; a word cut short inside quotes or after a backslash
/// is thrown away.
pub open spec fn lex_final_toks(st: LexState) -> Seq<Seq<char>> {
    match st.mode {
        LexMode::Word => st.toks.push(st.cur),
        _ => st.toks,
    }
}

/// Whether the input ended inside a quotation or right after a backslash.
pub open spec fn lex_is_error(st: LexState) -> bool {
    match st.mode {
        LexMode::WordEsc | LexMode::Single | LexMode::Double | LexMode::DoubleEsc => true,
        _ => false,
    }
}

/// The words that splitting `s` yields.
pub open spec fn shell_tokens(s: Seq<char>) -> Seq<Seq<char>> {
    lex_final_toks(lex_at(s, s.len() as int))
}

/// Whether splitting `s` ends in an unterminated quotation or escape.
pub open spec fn shell_split_failed(s: Seq<char>) -> bool {
    lex_is_error(lex_at(s, s.len() as int))
}

/// Splits `s` into shell-like words; the flag reports an unterminated
/// quotation or trailing backslash (the words before it are still returned).
pub fn shell_split(s: &str) -> (r: (Vec<String>, bool))
    ensures
        r.0.deep_view() == shell_tokens(s@),
        r.1 == shell_split_failed(s@),
{
    let n = s.unicode_len();
    let mut i: usize = 0;
    let mut mode = LexMode::Delim;
    let mut cur: String = String::new();
    let mut toks: Vec<String> = Vec::new();
    while i < n
        invariant
            i <= n,
            n == s@.len(),
            lex_at(s@, i as int).mode == mode,
            lex_at(s@, i as int).cur == cur@,
            lex_at(s@, i as int).toks == toks.deep_view(),
        decreases n - i,
    {
        let ghost pre = lex_at(s@, i as int);
        let ghost pre_toks = toks.deep_view();
        let c = s.get_char(i);
        match mode {
            LexMode::Delim => {
                if c == ' ' || c == '\t' || c == '\n' {
                } else if c == '#' {
                    mode = LexMode::Comment;
                } else if c == '"' {
                    mode = LexMode::Double;
                } else if c == '\'' {
                    mode = LexMode::Single;
                } else if c == '\\' {
                    mode = LexMode::WordEsc;
                } else {
                    push_char(&mut cur, c);
                    mode = LexMode::Word;
                }
            },
            LexMode::Comment => {
                if c == '\n' {
                    mode = LexMode::Delim;
                }
            },
            LexMode::Word => {
                if c == ' ' || c == '\t' || c == '\n' {
                    toks.push(cur);
                    cur = String::new();
                    mode = LexMode::Delim;
                    proof {
                        assert(toks.deep_view() =~= pre_toks.push(pre.cur));
                    }
                } else if c == '"' {
                    mode = LexMode::Double;
                } else if c == '\'' {
                    mode = LexMode::Single;
                } else if c == '\\' {
                    mode = LexMode::WordEsc;
                } else {
                    push_char(&mut cur, c);
                }
            },
            LexMode::WordEsc => {
                if c == '\n' {
                    mode = LexMode::Word;
                } else {
                    push_char(&mut cur, c);
                    mode = LexMode::Word;
                }
            },
            LexMode::Single => {
                if c == '\'' {
                    mode = LexMode::Word;
                } else {
                    push_char(&mut cur, c);
                }
            },
            LexMode::Double => {
                if c == '"' {
                    mode = LexMode::Word;
                } else if c == '\\' {
                    mode = LexMode::DoubleEsc;
                } else {
                    push_char(&mut cur, c);
                }
            },
            LexMode::DoubleEsc => {
                if c == '$' || c == '`' || c == '"' || c == '\\' {
                    push_char(&mut cur, c);
                    mode = LexMode::Double;
                } else if c == '\n' {
                    mode = LexMode::Double;
                } else {
                    push_char(&mut cur, '\\');
                    push_char(&mut cur, c);
                    mode = LexMode::Double;
                }
            },
        }
        i += 1;
        proof {
            assert(lex_at(s@, i as int) == lex_step(pre, s@[i - 1]));
        }
    }
    let mut failed = false;
    match mode {
        LexMode::Word => {
            let ghost pre_toks = toks.deep_view();
            let ghost pre_cur = cur@;
            toks.push(cur);
            proof {
                assert(toks.deep_view() =~= pre_toks.push(pre_cur));
            }
        },
        LexMode::Delim => {},
        LexMode::Comment => {},
        _ => {
            failed = true;
        },
    }
    (toks, failed)
}

} // verus!
