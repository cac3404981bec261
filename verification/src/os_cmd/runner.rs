//! Command runner: normalizes a command representation into an argv,
//! decides how it is inspected, and plans its execution.

use vstd::prelude::*;
use vstd::string::*;

use crate::os_cmd::lexer;
use crate::os_cmd::lexer::shell_tokens;
use crate::os_cmd::process::CommandSpawner;
use crate::os_cmd::process::ProcessError;
use crate::os_cmd::process::SpawnPlan;
use crate::os_cmd::process::StdioMode;
use crate::os_cmd::process::spec_effective_stdin_mode;
use crate::os_cmd::repr::CommandRepr;
use crate::os_cmd::text;
use crate::os_cmd::text::chomp_cr;
use crate::os_cmd::text::join_lines;
use crate::os_cmd::text::keep_line;
use crate::os_cmd::text::kept_from;
use crate::os_cmd::text::kept_lines;
use crate::os_cmd::text::strip_comments;
use crate::os_cmd::text::trim_ascii_spec;

verus! {

/// Removes every line whose first non-whitespace characters are `//` and
/// joins the remaining lines with nothing between them: command text often
/// continues across lines with meaningful leading spaces, so no separator is
/// inserted.
pub fn remove_comments_and_collect(s: &str) -> (r: String)
    ensures
        r@ == strip_comments(s@),
{
    let n = s.unicode_len();
    let mut out = String::new();
    let mut start: usize = 0;
    let mut pos: usize = 0;
    while pos < n
        invariant
            start <= pos <= n,
            n == s@.len(),
            join_lines(kept_lines(s@)) == out@ + join_lines(
                kept_from(s@, start as int, pos as int),
            ),
        decreases n - pos,
    {
        let c = s.get_char(pos);
        if c == '\n' {
            let line_end = if pos > start && s.get_char(pos - 1) == '\r' {
                pos - 1
            } else {
                pos
            };
            let line = s.substring_char(start, line_end);
            proof {
                let sub = s@.subrange(start as int, pos as int);
                if pos > start && s@[pos - 1] == '\r' {
                    assert(sub.last() == '\r');
                    assert(line@ =~= sub.drop_last());
                } else {
                    assert(line@ =~= sub);
                }
                assert(line@ == chomp_cr(sub));
                lemma_kept_from_newline_use(s@, start as int, pos as int);
            }
            let ghost pre_out = out@;
            if !line_is_comment_here(line) {
                out.append(line);
            }
            proof {
                let kept_rest = kept_from(s@, pos + 1, pos + 1);
                if keep_line(line@) {
                    text::lemma_join_lines_add(seq![line@], kept_rest);
                    text::lemma_join_lines_singleton(line@);
                    assert(out@ =~= pre_out + line@);
                } else {
                    assert(join_lines(Seq::<Seq<char>>::empty() + kept_rest) == join_lines(
                        kept_rest,
                    )) by {
                        assert(Seq::<Seq<char>>::empty() + kept_rest =~= kept_rest);
                    }
                }
            }
            start = pos + 1;
        } else {
            proof {
                text::lemma_kept_from_step(s@, start as int, pos as int);
            }
        }
        pos += 1;
    }
    proof {
        text::lemma_kept_from_end(s@, start as int);
    }
    if start < n {
        let line = s.substring_char(start, n);
        let ghost pre_out = out@;
        if !line_is_comment_here(line) {
            out.append(line);
        }
        proof {
            if keep_line(line@) {
                text::lemma_join_lines_singleton(line@);
                assert(out@ =~= pre_out + line@);
            } else {
                assert(join_lines(Seq::<Seq<char>>::empty()) =~= Seq::<char>::empty());
                assert(out@ =~= pre_out + join_lines(Seq::<Seq<char>>::empty()));
            }
        }
    } else {
        proof {
            assert(join_lines(Seq::<Seq<char>>::empty()) =~= Seq::<char>::empty());
            assert(out@ =~= out@ + join_lines(Seq::<Seq<char>>::empty()));
        }
    }
    out
}

/// Decides `keep_line` (negated); wraps the comment test of `text`.
fn line_is_comment_here(l: &str) -> (r: bool)
    ensures
        r == !keep_line(l@),
{
    text::line_is_comment(l)
}

proof fn lemma_kept_from_newline_use(s: Seq<char>, start: int, pos: int)
    requires
        0 <= start <= pos < s.len(),
        s[pos] == '\n',
    ensures
        join_lines(kept_from(s, start, pos)) == (if keep_line(chomp_cr(s.subrange(start, pos))) {
            chomp_cr(s.subrange(start, pos))
        } else {
            Seq::<char>::empty()
        }) + join_lines(kept_from(s, pos + 1, pos + 1)),
{
    let l = chomp_cr(s.subrange(start, pos));
    text::lemma_kept_from_newline(s, start, pos);
    if keep_line(l) {
        text::lemma_join_lines_add(seq![l], kept_from(s, pos + 1, pos + 1));
        text::lemma_join_lines_singleton(l);
    } else {
        assert(Seq::<Seq<char>>::empty() + kept_from(s, pos + 1, pos + 1) =~= kept_from(
            s,
            pos + 1,
            pos + 1,
        ));
        assert(Seq::<char>::empty() + join_lines(kept_from(s, pos + 1, pos + 1)) =~= join_lines(
            kept_from(s, pos + 1, pos + 1),
        ));
    }
}

/// The tokens that raw command text yields: the text is trimmed, optionally
/// comment-stripped, and then split into shell-like words.
pub open spec fn raw_tokens(s: Seq<char>, remove_comments: bool) -> Seq<Seq<char>> {
    if remove_comments {
        shell_tokens(strip_comments(trim_ascii_spec(s)))
    } else {
        shell_tokens(trim_ascii_spec(s))
    }
}

/// The argv that normalizing a command representation yields: raw text is
/// tokenized, pre-split lists pass through token for token, untouched by
/// `remove_comments`.
pub open spec fn normalize_spec(repr: CommandRepr, remove_comments: bool) -> Seq<Seq<char>> {
    match repr {
        CommandRepr::Raw(s) => raw_tokens(s@, remove_comments),
        CommandRepr::Slice(v) => v.deep_view(),
        CommandRepr::OwnedSlice(v) => v.deep_view(),
    }
}

/// Normalization never touches a pre-split command: whatever the
/// `remove_comments` flag says, the tokens pass through one for one.
pub proof fn lemma_presplit_normalization_identity(repr: CommandRepr, rc1: bool, rc2: bool)
    requires
        !repr.is_raw(),
    ensures
        normalize_spec(repr, rc1) == repr.presplit_view(),
        normalize_spec(repr, rc1) == normalize_spec(repr, rc2),
{
}

/// Normalizes a command representation into an argv; see `normalize_spec`.
pub fn normalize(repr: CommandRepr, remove_comments: bool) -> (r: Vec<String>)
    ensures
        r.deep_view() == normalize_spec(repr, remove_comments),
{
    match repr {
        CommandRepr::Raw(raw) => Runner::collect_raw(raw, remove_comments),
        CommandRepr::Slice(items) => {
            let ghost iv = items.deep_view();
            let mut out: Vec<String> = Vec::new();
            let mut i: usize = 0;
            while i < items.len()
                invariant
                    i <= items.len(),
                    iv == items.deep_view(),
                    iv.len() == items@.len(),
                    out.deep_view() == iv.take(i as int),
                decreases items.len() - i,
            {
                let ghost pre = out.deep_view();
                out.push(items[i].to_owned());
                proof {
                    assert(out.deep_view() =~= pre.push(iv[i as int]));
                    assert(pre.push(iv[i as int]) =~= iv.take(i + 1));
                }
                i += 1;
            }
            proof {
                assert(iv.take(iv.len() as int) =~= iv);
            }
            out
        },
        CommandRepr::OwnedSlice(items) => items,
    }
}

/// How the resolved argv is surfaced before execution.
#[derive(Debug, Clone, Copy, PartialEq, Eq, Structural)]
pub enum InspectMode {
    /// Print the argv to standard error.
    Stderr,
    /// Emit the argv to the structured debug log.
    LogDebug,
    /// Say nothing.
    Silent,
}

/// Command runner with configurable preprocessing and execution strategy.
#[derive(Debug, Clone)]
pub struct Runner<'a> {
    /// Command representation (raw string or pre-split lists).
    pub command: CommandRepr<'a>,
    /// Whether `//` comment lines are removed from raw command text.
    pub remove_comments: bool,
    /// How the resolved argv is surfaced before execution.
    pub inspect_mode: InspectMode,
    /// Bytes to feed to the child's stdin, if any.
    pub stdin_data: Option<Vec<u8>>,
}

impl<'a> Default for Runner<'a> {
    /// Default: the raw text `cargo`, comments removed, argv echoed to
    /// standard error, no stdin data.
    fn default() -> (r: Self)
        ensures
            r.command matches CommandRepr::Raw(s) && s@ == "cargo"@,
            r.remove_comments == true,
            r.inspect_mode == InspectMode::Stderr,
            r.stdin_data is None,
    {
        Runner {
            command: CommandRepr::Raw("cargo"),
            remove_comments: true,
            inspect_mode: InspectMode::Stderr,
            stdin_data: None,
        }
    }
}

impl<'a> Runner<'a> {
    /// The argv this runner resolves to.
    pub open spec fn tokens_view(&self) -> Seq<Seq<char>> {
        normalize_spec(self.command, self.remove_comments)
    }

    /// Parses raw command text into tokens: trims ASCII whitespace,
    /// optionally strips `//` comment lines, and splits shell-like words.
    /// An unterminated quotation or trailing backslash silently drops the
    /// unfinished word, as the split reports.
    pub fn collect_raw(raw: &str, remove_comments: bool) -> (r: Vec<String>)
        ensures
            r.deep_view() == raw_tokens(raw@, remove_comments),
    {
        let trimmed = text::trim_ascii_ws(raw);
        if remove_comments {
            let cleaned = remove_comments_and_collect(trimmed);
            let (toks, _failed) = lexer::shell_split(cleaned.as_str());
            toks
        } else {
            let (toks, _failed) = lexer::shell_split(trimmed);
            toks
        }
    }

    /// Sets the command representation.
    pub fn with_command(self, command: CommandRepr<'a>) -> (r: Self)
        ensures
            r == (Runner { command, ..self }),
    {
        Runner { command, ..self }
    }

    /// Sets whether comment lines are removed from raw command text.
    pub fn with_remove_comments(self, remove_comments: bool) -> (r: Self)
        ensures
            r == (Runner { remove_comments, ..self }),
    {
        Runner { remove_comments, ..self }
    }

    /// Sets how the resolved argv is surfaced.
    pub fn with_inspect_mode(self, inspect_mode: InspectMode) -> (r: Self)
        ensures
            r == (Runner { inspect_mode, ..self }),
    {
        Runner { inspect_mode, ..self }
    }

    /// Sets the bytes to feed to the child's stdin.
    pub fn with_stdin_data(self, stdin_data: Option<Vec<u8>>) -> (r: Self)
        ensures
            r == (Runner { stdin_data, ..self }),
    {
        Runner { stdin_data, ..self }
    }

    /// The command representation.
    pub fn get_command(&self) -> (r: &CommandRepr<'a>)
        ensures
            r == &self.command,
    {
        &self.command
    }

    /// Whether comment lines are removed from raw command text.
    pub fn get_remove_comments(&self) -> (r: bool)
        ensures
            r == self.remove_comments,
    {
        self.remove_comments
    }

    /// How the resolved argv is surfaced.
    pub fn get_inspect_mode(&self) -> (r: InspectMode)
        ensures
            r == self.inspect_mode,
    {
        self.inspect_mode
    }

    /// Resolves this runner into its argv.
    pub fn into_argv(self) -> (r: Vec<String>)
        ensures
            r.deep_view() == self.tokens_view(),
    {
        normalize(self.command, self.remove_comments)
    }

    /// Resolves this runner into a spawner: the argv becomes the command,
    /// the stdin bytes carry over, and all three streams inherit the
    /// parent's stdio until a capture or the stdin data forces a pipe.
    pub fn into_spawner(self) -> (r: CommandSpawner)
        ensures
            r.command matches Some(v) && v.deep_view() == self.tokens_view(),
            r.stdin == StdioMode::Inherit,
            r.stdout == StdioMode::Inherit,
            r.stderr == StdioMode::Inherit,
            r.stdin_data == self.stdin_data,
    {
        let Runner { command, remove_comments, inspect_mode: _, stdin_data } = self;
        let argv = normalize(command, remove_comments);
        CommandSpawner::default().with_command(Some(argv)).with_stdin_data(stdin_data)
    }

    /// Plans a non-capturing run.
    ///
    /// Fails with `EmptyCommand` exactly when the normalized argv is empty;
    /// no spawn is planned then. Otherwise the first token is the program,
    /// the rest are its arguments, stdout and stderr inherit the parent's
    /// stdio, and stdin is piped exactly when stdin data is present. The
    /// inspect mode is handed back beside the plan and never changes the
    /// argv.
    pub fn prepare(self) -> (r: Result<(InspectMode, SpawnPlan), ProcessError>)
        ensures
            r is Ok <==> self.tokens_view().len() > 0,
            r matches Err(e) ==> e == ProcessError::EmptyCommand,
            r matches Ok((ins, p)) ==> {
                &&& ins == self.inspect_mode
                &&& p.program@ == self.tokens_view()[0]
                &&& p.args.deep_view() == self.tokens_view().drop_first()
                &&& p.stdin == spec_effective_stdin_mode(
                    self.stdin_data is Some,
                    StdioMode::Inherit,
                )
                &&& p.stdout == StdioMode::Inherit
                &&& p.stderr == StdioMode::Inherit
                &&& p.stdin_data == self.stdin_data
            },
    {
        let inspect_mode = self.inspect_mode;
        let spawner = self.into_spawner();
        match spawner.spawn_plan() {
            Ok(p) => Ok((inspect_mode, p)),
            Err(e) => Err(e),
        }
    }

    /// Plans a capturing run: as `prepare`, but the requested streams are
    /// forced to `Piped` whatever was configured. The exit status plays no
    /// part here: a capturing run returns its output even when the command
    /// fails.
    pub fn prepare_capture(self, cap_out: bool, cap_err: bool) -> (r: Result<
        (InspectMode, SpawnPlan),
        ProcessError,
    >)
        ensures
            r is Ok <==> self.tokens_view().len() > 0,
            r matches Err(e) ==> e == ProcessError::EmptyCommand,
            r matches Ok((ins, p)) ==> {
                &&& ins == self.inspect_mode
                &&& p.program@ == self.tokens_view()[0]
                &&& p.args.deep_view() == self.tokens_view().drop_first()
                &&& p.stdin == spec_effective_stdin_mode(
                    self.stdin_data is Some,
                    StdioMode::Inherit,
                )
                &&& p.stdout == (if cap_out {
                    StdioMode::Piped
                } else {
                    StdioMode::Inherit
                })
                &&& p.stderr == (if cap_err {
                    StdioMode::Piped
                } else {
                    StdioMode::Inherit
                })
                &&& p.stdin_data == self.stdin_data
            },
    {
        let inspect_mode = self.inspect_mode;
        let spawner = self.into_spawner();
        match spawner.capture_plan(cap_out, cap_err) {
            Ok(p) => Ok((inspect_mode, p)),
            Err(e) => Err(e),
        }
    }
}

impl<'a> From<CommandRepr<'a>> for Runner<'a> {
    /// A runner for the given command, with the default strategy.
    fn from(command: CommandRepr<'a>) -> (r: Self) {
        Runner {
            command,
            remove_comments: true,
            inspect_mode: InspectMode::Stderr,
            stdin_data: None,
        }
    }
}

impl<'a> vstd::std_specs::convert::FromSpecImpl<CommandRepr<'a>> for Runner<'a> {
    open spec fn obeys_from_spec() -> bool {
        true
    }

    open spec fn from_spec(command: CommandRepr<'a>) -> Self {
        Runner {
            command,
            remove_comments: true,
            inspect_mode: InspectMode::Stderr,
            stdin_data: None,
        }
    }
}

impl<'a> From<&'a str> for Runner<'a> {
    /// A runner for the given raw command text, with the default strategy.
    fn from(value: &'a str) -> (r: Self) {
        Runner {
            command: CommandRepr::Raw(value),
            remove_comments: true,
            inspect_mode: InspectMode::Stderr,
            stdin_data: None,
        }
    }
}

impl<'a> vstd::std_specs::convert::FromSpecImpl<&'a str> for Runner<'a> {
    open spec fn obeys_from_spec() -> bool {
        true
    }

    open spec fn from_spec(value: &'a str) -> Self {
        Runner {
            command: CommandRepr::Raw(value),
            remove_comments: true,
            inspect_mode: InspectMode::Stderr,
            stdin_data: None,
        }
    }
}

impl<'a> From<Vec<String>> for Runner<'a> {
    /// A runner for the given pre-split owned tokens.
    fn from(value: Vec<String>) -> (r: Self) {
        Runner {
            command: CommandRepr::OwnedSlice(value),
            remove_comments: true,
            inspect_mode: InspectMode::Stderr,
            stdin_data: None,
        }
    }
}

impl<'a> vstd::std_specs::convert::FromSpecImpl<Vec<String>> for Runner<'a> {
    open spec fn obeys_from_spec() -> bool {
        true
    }

    open spec fn from_spec(value: Vec<String>) -> Self {
        Runner {
            command: CommandRepr::OwnedSlice(value),
            remove_comments: true,
            inspect_mode: InspectMode::Stderr,
            stdin_data: None,
        }
    }
}

} // verus!
