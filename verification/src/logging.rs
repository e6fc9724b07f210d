//! What the per-step logger writes: message levels and their tags and
//! colours, the console and log-file lines, command labels, log file
//! names, and the tail of a captured log.
use vstd::prelude::*;
use crate::text::{cat, cat3, from_chars, join, join_strings, to_chars};

verus! {

/// The kind of a logged message.
#[derive(Debug, Clone, Copy, PartialEq, Eq, Structural)]
pub enum Level {
    /// A pipeline step starts (`==>`).
    Heading,
    Info,
    Success,
    Warning,
    Failure,
}

pub open spec fn spec_tag(level: Level) -> Seq<char> {
    match level {
        Level::Heading => "==>"@,
        Level::Info => "[info]"@,
        Level::Success => "[ok]"@,
        Level::Warning => "[warn]"@,
        Level::Failure => "[fail]"@,
    }
}

/// The ANSI colour that starts a tag, when colour is on.
pub open spec fn spec_color(level: Level) -> Seq<char> {
    match level {
        Level::Heading => "\x1b[1;35m"@,
        Level::Info => "\x1b[36m"@,
        Level::Success => "\x1b[1;32m"@,
        Level::Warning => "\x1b[1;33m"@,
        Level::Failure => "\x1b[1;31m"@,
    }
}

/// The ANSI sequence that ends a coloured tag.
pub open spec fn spec_reset() -> Seq<char> {
    "\x1b[0m"@
}

/// The line shown on the terminal: the tag, coloured when `color` is on,
/// then a space and the message.
pub open spec fn spec_console_line(color: bool, level: Level, msg: Seq<char>) -> Seq<char> {
    if color {
        spec_color(level) + spec_tag(level) + spec_reset() + " "@ + msg
    } else {
        spec_tag(level) + " "@ + msg
    }
}

/// The plain line kept in the log file.
pub open spec fn spec_file_line(level: Level, msg: Seq<char>) -> Seq<char> {
    spec_tag(level) + " "@ + msg
}

/// How a command is shown: the program, then its arguments separated by
/// spaces.
pub open spec fn spec_pretty(program: Seq<char>, args: Seq<Seq<char>>) -> Seq<char> {
    if args.len() == 0 {
        program
    } else {
        program + " "@ + join(args, " "@)
    }
}

/// The first position of `c` in `s`, if any.
pub open spec fn first_index_of(s: Seq<char>, c: char) -> Option<int>
    decreases s.len(),
{
    if s.len() == 0 {
        None
    } else if s[0] == c {
        Some(0)
    } else {
        match first_index_of(s.drop_first(), c) {
            Some(i) => Some(i + 1),
            None => None,
        }
    }
}

/// A line without the `\r` of its `\r\n` ending.
pub open spec fn strip_cr(line: Seq<char>) -> Seq<char> {
    if line.len() > 0 && line.last() == '\r' {
        line.drop_last()
    } else {
        line
    }
}

/// The lines of a text: split at `\n` or `\r\n`, without the line
/// endings; a final line ending is optional and adds no empty line.
pub open spec fn text_lines(s: Seq<char>) -> Seq<Seq<char>>
    decreases s.len(),
{
    match first_index_of(s, '\n') {
        None => if s.len() == 0 {
            Seq::empty()
        } else {
            seq![s]
        },
        Some(i) => if 0 <= i < s.len() {
            seq![strip_cr(s.subrange(0, i))] + text_lines(s.subrange(i + 1, s.len() as int))
        } else {
            Seq::empty()
        },
    }
}

/// The last `n` lines of a text (all of them when it has fewer).
pub open spec fn last_lines(s: Seq<char>, n: nat) -> Seq<Seq<char>> {
    let all = text_lines(s);
    if all.len() <= n {
        all
    } else {
        all.subrange(all.len() - n, all.len() as int)
    }
}

impl Level {
    pub fn tag(self) -> (r: &'static str)
        ensures
            r@ == spec_tag(self),
    {
        match self {
            Level::Heading => "==>",
            Level::Info => "[info]",
            Level::Success => "[ok]",
            Level::Warning => "[warn]",
            Level::Failure => "[fail]",
        }
    }

    pub fn color(self) -> (r: &'static str)
        ensures
            r@ == spec_color(self),
    {
        match self {
            Level::Heading => "\x1b[1;35m",
            Level::Info => "\x1b[36m",
            Level::Success => "\x1b[1;32m",
            Level::Warning => "\x1b[1;33m",
            Level::Failure => "\x1b[1;31m",
        }
    }
}

/// The line shown on the terminal for a message.
pub fn console_line(color: bool, level: Level, msg: &str) -> (r: String)
    ensures
        r@ == spec_console_line(color, level, msg@),
{
    if color {
        let r = cat3(level.color(), level.tag(), "\x1b[0m");
        let r = r.concat(" ");
        r.concat(msg)
    } else {
        cat3(level.tag(), " ", msg)
    }
}

/// The line written to the log file for a message.
pub fn file_line(level: Level, msg: &str) -> (r: String)
    ensures
        r@ == spec_file_line(level, msg@),
{
    cat3(level.tag(), " ", msg)
}

/// The label of a command, as shown in messages and errors.
pub fn pretty(program: &str, args: &Vec<String>) -> (r: String)
    ensures
        r@ == spec_pretty(program@, args.deep_view()),
{
    if args.len() == 0 {
        String::from_str(program)
    } else {
        let list = join_strings(args, " ");
        cat3(program, " ", list.as_str())
    }
}

/// `<step>-<stamp>.log`.
pub fn log_file_name(step: &str, stamp: &str) -> (r: String)
    ensures
        r@ == step@ + "-"@ + stamp@ + ".log"@,
{
    let r = cat3(step, "-", stamp);
    r.concat(".log")
}

/// `<step>-latest.log`, the link to the newest log of a step.
pub fn latest_log_name(step: &str) -> (r: String)
    ensures
        r@ == step@ + "-latest.log"@,
{
    cat(step, "-latest.log")
}

/// The message that announces where a step logs.
pub fn logging_to_message(step: &str, shown: &str) -> (r: String)
    ensures
        r@ == "logging "@ + step@ + " -> "@ + shown@,
{
    let r = cat3("logging ", step, " -> ");
    r.concat(shown)
}

/// The message shown when a captured command fails.
pub fn command_failed_message(label: &str, log: &str) -> (r: String)
    ensures
        r@ == "`"@ + label@ + "` failed — tail of "@ + log@ + ":"@,
{
    let r = cat3("`", label, "` failed — tail of ");
    r.concat(log).concat(":")
}

/// An indented line of a log tail, as printed after a failure.
pub fn tail_display_line(line: &str) -> (r: String)
    ensures
        r@ == "    "@ + line@,
{
    cat("    ", line)
}

/// How many log lines are shown after a captured command fails.
pub fn failure_tail_len() -> (r: usize)
    ensures
        r == 20,
{
    20
}

/// Where `\n` first occurs in `cs` from `from` on, relative to `from`.
proof fn lemma_first_newline(s: Seq<char>, j: int)
    requires
        0 <= j < s.len(),
        s[j] == '\n',
        forall|k: int| 0 <= k < j ==> s[k] != '\n',
    ensures
        first_index_of(s, '\n') == Some(j),
    decreases j,
{
    if j > 0 {
        lemma_first_newline(s.drop_first(), j - 1);
    }
}

/// `s` holds no `\n`.
proof fn lemma_no_newline(s: Seq<char>)
    requires
        forall|k: int| 0 <= k < s.len() ==> s[k] != '\n',
    ensures
        first_index_of(s, '\n') is None,
    decreases s.len(),
{
    if s.len() > 0 {
        lemma_no_newline(s.drop_first());
    }
}

/// The lines of a text (as `str::lines` yields them).
pub fn lines(text: &str) -> (r: Vec<String>)
    ensures
        r.deep_view() == text_lines(text@),
{
    let cs = to_chars(text);
    let ghost s = text@;
    let mut r: Vec<String> = Vec::new();
    let mut start: usize = 0;
    let mut j: usize = 0;
    assert(s.subrange(0, s.len() as int) =~= s);
    assert(r.deep_view() =~= Seq::<Seq<char>>::empty());
    while j < cs.len()
        invariant
            cs@ == s,
            start <= j <= cs.len(),
            forall|k: int| start <= k < j ==> s[k] != '\n',
            text_lines(s) == r.deep_view() + text_lines(s.subrange(start as int, s.len() as int)),
        decreases cs.len() - j,
    {
        if cs[j] == '\n' {
            let ghost rest = s.subrange(start as int, s.len() as int);
            proof {
                lemma_first_newline(rest, j - start);
                assert(rest.subrange(0, j - start) =~= s.subrange(start as int, j as int));
                assert(rest.subrange(j - start + 1, rest.len() as int) =~= s.subrange(j + 1, s.len() as int));
            }
            let end = if j > start && cs[j - 1] == '\r' { j - 1 } else { j };
            let line = from_chars(&cs, start, end);
            proof {
                assert(line@ == strip_cr(s.subrange(start as int, j as int)));
            }
            let ghost before = r.deep_view();
            r.push(line);
            assert(r.deep_view() =~= before.push(line@));
            assert(text_lines(s) =~= r.deep_view() + text_lines(s.subrange(j + 1, s.len() as int)));
            start = j + 1;
        }
        j = j + 1;
    }
    let ghost rest = s.subrange(start as int, s.len() as int);
    proof {
        lemma_no_newline(rest);
    }
    if start < cs.len() {
        let line = from_chars(&cs, start, cs.len());
        let ghost before = r.deep_view();
        r.push(line);
        assert(r.deep_view() =~= before + text_lines(rest));
    } else {
        assert(r.deep_view() =~= r.deep_view() + text_lines(rest));
    }
    r
}

/// The last `n` lines of a captured log (best-effort error context).
pub fn tail_lines(text: &str, n: usize) -> (r: Vec<String>)
    ensures
        r.deep_view() == last_lines(text@, n as nat),
{
    let all = lines(text);
    let from = if all.len() <= n { 0 } else { all.len() - n };
    let mut r: Vec<String> = Vec::new();
    let mut i = from;
    while i < all.len()
        invariant
            from <= i <= all.len(),
            all.deep_view() == text_lines(text@),
            from == (if all.len() <= n { 0 } else { all.len() - n }),
            r.deep_view() == all.deep_view().subrange(from as int, i as int),
        decreases all.len() - i,
    {
        let ghost before = r.deep_view();
        let item = all[i].clone();
        r.push(item);
        assert(r.deep_view() =~= before.push(all.deep_view()[i as int]));
        assert(r.deep_view() =~= all.deep_view().subrange(from as int, i + 1));
        i = i + 1;
    }
    assert(all.deep_view().subrange(0, all.len() as int) =~= all.deep_view());
    r
}

} // verus!
