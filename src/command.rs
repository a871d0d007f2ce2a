//! The commands of a debugging session, and how a command line is read.
//!
//! A line is split into words at white space. The first word names the
//! command; the words after it are its arguments, and words beyond those
//! that the command takes are ignored.

use vstd::prelude::*;
use vstd::string::StrSliceExecFns;

verus! {

/// A command of a debugging session.
#[derive(Debug, Clone)]
pub enum Command {
    /// Drop the interpreter.
    UnsetInterpreter,
    /// Create an interpreter of the given length and width.
    SetInterpreter { arch_length: usize, arch_width: usize },
    /// Show the length and width of the interpreter.
    InfosInterpreter,
    /// Show the state of the interpreter.
    Infos,
    /// Load the program in the named file; the flag tells whether one final
    /// newline is dropped.
    Copy(String, bool),
    /// Reset the registers.
    Reset,
    /// Execute up to that many steps.
    Step(usize),
    /// Run the previous command again.
    Repeat,
    /// Leave the session.
    Exit,
}

/// What a command means, with the file name of `Copy` as its characters.
pub enum CommandView {
    UnsetInterpreter,
    SetInterpreter { arch_length: nat, arch_width: nat },
    InfosInterpreter,
    Infos,
    Copy(Seq<char>, bool),
    Reset,
    Step(nat),
    Repeat,
    Exit,
}

impl View for Command {
    type V = CommandView;

    open spec fn view(&self) -> CommandView {
        match self {
            Command::UnsetInterpreter => CommandView::UnsetInterpreter,
            Command::SetInterpreter { arch_length, arch_width } => CommandView::SetInterpreter {
                arch_length: *arch_length as nat,
                arch_width: *arch_width as nat,
            },
            Command::InfosInterpreter => CommandView::InfosInterpreter,
            Command::Infos => CommandView::Infos,
            Command::Copy(name, ignore) => CommandView::Copy(name@, *ignore),
            Command::Reset => CommandView::Reset,
            Command::Step(n) => CommandView::Step(*n as nat),
            Command::Repeat => CommandView::Repeat,
            Command::Exit => CommandView::Exit,
        }
    }
}

/// Why a command line could not be read.
#[derive(Debug, Clone, Copy, PartialEq, Eq, Structural)]
pub enum CommandError {
    /// `interpreter` without a length.
    MissingArchLength,
    /// `interpreter` without a width.
    MissingArchWidth,
    /// A number that is not a run of decimal digits fitting in `usize`.
    InvalidNumber,
    /// `copy` without a file name.
    MissingFileName,
    /// A flag other than `true` or `false`.
    InvalidFlag,
    /// A first word that names no command.
    UnknownCommand,
}

impl CommandError {
    pub open spec fn spec_description(self) -> Seq<char> {
        match self {
            CommandError::MissingArchLength => "missing arch length"@,
            CommandError::MissingArchWidth => "missing arch width"@,
            CommandError::InvalidNumber => "invalid number"@,
            CommandError::MissingFileName => "missing file name"@,
            CommandError::InvalidFlag => "invalid flag, expected true or false"@,
            CommandError::UnknownCommand => "invalid command"@,
        }
    }

    /// A message that describes the error.
    pub fn description(&self) -> (r: &'static str)
        ensures
            r@ == self.spec_description(),
    {
        match self {
            CommandError::MissingArchLength => "missing arch length",
            CommandError::MissingArchWidth => "missing arch width",
            CommandError::InvalidNumber => "invalid number",
            CommandError::MissingFileName => "missing file name",
            CommandError::InvalidFlag => "invalid flag, expected true or false",
            CommandError::UnknownCommand => "invalid command",
        }
    }
}

/// The characters that separate words.
pub open spec fn is_space(c: char) -> bool {
    c == ' ' || c == '\t' || c == '\n' || c == '\r' || c == '\x0B' || c == '\x0C'
}

/// The words of a line: its maximal runs of characters other than spaces,
/// in order.
pub open spec fn words(s: Seq<char>) -> Seq<Seq<char>>
    decreases s.len(),
{
    if s.len() == 0 {
        Seq::empty()
    } else {
        let w = words(s.drop_last());
        let c = s.last();
        if is_space(c) {
            w
        } else if s.len() == 1 || is_space(s[s.len() - 2]) {
            w.push(seq![c])
        } else {
            w.update(w.len() - 1, w.last().push(c))
        }
    }
}

pub open spec fn is_digit(c: char) -> bool {
    '0' <= c <= '9'
}

/// The value of a run of decimal digits.
pub open spec fn decimal(s: Seq<char>) -> nat
    decreases s.len(),
{
    if s.len() == 0 {
        0
    } else {
        decimal(s.drop_last()) * 10 + (s.last() as nat - '0' as nat) as nat
    }
}

/// One or more decimal digits whose value fits in `usize`.
pub open spec fn parse_digits(s: Seq<char>) -> Option<nat> {
    if s.len() > 0 && (forall|i: int| 0 <= i < s.len() ==> is_digit(#[trigger] s[i])) && decimal(s)
        <= usize::MAX {
        Some(decimal(s))
    } else {
        None
    }
}

/// A count: an optional `+`, then one or more decimal digits whose value
/// fits in `usize`.
pub open spec fn parse_count(s: Seq<char>) -> Option<nat> {
    if s.len() > 0 && s[0] == '+' {
        parse_digits(s.drop_first())
    } else {
        parse_digits(s)
    }
}

/// A flag: `true` or `false`.
pub open spec fn parse_flag(s: Seq<char>) -> Option<bool> {
    if s == "true"@ {
        Some(true)
    } else if s == "false"@ {
        Some(false)
    } else {
        None
    }
}

/// The command that a line asks for.
pub open spec fn parse_command(line: Seq<char>) -> Result<CommandView, CommandError> {
    let w = words(line);
    if w.len() == 0 || w[0] == "repeat"@ {
        Ok(CommandView::Repeat)
    } else if w[0] == "unset_interpreter"@ {
        Ok(CommandView::UnsetInterpreter)
    } else if w[0] == "interpreter"@ || w[0] == "set_interpreter"@ {
        if w.len() < 2 {
            Err(CommandError::MissingArchLength)
        } else if parse_count(w[1]) is None {
            Err(CommandError::InvalidNumber)
        } else if w.len() < 3 {
            Err(CommandError::MissingArchWidth)
        } else if parse_count(w[2]) is None {
            Err(CommandError::InvalidNumber)
        } else {
            Ok(
                CommandView::SetInterpreter {
                    arch_length: parse_count(w[1])->Some_0,
                    arch_width: parse_count(w[2])->Some_0,
                },
            )
        }
    } else if w[0] == "infos_interpreter"@ || w[0] == "inter"@ {
        Ok(CommandView::InfosInterpreter)
    } else if w[0] == "infos"@ || w[0] == "info"@ || w[0] == "i"@ {
        Ok(CommandView::Infos)
    } else if w[0] == "copy"@ || w[0] == "load"@ {
        if w.len() < 2 {
            Err(CommandError::MissingFileName)
        } else if w.len() < 3 {
            Ok(CommandView::Copy(w[1], true))
        } else if parse_flag(w[2]) is None {
            Err(CommandError::InvalidFlag)
        } else {
            Ok(CommandView::Copy(w[1], parse_flag(w[2])->Some_0))
        }
    } else if w[0] == "reset"@ || w[0] == "r"@ {
        Ok(CommandView::Reset)
    } else if w[0] == "step"@ || w[0] == "s"@ || w[0] == "next"@ || w[0] == "n"@ {
        if w.len() < 2 {
            Ok(CommandView::Step(1))
        } else if parse_count(w[1]) is None {
            Err(CommandError::InvalidNumber)
        } else {
            Ok(CommandView::Step(parse_count(w[1])->Some_0))
        }
    } else if w[0] == "exit"@ || w[0] == "quit"@ || w[0] == "q"@ || w[0] == "e"@ {
        Ok(CommandView::Exit)
    } else {
        Err(CommandError::UnknownCommand)
    }
}

fn is_space_char(c: char) -> (r: bool)
    ensures
        r == is_space(c),
{
    c == ' ' || c == '\t' || c == '\n' || c == '\r' || c == '\x0B' || c == '\x0C'
}

/// Where the words of a line start and end, as positions of characters.
fn word_spans(line: &str) -> (r: Vec<(usize, usize)>)
    ensures
        r@.len() == words(line@).len(),
        forall|k: int|
            0 <= k < r@.len() ==> {
                &&& (#[trigger] r@[k]).0 <= r@[k].1 <= line@.len()
                &&& line@.subrange(r@[k].0 as int, r@[k].1 as int) == words(line@)[k]
            },
{
    let n = line.unicode_len();
    let mut spans: Vec<(usize, usize)> = Vec::new();
    let mut i: usize = 0;
    let mut in_word = false;
    while i < n
        invariant
            n == line@.len(),
            i <= n,
            spans@.len() == words(line@.take(i as int)).len(),
            forall|k: int|
                0 <= k < spans@.len() ==> {
                    &&& (#[trigger] spans@[k]).0 <= spans@[k].1 <= i
                    &&& line@.subrange(spans@[k].0 as int, spans@[k].1 as int) == words(
                        line@.take(i as int),
                    )[k]
                },
            in_word <==> (i > 0 && !is_space(line@[i - 1])),
            in_word ==> spans@.len() > 0 && spans@.last().1 == i,
        decreases n - i,
    {
        let c = line.get_char(i);
        let ghost before = line@.take(i as int);
        let ghost after = line@.take(i + 1);
        assert(after.drop_last() =~= before);
        assert(after.last() == c);
        if is_space_char(c) {
            in_word = false;
        } else if !in_word {
            spans.push((i, i + 1));
            in_word = true;
            assert(line@.subrange(i as int, i + 1) =~= seq![c]);
        } else {
            let last = spans.len() - 1;
            let start = spans[last].0;
            spans.set(last, (start, i + 1));
            assert(line@.subrange(start as int, i + 1) =~= line@.subrange(start as int, i as int).push(c));
        }
        i = i + 1;
    }
    assert(line@.take(n as int) =~= line@);
    spans
}

/// A run of digits keeps at least the value of each of its prefixes.
proof fn lemma_decimal_prefix(s: Seq<char>, k: int)
    requires
        0 <= k <= s.len(),
        forall|i: int| 0 <= i < s.len() ==> is_digit(#[trigger] s[i]),
    ensures
        decimal(s.take(k)) <= decimal(s),
    decreases s.len(),
{
    if k < s.len() {
        let t = s.drop_last();
        assert(t.take(k) =~= s.take(k));
        assert forall|i: int| 0 <= i < t.len() implies is_digit(#[trigger] t[i]) by {
            assert(t[i] == s[i]);
        }
        lemma_decimal_prefix(t, k);
    } else {
        assert(s.take(k) =~= s);
    }
}

/// Whether the characters `from..to` of `line` spell `lit`.
fn span_is(line: &str, from: usize, to: usize, lit: &str) -> (r: bool)
    requires
        from <= to <= line@.len(),
    ensures
        r == (line@.subrange(from as int, to as int) == lit@),
{
    let n = lit.unicode_len();
    if to - from != n {
        return false;
    }
    let mut i: usize = 0;
    while i < n
        invariant
            from <= to <= line@.len(),
            to - from == n,
            n == lit@.len(),
            i <= n,
            forall|k: int| 0 <= k < i ==> line@[from + k] == lit@[k],
        decreases n - i,
    {
        if line.get_char(from + i) != lit.get_char(i) {
            assert(line@.subrange(from as int, to as int)[i as int] != lit@[i as int]);
            return false;
        }
        i = i + 1;
    }
    assert(line@.subrange(from as int, to as int) =~= lit@);
    true
}

/// The count that the characters `from..to` of `line` spell, if they do.
fn parse_count_span(line: &str, from: usize, to: usize) -> (r: Option<usize>)
    requires
        from <= to <= line@.len(),
    ensures
        r matches Some(v) ==> parse_count(line@.subrange(from as int, to as int)) == Some(v as nat),
        r is None ==> parse_count(line@.subrange(from as int, to as int)) is None,
{
    if from < to && line.get_char(from) == '+' {
        assert(line@.subrange(from as int, to as int).drop_first() =~= line@.subrange(from + 1, to as int));
        parse_digits_span(line, from + 1, to)
    } else {
        parse_digits_span(line, from, to)
    }
}

/// The value of the digits `from..to` of `line`, if they are digits and
/// the value fits.
fn parse_digits_span(line: &str, from: usize, to: usize) -> (r: Option<usize>)
    requires
        from <= to <= line@.len(),
    ensures
        r matches Some(v) ==> parse_digits(line@.subrange(from as int, to as int)) == Some(v as nat),
        r is None ==> parse_digits(line@.subrange(from as int, to as int)) is None,
{
    let ghost word = line@.subrange(from as int, to as int);
    if from == to {
        return None;
    }
    let mut value: usize = 0;
    let mut i: usize = from;
    while i < to
        invariant
            from <= i <= to <= line@.len(),
            word == line@.subrange(from as int, to as int),
            value == decimal(word.take(i - from)),
            forall|k: int| 0 <= k < i - from ==> is_digit(#[trigger] word[k]),
        decreases to - i,
    {
        let c = line.get_char(i);
        assert(word[i - from] == c);
        if !('0' <= c && c <= '9') {
            return None;
        }
        let ghost prefix = word.take(i - from + 1);
        assert(prefix.drop_last() =~= word.take(i - from));
        assert(prefix.last() == c);
        let digit = (c as u32 - '0' as u32) as usize;
        let next = match value.checked_mul(10) {
            Some(tens) => tens.checked_add(digit),
            None => None,
        };
        match next {
            Some(v) => value = v,
            None => {
                proof {
                    if forall|k: int| 0 <= k < word.len() ==> is_digit(#[trigger] word[k]) {
                        lemma_decimal_prefix(word, i - from + 1);
                    }
                }
                return None;
            },
        }
        i = i + 1;
    }
    assert(word.take(to - from) =~= word);
    Some(value)
}

impl Command {
    /// Reads a command line.
    pub fn parse(line: &str) -> (r: Result<Command, CommandError>)
        ensures
            r matches Ok(c) ==> parse_command(line@) == Ok::<CommandView, CommandError>(c@),
            r matches Err(e) ==> parse_command(line@) == Err::<CommandView, CommandError>(e),
    {
        let spans = word_spans(line);
        if spans.len() == 0 {
            return Ok(Command::Repeat);
        }
        let (f0, t0) = spans[0];
        if span_is(line, f0, t0, "repeat") {
            return Ok(Command::Repeat);
        }
        if span_is(line, f0, t0, "unset_interpreter") {
            return Ok(Command::UnsetInterpreter);
        }
        if span_is(line, f0, t0, "interpreter") || span_is(line, f0, t0, "set_interpreter") {
            if spans.len() < 2 {
                return Err(CommandError::MissingArchLength);
            }
            let (f1, t1) = spans[1];
            let arch_length = match parse_count_span(line, f1, t1) {
                Some(v) => v,
                None => return Err(CommandError::InvalidNumber),
            };
            if spans.len() < 3 {
                return Err(CommandError::MissingArchWidth);
            }
            let (f2, t2) = spans[2];
            let arch_width = match parse_count_span(line, f2, t2) {
                Some(v) => v,
                None => return Err(CommandError::InvalidNumber),
            };
            return Ok(Command::SetInterpreter { arch_length, arch_width });
        }
        if span_is(line, f0, t0, "infos_interpreter") || span_is(line, f0, t0, "inter") {
            return Ok(Command::InfosInterpreter);
        }
        if span_is(line, f0, t0, "infos") || span_is(line, f0, t0, "info") || span_is(line, f0, t0, "i") {
            return Ok(Command::Infos);
        }
        if span_is(line, f0, t0, "copy") || span_is(line, f0, t0, "load") {
            if spans.len() < 2 {
                return Err(CommandError::MissingFileName);
            }
            let (f1, t1) = spans[1];
            let name = line.substring_char(f1, t1).to_owned();
            if spans.len() < 3 {
                return Ok(Command::Copy(name, true));
            }
            let (f2, t2) = spans[2];
            if span_is(line, f2, t2, "true") {
                return Ok(Command::Copy(name, true));
            }
            if span_is(line, f2, t2, "false") {
                return Ok(Command::Copy(name, false));
            }
            return Err(CommandError::InvalidFlag);
        }
        if span_is(line, f0, t0, "reset") || span_is(line, f0, t0, "r") {
            return Ok(Command::Reset);
        }
        if span_is(line, f0, t0, "step") || span_is(line, f0, t0, "s") || span_is(line, f0, t0, "next")
            || span_is(line, f0, t0, "n") {
            if spans.len() < 2 {
                return Ok(Command::Step(1));
            }
            let (f1, t1) = spans[1];
            return match parse_count_span(line, f1, t1) {
                Some(v) => Ok(Command::Step(v)),
                None => Err(CommandError::InvalidNumber),
            };
        }
        if span_is(line, f0, t0, "exit") || span_is(line, f0, t0, "quit") || span_is(line, f0, t0, "q")
            || span_is(line, f0, t0, "e") {
            return Ok(Command::Exit);
        }
        Err(CommandError::UnknownCommand)
    }
}

impl std::str::FromStr for Command {
    type Err = CommandError;

    fn from_str(s: &str) -> Result<Command, CommandError> {
        Command::parse(s)
    }
}

} // verus!
