//! The glyphic command language.
//!
//! A line of input is cut at every space into words; the words, behind the
//! program name `bs`, form a command line whose one accepted command is `test`.
use vstd::prelude::*;

verus! {

/// The commands that the glyphic language knows.
#[derive(Debug, Clone, Copy, PartialEq, Eq, Structural)]
pub enum Commands {
    Test,
}

/// Why a line could not be interpreted.
#[derive(Debug)]
pub enum Error {
    /// A failure of the glyphic language itself (no line gives it today).
    GlyphicError,
    /// The command line forms no command.
    ParseError(ParseFailure),
}

/// The text that describes an error.
pub open spec fn error_text(error: &Error) -> Seq<char> {
    match error {
        Error::GlyphicError => "Glyphic Error"@,
        Error::ParseError(_) => "Parsing Error"@,
    }
}

impl Error {
    /// The text that describes this error.
    pub fn to_string(&self) -> (text: String)
        ensures
            text@ == error_text(self),
    {
        match self {
            Error::GlyphicError => String::from_str("Glyphic Error"),
            Error::ParseError(_) => String::from_str("Parsing Error"),
        }
    }
}

/// How a command line that names no command is refused.
#[derive(Debug, Clone, Copy, PartialEq, Eq, Structural)]
pub enum ParseErrorKind {
    /// The line asks for help: a help flag, or the `help` command.
    HelpRequested,
    /// The line names no command at all, so the help is shown instead.
    MissingCommand,
    /// Any other line: an unknown command, an unexpected argument or flag.
    NotACommand,
}

/// A refused command line: why, and the line itself (program name first).
#[derive(Debug)]
pub struct ParseFailure {
    pub kind: ParseErrorKind,
    pub args: Vec<String>,
}

/// The words of `s`: the pieces between the spaces, empty pieces included,
/// so that a line with `k` spaces has `k + 1` words.
pub open spec fn words_of(s: Seq<char>) -> Seq<Seq<char>>
    decreases s.len(),
{
    if s.len() == 0 {
        seq![Seq::<char>::empty()]
    } else {
        let words = words_of(s.drop_last());
        if s.last() == ' ' {
            words.push(Seq::<char>::empty())
        } else {
            words.update(words.len() - 1, words.last().push(s.last()))
        }
    }
}

/// Words put back together, one space between neighbours.
pub open spec fn joined_with_spaces(words: Seq<Seq<char>>) -> Seq<char>
    decreases words.len(),
{
    if words.len() == 0 {
        Seq::<char>::empty()
    } else if words.len() == 1 {
        words[0]
    } else {
        joined_with_spaces(words.drop_last()) + seq![' '] + words.last()
    }
}

/// Whether `a` and `b` hold the same characters.
fn same_text(a: &str, b: &str) -> (same: bool)
    ensures
        same == (a@ == b@),
{
    let n = a.unicode_len();
    if n != b.unicode_len() {
        return false;
    }
    let mut i: usize = 0;
    while i < n
        invariant
            n == a@.len(),
            n == b@.len(),
            i <= n,
            forall|j: int| 0 <= j < i ==> a@[j] == b@[j],
        decreases n - i,
    {
        if a.get_char(i) != b.get_char(i) {
            return false;
        }
        i = i + 1;
    }
    assert(a@ =~= b@);
    true
}

/// Cuts `input` at every space.
pub fn split_on_spaces(input: &str) -> (words: Vec<String>)
    ensures
        words.deep_view() == words_of(input@),
{
    let n = input.unicode_len();
    let mut words: Vec<String> = Vec::new();
    let mut start: usize = 0;
    let mut i: usize = 0;
    assert(input@.take(0) =~= Seq::<char>::empty());
    assert(input@.subrange(0, 0) =~= Seq::<char>::empty());
    assert(words_of(input@.take(0)) =~~= words.deep_view().push(input@.subrange(0, 0)));
    while i < n
        invariant
            n == input@.len(),
            start <= i <= n,
            words_of(input@.take(i as int)) =~~= words.deep_view().push(
                input@.subrange(start as int, i as int),
            ),
        decreases n - i,
    {
        let c = input.get_char(i);
        let ghost before = words.deep_view();
        let ghost prefix = input@.take(i + 1);
        assert(prefix.drop_last() =~= input@.take(i as int));
        assert(prefix.last() == c);
        if c == ' ' {
            let word = String::from_str(input.substring_char(start, i));
            words.push(word);
            assert(words.deep_view() =~~= before.push(input@.subrange(start as int, i as int)));
            assert(input@.subrange(i + 1, i + 1) =~= Seq::<char>::empty());
            assert(words_of(prefix) =~~= words.deep_view().push(
                input@.subrange(i + 1, i + 1),
            ));
            start = i + 1;
        } else {
            assert(input@.subrange(start as int, i + 1) =~= input@.subrange(
                start as int,
                i as int,
            ).push(c));
            assert(words_of(prefix) =~~= words.deep_view().push(
                input@.subrange(start as int, i + 1),
            ));
        }
        i = i + 1;
    }
    let ghost before = words.deep_view();
    let last = String::from_str(input.substring_char(start, n));
    words.push(last);
    assert(words.deep_view() =~~= before.push(input@.subrange(start as int, n as int)));
    assert(input@.take(n as int) =~= input@);
    words
}


/// The command line that a line of input stands for: the program name `bs`,
/// then the words of the line.
pub open spec fn glyphic_command_line(input: Seq<char>) -> Seq<Seq<char>> {
    seq!["bs"@] + words_of(input)
}

/// The command that a command line (program name first) names, if any: the
/// word `test` alone, or followed by the end-of-options marker `--`.
pub open spec fn command_named(args: Seq<Seq<char>>) -> Option<Commands> {
    if args.len() >= 2 && args[1] == "test"@ && (args.len() == 2 || (args.len() == 3
        && args[2] == "--"@)) {
        Some(Commands::Test)
    } else {
        None
    }
}

/// Whether a word asks for help: the long flag `--help`, or a group of short
/// flags whose first is `-h` (the flags after it are never looked at).
pub open spec fn help_flag(word: Seq<char>) -> bool {
    word == "--help"@ || (word.len() >= 2 && word[0] == '-' && word[1] == 'h')
}

/// Why a command line (program name first) that names no command is refused.
/// A help request is a help flag before anything else; a help flag first
/// after `test`; or the `help` command alone or followed by one of the
/// commands `test` and `help`. A line with no word after the program name,
/// or only the end-of-options marker `--`, names no command. Everything else
/// is no command.
pub open spec fn refusal_kind(args: Seq<Seq<char>>) -> ParseErrorKind {
    if args.len() < 2 || (args.len() == 2 && args[1] == "--"@) {
        ParseErrorKind::MissingCommand
    } else if help_flag(args[1]) || (args[1] == "test"@ && args.len() >= 3 && help_flag(args[2]))
        || (args[1] == "help"@ && (args.len() == 2 || (args.len() == 3 && (args[2] == "test"@
        || args[2] == "help"@)))) {
        ParseErrorKind::HelpRequested
    } else {
        ParseErrorKind::NotACommand
    }
}

/// What reading `args` as a command line gives: the command it names, or the
/// parse error that carries it.
pub open spec fn command_line_outcome(args: Seq<Seq<char>>, result: Result<Commands, Error>) -> bool {
    match result {
        Ok(command) => command_named(args) == Some(command),
        Err(Error::ParseError(failure)) => {
            &&& command_named(args) is None
            &&& failure.kind == refusal_kind(args)
            &&& failure.args.deep_view() == args
        },
        Err(Error::GlyphicError) => false,
    }
}

/// The command line for `input`: `bs` followed by the words of `input`.
pub fn glyphic_args(input: &str) -> (args: Vec<String>)
    ensures
        args.deep_view() == glyphic_command_line(input@),
{
    let mut words = split_on_spaces(input);
    let ghost words_view = words.deep_view();
    let mut args: Vec<String> = Vec::new();
    args.push(String::from_str("bs"));
    args.append(&mut words);
    assert(args.deep_view() =~~= seq!["bs"@] + words_view);
    args
}

/// Whether `word` asks for help.
fn is_help_flag(word: &str) -> (help: bool)
    ensures
        help == help_flag(word@),
{
    if same_text(word, "--help") {
        return true;
    }
    word.unicode_len() >= 2 && word.get_char(0) == '-' && word.get_char(1) == 'h'
}

/// Why a command line that names no command is refused.
fn refusal_kind_of(args: &Vec<String>) -> (kind: ParseErrorKind)
    ensures
        kind == refusal_kind(args.deep_view()),
{
    let n = args.len();
    let ghost line = args.deep_view();
    if n < 2 || (n == 2 && same_text(args[1].as_str(), "--")) {
        return ParseErrorKind::MissingCommand;
    }
    assert(line[1] == args[1]@);
    let first = args[1].as_str();
    if is_help_flag(first) {
        return ParseErrorKind::HelpRequested;
    }
    if same_text(first, "test") {
        if n >= 3 && is_help_flag(args[2].as_str()) {
            return ParseErrorKind::HelpRequested;
        }
        proof {
            reveal_strlit("test");
            reveal_strlit("help");
            assert("test"@[0] != "help"@[0]);
        }
        return ParseErrorKind::NotACommand;
    }
    if same_text(first, "help") {
        if n == 2 || (n == 3 && (same_text(args[2].as_str(), "test") || same_text(
            args[2].as_str(),
            "help",
        ))) {
            return ParseErrorKind::HelpRequested;
        }
    }
    ParseErrorKind::NotACommand
}

/// Reads a command line (program name first) as a command.
pub fn parse_command_line(args: Vec<String>) -> (result: Result<Commands, Error>)
    ensures
        command_line_outcome(args.deep_view(), result),
{
    let n = args.len();
    if n >= 2 && same_text(args[1].as_str(), "test") && (n == 2 || (n == 3 && same_text(
        args[2].as_str(),
        "--",
    ))) {
        Ok(Commands::Test)
    } else {
        let kind = refusal_kind_of(&args);
        Err(Error::ParseError(ParseFailure { kind, args }))
    }
}

/// Interprets a line of glyphic input as a command.
pub fn interpret_glyphic(input: &str) -> (result: Result<Commands, Error>)
    ensures
        command_line_outcome(glyphic_command_line(input@), result),
{
    let args = glyphic_args(input);
    parse_command_line(args)
}


/// Whether `s` holds no space.
pub open spec fn spaceless(s: Seq<char>) -> bool {
    forall|j: int| 0 <= j < s.len() ==> s[j] != ' '
}

/// Cutting a line at its spaces loses nothing: the words hold no space, there
/// is at least one of them, and joined again with single spaces they give
/// back the line.
pub proof fn words_rejoin(s: Seq<char>)
    ensures
        words_of(s).len() >= 1,
        forall|i: int| 0 <= i < words_of(s).len() ==> spaceless(#[trigger] words_of(s)[i]),
        joined_with_spaces(words_of(s)) == s,
    decreases s.len(),
{
    if s.len() == 0 {
        assert(joined_with_spaces(words_of(s)) =~= s);
    } else {
        let rest = s.drop_last();
        words_rejoin(rest);
        let before = words_of(rest);
        let n = before.len();
        if s.last() == ' ' {
            let after = before.push(Seq::<char>::empty());
            assert(after.drop_last() =~= before);
            assert(joined_with_spaces(after) =~= s);
        } else {
            let after = before.update(n - 1, before.last().push(s.last()));
            assert forall|i: int| 0 <= i < after.len() implies spaceless(#[trigger] after[i]) by {
                if i == n - 1 {
                    assert(spaceless(before[n - 1]));
                }
            }
            if n == 1 {
                assert(joined_with_spaces(after) =~= s);
            } else {
                assert(after.drop_last() =~= before.drop_last());
                assert(after.last() == before.last().push(s.last()));
                assert(joined_with_spaces(before) == joined_with_spaces(before.drop_last()) + seq![
                    ' ',
                ] + before.last());
                assert(joined_with_spaces(after) == joined_with_spaces(before.drop_last()) + seq![
                    ' ',
                ] + before.last().push(s.last()));
                assert(s =~= rest.push(s.last()));
                assert(joined_with_spaces(after) =~= s);
            }
        }
    }
}

/// A line without spaces is one word.
proof fn words_of_spaceless(a: Seq<char>)
    requires
        spaceless(a),
    ensures
        words_of(a) == seq![a],
    decreases a.len(),
{
    if a.len() == 0 {
        assert(words_of(a) =~~= seq![a]);
    } else {
        words_of_spaceless(a.drop_last());
        assert(a.drop_last().push(a.last()) =~= a);
        assert(words_of(a) =~~= seq![a]);
    }
}

/// Two space-free pieces around one space are two words.
proof fn words_of_pair(a: Seq<char>, b: Seq<char>)
    requires
        spaceless(a),
        spaceless(b),
    ensures
        words_of(a + seq![' '] + b) == seq![a, b],
    decreases b.len(),
{
    let s = a + seq![' '] + b;
    if b.len() == 0 {
        words_of_spaceless(a);
        assert(s.drop_last() =~= a);
        assert(words_of(s) =~~= seq![a, b]);
    } else {
        let shorter = b.drop_last();
        words_of_pair(a, shorter);
        assert(s.drop_last() =~= a + seq![' '] + shorter);
        assert(shorter.push(b.last()) =~= b);
        assert(words_of(s) =~~= seq![a, b]);
    }
}

/// The lines that name a command are exactly `test` and `test --`; every
/// other line is refused.
pub proof fn interpret_accepts_exactly(input: Seq<char>)
    ensures
        command_named(glyphic_command_line(input)) is Some <==> (input == "test"@ || input
            == "test --"@),
{
    reveal_strlit("test");
    reveal_strlit("--");
    reveal_strlit("test --");
    let test = "test"@;
    let escape = "--"@;
    let joined = test + seq![' '] + escape;
    assert("test --"@ =~= joined);
    words_rejoin(input);
    let words = words_of(input);
    let line = glyphic_command_line(input);
    assert(line.len() == words.len() + 1);
    assert(forall|i: int| 0 <= i < words.len() ==> line[i + 1] == words[i]);
    if command_named(line) is Some {
        assert(line[1] == test);
        if words.len() == 1 {
            assert(input =~= test);
        } else {
            assert(words.drop_last() =~= seq![test]);
            assert(joined_with_spaces(seq![test]) == test);
            assert(words.last() == escape);
            assert(input == joined_with_spaces(words.drop_last()) + seq![' '] + words.last());
            assert(input =~= joined);
        }
    }
    if input == test {
        assert(spaceless(test));
        words_of_spaceless(test);
        assert(line =~~= seq!["bs"@, test]);
    }
    if input == "test --"@ {
        assert(spaceless(test));
        assert(spaceless(escape));
        words_of_pair(test, escape);
        assert(line =~~= seq!["bs"@, test, escape]);
    }
}


// Laws of the command line. Each is stated over the words themselves, as
// clap reads them: the program name is never looked at, and a help flag ends
// the reading at once, whatever follows it.

/// The facts about the literal words that the laws below rest on.
proof fn literal_words()
    ensures
        "test"@.len() == 4 && "test"@[0] == 't',
        "help"@.len() == 4 && "help"@[0] == 'h',
        "--"@.len() == 2 && "--"@[0] == '-' && "--"@[1] == '-',
        "--help"@.len() == 6 && "--help"@[0] == '-' && "--help"@[1] == '-',
{
    reveal_strlit("test");
    reveal_strlit("help");
    reveal_strlit("--");
    reveal_strlit("--help");
}

/// The program name (the first word of a command line) changes nothing:
/// the same words after any name give the same command or the same refusal.
pub proof fn program_name_is_ignored(args: Seq<Seq<char>>, name: Seq<char>)
    requires
        args.len() >= 1,
    ensures
        command_named(args.update(0, name)) == command_named(args),
        refusal_kind(args.update(0, name)) == refusal_kind(args),
{
    let renamed = args.update(0, name);
    assert(forall|i: int| 1 <= i < args.len() ==> renamed[i] == args[i]);
}

/// `test` alone, or followed by `--`, is the command `Test`, under any name.
pub proof fn test_is_the_command(name: Seq<char>)
    ensures
        command_named(seq![name, "test"@]) == Some(Commands::Test),
        command_named(seq![name, "test"@, "--"@]) == Some(Commands::Test),
{
}

/// A first word that asks for help (`--help`, or a group of short flags that
/// opens with `-h`, of any length) refuses the line as a help request, and
/// nothing after it is looked at.
pub proof fn leading_help_word_asks_for_help(name: Seq<char>, word: Seq<char>, rest: Seq<Seq<char>>)
    requires
        (2 <= word.len() && word[0] == '-' && word[1] == 'h') || word == "--help"@,
    ensures
        command_named(seq![name, word] + rest) is None,
        refusal_kind(seq![name, word] + rest) == ParseErrorKind::HelpRequested,
{
    literal_words();
    let args = seq![name, word] + rest;
    assert(args[1] == word);
    assert(word != "test"@);
    assert(word != "--"@);
}

/// After `test`, a word that asks for help refuses the line as a help
/// request, and nothing after it is looked at.
pub proof fn help_word_after_test_asks_for_help(name: Seq<char>, word: Seq<char>, rest: Seq<Seq<char>>)
    requires
        (2 <= word.len() && word[0] == '-' && word[1] == 'h') || word == "--help"@,
    ensures
        command_named(seq![name, "test"@, word] + rest) is None,
        refusal_kind(seq![name, "test"@, word] + rest) == ParseErrorKind::HelpRequested,
{
    literal_words();
    let args = seq![name, "test"@, word] + rest;
    assert(args[1] == "test"@);
    assert(args[2] == word);
    assert(word != "--"@);
}

/// `help` alone, or followed by the name of a command (`test` or `help`),
/// is a help request.
pub proof fn help_command_asks_for_help(name: Seq<char>)
    ensures
        refusal_kind(seq![name, "help"@]) == ParseErrorKind::HelpRequested,
        refusal_kind(seq![name, "help"@, "test"@]) == ParseErrorKind::HelpRequested,
        refusal_kind(seq![name, "help"@, "help"@]) == ParseErrorKind::HelpRequested,
        command_named(seq![name, "help"@]) is None,
        command_named(seq![name, "help"@, "test"@]) is None,
        command_named(seq![name, "help"@, "help"@]) is None,
{
    literal_words();
}

/// `help` followed by anything but the name of one command is refused as no
/// command.
pub proof fn help_with_unknown_topic_is_refused(name: Seq<char>, topic: Seq<Seq<char>>)
    requires
        topic.len() >= 1,
        !(topic.len() == 1 && (topic[0] == "test"@ || topic[0] == "help"@)),
    ensures
        command_named(seq![name, "help"@] + topic) is None,
        refusal_kind(seq![name, "help"@] + topic) == ParseErrorKind::NotACommand,
{
    literal_words();
    let args = seq![name, "help"@] + topic;
    assert(args[1] == "help"@);
    assert(args[2] == topic[0]);
}

/// A line with no word after the program name, or only `--`, names no
/// command.
pub proof fn nothing_after_name_is_missing(name: Seq<char>)
    ensures
        refusal_kind(Seq::<Seq<char>>::empty()) == ParseErrorKind::MissingCommand,
        refusal_kind(seq![name]) == ParseErrorKind::MissingCommand,
        refusal_kind(seq![name, "--"@]) == ParseErrorKind::MissingCommand,
        command_named(seq![name]) is None,
        command_named(seq![name, "--"@]) is None,
{
    literal_words();
}

/// Words after a leading `--` are never commands or flags, so the line is
/// refused as no command.
pub proof fn words_after_escape_are_refused(name: Seq<char>, rest: Seq<Seq<char>>)
    requires
        rest.len() >= 1,
    ensures
        command_named(seq![name, "--"@] + rest) is None,
        refusal_kind(seq![name, "--"@] + rest) == ParseErrorKind::NotACommand,
{
    literal_words();
    let args = seq![name, "--"@] + rest;
    assert(args[1] == "--"@);
}

/// A first word that is neither a command, nor `--`, nor a help flag
/// refuses the line as no command, whatever follows.
pub proof fn unknown_first_word_is_refused(name: Seq<char>, word: Seq<char>, rest: Seq<Seq<char>>)
    requires
        word != "test"@,
        word != "help"@,
        word != "--"@,
        word != "--help"@,
        !(2 <= word.len() && word[0] == '-' && word[1] == 'h'),
    ensures
        command_named(seq![name, word] + rest) is None,
        refusal_kind(seq![name, word] + rest) == ParseErrorKind::NotACommand,
{
    let args = seq![name, word] + rest;
    assert(args[1] == word);
}

/// After `test`, a word that is no help flag refuses the line as no command,
/// unless it is a closing `--`.
pub proof fn unknown_word_after_test_is_refused(name: Seq<char>, word: Seq<char>, rest: Seq<Seq<char>>)
    requires
        word != "--help"@,
        !(2 <= word.len() && word[0] == '-' && word[1] == 'h'),
        !(word == "--"@ && rest.len() == 0),
    ensures
        command_named(seq![name, "test"@, word] + rest) is None,
        refusal_kind(seq![name, "test"@, word] + rest) == ParseErrorKind::NotACommand,
{
    literal_words();
    let args = seq![name, "test"@, word] + rest;
    assert(args[1] == "test"@);
    assert(args[2] == word);
    assert("test"@ != "help"@);
}

} // verus!
