//! The grammar of the commands that plugins answer to: a prefix, the
//! command's name, and optionally whom the answer is for.

use vstd::prelude::*;
use vstd::string::*;

verus! {

/// Whether `c` is a blank: a space, a tab, a carriage return or a line feed.
pub open spec fn is_blank(c: char) -> bool {
    c == ' ' || c == '\t' || c == '\r' || c == '\n'
}

/// Whether `c` is an ASCII letter or digit.
pub open spec fn is_alphanumeric(c: char) -> bool {
    ('a' <= c && c <= 'z') || ('A' <= c && c <= 'Z') || ('0' <= c && c <= '9')
}

/// Whether `c` is one of the two characters that introduce a command.
pub open spec fn is_prefix_char(c: char) -> bool {
    c == '&' || c == 'λ'
}

/// The class of the blanks.
pub open spec fn blanks() -> spec_fn(char) -> bool {
    |c: char| is_blank(c)
}

/// The class of the ASCII letters and digits.
pub open spec fn letters_and_digits() -> spec_fn(char) -> bool {
    |c: char| is_alphanumeric(c)
}

/// The class that holds `repeated` alone.
pub open spec fn only(repeated: char) -> spec_fn(char) -> bool {
    |c: char| c == repeated
}

/// The class of every character but the one that delimits a client-to-client
/// request.
pub open spec fn unmarked() -> spec_fn(char) -> bool {
    |c: char| c != '\u{1}'
}

/// Where the longest run of characters of `class` that starts at `from`
/// ends.
pub open spec fn run_end(s: Seq<char>, from: int, class: spec_fn(char) -> bool) -> int
    decreases s.len() - from,
{
    if 0 <= from < s.len() && class(s[from]) {
        run_end(s, from + 1, class)
    } else {
        from
    }
}

/// Where the command's prefix ends: after the longest run of its first
/// character, which must be `&` or `λ`. There is none where the text does
/// not start with either.
pub open spec fn prefix_end(s: Seq<char>) -> Option<int> {
    if s.len() > 0 && is_prefix_char(s[0]) {
        Some(run_end(s, 0, only(s[0])))
    } else {
        None
    }
}

/// Whether `name` stands in `s` at `from`.
pub open spec fn stands_at(s: Seq<char>, from: int, name: Seq<char>) -> bool {
    0 <= from && from + name.len() <= s.len() && s.subrange(from, from + name.len()) == name
}

/// Whom the answer is for, read from what follows the command's name at
/// `from`. Nothing but blanks may follow, and then the answer is for nobody
/// in particular; or, after any blanks, a `>`, at least one blank, a word of
/// letters and digits, and any blanks up to the end, and then the answer is
/// for the one the word names. Anything else is no command.
pub open spec fn target_at(s: Seq<char>, from: int) -> Option<Option<Seq<char>>> {
    let mark = run_end(s, from, blanks());
    if mark == s.len() {
        Some(None)
    } else if s[mark] != '>' {
        None
    } else {
        let word = run_end(s, mark + 1, blanks());
        let after = run_end(s, word, letters_and_digits());
        let end = run_end(s, after, blanks());
        if word > mark + 1 && after > word && end == s.len() {
            Some(Some(s.subrange(word, after)))
        } else {
            None
        }
    }
}

/// What `input` is as a command named `name`: no such command, or the
/// command with whom its answer is for, if anyone.
pub open spec fn command_of(name: Seq<char>, input: Seq<char>) -> Option<Option<Seq<char>>> {
    match prefix_end(input) {
        Some(start) => if stands_at(input, start, name) {
            target_at(input, start + name.len())
        } else {
            None
        },
        None => None,
    }
}

/// The model of what [`single_command`] returns.
pub open spec fn parsed(outcome: Option<Option<&str>>) -> Option<Option<Seq<char>>> {
    match outcome {
        Some(Some(target)) => Some(Some(target@)),
        Some(None) => Some(None),
        None => None,
    }
}

/// Finds where the run of blanks that starts at `from` ends.
fn skip_blanks(s: &str, len: usize, from: usize) -> (end: usize)
    requires
        len == s@.len(),
        from <= len,
    ensures
        end == run_end(s@, from as int, blanks()),
        from <= end <= len,
{
    let mut i: usize = from;
    while i < len
        invariant
            len == s@.len(),
            from <= i <= len,
            run_end(s@, from as int, blanks()) == run_end(
                s@,
                i as int,
                blanks(),
            ),
        decreases len - i,
    {
        let c = s.get_char(i);
        if c == ' ' || c == '\t' || c == '\r' || c == '\n' {
            i += 1;
        } else {
            return i;
        }
    }
    i
}

/// Finds where the run of letters and digits that starts at `from` ends.
fn skip_word(s: &str, len: usize, from: usize) -> (end: usize)
    requires
        len == s@.len(),
        from <= len,
    ensures
        end == run_end(s@, from as int, letters_and_digits()),
        from <= end <= len,
{
    let mut i: usize = from;
    while i < len
        invariant
            len == s@.len(),
            from <= i <= len,
            run_end(s@, from as int, letters_and_digits()) == run_end(
                s@,
                i as int,
                letters_and_digits(),
            ),
        decreases len - i,
    {
        let c = s.get_char(i);
        if ('a' <= c && c <= 'z') || ('A' <= c && c <= 'Z') || ('0' <= c && c <= '9') {
            i += 1;
        } else {
            return i;
        }
    }
    i
}

/// Finds where the run of the character `repeated` that starts at `from`
/// ends.
fn skip_repeated(s: &str, len: usize, from: usize, repeated: char) -> (end: usize)
    requires
        len == s@.len(),
        from <= len,
    ensures
        end == run_end(s@, from as int, only(repeated)),
        from <= end <= len,
{
    let mut i: usize = from;
    while i < len
        invariant
            len == s@.len(),
            from <= i <= len,
            run_end(s@, from as int, only(repeated)) == run_end(
                s@,
                i as int,
                only(repeated),
            ),
        decreases len - i,
    {
        if s.get_char(i) == repeated {
            i += 1;
        } else {
            return i;
        }
    }
    i
}

/// Tells whether `name` stands in `s` at `from`.
fn starts_with_at(s: &str, len: usize, from: usize, name: &str, name_len: usize) -> (found: bool)
    requires
        len == s@.len(),
        name_len == name@.len(),
        from <= len,
    ensures
        found == stands_at(s@, from as int, name@),
{
    if name_len > len - from {
        return false;
    }
    let mut k: usize = 0;
    while k < name_len
        invariant
            len == s@.len(),
            name_len == name@.len(),
            from + name_len <= len,
            k <= name_len,
            forall|j: int| 0 <= j < k ==> s@[from + j] == name@[j],
        decreases name_len - k,
    {
        if s.get_char(from + k) != name.get_char(k) {
            proof {
                assert(s@.subrange(from as int, from + name_len)[k as int] == s@[from + k]);
            }
            return false;
        }
        k += 1;
    }
    proof {
        assert(s@.subrange(from as int, from + name_len) =~= name@);
    }
    true
}

/// Reads whom the answer is for from what follows the command's name, which
/// ends at `from`.
fn target_from<'a>(input: &'a str, from: usize) -> (outcome: Option<Option<&'a str>>)
    requires
        from <= input@.len(),
    ensures
        parsed(outcome) == target_at(input@, from as int),
{
    let len = input.unicode_len();
    let mark = skip_blanks(input, len, from);
    if mark == len {
        return Some(None);
    }
    if input.get_char(mark) != '>' {
        return None;
    }
    let word = skip_blanks(input, len, mark + 1);
    let after = skip_word(input, len, word);
    let end = skip_blanks(input, len, after);
    if word > mark + 1 && after > word && end == len {
        Some(Some(input.substring_char(word, after)))
    } else {
        None
    }
}

/// Parse a single command with an optional target. Returns `None` where
/// `input` is not the command `cmd_name`.
pub fn single_command<'a>(cmd_name: &str, input: &'a str) -> (outcome: Option<Option<&'a str>>)
    ensures
        parsed(outcome) == command_of(cmd_name@, input@),
{
    let len = input.unicode_len();
    if len == 0 {
        return None;
    }
    let first = input.get_char(0);
    if first != '&' && first != 'λ' {
        return None;
    }
    let start = skip_repeated(input, len, 0, first);
    let name_len = cmd_name.unicode_len();
    if !starts_with_at(input, len, start, cmd_name, name_len) {
        return None;
    }
    target_from(input, start + name_len)
}

/// The word that `s` starts with, and what follows it: the longest run of
/// letters and digits, which must not be empty. The result is the rest of
/// the text and the word.
pub open spec fn leading_word(s: Seq<char>) -> Option<(Seq<char>, Seq<char>)> {
    let end = run_end(s, 0, letters_and_digits());
    if end > 0 {
        Some((s.subrange(end, s.len() as int), s.subrange(0, end)))
    } else {
        None
    }
}

/// The command prefix that `s` starts with, and what follows it. The result
/// is the rest of the text and the prefix.
pub open spec fn leading_prefix(s: Seq<char>) -> Option<(Seq<char>, Seq<char>)> {
    match prefix_end(s) {
        Some(end) => Some((s.subrange(end, s.len() as int), s.subrange(0, end))),
        None => None,
    }
}

/// The target that `s` starts with, and what follows it: after any blanks a
/// `>`, at least one blank, a word of letters and digits, and any blanks.
/// The result is the rest of the text and the word.
pub open spec fn leading_target(s: Seq<char>) -> Option<(Seq<char>, Seq<char>)> {
    let mark = run_end(s, 0, blanks());
    if mark < s.len() && s[mark] == '>' {
        let word = run_end(s, mark + 1, blanks());
        let after = run_end(s, word, letters_and_digits());
        let end = run_end(s, after, blanks());
        if word > mark + 1 && after > word {
            Some((s.subrange(end, s.len() as int), s.subrange(word, after)))
        } else {
            None
        }
    } else {
        None
    }
}

/// The model of a text split in its rest and what was read from its start.
pub open spec fn split_of(outcome: Option<(&str, &str)>) -> Option<(Seq<char>, Seq<char>)> {
    match outcome {
        Some((rest, word)) => Some((rest@, word@)),
        None => None,
    }
}

/// Reads the word that `input` starts with: the rest of the text and the
/// word, or nothing where `input` starts with no letter or digit.
pub fn word<'a>(input: &'a str) -> (outcome: Option<(&'a str, &'a str)>)
    ensures
        split_of(outcome) == leading_word(input@),
{
    let len = input.unicode_len();
    let end = skip_word(input, len, 0);
    if end > 0 {
        Some((input.substring_char(end, len), input.substring_char(0, end)))
    } else {
        None
    }
}

/// Utility to parse the common command prefix: the rest of the text and
/// the prefix, or nothing where `input` starts with no prefix.
pub fn command_prefix<'a>(input: &'a str) -> (outcome: Option<(&'a str, &'a str)>)
    ensures
        split_of(outcome) == leading_prefix(input@),
{
    let len = input.unicode_len();
    if len == 0 {
        return None;
    }
    let first = input.get_char(0);
    if first != '&' && first != 'λ' {
        return None;
    }
    let end = skip_repeated(input, len, 0, first);
    Some((input.substring_char(end, len), input.substring_char(0, end)))
}

/// Reads the target that `input` starts with: the rest of the text and the
/// target's name, or nothing where `input` starts with no target.
pub fn target<'a>(input: &'a str) -> (outcome: Option<(&'a str, &'a str)>)
    ensures
        split_of(outcome) == leading_target(input@),
{
    let len = input.unicode_len();
    let mark = skip_blanks(input, len, 0);
    if mark == len {
        return None;
    }
    if input.get_char(mark) != '>' {
        return None;
    }
    let word = skip_blanks(input, len, mark + 1);
    let after = skip_word(input, len, word);
    let end = skip_blanks(input, len, after);
    if word > mark + 1 && after > word {
        Some((input.substring_char(end, len), input.substring_char(word, after)))
    } else {
        None
    }
}

/// A client-to-client request.
#[derive(Debug, PartialEq, Eq)]
pub enum CTCP<'input> {
    VERSION,
    TIME,
    PING(Option<&'input str>),
}

/// Mathematical model of a [`CTCP`].
pub enum CtcpView {
    Version,
    Time,
    Ping(Option<Seq<char>>),
}

impl<'input> View for CTCP<'input> {
    type V = CtcpView;

    open spec fn view(&self) -> CtcpView {
        match self {
            CTCP::VERSION => CtcpView::Version,
            CTCP::TIME => CtcpView::Time,
            CTCP::PING(Some(argument)) => CtcpView::Ping(Some(argument@)),
            CTCP::PING(None) => CtcpView::Ping(None),
        }
    }
}

/// The model of an optional request.
pub open spec fn request_of(outcome: Option<CTCP>) -> Option<CtcpView> {
    match outcome {
        Some(request) => Some(request@),
        None => None,
    }
}

/// The request that `body` starts with. What follows `VERSION` or `TIME` is
/// not read. `PING` takes as its argument all that follows one or more
/// blanks, if anything does.
pub open spec fn ctcp_command(body: Seq<char>) -> Option<CtcpView> {
    if stands_at(body, 0, seq!['V', 'E', 'R', 'S', 'I', 'O', 'N']) {
        Some(CtcpView::Version)
    } else if stands_at(body, 0, seq!['T', 'I', 'M', 'E']) {
        Some(CtcpView::Time)
    } else if stands_at(body, 0, seq!['P', 'I', 'N', 'G']) {
        let argument = run_end(body, 4, blanks());
        if 4 < argument < body.len() {
            Some(CtcpView::Ping(Some(body.subrange(argument, body.len() as int))))
        } else {
            Some(CtcpView::Ping(None))
        }
    } else {
        None
    }
}

/// What `input` is as a client-to-client request: a body that is not empty
/// between two delimiters, with nothing but blanks after the second, where
/// the body starts with a request.
pub open spec fn ctcp_of(input: Seq<char>) -> Option<CtcpView> {
    if input.len() > 0 && input[0] == '\u{1}' {
        let close = run_end(input, 1, unmarked());
        if 1 < close < input.len() && run_end(input, close + 1, blanks()) == input.len() {
            ctcp_command(input.subrange(1, close))
        } else {
            None
        }
    } else {
        None
    }
}

/// Finds where the run of characters other than the delimiter that starts
/// at `from` ends.
fn skip_unmarked(s: &str, len: usize, from: usize) -> (end: usize)
    requires
        len == s@.len(),
        from <= len,
    ensures
        end == run_end(s@, from as int, unmarked()),
        from <= end <= len,
{
    let mut i: usize = from;
    while i < len
        invariant
            len == s@.len(),
            from <= i <= len,
            run_end(s@, from as int, unmarked()) == run_end(s@, i as int, unmarked()),
        decreases len - i,
    {
        if s.get_char(i) != '\u{1}' {
            i += 1;
        } else {
            return i;
        }
    }
    i
}

/// Reads the request that `body` starts with.
pub fn ctcp_cmd<'a>(body: &'a str) -> (outcome: Option<CTCP<'a>>)
    ensures
        request_of(outcome) == ctcp_command(body@),
{
    proof {
        reveal_strlit("VERSION");
        reveal_strlit("TIME");
        reveal_strlit("PING");
        assert("VERSION"@ =~= seq!['V', 'E', 'R', 'S', 'I', 'O', 'N']);
        assert("TIME"@ =~= seq!['T', 'I', 'M', 'E']);
        assert("PING"@ =~= seq!['P', 'I', 'N', 'G']);
    }
    let len = body.unicode_len();
    if starts_with_at(body, len, 0, "VERSION", 7) {
        Some(CTCP::VERSION)
    } else if starts_with_at(body, len, 0, "TIME", 4) {
        Some(CTCP::TIME)
    } else if starts_with_at(body, len, 0, "PING", 4) {
        let argument = skip_blanks(body, len, 4);
        if 4 < argument && argument < len {
            Some(CTCP::PING(Some(body.substring_char(argument, len))))
        } else {
            Some(CTCP::PING(None))
        }
    } else {
        None
    }
}

/// Reads `input` as a client-to-client request.
pub fn parse_ctcp<'a>(input: &'a str) -> (outcome: Option<CTCP<'a>>)
    ensures
        request_of(outcome) == ctcp_of(input@),
{
    let len = input.unicode_len();
    if len == 0 {
        return None;
    }
    if input.get_char(0) != '\u{1}' {
        return None;
    }
    let close = skip_unmarked(input, len, 1);
    if close == 1 || close == len {
        return None;
    }
    if skip_blanks(input, len, close + 1) != len {
        return None;
    }
    ctcp_cmd(input.substring_char(1, close))
}

} // verus!
