//! Commands of the line-oriented interface. A line is cut at its first "\r\n";
//! the first space-separated word, lower-cased, names the command and the
//! second word, where there is one, is its argument.
use vstd::prelude::*;

verus! {

/// What the command loop does after a line.
#[derive(Clone, Copy, Debug, PartialEq, Eq, Structural)]
pub enum State {
    Exit,
    Cont,
    Load(i32),
}

/// A command read from one line.
#[derive(Debug)]
pub enum Command {
    Help,
    List,
    /// Create a counter with the given name, then load it.
    Add(Option<String>),
    /// Load the counter with the given name.
    Load(Option<String>),
    /// An empty command: count one more encounter.
    Increment,
    Exit,
    /// Any other word, as it was written.
    Unknown(String),
}

/// Whether "\r\n" starts at index `i` of `s`.
pub open spec fn crlf_at(s: Seq<char>, i: int) -> bool {
    0 <= i && i + 1 < s.len() && s[i] == '\r' && s[i + 1] == '\n'
}

/// Index of the first "\r\n" at or after `i`, or the length of `s` if none.
pub open spec fn crlf_from(s: Seq<char>, i: int) -> int
    decreases s.len() - i,
{
    if i < 0 || i >= s.len() {
        s.len() as int
    } else if crlf_at(s, i) {
        i
    } else {
        crlf_from(s, i + 1)
    }
}

/// Index of the first space at or after `i`, or the length of `s` if none.
pub open spec fn space_from(s: Seq<char>, i: int) -> int
    decreases s.len() - i,
{
    if i < 0 || i >= s.len() {
        s.len() as int
    } else if s[i] == ' ' {
        i
    } else {
        space_from(s, i + 1)
    }
}

/// What comes before the first "\r\n".
pub open spec fn first_line(s: Seq<char>) -> Seq<char> {
    s.take(crlf_from(s, 0))
}

/// What comes before the first space.
pub open spec fn first_word(line: Seq<char>) -> Seq<char> {
    line.take(space_from(line, 0))
}

/// What lies between the first and the second space (or the end), if there is
/// a first space.
pub open spec fn second_word(line: Seq<char>) -> Option<Seq<char>> {
    let e = space_from(line, 0);
    if e < line.len() {
        Some(line.subrange(e + 1, space_from(line, e + 1)))
    } else {
        None
    }
}

pub open spec fn opt_chars(a: Option<String>) -> Option<Seq<char>> {
    match a {
        Some(s) => Some(s@),
        None => None,
    }
}

/// `c` is the command named by `keyword`, with `word` the command word as
/// written and `argument` the word after it.
pub open spec fn command_matches(
    c: Command,
    keyword: Seq<char>,
    word: Seq<char>,
    argument: Option<Seq<char>>,
) -> bool {
    if keyword == "help"@ {
        c is Help
    } else if keyword == "list"@ {
        c is List
    } else if keyword == "add"@ {
        c is Add && opt_chars(c->Add_0) == argument
    } else if keyword == "load"@ {
        c is Load && opt_chars(c->Load_0) == argument
    } else if keyword == Seq::<char>::empty() {
        c is Increment
    } else if keyword == "exit"@ {
        c is Exit
    } else {
        c is Unknown && c->Unknown_0@ == word
    }
}

/// A name for what str::to_lowercase returns.
pub uninterp spec fn lower_of(s: Seq<char>) -> Seq<char>;

/// Relies on str::to_lowercase: the lower-case form of a string depends on its
/// characters alone.
#[verifier::external_body]
fn lowercase(s: &str) -> (r: String)
    ensures
        r@ == lower_of(s@),
{
    s.to_lowercase()
}

/// Whether `a` and `b` hold the same characters.
pub fn same_chars(a: &str, b: &str) -> (r: bool)
    ensures
        r == (a@ == b@),
{
    let n = a.unicode_len();
    if n != b.unicode_len() {
        return false;
    }
    let mut i: usize = 0;
    while i < n
        invariant
            n == a@.len(),
            n == b@.len(),
            i <= n,
            forall|j: int| 0 <= j < i ==> a@[j] == b@[j],
        decreases n - i,
    {
        if a.get_char(i) != b.get_char(i) {
            return false;
        }
        i = i + 1;
    }
    assert(a@ =~= b@);
    true
}

/// The command named by `keyword` (the lower-cased command word), with `word`
/// the command word as written and `argument` the word after it.
pub fn command_for(keyword: &str, word: String, argument: Option<String>) -> (r: Command)
    ensures
        command_matches(r, keyword@, word@, opt_chars(argument)),
{
    if same_chars(keyword, "help") {
        Command::Help
    } else if same_chars(keyword, "list") {
        Command::List
    } else if same_chars(keyword, "add") {
        Command::Add(argument)
    } else if same_chars(keyword, "load") {
        Command::Load(argument)
    } else if keyword.unicode_len() == 0 {
        assert(keyword@ =~= Seq::<char>::empty());
        Command::Increment
    } else if same_chars(keyword, "exit") {
        Command::Exit
    } else {
        Command::Unknown(word)
    }
}

/// Index of the first "\r\n" in `s` at or after `start`, or its length.
fn find_crlf(s: &str, start: usize) -> (r: usize)
    requires
        start <= s@.len(),
    ensures
        r == crlf_from(s@, start as int),
        start <= r <= s@.len(),
{
    let n = s.unicode_len();
    let mut i: usize = start;
    while i < n
        invariant
            n == s@.len(),
            start <= i <= n,
            crlf_from(s@, start as int) == crlf_from(s@, i as int),
        decreases n - i,
    {
        if i + 1 < n && s.get_char(i) == '\r' && s.get_char(i + 1) == '\n' {
            return i;
        }
        i = i + 1;
    }
    i
}

/// Index of the first space in `s` at or after `start`, or its length.
fn find_space(s: &str, start: usize) -> (r: usize)
    requires
        start <= s@.len(),
    ensures
        r == space_from(s@, start as int),
        start <= r <= s@.len(),
{
    let n = s.unicode_len();
    let mut i: usize = start;
    while i < n
        invariant
            n == s@.len(),
            start <= i <= n,
            space_from(s@, start as int) == space_from(s@, i as int),
        decreases n - i,
    {
        if s.get_char(i) == ' ' {
            return i;
        }
        i = i + 1;
    }
    i
}

/// The command that `line` holds.
pub fn parse_command(line: &str) -> (r: Command)
    ensures
        command_matches(
            r,
            lower_of(first_word(first_line(line@))),
            first_word(first_line(line@)),
            second_word(first_line(line@)),
        ),
{
    let end = find_crlf(line, 0);
    let first = line.substring_char(0, end);
    assert(first@ =~= first_line(line@));
    let word_end = find_space(first, 0);
    let word = first.substring_char(0, word_end);
    assert(word@ =~= first_word(first@));
    let argument = if word_end < end {
        let arg_end = find_space(first, word_end + 1);
        let arg = first.substring_char(word_end + 1, arg_end);
        Some(String::from_str(arg))
    } else {
        None
    };
    let keyword = lowercase(word);
    command_for(keyword.as_str(), String::from_str(word), argument)
}

} // verus!
