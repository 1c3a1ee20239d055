use vstd::prelude::*;
use vstd::string::StrSliceExecFns;

verus! {

/// How much an entry of the log matters.
#[derive(Debug, Clone, Copy, PartialEq, Eq, Structural)]
pub enum Level {
    Info,
    Warn,
    Error,
}

/// An entry of the log: what happened, and how much it matters. When it happened is
/// added by whoever writes the entry out.
#[derive(Debug, PartialEq, Eq)]
pub struct Entry {
    pub level: Level,
    pub message: String,
}

/// The mathematical value of an [`Entry`].
pub struct EntryView {
    pub level: Level,
    pub message: Seq<char>,
}

impl View for Entry {
    type V = EntryView;

    open spec fn view(&self) -> EntryView {
        EntryView { level: self.level, message: self.message@ }
    }
}

/// What a list of entries holds.
pub open spec fn entries(list: Seq<Entry>) -> Seq<EntryView> {
    list.map_values(|entry: Entry| entry@)
}

/// The entry that informs of something.
pub open spec fn informed(message: Seq<char>) -> EntryView {
    EntryView { level: Level::Info, message }
}

/// The entry that warns of something.
pub open spec fn warned(message: Seq<char>) -> EntryView {
    EntryView { level: Level::Warn, message }
}

/// The entry that tells of a failure.
pub open spec fn failed(message: Seq<char>) -> EntryView {
    EntryView { level: Level::Error, message }
}

/// The word that a line of the log shows for a level.
pub open spec fn subject_of(level: Level) -> Seq<char> {
    match level {
        Level::Info => "INFO"@,
        Level::Warn => "WARN"@,
        Level::Error => "ERROR"@,
    }
}

/// The character of a decimal digit.
pub open spec fn digit_of(d: int) -> char {
    if d == 0 {
        '0'
    } else if d == 1 {
        '1'
    } else if d == 2 {
        '2'
    } else if d == 3 {
        '3'
    } else if d == 4 {
        '4'
    } else if d == 5 {
        '5'
    } else if d == 6 {
        '6'
    } else if d == 7 {
        '7'
    } else if d == 8 {
        '8'
    } else {
        '9'
    }
}

/// A number in decimal digits, with no leading zero but for zero itself.
pub open spec fn decimal(n: nat) -> Seq<char>
    decreases n,
{
    if n < 10 {
        seq![digit_of(n as int)]
    } else {
        decimal(n / 10).push(digit_of((n % 10) as int))
    }
}

/// That many spaces; none for a count below one.
pub open spec fn spaces(count: int) -> Seq<char> {
    Seq::new(if count > 0 { count as nat } else { 0 }, |i: int| ' ')
}

/// A line of the log: the seconds since the start, at the right of six columns or
/// more, the subject at the left of five columns or more, and the message, with colons
/// between them.
pub open spec fn line_of(seconds: u64, subject: Seq<char>, message: Seq<char>) -> Seq<char> {
    let time = decimal(seconds as nat);
    spaces(6 - time.len()) + time + seq![':'] + subject + spaces(5 - subject.len()) + seq![':']
        + message
}

/// An entry that informs.
pub fn info(message: &str) -> (entry: Entry)
    ensures
        entry@ == informed(message@),
{
    Entry { level: Level::Info, message: message.to_owned() }
}

/// An entry that warns.
pub fn warn(message: &str) -> (entry: Entry)
    ensures
        entry@ == warned(message@),
{
    Entry { level: Level::Warn, message: message.to_owned() }
}

/// An entry that tells of a failure; the message is the text that the failure shows.
pub fn error(message: &str) -> (entry: Entry)
    ensures
        entry@ == failed(message@),
{
    Entry { level: Level::Error, message: message.to_owned() }
}

fn digit(d: u64) -> (c: char)
    requires
        d < 10,
    ensures
        c == digit_of(d as int),
{
    if d == 0 {
        '0'
    } else if d == 1 {
        '1'
    } else if d == 2 {
        '2'
    } else if d == 3 {
        '3'
    } else if d == 4 {
        '4'
    } else if d == 5 {
        '5'
    } else if d == 6 {
        '6'
    } else if d == 7 {
        '7'
    } else if d == 8 {
        '8'
    } else {
        '9'
    }
}

/// Appends the decimal digits of a number to a text.
fn push_decimal(text: &mut String, n: u64)
    ensures
        final(text)@ == old(text)@ + decimal(n as nat),
    decreases n,
{
    if n >= 10 {
        push_decimal(text, n / 10);
    }
    text.push(digit(n % 10));
}

/// Appends that many spaces to a text.
fn push_spaces(text: &mut String, count: usize)
    ensures
        final(text)@ == old(text)@ + spaces(count as int),
{
    let mut i: usize = 0;
    while i < count
        invariant
            i <= count,
            text@ == old(text)@ + spaces(i as int),
        decreases count - i,
    {
        text.push(' ');
        i += 1;
        assert(spaces(i as int) == spaces(i - 1).push(' '));
    }
}

/// A line of the log.
pub fn render_line(seconds: u64, subject: &str, message: &str) -> (text: String)
    ensures
        text@ == line_of(seconds, subject@, message@),
{
    let mut time = String::new();
    push_decimal(&mut time, seconds);
    assert(time@ == decimal(seconds as nat));
    let width = time.as_str().unicode_len();
    let mut text = String::new();
    if width < 6 {
        push_spaces(&mut text, 6 - width);
    }
    assert(text@ == spaces(6 - time@.len()));
    text.append(time.as_str());
    text.push(':');
    text.append(subject);
    let width = subject.unicode_len();
    let ghost before = text@;
    if width < 5 {
        push_spaces(&mut text, 5 - width);
    }
    assert(text@ == before + spaces(5 - subject@.len()));
    text.push(':');
    text.append(message);
    assert(text@ == line_of(seconds, subject@, message@));
    text
}

impl Level {
    /// The word that a line of the log shows for the level.
    pub fn subject(self) -> (word: &'static str)
        ensures
            word@ == subject_of(self),
    {
        match self {
            Level::Info => "INFO",
            Level::Warn => "WARN",
            Level::Error => "ERROR",
        }
    }
}

impl Entry {
    /// The line that shows the entry, written `seconds` after the start.
    pub fn render(&self, seconds: u64) -> (text: String)
        ensures
            text@ == line_of(seconds, subject_of(self@.level), self@.message),
    {
        render_line(seconds, self.level.subject(), self.message.as_str())
    }
}

impl Clone for Entry {
    fn clone(&self) -> (copy: Self)
        ensures
            copy@ == self@,
    {
        Entry { level: self.level, message: self.message.clone() }
    }
}

} // verus!
