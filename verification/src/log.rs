//! The log of messages to the user. A message that comes several times
//! in a row is kept once, with a count.

use vstd::prelude::*;
use vstd::string::StringExecFns;

verus! {

/// A text and how many times in a row it came.
pub type Message = (String, u32);

/// The number of messages that a log is meant to keep.
pub const MAX_MESSAGES: usize = 100;

/// The messages that the user has been given, and how far the user has
/// scrolled back through them.
pub struct MessageLog {
    /// The messages, oldest first.
    pub messages: Vec<Message>,
    /// How many of the newest messages are scrolled out of sight.
    pub scroll: usize,
}

/// The character for the digit `d`.
pub open spec fn digit(d: nat) -> char {
    if d == 0 {
        '0'
    } else if d == 1 {
        '1'
    } else if d == 2 {
        '2'
    } else if d == 3 {
        '3'
    } else if d == 4 {
        '4'
    } else if d == 5 {
        '5'
    } else if d == 6 {
        '6'
    } else if d == 7 {
        '7'
    } else if d == 8 {
        '8'
    } else {
        '9'
    }
}

/// `n` written in decimal digits.
pub open spec fn decimal(n: nat) -> Seq<char>
    decreases n,
{
    if n < 10 {
        seq![digit(n)]
    } else {
        decimal(n / 10).push(digit(n % 10))
    }
}

/// A message as it is shown: the text alone where it came once, else the
/// text, ` x` and the count.
pub open spec fn shown(text: Seq<char>, count: u32) -> Seq<char> {
    if count == 1 {
        text
    } else {
        text + seq![' ', 'x'] + decimal(count as nat)
    }
}

/// The lines that `lines` become in a log: each came once.
pub open spec fn once_each(lines: Seq<String>) -> Seq<(Seq<char>, u32)> {
    Seq::new(lines.len(), |i: int| (lines[i]@, 1u32))
}

/// Whether the text `msg` repeats the newest of `entries`.
pub open spec fn repeats(entries: Seq<(Seq<char>, u32)>, msg: Seq<char>) -> bool {
    entries.len() > 0 && entries.last().0 == msg
}

/// Whether `entries` can take in `msg`: a message that repeats the
/// newest must find its count below the greatest that a count can be.
pub open spec fn has_room(entries: Seq<(Seq<char>, u32)>, msg: Seq<char>) -> bool {
    repeats(entries, msg) ==> entries.last().1 < u32::MAX
}

/// `entries` once `msg` has come in: the newest entry counted once more
/// where `msg` repeats it, else `msg` as a new entry that came once.
pub open spec fn with_message(entries: Seq<(Seq<char>, u32)>, msg: Seq<char>) -> Seq<
    (Seq<char>, u32),
> {
    if repeats(entries, msg) {
        entries.update(entries.len() - 1, (msg, (entries.last().1 + 1) as u32))
    } else {
        entries.push((msg, 1u32))
    }
}

/// Writes `n` in decimal digits at the end of `text`.
pub fn append_decimal(text: &mut String, n: u32)
    ensures
        final(text)@ == old(text)@ + decimal(n as nat),
    decreases n,
{
    if n >= 10 {
        append_decimal(text, n / 10);
    }
    let d: u32 = n % 10;
    let digit: &str = if d == 0 {
        "0"
    } else if d == 1 {
        "1"
    } else if d == 2 {
        "2"
    } else if d == 3 {
        "3"
    } else if d == 4 {
        "4"
    } else if d == 5 {
        "5"
    } else if d == 6 {
        "6"
    } else if d == 7 {
        "7"
    } else if d == 8 {
        "8"
    } else {
        "9"
    };
    proof {
        reveal_strlit("0");
        reveal_strlit("1");
        reveal_strlit("2");
        reveal_strlit("3");
        reveal_strlit("4");
        reveal_strlit("5");
        reveal_strlit("6");
        reveal_strlit("7");
        reveal_strlit("8");
        reveal_strlit("9");
    }
    text.append(digit);
}

impl MessageLog {
    /// What the log holds: each text with its count, oldest first.
    pub open spec fn entries(&self) -> Seq<(Seq<char>, u32)> {
        Seq::new(self.messages@.len(), |i: int| (self.messages@[i].0@, self.messages@[i].1))
    }

    /// The place of the first message in sight, where the window shows
    /// `height` messages: the window ends `scroll` messages before the
    /// newest, and does not begin before the oldest.
    pub open spec fn first_shown(&self, height: usize) -> int {
        if self.messages@.len() - height - self.scroll > 0 {
            self.messages@.len() - height - self.scroll
        } else {
            0
        }
    }

    /// The place after the last message in sight.
    pub open spec fn end_shown(&self, height: usize) -> int {
        if self.first_shown(height) + height < self.messages@.len() {
            self.first_shown(height) + height
        } else {
            self.messages@.len() as int
        }
    }

    /// An empty log.
    pub fn new() -> (log: MessageLog)
        ensures
            log.messages@.len() == 0,
            log.scroll == 0,
    {
        MessageLog { messages: Vec::new(), scroll: 0 }
    }

    /// A log of the lines of a file, each of which came once.
    pub fn from_file(lines: Vec<String>) -> (log: MessageLog)
        ensures
            log.entries() == once_each(lines@),
            log.scroll == 0,
    {
        let mut log = MessageLog { messages: Vec::new(), scroll: 0 };
        log.load_messages(lines);
        log
    }

    /// Puts the lines of a file in the place of what the log held.
    pub fn load_messages(&mut self, lines: Vec<String>)
        ensures
            final(self).entries() == once_each(lines@),
            final(self).scroll == old(self).scroll,
    {
        if !self.messages.is_empty() {
            self.messages.clear();
        }
        let ghost all = lines@;
        for line in it: lines
            invariant
                it.seq() == all,
                self.scroll == old(self).scroll,
                self.entries() == once_each(all.take(it.index() as int)),
        {
            let ghost before = self.entries();
            self.messages.push((line, 1));
            assert(self.entries() =~= before.push((line@, 1u32)));
        }
    }

    /// Whether the log can take in `msg`.
    pub fn can_add(&self, msg: &String) -> (room: bool)
        ensures
            room == has_room(self.entries(), msg@),
    {
        if self.messages.is_empty() {
            return true;
        }
        let lidx: usize = self.messages.len() - 1;
        !(self.messages[lidx].0 == *msg) || self.messages[lidx].1 < u32::MAX
    }

    /// Takes in a message. Where it says what the newest message says, that
    /// one is counted once more; otherwise it becomes the newest.
    pub fn add_message(&mut self, msg: String)
        requires
            has_room(old(self).entries(), msg@),
        ensures
            final(self).scroll == old(self).scroll,
            final(self).entries() == with_message(old(self).entries(), msg@),
    {
        if !self.messages.is_empty() {
            let lidx: usize = self.messages.len() - 1;
            if self.messages[lidx].0 == msg {
                let count: u32 = self.messages[lidx].1;
                self.messages.set(lidx, (msg, count + 1));
                return ;
            }
        }
        self.messages.push((msg, 1));
    }

    /// The lines of a window of `height` lines onto the log, top first.
    pub fn render(&self, height: usize) -> (lines: Vec<String>)
        ensures
            lines@.len() == self.end_shown(height) - self.first_shown(height),
            forall|y: int|
                0 <= y < lines@.len() ==> (#[trigger] lines@[y])@ == shown(
                    self.entries()[self.first_shown(height) + y].0,
                    self.entries()[self.first_shown(height) + y].1,
                ),
    {
        let mut lines: Vec<String> = Vec::new();
        let last_idx: usize = self.messages.len();
        let first_item_idx: usize = if height <= last_idx && self.scroll <= last_idx - height {
            last_idx - height - self.scroll
        } else {
            0
        };
        let last_item_idx: usize = if height < last_idx - first_item_idx {
            first_item_idx + height
        } else {
            last_idx
        };
        let mut i: usize = first_item_idx;
        while i < last_item_idx
            invariant
                first_item_idx <= i <= last_item_idx <= self.messages@.len(),
                first_item_idx == self.first_shown(height),
                last_item_idx == self.end_shown(height),
                lines@.len() == i - first_item_idx,
                forall|y: int|
                    0 <= y < lines@.len() ==> (#[trigger] lines@[y])@ == shown(
                        self.entries()[first_item_idx + y].0,
                        self.entries()[first_item_idx + y].1,
                    ),
            decreases last_item_idx - i,
        {
            let mut line = String::from_str(self.messages[i].0.as_str());
            let count: u32 = self.messages[i].1;
            if count != 1 {
                line.append(" x");
                append_decimal(&mut line, count);
                proof {
                    reveal_strlit(" x");
                }
            }
            lines.push(line);
            i = i + 1;
        }
        lines
    }
}

} // verus!
