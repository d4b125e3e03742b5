//! A chat message as the rules read it.

use crate::number::{push_two_digits, two_digits};
use vstd::prelude::*;

verus! {

/// The minute at which a message was sent, in the sender's calendar.
#[derive(Debug, Clone, Copy, PartialEq, Eq, Structural)]
pub struct Timestamp {
    pub year: i32,
    pub month: u32,
    pub day: u32,
    pub hour: u32,
    pub minute: u32,
}

impl Timestamp {
    /// The date and time as `MM/DD/YY HH:MM`, each number by its last two
    /// digits.
    pub open spec fn text(&self) -> Seq<char> {
        two_digits(self.month as nat) + seq!['/'] + two_digits(self.day as nat) + seq!['/']
            + two_digits((self.year % 100) as nat) + seq![' '] + two_digits(self.hour as nat)
            + seq![':'] + two_digits(self.minute as nat)
    }

    /// Appends [`Timestamp::text`] to `out`.
    pub fn push_text(&self, out: &mut Vec<char>)
        ensures
            final(out)@ == old(out)@ + self.text(),
    {
        push_two_digits(out, self.month);
        out.push('/');
        push_two_digits(out, self.day);
        out.push('/');
        push_two_digits(out, year_of_century(self.year));
        out.push(' ');
        push_two_digits(out, self.hour);
        out.push(':');
        push_two_digits(out, self.minute);
        assert(out@ =~= old(out)@ + self.text());
    }
}

/// The year within its century, from 0 to 99.
pub fn year_of_century(year: i32) -> (r: u32)
    ensures
        r == year % 100,
{
    let rest: i32 = year % 100;
    if rest < 0 {
        (rest + 100) as u32
    } else {
        rest as u32
    }
}

/// Who sent a message.
#[derive(Debug, Clone, PartialEq, Eq)]
pub struct Author {
    pub name: String,
    pub discriminator: u16,
    /// Whether the sender is a program.
    pub bot: bool,
}

/// A file that came with a message.
#[derive(Debug, Clone, PartialEq, Eq)]
pub struct Attachment {
    pub url: String,
    /// Width and height, where the file says it is an image.
    pub dimensions: Option<(u64, u64)>,
}

/// A message from the chat.
#[derive(Debug, Clone, PartialEq, Eq)]
pub struct Message {
    pub author: Author,
    pub content: String,
    pub attachments: Vec<Attachment>,
    pub timestamp: Timestamp,
}

} // verus!
