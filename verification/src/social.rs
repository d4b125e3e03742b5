//! The rules of the social stream: which posts are printed and as what, and
//! how the stored login is written and read.

use crate::number::{
    decimal_text, is_digit, lemma_decimal_text_parses_back, parse_u32, parse_u32_chars, parse_u64,
    parse_u64_chars, push_decimal,
};
use crate::printer::PrinterMsg;
use crate::text::{
    chars_of, find_from, index_from, lemma_index_from_finds, slice_of, string_of, trim,
    trim_start_matches, trimmed, trimmed_start_matches,
};
use vstd::prelude::*;

verus! {

/// The text of the reply that carries a picture.
pub const REPLY_TEXT: &'static str = "Here ya go!";

/// Seconds to let the printer work before the picture is taken.
pub const PRINT_SETTLE_SECONDS: u64 = 1;

/// A key and its secret.
#[derive(Debug, Clone, PartialEq, Eq)]
pub struct KeyPair {
    pub key: String,
    pub secret: String,
}

/// The stored login of the bot's account.
#[derive(Debug, Clone, PartialEq, Eq)]
pub struct Config {
    pub user_id: u64,
    pub screen_name: String,
    pub access_token: KeyPair,
}

/// Why a text is no stored login.
#[derive(Debug, Clone, Copy, PartialEq, Eq, Structural)]
pub enum ConfigError {
    /// The text has fewer than four lines.
    MissingLine,
    /// The first line is no unsigned 64-bit integer.
    UserIdNotAnInteger,
}

impl ConfigError {
    /// The reason in words.
    pub open spec fn message_spec(&self) -> Seq<char> {
        match self {
            ConfigError::MissingLine => "Parse error; missing line"@,
            ConfigError::UserIdNotAnInteger => "User id is not an integer"@,
        }
    }

    /// The reason in words.
    pub fn message(&self) -> (r: String)
        ensures
            r@ == self.message_spec(),
    {
        match self {
            ConfigError::MissingLine => String::from_str("Parse error; missing line"),
            ConfigError::UserIdNotAnInteger => String::from_str("User id is not an integer"),
        }
    }
}

/// The line of `s` that begins at `from`: what stands before the next line
/// feed, without the carriage return that may precede that line feed.
pub open spec fn line_at(s: Seq<char>, from: int) -> Seq<char> {
    let end = index_from(s, '\n', from);
    let raw = s.subrange(from, end);
    if end < s.len() && raw.len() > 0 && raw.last() == '\r' {
        raw.drop_last()
    } else {
        raw
    }
}

/// Where the line after the one at `from` begins.
pub open spec fn next_line(s: Seq<char>, from: int) -> int {
    index_from(s, '\n', from) + 1
}

/// A stored login in contracts.
pub struct ConfigView {
    pub user_id: u64,
    pub screen_name: Seq<char>,
    pub key: Seq<char>,
    pub secret: Seq<char>,
}

impl View for Config {
    type V = ConfigView;

    open spec fn view(&self) -> ConfigView {
        ConfigView {
            user_id: self.user_id,
            screen_name: self.screen_name@,
            key: self.access_token.key@,
            secret: self.access_token.secret@,
        }
    }
}

/// What the text of a stored login means: its first four lines are the
/// user's number, the screen name, the access key and the access secret.
/// A line begins where the text has not ended; further lines are not read.
pub open spec fn load_spec(s: Seq<char>) -> Result<ConfigView, ConfigError> {
    let first = 0int;
    let second = next_line(s, first);
    let third = next_line(s, second);
    let fourth = next_line(s, third);
    if first >= s.len() {
        Err(ConfigError::MissingLine)
    } else {
        match parse_u64(line_at(s, first)) {
            None => Err(ConfigError::UserIdNotAnInteger),
            Some(user_id) => if fourth >= s.len() {
                Err(ConfigError::MissingLine)
            } else {
                Ok(
                    ConfigView {
                        user_id,
                        screen_name: line_at(s, second),
                        key: line_at(s, third),
                        secret: line_at(s, fourth),
                    },
                )
            },
        }
    }
}

/// The text that a stored login is written as: four lines, each ended by a
/// line feed.
pub open spec fn save_spec(c: ConfigView) -> Seq<char> {
    decimal_text(c.user_id as nat) + seq!['\n'] + c.screen_name + seq!['\n'] + c.key + seq!['\n']
        + c.secret + seq!['\n']
}

/// Whether `s` can stand as one line of a stored login: it holds no line
/// feed and does not end in a carriage return.
pub open spec fn fits_a_line(s: Seq<char>) -> bool {
    &&& forall|i: int| 0 <= i < s.len() ==> s[i] != '\n'
    &&& s.len() > 0 ==> s.last() != '\r'
}

/// A stored login is read back as it was written, as long as each of its
/// three texts can stand as one line.
pub proof fn lemma_load_reads_what_save_wrote(c: ConfigView)
    requires
        fits_a_line(c.screen_name),
        fits_a_line(c.key),
        fits_a_line(c.secret),
    ensures
        load_spec(save_spec(c)) == Ok::<ConfigView, ConfigError>(c),
{
    let id = decimal_text(c.user_id as nat);
    lemma_decimal_text_parses_back(c.user_id as nat, u64::MAX as nat);
    let text = save_spec(c);
    let e1 = id.len() as int;
    let e2 = e1 + 1 + c.screen_name.len();
    let e3 = e2 + 1 + c.key.len();
    let e4 = e3 + 1 + c.secret.len();
    assert(text.len() == e4 + 1);
    assert forall|i: int| 0 <= i < e1 implies text[i] != '\n' by {
        assert(text[i] == id[i]);
        assert(is_digit(id[i]));
    }
    assert forall|i: int| e1 + 1 <= i < e2 implies text[i] != '\n' by {
        assert(text[i] == c.screen_name[i - e1 - 1]);
    }
    assert forall|i: int| e2 + 1 <= i < e3 implies text[i] != '\n' by {
        assert(text[i] == c.key[i - e2 - 1]);
    }
    assert forall|i: int| e3 + 1 <= i < e4 implies text[i] != '\n' by {
        assert(text[i] == c.secret[i - e3 - 1]);
    }
    assert(text[e1] == '\n' && text[e2] == '\n' && text[e3] == '\n' && text[e4] == '\n');
    lemma_index_from_finds(text, '\n', 0, e1);
    lemma_index_from_finds(text, '\n', e1 + 1, e2);
    lemma_index_from_finds(text, '\n', e2 + 1, e3);
    lemma_index_from_finds(text, '\n', e3 + 1, e4);
    assert(text.subrange(0, e1) =~= id);
    assert(text.subrange(e1 + 1, e2) =~= c.screen_name);
    assert(text.subrange(e2 + 1, e3) =~= c.key);
    assert(text.subrange(e3 + 1, e4) =~= c.secret);
    assert(is_digit(id.last()));
    assert(line_at(text, 0) == id);
    assert(line_at(text, e1 + 1) == c.screen_name);
    assert(line_at(text, e2 + 1) == c.key);
    assert(line_at(text, e3 + 1) == c.secret);
    assert(parse_u64(id) == Some(c.user_id));
}

/// The line of `s` at `from` and the index of the line feed that ends it,
/// or the length of `s` where none does.
fn read_line(s: &Vec<char>, from: usize) -> (r: (Vec<char>, usize))
    requires
        from < s.len(),
    ensures
        r.0@ == line_at(s@, from as int),
        r.1 + 1 == next_line(s@, from as int),
        from <= r.1 <= s.len(),
{
    let end = find_from(s, '\n', from);
    let stop = if end < s.len() && end > from && s[end - 1] == '\r' {
        end - 1
    } else {
        end
    };
    proof {
        let raw = s@.subrange(from as int, end as int);
        if end > from {
            assert(raw.last() == s@[end - 1]);
            assert(raw.drop_last() == s@.subrange(from as int, end - 1));
        }
    }
    (slice_of(s, from, stop), end)
}

impl Config {
    /// Reads a stored login from its text.
    pub fn load(text: &str) -> (r: Result<Config, ConfigError>)
        ensures
            match r {
                Ok(config) => load_spec(text@) == Ok::<ConfigView, ConfigError>(config@),
                Err(e) => load_spec(text@) == Err::<ConfigView, ConfigError>(e),
            },
    {
        let s = chars_of(text);
        if 0 >= s.len() {
            return Err(ConfigError::MissingLine);
        }
        let (id_line, first_end) = read_line(&s, 0);
        let user_id = match parse_u64_chars(&id_line) {
            Some(n) => n,
            None => {
                return Err(ConfigError::UserIdNotAnInteger);
            },
        };
        if first_end >= s.len() - 1 {
            proof {
                lemma_lines_move_on(s@, first_end + 1);
                lemma_lines_move_on(s@, next_line(s@, first_end + 1));
            }
            return Err(ConfigError::MissingLine);
        }
        let (name_line, second_end) = read_line(&s, first_end + 1);
        if second_end >= s.len() - 1 {
            proof {
                lemma_lines_move_on(s@, second_end + 1);
            }
            return Err(ConfigError::MissingLine);
        }
        let (key_line, third_end) = read_line(&s, second_end + 1);
        if third_end >= s.len() - 1 {
            return Err(ConfigError::MissingLine);
        }
        let fourth = third_end + 1;
        let (secret_line, _) = read_line(&s, fourth);
        Ok(
            Config {
                user_id,
                screen_name: string_of(&name_line),
                access_token: KeyPair { key: string_of(&key_line), secret: string_of(&secret_line) },
            },
        )
    }

    /// The text to store this login as.
    pub fn save(&self) -> (text: String)
        ensures
            text@ == save_spec(self@),
    {
        let mut out: Vec<char> = Vec::new();
        push_decimal(&mut out, self.user_id);
        out.push('\n');
        let mut part = chars_of(self.screen_name.as_str());
        out.append(&mut part);
        out.push('\n');
        let mut part = chars_of(self.access_token.key.as_str());
        out.append(&mut part);
        out.push('\n');
        let mut part = chars_of(self.access_token.secret.as_str());
        out.append(&mut part);
        out.push('\n');
        assert(out@ =~= save_spec(self@));
        string_of(&out)
    }
}

/// Past the end of the text, the begin of the next line lies further past
/// it.
pub proof fn lemma_lines_move_on(s: Seq<char>, from: int)
    requires
        from >= s.len(),
    ensures
        next_line(s, from) > s.len(),
{
}

/// A post of the stream, as far as the rules read it.
#[derive(Debug, Clone, PartialEq, Eq)]
pub struct Tweet {
    pub id: u64,
    /// The screen name of the author, where the post names one.
    pub user: Option<String>,
    pub text: String,
}

/// The term that the stream is filtered by: the mention of the bot.
pub fn track_term(config: &Config) -> (term: String)
    ensures
        term@ == seq!['@'] + config.screen_name@,
{
    proof {
        reveal_strlit("@");
    }
    let term = String::from_str("@").concat(config.screen_name.as_str());
    assert(term@ =~= seq!['@'] + config.screen_name@);
    term
}

/// The text that a post is printed as, if it is printed: the author, a
/// colon, the post without the mention of the bot at its beginning, and two
/// line feeds. A post whose number is the bot's own number, or that names no
/// author, is not printed.
pub open spec fn tweet_line(tweet: Tweet, config: Config) -> Option<Seq<char>> {
    if tweet.id == config.user_id {
        None
    } else {
        match tweet.user {
            None => None,
            Some(name) => Some(
                name@ + seq![':', ' '] + trim_start_matches(
                    trim_start_matches(tweet.text@, seq!['@']),
                    config.screen_name@,
                ) + seq!['\n', '\n'],
            ),
        }
    }
}

/// The job that prints a post, if the post is printed.
pub fn tweet_job(tweet: &Tweet, config: &Config) -> (job: Option<PrinterMsg>)
    ensures
        match job {
            Some(PrinterMsg::Text(text)) => tweet_line(*tweet, *config) == Some(text@),
            Some(PrinterMsg::Image(_)) => false,
            None => tweet_line(*tweet, *config) is None,
        },
{
    if tweet.id == config.user_id {
        return None;
    }
    match &tweet.user {
        None => None,
        Some(name) => {
            let text = chars_of(tweet.text.as_str());
            let mut at: Vec<char> = Vec::new();
            at.push('@');
            assert(at@ == seq!['@']);
            let unmentioned = trimmed_start_matches(&text, &at);
            let mut body = trimmed_start_matches(
                &unmentioned,
                &chars_of(config.screen_name.as_str()),
            );
            let mut out = chars_of(name.as_str());
            out.push(':');
            out.push(' ');
            out.append(&mut body);
            out.push('\n');
            out.push('\n');
            assert(out@ =~= tweet_line(*tweet, *config)->0);
            Some(PrinterMsg::Text(string_of(&out)))
        },
    }
}

/// What is known of the stored login.
#[derive(Debug, Clone, Copy, PartialEq, Eq, Structural)]
pub enum StoredLogin {
    /// There is none.
    Missing,
    /// There is one; it has not been tried.
    Untried,
    /// The service took it.
    Accepted,
    /// The service refused it.
    Refused,
}

/// The next step of logging in.
#[derive(Debug, Clone, Copy, PartialEq, Eq, Structural)]
pub enum LoginStep {
    /// Read the stored login and ask the service whether it holds.
    Verify,
    /// Log in with the stored login.
    UseStored,
    /// Ask the user to sign in afresh, and store the new login.
    CreateNew,
    /// Delete the stored login, then ask the user to sign in afresh.
    DiscardAndCreateNew,
}

/// The next step of logging in, given what is known of the stored login.
pub fn login(stored: StoredLogin) -> (step: LoginStep)
    ensures
        step == match stored {
            StoredLogin::Missing => LoginStep::CreateNew,
            StoredLogin::Untried => LoginStep::Verify,
            StoredLogin::Accepted => LoginStep::UseStored,
            StoredLogin::Refused => LoginStep::DiscardAndCreateNew,
        },
{
    match stored {
        StoredLogin::Missing => LoginStep::CreateNew,
        StoredLogin::Untried => LoginStep::Verify,
        StoredLogin::Accepted => LoginStep::UseStored,
        StoredLogin::Refused => LoginStep::DiscardAndCreateNew,
    }
}

/// The sign-in number that a line of input gives: the line without the white
/// space around it, read as an unsigned 32-bit integer.
pub fn parse_pin(line: &str) -> (pin: Option<u32>)
    ensures
        pin == parse_u32(trim(line@)),
{
    parse_u32_chars(&trimmed(&chars_of(line)))
}

} // verus!
