//! The budgets and verdicts of one script evaluation.
//!
//! The evaluator itself is driven from outside. For each submission it asks
//! [`Sandbox::begin`] for the script text and a fresh [`Submission`]; while the
//! script runs, each call the script makes to the host comes to
//! [`Submission::emit_text`] or [`Submission::emit_image`], and each firing of
//! the step hook to [`Submission::step_hook`]; when the script ends,
//! [`Submission::finish`] turns what it left into lines.

use crate::number::{
    decimal_text, push_decimal, push_signed_decimal, push_two_digits, signed_decimal_text,
    two_digits,
};
use crate::printer::{Bitmap, PrinterMsg, PRINTER_DOTS_PER_LINE};
use crate::text::{
    chars_of, string_of, trim_end, trim_end_matches, trim_start, trim_start_matches,
    trimmed_end, trimmed_end_matches, trimmed_start, trimmed_start_matches,
};
use crate::time_range::{read_local_clock, LocalClock, TimeOfDay};
use vstd::prelude::*;

verus! {

/// Why a call from a script to the host, or the script itself, was stopped.
#[derive(Debug, Clone, Copy, PartialEq, Eq)]
pub enum ScriptError {
    /// The submission has printed all the text it may.
    TextLimit,
    /// The submission has printed all the image dots it may.
    ImageLimit,
    /// The submission has run as many instructions as it may.
    InstructionLimit,
    /// An image whose dots do not fill whole printer lines.
    ImageWidth,
    /// An image too large to hold in memory as a bitmap.
    ImageTooLarge,
}

impl ScriptError {
    /// The text shown to the script's author.
    pub open spec fn message_spec(&self) -> Seq<char> {
        match self {
            ScriptError::TextLimit => "Text byte limit reached"@,
            ScriptError::ImageLimit => "Image byte limit reached"@,
            ScriptError::InstructionLimit => "Instruction limit reached"@,
            ScriptError::ImageWidth => "Err: Img width != 384"@,
            ScriptError::ImageTooLarge => "Failed to create rgb image"@,
        }
    }

    /// The text shown to the script's author.
    pub fn message(&self) -> (r: String)
        ensures
            r@ == self.message_spec(),
    {
        match self {
            ScriptError::TextLimit => String::from_str("Text byte limit reached"),
            ScriptError::ImageLimit => String::from_str("Image byte limit reached"),
            ScriptError::InstructionLimit => String::from_str("Instruction limit reached"),
            ScriptError::ImageWidth => String::from_str("Err: Img width != 384"),
            ScriptError::ImageTooLarge => String::from_str("Failed to create rgb image"),
        }
    }
}

/// What is left of a budget of `remaining` once `amount` is spent. The
/// counter is signed and stops at the least 64-bit integer.
pub open spec fn after_charge(remaining: int, amount: nat) -> int {
    if remaining - amount < i64::MIN {
        i64::MIN as int
    } else {
        remaining - amount
    }
}

/// What is left of a budget of `remaining` once each of `amounts` is spent in
/// turn.
pub open spec fn after_charges(remaining: int, amounts: Seq<nat>) -> int
    decreases amounts.len(),
{
    if amounts.len() == 0 {
        remaining
    } else {
        after_charge(after_charges(remaining, amounts.drop_last()), amounts.last())
    }
}

/// The sum of `amounts`.
pub open spec fn total(amounts: Seq<nat>) -> nat
    decreases amounts.len(),
{
    if amounts.len() == 0 {
        0
    } else {
        total(amounts.drop_last()) + amounts.last()
    }
}

/// What is left of a budget is the budget less all that was spent, down to
/// the least 64-bit integer.
pub proof fn lemma_budget_is_limit_less_spent(limit: int, amounts: Seq<nat>)
    requires
        limit >= i64::MIN,
    ensures
        after_charges(limit, amounts) == after_charge(limit, total(amounts)),
    decreases amounts.len(),
{
    if amounts.len() > 0 {
        lemma_budget_is_limit_less_spent(limit, amounts.drop_last());
    }
}

/// A further spending passes exactly when all that was spent before,
/// together with it, stays below the limit.
pub proof fn lemma_spending_passes_below_the_limit(limit: int, amounts: Seq<nat>, amount: nat)
    requires
        limit >= i64::MIN,
    ensures
        after_charges(limit, amounts) - amount > 0 <==> total(amounts) + amount < limit,
{
    lemma_budget_is_limit_less_spent(limit, amounts);
}

/// Spending never refills a budget: after any further spending, a budget that
/// has run out is still out, so every later attempt to spend from it fails.
pub proof fn lemma_spent_budget_stays_spent(remaining: int, amounts: Seq<nat>)
    requires
        remaining <= 0,
    ensures
        after_charges(remaining, amounts) <= 0,
    decreases amounts.len(),
{
    if amounts.len() > 0 {
        lemma_spent_budget_stays_spent(remaining, amounts.drop_last());
    }
}

/// A signed counter that bounds one resource for one submission.
#[derive(Debug, Clone, PartialEq, Eq)]
pub struct Budget {
    remaining: i64,
}

impl View for Budget {
    type V = int;

    closed spec fn view(&self) -> int {
        self.remaining as int
    }
}

impl Budget {
    /// A full budget of `limit`.
    pub fn new(limit: u32) -> (b: Budget)
        ensures
            b@ == limit,
    {
        Budget { remaining: limit as i64 }
    }

    /// What is left; not positive once the budget has run out.
    pub fn remaining(&self) -> (r: i64)
        ensures
            r == self@,
    {
        self.remaining
    }

    /// Spends `amount`, and says whether something is still left afterwards.
    /// The amount is taken off even when that leaves nothing.
    pub fn charge(&mut self, amount: usize) -> (ok: bool)
        ensures
            final(self)@ == after_charge(old(self)@, amount as nat),
            ok == (old(self)@ - amount > 0),
    {
        let left: i128 = self.remaining as i128 - amount as i128;
        if left < i64::MIN as i128 {
            self.remaining = i64::MIN;
        } else {
            self.remaining = left as i64;
        }
        left > 0
    }
}

/// A value that a script returned, as far as printing it needs.
#[derive(Debug, Clone, PartialEq, Eq)]
pub enum ScriptValue {
    Nil,
    Boolean(bool),
    Integer(i64),
    /// A floating-point number, already written out in decimal.
    Number(String),
    /// A string; `None` where its bytes are not UTF-8.
    Str(Option<String>),
    /// Any other value, in its debug form.
    Other(String),
}

/// How an evaluation ended.
#[derive(Debug, Clone, PartialEq, Eq)]
pub enum Outcome {
    /// The script ran to its end and returned these values.
    Values(Vec<ScriptValue>),
    /// The script failed on its own; the text is the evaluator's message.
    ScriptRuntimeError(String),
    /// A call to the host refused; the text is the host's message.
    HostCallbackError(String),
    /// The step hook stopped the script.
    InstructionLimitExceeded,
}

/// The text of a submission without the code fence that may surround it.
pub open spec fn strip_code_fence(s: Seq<char>) -> Seq<char> {
    trim_end(
        trim_end_matches(
            trim_start_matches(trim_start_matches(trim_start(s), "```lua"@), "```"@),
            "```"@,
        ),
    )
}

/// The line that a returned value is printed as.
pub open spec fn value_text(v: ScriptValue) -> Seq<char> {
    match v {
        ScriptValue::Nil => "nil"@,
        ScriptValue::Boolean(b) => if b {
            "true"@
        } else {
            "false"@
        },
        ScriptValue::Integer(i) => signed_decimal_text(i as int),
        ScriptValue::Number(text) => text@,
        ScriptValue::Str(Some(text)) => seq!['"'] + text@ + seq!['"'],
        ScriptValue::Str(None) => seq!['"', '"'],
        ScriptValue::Other(text) => text@,
    }
}

/// The lines that an evaluation's outcome is printed as: one for an error,
/// one for each returned value.
pub open spec fn outcome_lines(o: Outcome) -> Seq<Seq<char>> {
    match o {
        Outcome::Values(values) => Seq::new(values@.len(), |i: int| value_text(values@[i])),
        Outcome::ScriptRuntimeError(message) => seq!["Error: "@ + message@],
        Outcome::HostCallbackError(message) => seq![message@],
        Outcome::InstructionLimitExceeded => seq![ScriptError::InstructionLimit.message_spec()],
    }
}

/// The bytes of the bitmap that `bits` draws: black where a bit is set, white
/// where it is not, three equal bytes a pixel.
pub open spec fn pixels_of(bits: Seq<bool>) -> Seq<u8> {
    Seq::new(
        3 * bits.len(),
        |k: int|
            if bits[k / 3] {
                0x00u8
            } else {
                0xFFu8
            },
    )
}

/// Whether a bitmap of `dots` dots is too large to build: its bytes would not
/// fit a `usize`, or its lines a `u32`.
pub open spec fn bitmap_too_large(dots: nat) -> bool {
    3 * dots > usize::MAX || dots / (PRINTER_DOTS_PER_LINE as nat) > u32::MAX
}

/// Draws `bits` as a bitmap one printer line wide, row after row.
pub fn bits_to_bitmap(bits: &Vec<bool>) -> (r: Result<Bitmap, ScriptError>)
    ensures
        match r {
            Ok(b) => {
                &&& bits@.len() % (PRINTER_DOTS_PER_LINE as nat) == 0
                &&& !bitmap_too_large(bits@.len())
                &&& b.wf()
                &&& b.width == PRINTER_DOTS_PER_LINE
                &&& b.height == bits@.len() / (PRINTER_DOTS_PER_LINE as nat)
                &&& b.data@ == pixels_of(bits@)
            },
            Err(e) => if bits@.len() % (PRINTER_DOTS_PER_LINE as nat) != 0 {
                e == ScriptError::ImageWidth
            } else {
                e == ScriptError::ImageTooLarge && bitmap_too_large(bits@.len())
            },
        },
{
    let dots: usize = bits.len();
    if dots % (PRINTER_DOTS_PER_LINE as usize) != 0 {
        return Err(ScriptError::ImageWidth);
    }
    let lines: usize = dots / (PRINTER_DOTS_PER_LINE as usize);
    if lines > u32::MAX as usize {
        return Err(ScriptError::ImageTooLarge);
    }
    if dots.checked_mul(3).is_none() {
        return Err(ScriptError::ImageTooLarge);
    }
    let mut data: Vec<u8> = Vec::new();
    let mut i: usize = 0;
    while i < dots
        invariant
            dots == bits@.len(),
            3 * dots <= usize::MAX,
            i <= dots,
            data@.len() == 3 * i,
            forall|k: int| 0 <= k < 3 * i ==> #[trigger] data@[k] == pixels_of(bits@)[k],
        decreases dots - i,
    {
        let px: u8 = if bits[i] {
            0x00
        } else {
            0xFF
        };
        data.push(px);
        data.push(px);
        data.push(px);
        i += 1;
    }
    assert(data@ == pixels_of(bits@));
    assert(3 * PRINTER_DOTS_PER_LINE * lines == 3 * dots) by (nonlinear_arith)
        requires
            dots % (PRINTER_DOTS_PER_LINE as usize) == 0,
            lines == dots / (PRINTER_DOTS_PER_LINE as usize),
            PRINTER_DOTS_PER_LINE == 384,
    ;
    Ok(Bitmap { width: PRINTER_DOTS_PER_LINE, height: lines as u32, data })
}

/// The line that a returned value is printed as.
pub fn value_to_string(value: &ScriptValue) -> (r: String)
    ensures
        r@ == value_text(*value),
{
    match value {
        ScriptValue::Nil => String::from_str("nil"),
        ScriptValue::Boolean(b) => {
            if *b {
                String::from_str("true")
            } else {
                String::from_str("false")
            }
        },
        ScriptValue::Integer(i) => {
            let mut out: Vec<char> = Vec::new();
            push_signed_decimal(&mut out, *i);
            string_of(&out)
        },
        ScriptValue::Number(text) => text.clone(),
        ScriptValue::Str(Some(text)) => {
            let mut out: Vec<char> = Vec::new();
            out.push('"');
            let mut body = chars_of(text.as_str());
            out.append(&mut body);
            out.push('"');
            string_of(&out)
        },
        ScriptValue::Str(None) => {
            let mut out: Vec<char> = Vec::new();
            out.push('"');
            out.push('"');
            string_of(&out)
        },
        ScriptValue::Other(text) => text.clone(),
    }
}

/// The number of bytes that `text` takes in UTF-8.
pub open spec fn utf8_len(text: Seq<char>) -> nat {
    vstd::utf8::encode_utf8(text).len()
}

/// One script submission while it runs: its text and what is left of its
/// budgets. It is made by [`Sandbox::begin`] and ends with
/// [`Submission::finish`]; nothing of it passes to the next submission.
#[derive(Debug)]
pub struct Submission {
    script: String,
    hook_interval: u32,
    text: Budget,
    image: Budget,
}

impl Submission {
    /// The script text to evaluate.
    pub closed spec fn script_spec(&self) -> Seq<char> {
        self.script@
    }

    /// How many instructions may run between two firings of the step hook.
    pub closed spec fn hook_interval_spec(&self) -> u32 {
        self.hook_interval
    }

    /// What is left of the budget of text bytes.
    pub closed spec fn text_remaining(&self) -> int {
        self.text@
    }

    /// What is left of the budget of image dots.
    pub closed spec fn image_remaining(&self) -> int {
        self.image@
    }

    /// The script text to evaluate.
    pub fn script(&self) -> (s: &str)
        ensures
            s@ == self.script_spec(),
    {
        self.script.as_str()
    }

    /// How many instructions may run between two firings of the step hook.
    pub fn hook_interval(&self) -> (k: u32)
        ensures
            k == self.hook_interval_spec(),
    {
        self.hook_interval
    }

    /// What is left of the budget of text bytes.
    pub fn remaining_text_bytes(&self) -> (r: i64)
        ensures
            r == self.text_remaining(),
    {
        self.text.remaining()
    }

    /// What is left of the budget of image dots.
    pub fn remaining_image_bytes(&self) -> (r: i64)
        ensures
            r == self.image_remaining(),
    {
        self.image.remaining()
    }

    /// The script asks to print `text`. Its bytes are taken off the text
    /// budget; if something is left, the text becomes a job, else the call is
    /// refused.
    pub fn emit_text(&mut self, text: String) -> (r: Result<PrinterMsg, ScriptError>)
        ensures
            final(self).text_remaining() == after_charge(
                old(self).text_remaining(),
                utf8_len(text@),
            ),
            final(self).image_remaining() == old(self).image_remaining(),
            final(self).script_spec() == old(self).script_spec(),
            final(self).hook_interval_spec() == old(self).hook_interval_spec(),
            r == if old(self).text_remaining() - utf8_len(text@) > 0 {
                Ok::<PrinterMsg, ScriptError>(PrinterMsg::Text(text))
            } else {
                Err::<PrinterMsg, ScriptError>(ScriptError::TextLimit)
            },
    {
        let amount: usize = text.as_str().as_bytes().len();
        if self.text.charge(amount) {
            Ok(PrinterMsg::Text(text))
        } else {
            Err(ScriptError::TextLimit)
        }
    }

    /// The script asks to print the image that `bits` draws. Its dots are
    /// taken off the image budget; if something is left and the dots fill
    /// whole printer lines, the image becomes a job, else the call is refused.
    pub fn emit_image(&mut self, bits: Vec<bool>) -> (r: Result<PrinterMsg, ScriptError>)
        ensures
            final(self).image_remaining() == after_charge(
                old(self).image_remaining(),
                bits@.len(),
            ),
            final(self).text_remaining() == old(self).text_remaining(),
            final(self).script_spec() == old(self).script_spec(),
            final(self).hook_interval_spec() == old(self).hook_interval_spec(),
            match r {
                Ok(job) => {
                    &&& old(self).image_remaining() - bits@.len() > 0
                    &&& bits@.len() % (PRINTER_DOTS_PER_LINE as nat) == 0
                    &&& job matches PrinterMsg::Image(b)
                    &&& b.wf()
                    &&& b.width == PRINTER_DOTS_PER_LINE
                    &&& b.height == bits@.len() / (PRINTER_DOTS_PER_LINE as nat)
                    &&& b.data@ == pixels_of(bits@)
                },
                Err(e) => if old(self).image_remaining() - bits@.len() <= 0 {
                    e == ScriptError::ImageLimit
                } else if bits@.len() % (PRINTER_DOTS_PER_LINE as nat) != 0 {
                    e == ScriptError::ImageWidth
                } else {
                    e == ScriptError::ImageTooLarge && bitmap_too_large(bits@.len())
                },
            },
    {
        if self.image.charge(bits.len()) {
            match bits_to_bitmap(&bits) {
                Ok(bitmap) => Ok(PrinterMsg::Image(bitmap)),
                Err(e) => Err(e),
            }
        } else {
            Err(ScriptError::ImageLimit)
        }
    }

    /// The step hook fired: the script has run its share of instructions and
    /// is stopped, whatever it was doing.
    pub fn step_hook(&self) -> (e: ScriptError)
        ensures
            e == ScriptError::InstructionLimit,
    {
        ScriptError::InstructionLimit
    }

    /// Ends the submission: its budgets are dropped, and the outcome of the
    /// evaluation becomes the lines to print.
    pub fn finish(self, outcome: Outcome) -> (lines: Vec<String>)
        ensures
            lines@.len() == outcome_lines(outcome).len(),
            forall|i: int| 0 <= i < lines@.len() ==> (#[trigger] lines@[i])@ == outcome_lines(outcome)[i],
    {
        let mut lines: Vec<String> = Vec::new();
        match outcome {
            Outcome::Values(values) => {
                let mut i: usize = 0;
                while i < values.len()
                    invariant
                        i <= values.len(),
                        lines@.len() == i,
                        forall|k: int| 0 <= k < i ==> (#[trigger] lines@[k])@ == value_text(values@[k]),
                    decreases values.len() - i,
                {
                    lines.push(value_to_string(&values[i]));
                    i += 1;
                }
            },
            Outcome::ScriptRuntimeError(message) => {
                lines.push(String::from_str("Error: ").concat(message.as_str()));
            },
            Outcome::HostCallbackError(message) => {
                lines.push(message);
            },
            Outcome::InstructionLimitExceeded => {
                lines.push(ScriptError::InstructionLimit.message());
            },
        }
        lines
    }
}

/// Where a job or a line of a script goes.
#[derive(Debug, Clone, PartialEq, Eq)]
pub enum Delivery {
    /// To the printer's queue.
    Printer(PrinterMsg),
    /// There is no printer: write this note to the error stream.
    Note(String),
    /// There is no printer: save the image under this name, and write this
    /// note to the error stream.
    Save { path: String, note: String, image: Bitmap },
}

/// The name under which an image is saved at the time `t`.
pub open spec fn image_path(t: TimeOfDay) -> Seq<char> {
    "lua-"@ + two_digits(t.hour as nat) + seq!['-'] + two_digits(t.minute as nat) + seq!['-']
        + two_digits(t.second as nat) + ".png"@
}

/// The note on a text that goes nowhere else.
pub open spec fn text_note(text: Seq<char>) -> Seq<char> {
    "Lua text: "@ + text
}

/// The note on an image that is saved under `path`.
pub open spec fn image_note(width: u32, height: u32, path: Seq<char>) -> Seq<char> {
    "Lua image "@ + decimal_text(width as nat) + seq!['x'] + decimal_text(height as nat)
        + seq![':', ' '] + path
}

/// Whether `r` is where `msg` goes when the local clock reads `clock`: to
/// the printer if there is one; else a text becomes a note, and an image is
/// saved under a name made of the time, with a note of its size and name.
pub open spec fn is_delivery_of(r: Delivery, printer: bool, msg: PrinterMsg, clock: LocalClock) -> bool {
    if printer {
        r == Delivery::Printer(msg)
    } else {
        match msg {
            PrinterMsg::Text(text) => r matches Delivery::Note(note) && note@ == text_note(text@),
            PrinterMsg::Image(b) => {
                &&& r matches Delivery::Save { path, note, image }
                &&& image == b
                &&& path@ == image_path(clock.time)
                &&& note@ == image_note(b.width, b.height, image_path(clock.time))
            },
        }
    }
}

/// Where `msg` goes when the local clock reads `clock`.
pub fn deliver(printer: bool, msg: PrinterMsg, clock: LocalClock) -> (r: Delivery)
    ensures
        is_delivery_of(r, printer, msg, clock),
{
    if printer {
        return Delivery::Printer(msg);
    }
    match msg {
        PrinterMsg::Text(text) => {
            Delivery::Note(String::from_str("Lua text: ").concat(text.as_str()))
        },
        PrinterMsg::Image(image) => {
            let mut name = chars_of("lua-");
            push_two_digits(&mut name, clock.time.hour);
            name.push('-');
            push_two_digits(&mut name, clock.time.minute);
            name.push('-');
            push_two_digits(&mut name, clock.time.second);
            let mut ending = chars_of(".png");
            name.append(&mut ending);
            assert(name@ =~= image_path(clock.time));
            let mut note = chars_of("Lua image ");
            push_decimal(&mut note, image.width as u64);
            note.push('x');
            push_decimal(&mut note, image.height as u64);
            note.push(':');
            note.push(' ');
            let mut tail = name.clone();
            assert(tail@ == name@);
            note.append(&mut tail);
            assert(note@ =~= image_note(image.width, image.height, name@));
            Delivery::Save { path: string_of(&name), note: string_of(&note), image }
        },
    }
}

/// Where `msg` goes now. The local clock is read where an image is to be
/// saved, and only there.
pub fn print_res(printer: bool, msg: PrinterMsg) -> (r: Delivery)
    ensures
        exists|clock: LocalClock| clock.wf() && is_delivery_of(r, printer, msg, clock),
        printer || msg is Text ==> forall|clock: LocalClock|
            is_delivery_of(r, printer, msg, clock),
{
    let saves = !printer && match &msg {
        PrinterMsg::Image(_) => true,
        PrinterMsg::Text(_) => false,
    };
    let clock = if saves {
        read_local_clock()
    } else {
        LocalClock { time: TimeOfDay { hour: 0, minute: 0, second: 0, nano: 0 }, utc_offset: 0 }
    };
    let r = deliver(printer, msg, clock);
    assert(clock.wf() && is_delivery_of(r, printer, msg, clock));
    r
}

/// The limits that every submission starts from.
#[derive(Debug, Clone, Copy, PartialEq, Eq)]
pub struct Sandbox {
    /// Instructions between two firings of the step hook.
    pub max_instructions: u32,
    /// Text bytes that one submission may print.
    pub max_bytes_text: u32,
    /// Image dots that one submission may print.
    pub max_bytes_image: u32,
}

impl Sandbox {
    /// A sandbox with the given limits; `None` stands for the largest limit.
    pub fn new(
        max_instructions: Option<u32>,
        max_bytes_text: Option<u32>,
        max_bytes_image: Option<u32>,
    ) -> (s: Sandbox)
        ensures
            s.max_instructions == max_instructions.unwrap_or(u32::MAX),
            s.max_bytes_text == max_bytes_text.unwrap_or(u32::MAX),
            s.max_bytes_image == max_bytes_image.unwrap_or(u32::MAX),
    {
        Sandbox {
            max_instructions: max_instructions.unwrap_or(u32::MAX),
            max_bytes_text: max_bytes_text.unwrap_or(u32::MAX),
            max_bytes_image: max_bytes_image.unwrap_or(u32::MAX),
        }
    }

    /// Starts a submission: strips the code fence from its text and gives it
    /// full budgets, whatever earlier submissions spent.
    pub fn begin(&self, submission: &str) -> (s: Submission)
        ensures
            s.script_spec() == strip_code_fence(submission@),
            s.hook_interval_spec() == self.max_instructions,
            s.text_remaining() == self.max_bytes_text,
            s.image_remaining() == self.max_bytes_image,
    {
        let fence_lua = chars_of("```lua");
        let fence = chars_of("```");
        let chars = chars_of(submission);
        let a = trimmed_start(&chars);
        let b = trimmed_start_matches(&a, &fence_lua);
        let c = trimmed_start_matches(&b, &fence);
        let d = trimmed_end_matches(&c, &fence);
        let e = trimmed_end(&d);
        Submission {
            script: string_of(&e),
            hook_interval: self.max_instructions,
            text: Budget::new(self.max_bytes_text),
            image: Budget::new(self.max_bytes_image),
        }
    }
}

} // verus!
