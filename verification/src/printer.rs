//! The printer's jobs and the rules that turn a chat message into jobs.

use crate::command::PRINT_COMMAND;
use crate::message::{Attachment, Message};
use crate::text::{
    after_last, after_last_of, chars_of, same_chars, slice_of, string_of, trim_start,
    trim_start_matches, trimmed_start, trimmed_start_matches,
};
use hyper::client::IntoUrl;
use vstd::prelude::*;

verus! {


/// Characters that fit on one printed line.
pub const PRINTER_CHARS_PER_LINE: usize = 32;

/// Dots across one printed line: the width of every bitmap the printer takes.
pub const PRINTER_DOTS_PER_LINE: u32 = 384;

/// Lines of dots that an image is fitted into, at most.
pub const MAX_IMAGE_LINES: u32 = 9000;

/// Bytes of an image that are fetched, at most.
pub const MAX_DOWNLOAD_SIZE: u64 = 8_388_608;

/// Whether a download of `fetched` bytes reached the limit, so that the end
/// of the image may be missing.
pub fn download_cut_short(fetched: usize) -> (r: bool)
    ensures
        r == (fetched == MAX_DOWNLOAD_SIZE),
{
    fetched as u64 == MAX_DOWNLOAD_SIZE
}

/// What the printer prints when it has been set up.
pub const PRINTER_WELCOME: &'static str = "Welcome to Discord!\n\n\n\n";

/// An RGB raster, three bytes a pixel, rows from the top, pixels from the
/// left.
#[derive(Debug, Clone, PartialEq, Eq)]
pub struct Bitmap {
    pub width: u32,
    pub height: u32,
    pub data: Vec<u8>,
}

impl Bitmap {
    /// The raster holds exactly three bytes for each of its pixels.
    pub open spec fn wf(&self) -> bool {
        self.data@.len() == 3 * self.width * self.height
    }

    /// A bitmap over `data`, if `data` holds exactly `width * height` pixels.
    pub fn from_raw(width: u32, height: u32, data: Vec<u8>) -> (r: Option<Bitmap>)
        ensures
            r is Some <==> data@.len() == 3 * width * height,
            r matches Some(b) ==> b.wf() && b.width == width && b.height == height && b.data@
                == data@,
    {
        assert(3 * width * height == 3 * (width * height)) by (nonlinear_arith);
        assert(0 <= width * height <= 0xFFFF_FFFF * 0xFFFF_FFFF) by (nonlinear_arith)
            requires
                0 <= width <= 0xFFFF_FFFF,
                0 <= height <= 0xFFFF_FFFF,
        ;
        let pixels: u128 = width as u128 * height as u128;
        let bytes: u128 = 3 * pixels;
        if data.len() as u128 == bytes {
            Some(Bitmap { width, height, data })
        } else {
            None
        }
    }
}

/// One unit of work for the printer.
#[derive(Debug, Clone, PartialEq, Eq)]
pub enum PrinterMsg {
    Image(Bitmap),
    Text(String),
}

/// How a job is set on the paper.
#[derive(Debug, Clone, Copy, PartialEq, Eq, Structural)]
pub enum Align {
    Center,
    Left,
}

impl Align {
    /// The printer's code for this alignment.
    pub fn code(&self) -> (r: &'static str)
        ensures
            r@ == match self {
                Align::Center => "ct"@,
                Align::Left => "lt"@,
            },
    {
        match self {
            Align::Center => "ct",
            Align::Left => "lt",
        }
    }
}

impl PrinterMsg {
    /// How this job is set on the paper: images in the middle, text from
    /// the left.
    pub fn align(&self) -> (r: Align)
        ensures
            r == match self {
                PrinterMsg::Image(_) => Align::Center,
                PrinterMsg::Text(_) => Align::Left,
            },
    {
        match self {
            PrinterMsg::Image(_) => Align::Center,
            PrinterMsg::Text(_) => Align::Left,
        }
    }
}

/// What the URL parser makes of a text: the URL in its normal form and the
/// path of that URL, or `None` where the text is no URL.
pub uninterp spec fn parsed_url(s: Seq<char>) -> Option<(Seq<char>, Seq<char>)>;

/// Parses `s` as a URL with hyper's `IntoUrl::into_url` for `&str`, and hands
/// out the parsed URL's text (`Url::as_str`) and its path (`Url::path`).
/// Stated: the pair is what the parser makes of `s`, and a text that the
/// parser refuses gives `None`.
#[verifier::external_body]
fn parse_url(s: &str) -> (r: Option<(String, String)>)
    ensures
        match r {
            Some((normal, path)) => parsed_url(s@) == Some((normal@, path@)),
            None => parsed_url(s@) is None,
        },
{
    let url = s.into_url().ok()?;
    Some((url.as_str().to_string(), url.path().to_string()))
}

/// Whether `ext` is a file extension of an image that the printer path takes.
pub open spec fn is_image_extension(ext: Seq<char>) -> bool {
    ||| ext == "gif"@
    ||| ext == "png"@
    ||| ext == "webp"@
    ||| ext == "jpeg"@
    ||| ext == "jpg"@
}

/// Whether the path of a URL names an image file: the path begins with `/`,
/// and what follows the last `.` of its last segment is an image extension.
/// A last segment without a `.` is its own extension.
pub open spec fn is_image_path(path: Seq<char>) -> bool {
    path.len() > 0 && path[0] == '/' && is_image_extension(
        after_last(after_last(path.drop_first(), '/'), '.'),
    )
}

/// The normal form of `s` as a URL, if `s` is the URL of an image file.
pub open spec fn image_url(s: Seq<char>) -> Option<Seq<char>> {
    match parsed_url(s) {
        Some((normal, path)) => if is_image_path(path) {
            Some(normal)
        } else {
            None
        },
        None => None,
    }
}

/// Executable form of [`is_image_extension`].
pub fn has_image_extension(ext: &Vec<char>) -> (r: bool)
    ensures
        r == is_image_extension(ext@),
{
    same_chars(ext, &chars_of("gif")) || same_chars(ext, &chars_of("png")) || same_chars(
        ext,
        &chars_of("webp"),
    ) || same_chars(ext, &chars_of("jpeg")) || same_chars(ext, &chars_of("jpg"))
}

/// Executable form of [`is_image_path`].
pub fn names_image(path: &str) -> (r: bool)
    ensures
        r == is_image_path(path@),
{
    let chars = chars_of(path);
    if chars.len() == 0 || chars[0] != '/' {
        return false;
    }
    let segments = slice_of(&chars, 1, chars.len());
    assert(segments@ == chars@.drop_first());
    let file_name = after_last_of(&segments, '/');
    let extension = after_last_of(&file_name, '.');
    has_image_extension(&extension)
}

/// Given what the URL parser made of a text, the URL to fetch an image from:
/// the parsed URL's normal form where its path names an image file.
pub fn image_url_of(parsed: Option<(String, String)>) -> (r: Option<String>)
    ensures
        r matches Some(url) ==> parsed matches Some((normal, path)) && url@ == normal@
            && is_image_path(path@),
        r is None ==> (parsed matches Some((_, path)) ==> !is_image_path(path@)),
{
    match parsed {
        Some((normal, path)) => {
            if names_image(path.as_str()) {
                Some(normal)
            } else {
                None
            }
        },
        None => None,
    }
}

/// The URL to fetch an image from, if `s` is the URL of an image file.
pub fn validate_url(s: &str) -> (r: Option<String>)
    ensures
        match r {
            Some(url) => image_url(s@) == Some(url@),
            None => image_url(s@) is None,
        },
{
    image_url_of(parse_url(s))
}

/// The line printed above a message: the author and the date, or, where
/// that is too long for one line, the author alone.
pub open spec fn header_text(author: Seq<char>, date: Seq<char>) -> Seq<char> {
    let full = author + seq![' '] + date + seq![':'];
    if full.len() > PRINTER_CHARS_PER_LINE {
        author + seq![':', ' ']
    } else {
        full
    }
}

/// Executable form of [`header_text`].
pub fn header_line(author: &str, date: &Vec<char>) -> (r: String)
    ensures
        r@ == header_text(author@, date@),
{
    let name = chars_of(author);
    let mut full: Vec<char> = name.clone();
    assert(full@ == name@);
    full.push(' ');
    let mut date_chars = date.clone();
    assert(date_chars@ == date@);
    full.append(&mut date_chars);
    full.push(':');
    assert(full@ == author@ + seq![' '] + date@ + seq![':']);
    if full.len() > PRINTER_CHARS_PER_LINE {
        let mut short = name;
        short.push(':');
        short.push(' ');
        assert(short@ == author@ + seq![':', ' ']);
        string_of(&short)
    } else {
        string_of(&full)
    }
}

/// One step of printing a message.
#[derive(Debug, Clone, PartialEq, Eq)]
pub enum PrintStep {
    /// Print this text.
    Text(String),
    /// Fetch the image at this URL, fit it to the printer and print it.
    Image(String),
}

/// A [`PrintStep`] in contracts.
pub enum PrintStepView {
    Text(Seq<char>),
    Image(Seq<char>),
}

impl View for PrintStep {
    type V = PrintStepView;

    open spec fn view(&self) -> PrintStepView {
        match self {
            PrintStep::Text(text) => PrintStepView::Text(text@),
            PrintStep::Image(url) => PrintStepView::Image(url@),
        }
    }
}

/// The views of `steps`, in order.
pub open spec fn step_views(steps: Seq<PrintStep>) -> Seq<PrintStepView> {
    Seq::new(steps.len(), |i: int| steps[i]@)
}

/// What a message asks to print: its content after the command.
pub open spec fn print_body(content: Seq<char>) -> Seq<char> {
    trim_start(trim_start_matches(content, PRINT_COMMAND@))
}

/// The step that prints the body of a message: the image where the body is
/// the URL of one, else the body as text.
pub open spec fn body_step(body: Seq<char>) -> PrintStepView {
    match image_url(body) {
        Some(url) => PrintStepView::Image(url),
        None => PrintStepView::Text(body),
    }
}

/// The URL to print an attachment from: the attachment says it is an image,
/// and its URL is that of an image file.
pub open spec fn printable(attachment: Attachment) -> Option<Seq<char>> {
    if attachment.dimensions is Some {
        image_url(attachment.url@)
    } else {
        None
    }
}

/// The steps that print the attachments: one for each printable one, in
/// their order; the others are passed over.
pub open spec fn attachment_steps(attachments: Seq<Attachment>) -> Seq<PrintStepView>
    decreases attachments.len(),
{
    if attachments.len() == 0 {
        Seq::empty()
    } else {
        let before = attachment_steps(attachments.drop_last());
        match printable(attachments.last()) {
            Some(url) => before.push(PrintStepView::Image(url)),
            None => before,
        }
    }
}

/// The steps that print a message. A message with neither body nor
/// attachment prints nothing. Any other prints its header line where headers
/// are on, then its body if it has one, then its printable attachments.
pub open spec fn print_plan(message: Message, header: bool) -> Seq<PrintStepView> {
    let body = print_body(message.content@);
    if body.len() == 0 && message.attachments@.len() == 0 {
        Seq::empty()
    } else {
        let head = if header {
            seq![
                PrintStepView::Text(header_text(message.author.name@, message.timestamp.text())),
            ]
        } else {
            Seq::empty()
        };
        let middle = if body.len() > 0 {
            seq![body_step(body)]
        } else {
            Seq::empty()
        };
        head + middle + attachment_steps(message.attachments@)
    }
}

/// Turns print commands into steps for the printer.
#[derive(Debug, Clone, Copy, PartialEq, Eq, Structural)]
pub struct PrintHandler {
    /// Whether each message is printed under a header line.
    pub header: bool,
}

impl PrintHandler {
    /// A handler that prints header lines or not.
    pub fn new(header: bool) -> (r: PrintHandler)
        ensures
            r.header == header,
    {
        PrintHandler { header }
    }

    /// The steps that print `message`, in the order to take them.
    pub fn handle_print_request(&self, message: &Message) -> (steps: Vec<PrintStep>)
        ensures
            step_views(steps@) == print_plan(*message, self.header),
    {
        let mut steps: Vec<PrintStep> = Vec::new();
        let content = chars_of(message.content.as_str());
        let command = chars_of(PRINT_COMMAND);
        let body = trimmed_start(&trimmed_start_matches(&content, &command));
        if body.len() == 0 && message.attachments.len() == 0 {
            assert(step_views(steps@) == Seq::<PrintStepView>::empty());
            return steps;
        }
        if self.header {
            let mut date: Vec<char> = Vec::new();
            message.timestamp.push_text(&mut date);
            assert(date@ == message.timestamp.text());
            steps.push(PrintStep::Text(header_line(message.author.name.as_str(), &date)));
        }
        if body.len() > 0 {
            let text = string_of(&body);
            match validate_url(text.as_str()) {
                Some(url) => steps.push(PrintStep::Image(url)),
                None => steps.push(PrintStep::Text(text)),
            }
        }
        let ghost before = step_views(steps@);
        let mut i: usize = 0;
        assert(message.attachments@.take(0) == Seq::<Attachment>::empty());
        assert(step_views(steps@) == before + attachment_steps(message.attachments@.take(0)));
        while i < message.attachments.len()
            invariant
                i <= message.attachments.len(),
                step_views(steps@) == before + attachment_steps(
                    message.attachments@.take(i as int),
                ),
            decreases message.attachments.len() - i,
        {
            let attachment = &message.attachments[i];
            let ghost upto = message.attachments@.take(i + 1);
            let ghost old_steps = steps@;
            assert(upto.drop_last() == message.attachments@.take(i as int));
            assert(upto.last() == *attachment);
            if attachment.dimensions.is_some() {
                match validate_url(attachment.url.as_str()) {
                    Some(url) => {
                        steps.push(PrintStep::Image(url));
                        assert(step_views(steps@) == step_views(old_steps).push(
                            PrintStepView::Image(url@),
                        ));
                    },
                    None => {},
                }
            }
            i += 1;
        }
        assert(message.attachments@.take(message.attachments.len() as int)
            == message.attachments@);
        steps
    }
}

} // verus!
