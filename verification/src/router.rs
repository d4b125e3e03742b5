//! The router: what to do about each event that comes from the chat.

use crate::command::{command_of, parse_command, Command, LUA_COMMAND};
use crate::failure::Failure;
use crate::message::Message;
use crate::printer::{
    attachment_steps, header_text, image_url, print_body, print_plan, step_views, PrintHandler,
    PrintStep, PrintStepView,
};
use crate::text::{chars_of, string_of, trim_start_matches, trimmed_start_matches};
use crate::time_range::{read_local_clock, sorry_asleep, sorry_asleep_text, LocalClock, TimeOfDay, TimeRange};
use vstd::prelude::*;

verus! {

/// The reply to the help command.
pub const HELP_TEXT: &'static str = "
**Segfault's printer bot**\n
This bot uses a receipt printer to immortalize your messages on 58mm thermal paper. Printer paper is extra super cheap, but remember that whatever you do print is waste.
If this command works, the printer _should_ be running. Have fun!

__Commands__:
`!print`: Print text or an image URL following this command, or attached images.
`!help`: Print this message
`!showme`: Take a picture of the printer, and show it here.
";

/// The reply to a print command while there is no printer.
pub const SORRY_PRINTER: &'static str = "Sorry, the printer has been disabled for now :(";

/// The reply to a capture command while there is no picture to be had.
pub const SORRY_CAMERA: &'static str = "Sorry, the camera has been disabled for now :(";

/// The name under which a captured frame is sent.
pub const CAPTURE_FILE_NAME: &'static str = "image.jpg";

/// Seconds to wait for a captured frame.
pub const CAPTURE_TIMEOUT_SECONDS: u64 = 2;

/// What the chat gateway hands over.
#[derive(Debug, Clone, PartialEq, Eq)]
pub enum GatewayEvent {
    /// A message was posted.
    MessageCreate(Message),
    /// Anything else that the bot has no use for.
    Other,
    /// The gateway closed the connection, with its code and its words.
    Closed { code: Option<u16>, body: String },
    /// Receiving failed, described in the words of the gateway client.
    ReceiveError(String),
}

/// What the caller is to do about an event.
#[derive(Debug, Clone, PartialEq, Eq)]
pub enum Action {
    /// Nothing.
    Nothing,
    /// Send this text to the channel of the message.
    Reply(String),
    /// Take these steps on the printer path, in order.
    Print(Vec<PrintStep>),
    /// Hand this script to the sandbox.
    RunScript(String),
    /// Ask the camera for a frame, waiting no longer than
    /// [`CAPTURE_TIMEOUT_SECONDS`], and answer with [`capture_reply`].
    Capture,
    /// Send this file to the channel of the message.
    SendFile { bytes: Vec<u8>, name: String },
    /// Write this line to the log.
    Log(String),
}

/// An [`Action`] in contracts.
pub enum ActionView {
    Nothing,
    Reply(Seq<char>),
    Print(Seq<PrintStepView>),
    RunScript(Seq<char>),
    Capture,
    SendFile { bytes: Seq<u8>, name: Seq<char> },
    Log(Seq<char>),
}

impl View for Action {
    type V = ActionView;

    open spec fn view(&self) -> ActionView {
        match self {
            Action::Nothing => ActionView::Nothing,
            Action::Reply(text) => ActionView::Reply(text@),
            Action::Print(steps) => ActionView::Print(step_views(steps@)),
            Action::RunScript(script) => ActionView::RunScript(script@),
            Action::Capture => ActionView::Capture,
            Action::SendFile { bytes, name } => ActionView::SendFile {
                bytes: bytes@,
                name: name@,
            },
            Action::Log(line) => ActionView::Log(line@),
        }
    }
}

/// The script that a script command hands over: the message without the
/// command at its very beginning.
pub open spec fn script_of(content: Seq<char>) -> Seq<char> {
    trim_start_matches(content, LUA_COMMAND@)
}

/// The answer to a capture: the frame as a file, or, where none came, the
/// reply that there is no camera.
pub open spec fn capture_reply_spec(frame: Option<Seq<u8>>) -> ActionView {
    match frame {
        Some(bytes) => ActionView::SendFile { bytes, name: CAPTURE_FILE_NAME@ },
        None => ActionView::Reply(SORRY_CAMERA@),
    }
}

/// The answer to a capture.
pub fn capture_reply(frame: Option<Vec<u8>>) -> (action: Action)
    ensures
        action@ == capture_reply_spec(
            match frame {
                Some(bytes) => Some(bytes@),
                None => None,
            },
        ),
{
    match frame {
        Some(bytes) => Action::SendFile { bytes, name: String::from_str(CAPTURE_FILE_NAME) },
        None => Action::Reply(String::from_str(SORRY_CAMERA)),
    }
}

/// The rules of the router, fixed when the bot starts.
#[derive(Debug, Clone, Copy, PartialEq, Eq)]
pub struct Router {
    /// The active hours, if the bot keeps any.
    pub time_range: Option<TimeRange>,
    /// The printer path, if there is a printer.
    pub print_handler: Option<PrintHandler>,
    /// Whether there is a camera.
    pub camera: bool,
}

impl Router {
    /// Whether the bot is outside its active hours at `clock`.
    pub open spec fn asleep(&self, clock: LocalClock) -> bool {
        self.time_range matches Some(range) && !range.contains_spec(clock.time)
    }

    /// What to do about `message` when the local clock reads `clock`.
    ///
    /// A message from a program, or one whose first word is no command, is
    /// passed over. A print or script command outside the active hours gets
    /// the reply that the bot is asleep. Otherwise a print command becomes
    /// the steps that print the message, or the reply that there is no
    /// printer; a script command hands over its script; a help command gets
    /// the help text; a capture command asks for a frame, or gets the reply
    /// that there is no camera.
    pub open spec fn route_spec(&self, message: Message, clock: LocalClock) -> ActionView {
        if message.author.bot {
            ActionView::Nothing
        } else {
            match command_of(message.content@) {
                None => ActionView::Nothing,
                Some(Command::Help) => ActionView::Reply(HELP_TEXT@),
                Some(Command::Show) => if self.camera {
                    ActionView::Capture
                } else {
                    ActionView::Reply(SORRY_CAMERA@)
                },
                Some(Command::Print) => if self.asleep(clock) {
                    ActionView::Reply(sorry_asleep_text(self.time_range->0, clock))
                } else {
                    match self.print_handler {
                        Some(handler) => ActionView::Print(print_plan(message, handler.header)),
                        None => ActionView::Reply(SORRY_PRINTER@),
                    }
                },
                Some(Command::Lua) => if self.asleep(clock) {
                    ActionView::Reply(sorry_asleep_text(self.time_range->0, clock))
                } else {
                    ActionView::RunScript(script_of(message.content@))
                },
            }
        }
    }

    /// A message with a body that is no image URL, and with no attachment,
    /// prints as its header line and then its body, where a printer with
    /// header lines is there and the bot is awake.
    pub proof fn lemma_plain_print_is_header_then_text(
        &self,
        message: Message,
        clock: LocalClock,
    )
        requires
            !message.author.bot,
            command_of(message.content@) == Some(Command::Print),
            !self.asleep(clock),
            self.print_handler == Some(PrintHandler { header: true }),
            message.attachments@.len() == 0,
            print_body(message.content@).len() > 0,
            image_url(print_body(message.content@)) is None,
        ensures
            self.route_spec(message, clock) == ActionView::Print(
                seq![
                    PrintStepView::Text(
                        header_text(message.author.name@, message.timestamp.text()),
                    ),
                    PrintStepView::Text(print_body(message.content@)),
                ],
            ),
    {
        let plan = print_plan(message, true);
        assert(attachment_steps(message.attachments@) == Seq::<PrintStepView>::empty());
        assert(plan =~= seq![
            PrintStepView::Text(header_text(message.author.name@, message.timestamp.text())),
            PrintStepView::Text(print_body(message.content@)),
        ]);
    }

    /// Without a camera no message leads to a capture, and a capture command
    /// gets the reply that there is no camera.
    pub proof fn lemma_no_camera_no_capture(&self, message: Message, clock: LocalClock)
        requires
            !self.camera,
        ensures
            self.route_spec(message, clock) !is Capture,
            !message.author.bot && command_of(message.content@) == Some(Command::Show)
                ==> self.route_spec(message, clock) == ActionView::Reply(SORRY_CAMERA@),
    {
    }

    /// Whether [`Router::route_spec`] reads the clock for `message`.
    pub open spec fn consults_clock(&self, message: Message) -> bool {
        &&& !message.author.bot
        &&& self.time_range is Some
        &&& (command_of(message.content@) == Some(Command::Print) || command_of(message.content@)
            == Some(Command::Lua))
    }

    /// The reply to a gated command outside the active hours, if the bot is
    /// outside them.
    fn gate(&self, clock: LocalClock) -> (r: Option<String>)
        ensures
            match r {
                Some(text) => self.asleep(clock) && text@ == sorry_asleep_text(
                    self.time_range->0,
                    clock,
                ),
                None => !self.asleep(clock),
            },
    {
        match self.time_range {
            Some(range) => {
                if range.contains(clock.time) {
                    None
                } else {
                    Some(sorry_asleep(range, clock))
                }
            },
            None => None,
        }
    }

    /// What to do about `message` when the local clock reads `clock`.
    pub fn route(&self, message: &Message, clock: LocalClock) -> (action: Action)
        ensures
            action@ == self.route_spec(*message, clock),
    {
        if message.author.bot {
            return Action::Nothing;
        }
        match parse_command(message.content.as_str()) {
            None => Action::Nothing,
            Some(Command::Help) => Action::Reply(String::from_str(HELP_TEXT)),
            Some(Command::Show) => {
                if self.camera {
                    Action::Capture
                } else {
                    Action::Reply(String::from_str(SORRY_CAMERA))
                }
            },
            Some(Command::Print) => {
                match self.gate(clock) {
                    Some(reply) => Action::Reply(reply),
                    None => match &self.print_handler {
                        Some(handler) => Action::Print(handler.handle_print_request(message)),
                        None => Action::Reply(String::from_str(SORRY_PRINTER)),
                    },
                }
            },
            Some(Command::Lua) => {
                match self.gate(clock) {
                    Some(reply) => Action::Reply(reply),
                    None => {
                        let content = chars_of(message.content.as_str());
                        let script = trimmed_start_matches(&content, &chars_of(LUA_COMMAND));
                        Action::RunScript(string_of(&script))
                    },
                }
            },
        }
    }

    /// What to do about `message` now. The local clock is read where the
    /// message is a command that the active hours gate, and only there.
    pub fn handle_message(&self, message: &Message) -> (action: Action)
        ensures
            exists|clock: LocalClock| clock.wf() && action@ == self.route_spec(*message, clock),
            !self.consults_clock(*message) ==> forall|clock: LocalClock|
                action@ == self.route_spec(*message, clock),
    {
        let gated = !message.author.bot && self.time_range.is_some() && match parse_command(
            message.content.as_str(),
        ) {
            Some(Command::Print) | Some(Command::Lua) => true,
            _ => false,
        };
        let clock = if gated {
            read_local_clock()
        } else {
            LocalClock { time: TimeOfDay { hour: 0, minute: 0, second: 0, nano: 0 }, utc_offset: 0 }
        };
        let action = self.route(message, clock);
        assert(clock.wf() && action@ == self.route_spec(*message, clock));
        action
    }

    /// What an event leads to, given the clock: an action, or, where the
    /// gateway closed the connection, the failure that ends the router.
    pub open spec fn event_spec(&self, event: GatewayEvent, clock: LocalClock) -> Result<
        ActionView,
        Failure,
    > {
        match event {
            GatewayEvent::MessageCreate(message) => Ok(self.route_spec(message, clock)),
            GatewayEvent::Other => Ok(ActionView::Nothing),
            GatewayEvent::Closed { code, body } => Err(Failure::GatewayClosed { code, body }),
            GatewayEvent::ReceiveError(words) => Ok(ActionView::Log("Receive error: "@ + words@)),
        }
    }

    /// Whether an event is answered as [`Router::event_spec`] says for the
    /// clock reading `clock`.
    pub open spec fn answers(
        &self,
        event: GatewayEvent,
        clock: LocalClock,
        r: Result<Action, Failure>,
    ) -> bool {
        match r {
            Ok(action) => self.event_spec(event, clock) == Ok::<ActionView, Failure>(action@),
            Err(failure) => self.event_spec(event, clock) == Err::<ActionView, Failure>(failure),
        }
    }

    /// What to do about an event of the gateway, now. The local clock is
    /// read where the event is a message that the active hours gate, and only
    /// there; for any other event the answer is the same at every time.
    pub fn handle_event(&self, event: GatewayEvent) -> (r: Result<Action, Failure>)
        ensures
            exists|clock: LocalClock| clock.wf() && self.answers(event, clock, r),
            !(event matches GatewayEvent::MessageCreate(message) && self.consults_clock(message))
                ==> forall|clock: LocalClock| self.answers(event, clock, r),
    {
        let ghost midnight = LocalClock {
            time: TimeOfDay { hour: 0, minute: 0, second: 0, nano: 0 },
            utc_offset: 0,
        };
        let r = match event {
            GatewayEvent::MessageCreate(message) => Ok(self.handle_message(&message)),
            GatewayEvent::Other => Ok(Action::Nothing),
            GatewayEvent::Closed { code, body } => Err(Failure::GatewayClosed { code, body }),
            GatewayEvent::ReceiveError(words) => {
                Ok(Action::Log(String::from_str("Receive error: ").concat(words.as_str())))
            },
        };
        proof {
            if event is MessageCreate {
                let message = event->MessageCreate_0;
                let clock = choose|clock: LocalClock|
                    clock.wf() && r->Ok_0@ == self.route_spec(message, clock);
                assert(self.answers(event, clock, r));
            } else {
                assert(midnight.wf() && self.answers(event, midnight, r));
            }
        }
        r
    }
}

} // verus!
