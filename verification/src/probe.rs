//! The protocol probe: the terminal is asked to set a background colour that
//! only true colour can hold, and then to report the colour that it kept.
//!
//! The probe is a machine of states. Its owner performs each action on the
//! terminal and hands back what came of it; the machine says what to do next.
//! One question is sent and one round of answers is read; nothing is retried.

use crate::color::Rgb;
use crate::vars::TermVars;
use termina::escape::csi::{Csi, Device, Sgr};
use termina::escape::dcs::{Dcs, DcsRequest};
use termina::style::{ColorSpec, RgbColor};
use vstd::prelude::*;
use vstd::string::StringExecFns;

verus! {

/// `std::io::Error`, as a type whose inside the verifier does not read.
#[verifier::external_type_specification]
#[verifier::external_body]
pub struct ExIoError(std::io::Error);

/// What the terminal sent in answer to the probe, or that it sent nothing.
#[derive(Debug, Clone, Copy, PartialEq, Eq, Structural)]
pub enum DcsEvent {
    /// The background colour that the terminal reports.
    BackgroundColor(Rgb),
    /// The terminal's device attributes: the end of its answers.
    DeviceAttributes,
    /// Anything else.
    Other,
    /// Nothing came in time.
    TimedOut,
}

/// A message of the terminal, as far as the probe reads it.
#[derive(Debug)]
pub enum TerminalReply {
    /// A report of the graphic rendition: for each of its attributes the
    /// colour, where the attribute sets a true-colour background.
    GraphicRendition(Vec<Option<Rgb>>),
    /// The device attributes.
    DeviceAttributes,
    /// Any other message.
    Other,
}

/// A terminal that the probe can question.
pub trait QueryTerminal {
    /// Puts the terminal in raw mode.
    fn setup(&mut self) -> Result<(), std::io::Error>;

    /// Puts the terminal back in cooked mode.
    fn cleanup(&mut self) -> Result<(), std::io::Error>;

    /// Sends `query` to the terminal, all of it.
    fn send(&mut self, query: &str) -> Result<(), std::io::Error>;

    /// Waits for the terminal's next answer.
    fn read_event(&mut self) -> Result<DcsEvent, std::io::Error>;
}

/// The first colour in `backgrounds`, if there is one.
pub open spec fn first_background(backgrounds: Seq<Option<Rgb>>) -> Option<Rgb>
    decreases backgrounds.len(),
{
    if backgrounds.len() == 0 {
        None
    } else if backgrounds[0] is Some {
        backgrounds[0]
    } else {
        first_background(backgrounds.drop_first())
    }
}

/// The event that a message of the terminal stands for.
pub open spec fn event_of(reply: TerminalReply) -> DcsEvent {
    match reply {
        TerminalReply::GraphicRendition(backgrounds) => match first_background(backgrounds@) {
            Some(color) => DcsEvent::BackgroundColor(color),
            None => DcsEvent::Other,
        },
        TerminalReply::DeviceAttributes => DcsEvent::DeviceAttributes,
        TerminalReply::Other => DcsEvent::Other,
    }
}

impl DcsEvent {
    /// The event that a message of the terminal stands for: the first
    /// true-colour background of a report of the graphic rendition, the
    /// device attributes, or something else.
    pub fn from_reply(reply: &TerminalReply) -> (r: DcsEvent)
        ensures
            r == event_of(*reply),
    {
        match reply {
            TerminalReply::GraphicRendition(backgrounds) => {
                let n = backgrounds.len();
                let mut at: usize = 0;
                proof {
                    assert(backgrounds@.skip(0) =~= backgrounds@);
                }
                while at < n
                    invariant
                        at <= n,
                        n == backgrounds.len(),
                        *reply == TerminalReply::GraphicRendition(*backgrounds),
                        first_background(backgrounds@) == first_background(
                            backgrounds@.skip(at as int),
                        ),
                    decreases n - at,
                {
                    proof {
                        let rest = backgrounds@.skip(at as int);
                        assert(rest[0] == backgrounds@[at as int]);
                        assert(rest.drop_first() =~= backgrounds@.skip(at + 1));
                    }
                    if let Some(color) = backgrounds[at] {
                        return DcsEvent::BackgroundColor(color);
                    }
                    at += 1;
                }
                DcsEvent::Other
            },
            TerminalReply::DeviceAttributes => DcsEvent::DeviceAttributes,
            TerminalReply::Other => DcsEvent::Other,
        }
    }
}

/// The colour that the probe sets and looks for: a gray that a palette of
/// 256 colours does not hold.
pub open spec fn sentinel() -> Rgb {
    Rgb { red: 150, green: 150, blue: 150 }
}

/// The colour that the probe sets and looks for.
pub fn test_color() -> (r: Rgb)
    ensures
        r == sentinel(),
{
    Rgb { red: 150, green: 150, blue: 150 }
}

/// The digit that writes `d`, which is below 10.
pub open spec fn digit_char(d: nat) -> char {
    if d == 0 {
        '0'
    } else if d == 1 {
        '1'
    } else if d == 2 {
        '2'
    } else if d == 3 {
        '3'
    } else if d == 4 {
        '4'
    } else if d == 5 {
        '5'
    } else if d == 6 {
        '6'
    } else if d == 7 {
        '7'
    } else if d == 8 {
        '8'
    } else {
        '9'
    }
}

/// `n` in decimal, without leading zeros.
pub open spec fn decimal(n: nat) -> Seq<char>
    decreases n,
{
    if n < 10 {
        seq![digit_char(n)]
    } else {
        decimal(n / 10).push(digit_char(n % 10))
    }
}

/// The sequence that sets the background to `color`.
pub open spec fn background_text(color: Rgb) -> Seq<char> {
    "\x1b[48;2;"@ + decimal(color.red as nat) + ";"@ + decimal(color.green as nat) + ";"@
        + decimal(color.blue as nat) + "m"@
}

/// The question that the probe sends: set the background to `color`, report
/// the graphic rendition, reset the rendition, report the device attributes.
pub open spec fn query_text(color: Rgb) -> Seq<char> {
    background_text(color) + "\x1bP$qm\x1b\\"@ + "\x1b[m"@ + "\x1b[c"@
}

/// Formats `Csi::Sgr(Sgr::Background(ColorSpec::TrueColor(..)))` of the crate
/// `termina`. Believed, not proved: the text is `ESC [ 48 ; 2 ;`, the three
/// parts of `color` in decimal with `;` between them, and `m`.
#[verifier::external_body]
fn set_background(color: Rgb) -> (text: String)
    ensures
        text@ == background_text(color),
{
    let rgb = RgbColor { red: color.red, green: color.green, blue: color.blue };
    Csi::Sgr(Sgr::Background(ColorSpec::TrueColor(rgb.into()))).to_string()
}

/// Formats `Dcs::Request(DcsRequest::GraphicRendition)` of the crate
/// `termina`. Believed, not proved: the text is `ESC P $ q m ESC \`.
#[verifier::external_body]
fn request_rendition() -> (text: String)
    ensures
        text@ == "\x1bP$qm\x1b\\"@,
{
    Dcs::Request(DcsRequest::GraphicRendition).to_string()
}

/// Formats `Csi::Sgr(Sgr::Reset)` of the crate `termina`. Believed, not
/// proved: the text is `ESC [ m`.
#[verifier::external_body]
fn reset_rendition() -> (text: String)
    ensures
        text@ == "\x1b[m"@,
{
    Csi::Sgr(Sgr::Reset).to_string()
}

/// Formats `Csi::Device(Device::RequestPrimaryDeviceAttributes)` of the crate
/// `termina`. Believed, not proved: the text is `ESC [ c`.
#[verifier::external_body]
fn request_attributes() -> (text: String)
    ensures
        text@ == "\x1b[c"@,
{
    Csi::Device(Device::RequestPrimaryDeviceAttributes).to_string()
}

/// The question that the probe sends, with `color` for the background.
pub fn query(color: Rgb) -> (text: String)
    ensures
        text@ == query_text(color),
{
    let mut text = set_background(color);
    text.append(request_rendition().as_str());
    text.append(reset_rendition().as_str());
    text.append(request_attributes().as_str());
    text
}

impl TermVars {
    /// Whether the terminal can be asked at all: the output is a terminal or
    /// counts as one, and the terminal is neither `dumb`, nor tmux, nor
    /// screen, which do not pass the question on.
    pub open spec fn allows_query(&self) -> bool {
        let term = self.meta.term.text();
        !((!self.meta.is_terminal && !self.overrides.tty_force.truthy()) || term == "dumb"@
            || crate::detect::names(term, "tmux"@) || !self.tmux.tmux.blank() || crate::detect::names(term, "screen"@))
    }
}

/// Where the probe stands.
#[derive(Debug, Clone, Copy, PartialEq, Eq, Structural)]
pub enum ProbeState {
    /// Raw mode has been asked for.
    Entering,
    /// Raw mode is on and the question is on its way.
    Asking,
    /// The question is out; `truecolor` says whether the terminal has
    /// reported the colour that was set.
    Listening {
        /// Whether the last background colour reported was the one set.
        truecolor: bool,
    },
    /// Raw mode is being left; `truecolor` is the finding so far.
    Restoring {
        /// What the probe found.
        truecolor: bool,
    },
    /// The probe is over, and raw mode is off.
    Finished {
        /// Whether the terminal showed that it keeps a true colour.
        truecolor: bool,
    },
}

/// What the owner of the probe is to do next.
#[derive(Debug, Clone, Copy, PartialEq, Eq, Structural)]
pub enum ProbeAction {
    /// Put the terminal in raw mode.
    EnterRawMode,
    /// Send the question.
    SendQuery,
    /// Wait for the next answer.
    ReadEvent,
    /// Put the terminal back in cooked mode.
    LeaveRawMode,
    /// Nothing: the probe is over.
    Stop,
}

/// What came of an action.
#[derive(Debug, Clone, Copy, PartialEq, Eq, Structural)]
pub enum ProbeInput {
    /// The action was done.
    Completed,
    /// The action failed.
    Failed,
    /// An answer was read, or none came in time.
    Event(DcsEvent),
}

impl ProbeState {
    /// Whether the terminal is in raw mode in this state.
    pub open spec fn in_raw_mode(self) -> bool {
        self is Asking || self is Listening || self is Restoring
    }

    /// The state after `input`, and the action to perform next.
    ///
    /// A failure before raw mode is on ends the probe. Once it is on, every
    /// way to the end leads through `Restoring`: a failure, a timeout and the
    /// terminal's last answer all leave raw mode first. Only the device
    /// attributes end the probe with a finding; a failure or a timeout ends it
    /// with "no": so does a failure to leave raw mode.
    pub open spec fn next(self, input: ProbeInput) -> (ProbeState, ProbeAction) {
        match self {
            ProbeState::Entering => match input {
                ProbeInput::Completed => (ProbeState::Asking, ProbeAction::SendQuery),
                _ => (ProbeState::Finished { truecolor: false }, ProbeAction::Stop),
            },
            ProbeState::Asking => match input {
                ProbeInput::Completed => (
                    ProbeState::Listening { truecolor: false },
                    ProbeAction::ReadEvent,
                ),
                _ => (ProbeState::Restoring { truecolor: false }, ProbeAction::LeaveRawMode),
            },
            ProbeState::Listening { truecolor } => match input {
                ProbeInput::Event(DcsEvent::BackgroundColor(color)) => (
                    ProbeState::Listening { truecolor: color == sentinel() },
                    ProbeAction::ReadEvent,
                ),
                ProbeInput::Event(DcsEvent::Other) => (
                    ProbeState::Listening { truecolor },
                    ProbeAction::ReadEvent,
                ),
                ProbeInput::Event(DcsEvent::DeviceAttributes) => (
                    ProbeState::Restoring { truecolor },
                    ProbeAction::LeaveRawMode,
                ),
                _ => (ProbeState::Restoring { truecolor: false }, ProbeAction::LeaveRawMode),
            },
            ProbeState::Restoring { truecolor } => match input {
                ProbeInput::Completed => (ProbeState::Finished { truecolor }, ProbeAction::Stop),
                _ => (ProbeState::Finished { truecolor: false }, ProbeAction::Stop),
            },
            ProbeState::Finished { truecolor } => (
                ProbeState::Finished { truecolor },
                ProbeAction::Stop,
            ),
        }
    }

    /// The state in which a probe begins, and its first action.
    pub fn begin() -> (r: (ProbeState, ProbeAction))
        ensures
            r == (ProbeState::Entering, ProbeAction::EnterRawMode),
    {
        (ProbeState::Entering, ProbeAction::EnterRawMode)
    }

    /// The state after `input`, and the action to perform next.
    pub fn step(self, input: ProbeInput) -> (r: (ProbeState, ProbeAction))
        ensures
            r == self.next(input),
    {
        match self {
            ProbeState::Entering => match input {
                ProbeInput::Completed => (ProbeState::Asking, ProbeAction::SendQuery),
                _ => (ProbeState::Finished { truecolor: false }, ProbeAction::Stop),
            },
            ProbeState::Asking => match input {
                ProbeInput::Completed => (
                    ProbeState::Listening { truecolor: false },
                    ProbeAction::ReadEvent,
                ),
                _ => (ProbeState::Restoring { truecolor: false }, ProbeAction::LeaveRawMode),
            },
            ProbeState::Listening { truecolor } => match input {
                ProbeInput::Event(DcsEvent::BackgroundColor(color)) => (
                    ProbeState::Listening { truecolor: color == test_color() },
                    ProbeAction::ReadEvent,
                ),
                ProbeInput::Event(DcsEvent::Other) => (
                    ProbeState::Listening { truecolor },
                    ProbeAction::ReadEvent,
                ),
                ProbeInput::Event(DcsEvent::DeviceAttributes) => (
                    ProbeState::Restoring { truecolor },
                    ProbeAction::LeaveRawMode,
                ),
                _ => (ProbeState::Restoring { truecolor: false }, ProbeAction::LeaveRawMode),
            },
            ProbeState::Restoring { truecolor } => match input {
                ProbeInput::Completed => (ProbeState::Finished { truecolor }, ProbeAction::Stop),
                _ => (ProbeState::Finished { truecolor: false }, ProbeAction::Stop),
            },
            ProbeState::Finished { truecolor } => (
                ProbeState::Finished { truecolor },
                ProbeAction::Stop,
            ),
        }
    }

    /// What the probe found, once it is over.
    pub fn finding(self) -> (r: Option<bool>)
        ensures
            r == (match self {
                ProbeState::Finished { truecolor } => Some(truecolor),
                _ => None,
            }),
    {
        match self {
            ProbeState::Finished { truecolor } => Some(truecolor),
            _ => None,
        }
    }
}

/// Performs `action` on `terminal` and says what came of it: from reading, an
/// event or a failure; from anything else, that it was done or that it failed.
/// To stop is to do nothing, and that is always done.
pub fn perform<Q: QueryTerminal>(terminal: &mut Q, action: ProbeAction) -> (input: ProbeInput)
    ensures
        action == ProbeAction::ReadEvent ==> input is Event || input is Failed,
        action != ProbeAction::ReadEvent ==> input is Completed || input is Failed,
        action == ProbeAction::Stop ==> input is Completed && *final(terminal) == *old(terminal),
{
    match action {
        ProbeAction::EnterRawMode => match terminal.setup() {
            Ok(_) => ProbeInput::Completed,
            Err(_) => ProbeInput::Failed,
        },
        ProbeAction::SendQuery => {
            let text = query(test_color());
            match terminal.send(text.as_str()) {
                Ok(_) => ProbeInput::Completed,
                Err(_) => ProbeInput::Failed,
            }
        },
        ProbeAction::ReadEvent => match terminal.read_event() {
            Ok(event) => ProbeInput::Event(event),
            Err(_) => ProbeInput::Failed,
        },
        ProbeAction::LeaveRawMode => match terminal.cleanup() {
            Ok(_) => ProbeInput::Completed,
            Err(_) => ProbeInput::Failed,
        },
        ProbeAction::Stop => ProbeInput::Completed,
    }
}

/// Raw mode is left on every way out. From a state in raw mode the probe
/// goes on in raw mode or ends, and it ends only from `Restoring`, which it
/// enters with the order to leave raw mode, and with no other. A state out
/// of raw mode never orders to leave it.
pub proof fn lemma_raw_mode_is_left(state: ProbeState, input: ProbeInput)
    ensures
        state.in_raw_mode() && !(state is Restoring) ==> state.next(input).0.in_raw_mode(),
        state is Restoring ==> state.next(input).0 is Finished,
        state.next(input).0 is Restoring <==> state.next(input).1 == ProbeAction::LeaveRawMode,
        state.next(input).1 == ProbeAction::LeaveRawMode ==> state.in_raw_mode(),
        state.next(input).0 is Finished <==> state.next(input).1 == ProbeAction::Stop,
{
}

/// The question is sent once: the order to send it comes in the first state
/// only, which no state leads back to.
pub proof fn lemma_one_question(state: ProbeState, input: ProbeInput)
    ensures
        state.next(input).1 == ProbeAction::SendQuery ==> state is Entering,
        !(state.next(input).0 is Entering),
        state.next(input).1 != ProbeAction::EnterRawMode,
{
}

/// A timeout and a failure both end the probe with "no": from where answers
/// are awaited, the finding after either of them and a leaving of raw mode,
/// done or failed, is `false`.
pub proof fn lemma_no_answer_is_no(state: ProbeState, input: ProbeInput, leaving: ProbeInput)
    requires
        state is Asking || state is Listening,
        input == ProbeInput::Failed || input == ProbeInput::Event(DcsEvent::TimedOut),
    ensures
        state.next(input).0.next(leaving).0 == (ProbeState::Finished { truecolor: false }),
{
}

} // verus!
