//! The webhook receiver: which requests it takes, what it answers, and which
//! colour a build notification asks for.

use vstd::prelude::*;
use vstd::string::*;
use crate::color::Color;
use crate::text::same_text;

verus! {

/// The largest request body the receiver takes, in bytes.
pub const MAX_BODY_BYTES: u64 = 32768;

/// The loopback address the receiver listens on.
pub const LISTEN_ADDRESS: [u8; 4] = [127, 0, 0, 1];

/// The port the receiver listens on.
pub const LISTEN_PORT: u16 = 3030;

/// A build notification as it arrives on the webhook.
#[derive(Clone, Debug, PartialEq, Eq)]
pub struct BuildStatus {
    pub build_id: String,
    pub status: String,
}

/// Why the receiver turns a request away before handling it.
#[derive(Clone, Copy, Debug, PartialEq, Eq, Structural)]
pub enum Rejection {
    /// The body is longer than `MAX_BODY_BYTES`.
    PayloadTooLarge,
    /// The body is not a notification in JSON.
    BadRequest,
}

/// What handling a notification comes to: the colour to set, if the status
/// asks for one.
#[derive(Clone, Copy, Debug, PartialEq, Eq)]
pub struct Handling {
    pub command: Option<Color>,
}

/// What the receiver makes of a request.
#[derive(Clone, Copy, Debug, PartialEq, Eq)]
pub enum Reception {
    Rejected(Rejection),
    Handled(Handling),
}

/// The colour that a build status asks for: green for `Success`, red for
/// `Failure`, none for any other status. The comparison is exact.
pub open spec fn command_for_status(status: Seq<char>) -> Option<Color> {
    if status == "Success"@ {
        Some(Color::Green)
    } else if status == "Failure"@ {
        Some(Color::Red)
    } else {
        None
    }
}

/// The body of the answer to every handled notification.
pub open spec fn acknowledgment() -> Seq<char> {
    "Received"@
}

/// The line logged for a notification whose status asks for no colour.
pub open spec fn unknown_status_line() -> Seq<char> {
    "Unknown status"@
}

/// The reason to turn a request away, if there is one: a body over the
/// limit, or one that holds no notification. The length is judged first,
/// so an oversized body is never looked into.
pub open spec fn rejection_for(body_length: u64, decodable: bool) -> Option<Rejection> {
    if body_length > MAX_BODY_BYTES {
        Some(Rejection::PayloadTooLarge)
    } else if !decodable {
        Some(Rejection::BadRequest)
    } else {
        None
    }
}

/// What the receiver makes of a request whose body has the given length
/// and decodes to a notification with the given status, or does not
/// decode.
pub open spec fn reception_of(body_length: u64, status: Option<Seq<char>>) -> Reception {
    match rejection_for(body_length, status is Some) {
        Some(rejection) => Reception::Rejected(rejection),
        None => Reception::Handled(Handling { command: command_for_status(status->0) }),
    }
}

/// The status of a decoded notification, if there is one.
pub open spec fn status_of(decoded: Option<BuildStatus>) -> Option<Seq<char>> {
    match decoded {
        Some(build_status) => Some(build_status.status@),
        None => None,
    }
}

impl Rejection {
    /// The HTTP status code of the rejection.
    pub open spec fn spec_status_code(self) -> u16 {
        match self {
            Rejection::PayloadTooLarge => 413u16,
            Rejection::BadRequest => 400u16,
        }
    }

    /// The HTTP status code of the rejection.
    pub fn status_code(self) -> (code: u16)
        ensures
            code == self.spec_status_code(),
    {
        match self {
            Rejection::PayloadTooLarge => 413,
            Rejection::BadRequest => 400,
        }
    }
}

impl Handling {
    /// The body of the answer to the webhook's caller. It is the same for
    /// every notification.
    pub fn reply(&self) -> (body: &'static str)
        ensures
            body@ == acknowledgment(),
    {
        "Received"
    }

    /// The line to log when the status asks for no colour.
    pub fn notice(&self) -> (line: Option<&'static str>)
        ensures
            line is Some <==> self.command is None,
            line is Some ==> line->0@ == unknown_status_line(),
    {
        match self.command {
            Some(_) => None,
            None => Some("Unknown status"),
        }
    }
}

impl Reception {
    /// The HTTP status code of the answer: 200 for a handled notification,
    /// the rejection's own code otherwise.
    pub open spec fn spec_status_code(self) -> u16 {
        match self {
            Reception::Rejected(rejection) => rejection.spec_status_code(),
            Reception::Handled(_) => 200u16,
        }
    }

    /// The colour to set, if any. A rejected request sets none.
    pub open spec fn spec_command(self) -> Option<Color> {
        match self {
            Reception::Rejected(_) => None,
            Reception::Handled(handling) => handling.command,
        }
    }

    /// The body that the receiver itself gives the answer: the
    /// acknowledgment for a handled notification, none for a rejection.
    pub open spec fn spec_body(self) -> Option<Seq<char>> {
        match self {
            Reception::Rejected(_) => None,
            Reception::Handled(_) => Some(acknowledgment()),
        }
    }

    /// The HTTP status code of the answer.
    pub fn status_code(self) -> (code: u16)
        ensures
            code == self.spec_status_code(),
    {
        match self {
            Reception::Rejected(rejection) => rejection.status_code(),
            Reception::Handled(_) => 200,
        }
    }

    /// The body that the receiver itself gives the answer.
    pub fn body(self) -> (body: Option<&'static str>)
        ensures
            body is Some <==> self.spec_body() is Some,
            body is Some ==> body->0@ == self.spec_body()->0,
    {
        match self {
            Reception::Rejected(_) => None,
            Reception::Handled(handling) => Some(handling.reply()),
        }
    }

    /// The colour to set, if any.
    pub fn command(self) -> (command: Option<Color>)
        ensures
            command == self.spec_command(),
    {
        match self {
            Reception::Rejected(_) => None,
            Reception::Handled(handling) => handling.command,
        }
    }
}

/// Handles a decoded notification: `Success` asks for green, `Failure` for
/// red, and any other status for nothing.
pub fn handle_webhook(build_status: &BuildStatus) -> (handling: Handling)
    ensures
        handling.command == command_for_status(build_status.status@),
{
    let status = build_status.status.as_str();
    if same_text(status, "Success") {
        Handling { command: Some(Color::Green) }
    } else if same_text(status, "Failure") {
        Handling { command: Some(Color::Red) }
    } else {
        Handling { command: None }
    }
}

/// Judges a body length against the limit. It serves for the length a
/// request declares, so that an oversized body can be turned away unread,
/// and for the bytes read so far of a body that declares none.
pub fn screen(body_length: u64) -> (rejection: Option<Rejection>)
    ensures
        rejection == rejection_for(body_length, true),
{
    if body_length > MAX_BODY_BYTES {
        Some(Rejection::PayloadTooLarge)
    } else {
        None
    }
}

/// Receives a request: `body_length` is the length of its body in bytes,
/// `decoded` the notification the body holds, or `None` where it holds
/// none. A body within the limit that decodes is handled, whether or not
/// the request declared its length; any other is rejected and sets no
/// colour.
pub fn receive(body_length: u64, decoded: Option<BuildStatus>) -> (reception: Reception)
    ensures
        reception == reception_of(body_length, status_of(decoded)),
{
    match screen(body_length) {
        Some(rejection) => Reception::Rejected(rejection),
        None => match decoded {
            Some(build_status) => Reception::Handled(handle_webhook(&build_status)),
            None => Reception::Rejected(Rejection::BadRequest),
        },
    }
}

} // verus!
