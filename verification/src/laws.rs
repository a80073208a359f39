//! What holds of the receiver and the light controller together.

use vstd::prelude::*;
use vstd::string::*;
use crate::color::Color;
use crate::command::{state_body, DeviceRequest};
use crate::text::decimal;
use crate::webhook::{
    command_for_status, reception_of, Handling, Reception, Rejection, MAX_BODY_BYTES,
};

verus! {

/// A notification whose status is `Success` sets the light to green, with
/// the channel values (0, 255, 0), and the command's body says so.
pub proof fn lemma_success_is_green(status: Seq<char>, request: DeviceRequest)
    requires
        status == "Success"@,
        request.is_for(command_for_status(status)->0),
    ensures
        command_for_status(status) == Some(Color::Green),
        Color::Green.spec_rgb() == (0u8, 255u8, 0u8),
        request.body@ == "{\"on\": true, \"bri\": 255, \"seg\": {\"col\": [[0,255,0]]}}"@,
{
    lemma_body_text((0u8, 255u8, 0u8));
    reveal_strlit("{\"on\": true, \"bri\": 255, \"seg\": {\"col\": [[0,255,0]]}}");
}

/// A notification whose status is `Failure` sets the light to red, with
/// the channel values (255, 0, 0), and the command's body says so.
pub proof fn lemma_failure_is_red(status: Seq<char>, request: DeviceRequest)
    requires
        status == "Failure"@,
        request.is_for(command_for_status(status)->0),
    ensures
        command_for_status(status) == Some(Color::Red),
        Color::Red.spec_rgb() == (255u8, 0u8, 0u8),
        request.body@ == "{\"on\": true, \"bri\": 255, \"seg\": {\"col\": [[255,0,0]]}}"@,
{
    reveal_strlit("Success");
    reveal_strlit("Failure");
    assert("Success"@[0] != "Failure"@[0]);
    lemma_body_text((255u8, 0u8, 0u8));
    reveal_strlit("{\"on\": true, \"bri\": 255, \"seg\": {\"col\": [[255,0,0]]}}");
}

/// A notification with any status but `Success` and `Failure` sets no
/// colour, whatever the length of its body: no command goes to the device.
pub proof fn lemma_other_status_sets_nothing(body_length: u64, status: Seq<char>)
    requires
        status != "Success"@,
        status != "Failure"@,
    ensures
        command_for_status(status) is None,
        reception_of(body_length, Some(status)).spec_command() is None,
{
}

/// Every request whose body is within the size limit and decodes is
/// answered with 200 and the acknowledgment, whatever its status. The
/// answer is fixed by the request alone: nothing that the device does
/// later enters it.
pub proof fn lemma_decoded_request_is_acknowledged(body_length: u64, status: Seq<char>)
    requires
        body_length <= MAX_BODY_BYTES,
    ensures
        reception_of(body_length, Some(status)) == Reception::Handled(
            Handling { command: command_for_status(status) },
        ),
        reception_of(body_length, Some(status)).spec_status_code() == 200,
        reception_of(body_length, Some(status)).spec_body() == Some("Received"@),
{
}

/// A request whose body is over the size limit is rejected with a client
/// error and sets no colour, whatever the body holds.
pub proof fn lemma_oversized_request_is_rejected(body_length: u64, status: Option<Seq<char>>)
    requires
        body_length > MAX_BODY_BYTES,
    ensures
        reception_of(body_length, status) == Reception::Rejected(Rejection::PayloadTooLarge),
        400 <= reception_of(body_length, status).spec_status_code() < 500,
        reception_of(body_length, status).spec_command() is None,
{
}

/// A request is rejected only for a body over the size limit or one that
/// does not decode. Every rejection is a client error and sets no colour.
pub proof fn lemma_rejection_is_client_error(body_length: u64, status: Option<Seq<char>>)
    requires
        reception_of(body_length, status) is Rejected,
    ensures
        body_length > MAX_BODY_BYTES || status is None,
        400 <= reception_of(body_length, status).spec_status_code() < 500,
        reception_of(body_length, status).spec_command() is None,
{
}

/// Every command is a POST of JSON to the device's state endpoint,
/// whatever the colour.
pub proof fn lemma_command_goes_to_the_device(color: Color, request: DeviceRequest)
    requires
        request.is_for(color),
    ensures
        request.method@ == "POST"@,
        request.url@ == "http://192.168.10.50/json/state"@,
        request.content_type@ == "application/json"@,
{
}

/// The command body as a sequence of characters, once the decimal texts
/// of its numbers are written out.
proof fn lemma_body_text(rgb: (u8, u8, u8))
    ensures
        decimal(0) == seq!['0'],
        decimal(255) == seq!['2', '5', '5'],
        state_body(rgb) == seq![
            '{', '"', 'o', 'n', '"', ':', ' ', 't', 'r', 'u', 'e', ',', ' ', '"', 'b', 'r', 'i',
            '"', ':', ' ', '2', '5', '5', ',', ' ', '"', 's', 'e', 'g', '"', ':', ' ', '{', '"',
            'c', 'o', 'l', '"', ':', ' ', '[', '[',
        ] + decimal(rgb.0 as nat) + seq![','] + decimal(rgb.1 as nat) + seq![','] + decimal(
            rgb.2 as nat,
        ) + seq![']', ']', '}', '}'],
{
    reveal_with_fuel(decimal, 3);
    reveal_strlit("{\"on\": true, \"bri\": ");
    reveal_strlit(", \"seg\": {\"col\": [[");
    reveal_strlit(",");
    reveal_strlit("]]}}");
}

} // verus!
