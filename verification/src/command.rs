//! The request that sets the light's colour on the device.

use vstd::prelude::*;
use vstd::string::*;
use crate::color::Color;
use crate::text::{append_decimal, decimal};

verus! {

/// The brightness that every command asks for: the device's maximum.
pub const FULL_BRIGHTNESS: u8 = 255;

/// The HTTP method of every command.
pub const REQUEST_METHOD: &'static str = "POST";

/// The address of the device's state endpoint.
pub const DEVICE_URL: &'static str = "http://192.168.10.50/json/state";

/// The content type of the command's body.
pub const CONTENT_TYPE: &'static str = "application/json";

/// The body of the command that switches the light on at full brightness
/// and paints the active segment with the given channel values.
pub open spec fn state_body(rgb: (u8, u8, u8)) -> Seq<char> {
    "{\"on\": true, \"bri\": "@ + decimal(FULL_BRIGHTNESS as nat) + ", \"seg\": {\"col\": [["@
        + decimal(rgb.0 as nat) + ","@ + decimal(rgb.1 as nat) + ","@ + decimal(rgb.2 as nat)
        + "]]}}"@
}

/// One HTTP request to the device: its method, where it goes, its
/// `Content-Type` header, and its body.
#[derive(Clone, Debug, PartialEq, Eq)]
pub struct DeviceRequest {
    pub method: String,
    pub url: String,
    pub content_type: String,
    pub body: String,
}

impl DeviceRequest {
    /// The request that sets the light to the colour: a POST of the
    /// colour's command to the device's state endpoint, as JSON.
    pub open spec fn is_for(&self, color: Color) -> bool {
        &&& self.method@ == REQUEST_METHOD@
        &&& self.url@ == DEVICE_URL@
        &&& self.content_type@ == CONTENT_TYPE@
        &&& self.body@ == state_body(color.spec_rgb())
    }
}

/// Writes the command body for the given channel values.
pub fn render_state_body(rgb: (u8, u8, u8)) -> (body: String)
    ensures
        body@ == state_body(rgb),
{
    let mut body = String::from_str("{\"on\": true, \"bri\": ");
    append_decimal(&mut body, FULL_BRIGHTNESS);
    body.append(", \"seg\": {\"col\": [[");
    append_decimal(&mut body, rgb.0);
    body.append(",");
    append_decimal(&mut body, rgb.1);
    body.append(",");
    append_decimal(&mut body, rgb.2);
    body.append("]]}}");
    body
}

/// Builds the request that sets the light to the named colour. A name that
/// is neither `red` nor `green` gives blue.
pub fn change_led_color(color: &str) -> (request: DeviceRequest)
    ensures
        request.is_for(Color::spec_from_name(color@)),
{
    let rgb = Color::from_name(color).rgb();
    DeviceRequest {
        method: String::from_str(REQUEST_METHOD),
        url: String::from_str(DEVICE_URL),
        content_type: String::from_str(CONTENT_TYPE),
        body: render_state_body(rgb),
    }
}

} // verus!
