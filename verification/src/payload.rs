//! The text of what is published: one JSON object per measurement, with the
//! value written to one decimal place.

use vstd::prelude::*;
use vstd::string::*;

verus! {

/// What a measurement is a measurement of.
#[derive(Clone, Copy, Debug, PartialEq, Eq, Structural)]
pub enum Quantity {
    Temperature,
    Humidity,
}

impl Quantity {
    /// The name under which the quantity is published: the last part of
    /// the topic and the key of the value in the payload.
    pub open spec fn label(self) -> Seq<char> {
        match self {
            Quantity::Temperature => "Temp"@,
            Quantity::Humidity => "Humidity"@,
        }
    }

    pub fn name(&self) -> (name: &'static str)
        ensures
            name@ == self.label(),
    {
        match self {
            Quantity::Temperature => "Temp",
            Quantity::Humidity => "Humidity",
        }
    }
}

/// One decimal digit as text.
pub open spec fn digit_text(digit: int) -> Seq<char> {
    if digit == 0 {
        "0"@
    } else if digit == 1 {
        "1"@
    } else if digit == 2 {
        "2"@
    } else if digit == 3 {
        "3"@
    } else if digit == 4 {
        "4"@
    } else if digit == 5 {
        "5"@
    } else if digit == 6 {
        "6"@
    } else if digit == 7 {
        "7"@
    } else if digit == 8 {
        "8"@
    } else {
        "9"@
    }
}

/// A natural number in decimal, without leading zeros.
pub open spec fn decimal_text(value: nat) -> Seq<char>
    decreases value,
{
    if value >= 10 {
        decimal_text(value / 10) + digit_text((value % 10) as int)
    } else {
        digit_text(value as int)
    }
}

/// A number given in tenths, written with one decimal place: `235` is
/// `23.5`, `-5` is `-0.5`, `0` is `0.0`.
pub open spec fn tenths_text(tenths: int) -> Seq<char> {
    let magnitude = if tenths < 0 {
        -tenths
    } else {
        tenths
    };
    let sign = if tenths < 0 {
        "-"@
    } else {
        Seq::<char>::empty()
    };
    sign + decimal_text((magnitude / 10) as nat) + "."@ + digit_text(magnitude % 10)
}

/// The payload of one measurement: a JSON object that names the source and
/// gives the value under the quantity's label. The source's name is put
/// between the quotes as it is.
pub open spec fn payload_text(source_id: Seq<char>, label: Seq<char>, tenths: int) -> Seq<char> {
    "{\"id\": \""@ + source_id + "\", \""@ + label + "\": "@ + tenths_text(tenths) + "}"@
}

/// The topic of one measurement: the base topic, a slash, the label.
pub open spec fn topic_text(base_topic: Seq<char>, label: Seq<char>) -> Seq<char> {
    base_topic + "/"@ + label
}

fn digit_str(digit: u32) -> (text: &'static str)
    requires
        digit < 10,
    ensures
        text@ == digit_text(digit as int),
{
    if digit == 0 {
        "0"
    } else if digit == 1 {
        "1"
    } else if digit == 2 {
        "2"
    } else if digit == 3 {
        "3"
    } else if digit == 4 {
        "4"
    } else if digit == 5 {
        "5"
    } else if digit == 6 {
        "6"
    } else if digit == 7 {
        "7"
    } else if digit == 8 {
        "8"
    } else {
        "9"
    }
}

fn append_decimal(text: &mut String, value: u32)
    ensures
        final(text)@ == old(text)@ + decimal_text(value as nat),
    decreases value,
{
    if value >= 10 {
        append_decimal(text, value / 10);
        text.append(digit_str(value % 10));
    } else {
        text.append(digit_str(value));
    }
}

/// Writes a number given in tenths with one decimal place.
pub fn render_tenths(tenths: i32) -> (text: String)
    ensures
        text@ == tenths_text(tenths as int),
{
    let mut text = String::new();
    let magnitude: u32 = if tenths < 0 {
        text.append("-");
        (-(tenths as i64)) as u32
    } else {
        tenths as u32
    };
    append_decimal(&mut text, magnitude / 10);
    text.append(".");
    text.append(digit_str(magnitude % 10));
    text
}

/// Writes the payload of one measurement, as bytes of UTF-8.
pub fn render_payload(source_id: &str, quantity: Quantity, tenths: i32) -> (payload: Vec<u8>)
    ensures
        payload@ == vstd::utf8::encode_utf8(
            payload_text(source_id@, quantity.label(), tenths as int),
        ),
{
    let mut text = String::from_str("{\"id\": \"");
    text.append(source_id);
    text.append("\", \"");
    text.append(quantity.name());
    text.append("\": ");
    let value = render_tenths(tenths);
    text.append(value.as_str());
    text.append("}");
    text.as_str().as_bytes_vec()
}

/// Writes the topic of one measurement.
pub fn render_topic(base_topic: &str, quantity: Quantity) -> (topic: String)
    ensures
        topic@ == topic_text(base_topic@, quantity.label()),
{
    let mut topic = String::from_str(base_topic);
    topic.append("/");
    topic.append(quantity.name());
    topic
}

} // verus!
