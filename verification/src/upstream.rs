//! What the cache asks of the weather provider, and what can come back.

use crate::record::MICRODEGREES_PER_DEGREE;
use vstd::prelude::*;
use vstd::string::StringExecFns;

verus! {

/// How a call to the provider failed.
#[derive(Clone, Copy, Debug, PartialEq, Eq)]
pub enum UpstreamErrorKind {
    /// No answer came within the time allowed.
    Timeout,
    /// The request could not be sent or the answer could not be received.
    Transport,
    /// The answer was not in the expected form.
    Decode,
}

/// A failed call to the provider.
#[derive(Clone, Debug, PartialEq, Eq)]
pub struct UpstreamError {
    pub kind: UpstreamErrorKind,
    /// What the client said.
    pub detail: String,
}

/// One call to the provider: the place asked about, as the client gave it,
/// and the seconds that the call may take.
#[derive(Clone, Copy, Debug, PartialEq, Eq)]
pub struct FetchRequest {
    /// Latitude in microdegrees.
    pub latitude: i64,
    /// Longitude in microdegrees.
    pub longitude: i64,
    pub timeout_secs: u64,
}

/// One HTTP request to the provider: the path and query under the
/// provider's base address, and the seconds that the request may take.
#[derive(Clone, Debug, PartialEq, Eq)]
pub struct ForecastRequest {
    pub path: String,
    pub timeout_secs: u64,
}

/// The decimal digit for `value`, which is below ten.
pub open spec fn digit(value: int) -> char {
    if value == 0 {
        '0'
    } else if value == 1 {
        '1'
    } else if value == 2 {
        '2'
    } else if value == 3 {
        '3'
    } else if value == 4 {
        '4'
    } else if value == 5 {
        '5'
    } else if value == 6 {
        '6'
    } else if value == 7 {
        '7'
    } else if value == 8 {
        '8'
    } else {
        '9'
    }
}

/// `value` in decimal, without leading zeros.
pub open spec fn decimal(value: nat) -> Seq<char>
    decreases value,
{
    if value < 10 {
        seq![digit(value as int)]
    } else {
        decimal(value / 10).push(digit((value % 10) as int))
    }
}

/// The last `width` decimal digits of `value`, with leading zeros.
pub open spec fn padded(value: nat, width: nat) -> Seq<char>
    decreases width,
{
    if width == 0 {
        Seq::<char>::empty()
    } else {
        padded(value / 10, (width - 1) as nat).push(digit((value % 10) as int))
    }
}

/// The distance of `value` from zero.
pub open spec fn magnitude(value: int) -> nat {
    if value < 0 {
        (-value) as nat
    } else {
        value as nat
    }
}

/// The decimal places that stand for the last `width` digits of `value`:
/// leading zeros are kept, trailing zeros are not, and a fraction of zero
/// has no places at all.
pub open spec fn places(value: nat, width: nat) -> Seq<char>
    decreases width,
{
    if width == 0 {
        Seq::<char>::empty()
    } else if value % 10 == 0 {
        places(value / 10, (width - 1) as nat)
    } else {
        padded(value, width)
    }
}

/// An angle of `microdegrees` written in degrees, in its shortest form: a
/// minus sign where it is below zero, the whole degrees and, only where the
/// fraction is not zero, a point and the fraction without trailing zeros.
pub open spec fn degrees_text(microdegrees: int) -> Seq<char> {
    let sign = if microdegrees < 0 {
        seq!['-']
    } else {
        Seq::<char>::empty()
    };
    let whole = magnitude(microdegrees) / (MICRODEGREES_PER_DEGREE as nat);
    let fraction = magnitude(microdegrees) % (MICRODEGREES_PER_DEGREE as nat);
    let tail = if fraction == 0 {
        Seq::<char>::empty()
    } else {
        seq!['.'] + places(fraction, 6)
    };
    sign + decimal(whole) + tail
}

/// The path and query that ask for the present temperature at a place.
pub open spec fn forecast_path(latitude: int, longitude: int) -> Seq<char> {
    "/v1/forecast?latitude="@ + degrees_text(latitude) + "&longitude="@ + degrees_text(longitude)
        + "&current=temperature_2m"@
}

/// The text of one decimal digit.
fn digit_text(value: u64) -> (text: &'static str)
    requires
        value < 10,
    ensures
        text@ == seq![digit(value as int)],
{
    proof {
        reveal_strlit("0");
        reveal_strlit("1");
        reveal_strlit("2");
        reveal_strlit("3");
        reveal_strlit("4");
        reveal_strlit("5");
        reveal_strlit("6");
        reveal_strlit("7");
        reveal_strlit("8");
        reveal_strlit("9");
    }
    let text = if value == 0 {
        "0"
    } else if value == 1 {
        "1"
    } else if value == 2 {
        "2"
    } else if value == 3 {
        "3"
    } else if value == 4 {
        "4"
    } else if value == 5 {
        "5"
    } else if value == 6 {
        "6"
    } else if value == 7 {
        "7"
    } else if value == 8 {
        "8"
    } else {
        "9"
    };
    assert(text@ =~= seq![digit(value as int)]);
    text
}

/// Appends `value` in decimal.
fn append_decimal(text: &mut String, value: u64)
    ensures
        final(text)@ == old(text)@ + decimal(value as nat),
    decreases value,
{
    if value >= 10 {
        append_decimal(text, value / 10);
    }
    text.append(digit_text(value % 10));
    assert(final(text)@ =~= old(text)@ + decimal(value as nat));
}

/// Appends the last `width` decimal digits of `value`.
fn append_padded(text: &mut String, value: u64, width: u8)
    ensures
        final(text)@ == old(text)@ + padded(value as nat, width as nat),
    decreases width,
{
    if width > 0 {
        append_padded(text, value / 10, width - 1);
        text.append(digit_text(value % 10));
    }
    assert(final(text)@ =~= old(text)@ + padded(value as nat, width as nat));
}

/// Appends the decimal places of a fraction, without trailing zeros.
fn append_places(text: &mut String, value: u64, width: u8)
    ensures
        final(text)@ == old(text)@ + places(value as nat, width as nat),
    decreases width,
{
    if width > 0 {
        if value % 10 == 0 {
            append_places(text, value / 10, width - 1);
        } else {
            append_padded(text, value, width);
        }
    }
    assert(final(text)@ =~= old(text)@ + places(value as nat, width as nat));
}

/// Appends an angle written in degrees, in its shortest form.
pub fn append_degrees(text: &mut String, microdegrees: i64)
    ensures
        final(text)@ == old(text)@ + degrees_text(microdegrees as int),
{
    let size: u64 = if microdegrees < 0 {
        proof {
            reveal_strlit("-");
        }
        text.append("-");
        (-(microdegrees as i128)) as u64
    } else {
        microdegrees as u64
    };
    assert(size == magnitude(microdegrees as int));
    append_decimal(text, size / 1_000_000);
    let fraction: u64 = size % 1_000_000;
    if fraction != 0 {
        proof {
            reveal_strlit(".");
        }
        text.append(".");
        append_places(text, fraction, 6);
    }
    assert(final(text)@ =~= old(text)@ + degrees_text(microdegrees as int));
}

/// Describes the one request that fetches the present temperature at the
/// given place. The coordinates go out as the client gave them.
pub fn weather_request(latitude: i64, longitude: i64, request_timeout: u64) -> (request:
    ForecastRequest)
    ensures
        request.path@ == forecast_path(latitude as int, longitude as int),
        request.timeout_secs == request_timeout,
{
    let mut path = String::from_str("/v1/forecast?latitude=");
    append_degrees(&mut path, latitude);
    path.append("&longitude=");
    append_degrees(&mut path, longitude);
    path.append("&current=temperature_2m");
    ForecastRequest { path, timeout_secs: request_timeout }
}

impl FetchRequest {
    /// The HTTP request that carries out this call.
    pub fn to_forecast_request(&self) -> (request: ForecastRequest)
        ensures
            request.path@ == forecast_path(self.latitude as int, self.longitude as int),
            request.timeout_secs == self.timeout_secs,
    {
        weather_request(self.latitude, self.longitude, self.timeout_secs)
    }
}

} // verus!
