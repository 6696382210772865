//! The current conditions in the forecast service's answer.
//!
//! Of the whole answer only two values are read, both under `currently`:
//! `icon`, a string, and `temperature`, a number of degrees Fahrenheit.
//! Whatever else the answer holds is ignored.

use vstd::prelude::*;
use vstd::string::*;

use crate::error::ProgramError;
use crate::limits::{fits_limits, within_limits};
use crate::temperature::{celsius, celsius_degrees};

verus! {

/// Which values a run reads from the answer.
#[derive(Debug, Clone, Copy, PartialEq, Eq, Structural)]
pub enum Detail {
    /// The icon alone.
    Icon,
    /// The icon and the temperature.
    IconAndTemperature,
}

/// The weather at the moment of the answer.
#[derive(Debug, PartialEq, Eq)]
pub struct CurrentWeatherConditions {
    /// The service's code for the icon.
    pub icon: String,
    /// Degrees Fahrenheit, as the bit pattern of the double that the number
    /// was read into; `None` where the run does not read the temperature.
    pub temperature: Option<u64>,
}

/// Current conditions as mathematics.
pub ghost struct ConditionsModel {
    pub icon: Seq<char>,
    pub temperature: Option<u64>,
}

impl View for CurrentWeatherConditions {
    type V = ConditionsModel;

    open spec fn view(&self) -> ConditionsModel {
        ConditionsModel { icon: self.icon@, temperature: self.temperature }
    }
}

impl CurrentWeatherConditions {
    /// The temperature in whole degrees Celsius, where there is one.
    pub fn temperature_in_celsius(&self) -> (degrees: Option<i32>)
        ensures
            degrees is Some <==> self.temperature is Some,
            degrees matches Some(d) ==> d == celsius_degrees(self.temperature.unwrap()),
    {
        match self.temperature {
            Some(bits) => Some(celsius(bits)),
            None => None,
        }
    }
}

/// Conditions or the error in their place, as mathematics.
pub open spec fn conditions_outcome(result: Result<CurrentWeatherConditions, ProgramError>)
    -> Result<ConditionsModel, Seq<char>> {
    match result {
        Ok(conditions) => Ok(conditions@),
        Err(error) => Err(error@),
    }
}

/// The string that the JSON text `raw` holds under the key `inner` of the
/// object under the key `outer` of its top-level object; `None` where `raw`
/// is no JSON text, lacks either key, or holds something else there.
pub uninterp spec fn json_text_at(raw: Seq<char>, outer: Seq<char>, inner: Seq<char>) -> Option<
    Seq<char>,
>;

/// Whether the JSON text `raw` holds a number at the same place.
pub uninterp spec fn json_has_number_at(raw: Seq<char>, outer: Seq<char>, inner: Seq<char>)
    -> bool;

/// `rustc_serialize::json::Json::from_str` on `raw`, then `Json::find_path`
/// with the two keys and `Json::as_string` on what is found. Parsing and
/// lookup read nothing but their arguments, so the result is
/// [`json_text_at`] of them. The limits keep the parser within its own.
#[verifier::external_body]
fn text_at(raw: &str, outer: &str, inner: &str) -> (found: Option<String>)
    requires
        within_limits(raw@),
    ensures
        found.deep_view() == json_text_at(raw@, outer@, inner@),
{
    let document = rustc_serialize::json::Json::from_str(raw).ok()?;
    let text = document.find_path(&[outer, inner])?.as_string()?;
    Some(text.to_string())
}

/// `rustc_serialize::json::Json::from_str` on `raw`, then `Json::find_path`
/// with the two keys and `Json::as_f64` on what is found, handed on as the
/// double's bits. Whether there is a number depends on the arguments alone:
/// it is [`json_has_number_at`] of them. Which double the parser makes of
/// the digits is left open: it computes in floating point, and a power of
/// ten or a product that is no number need not come out alike everywhere.
/// The limits keep the parser within its own.
#[verifier::external_body]
fn number_at(raw: &str, outer: &str, inner: &str) -> (found: Option<u64>)
    requires
        within_limits(raw@),
    ensures
        found is Some <==> json_has_number_at(raw@, outer@, inner@),
{
    let document = rustc_serialize::json::Json::from_str(raw).ok()?;
    let number = document.find_path(&[outer, inner])?.as_f64()?;
    Some(number.to_bits())
}

/// The message of every failure to decode.
pub open spec fn decode_failure() -> Seq<char> {
    "JSON parsing failed"@
}

/// The conditions that the two values make, each `None` where the answer
/// does not hold it: the icon is required, and so is the temperature where
/// the run reads it.
pub open spec fn assembled(icon: Option<Seq<char>>, temperature: Option<u64>, detail: Detail)
    -> Result<ConditionsModel, Seq<char>> {
    match icon {
        None => Err(decode_failure()),
        Some(icon) => match detail {
            Detail::Icon => Ok(ConditionsModel { icon, temperature: None }),
            Detail::IconAndTemperature => match temperature {
                None => Err(decode_failure()),
                Some(bits) => Ok(ConditionsModel { icon, temperature: Some(bits) }),
            },
        },
    }
}

/// Whether the answer `raw` holds what `detail` asks for, within the limits
/// of what is handed to the parser: a string for the icon and, where the
/// temperature is read, a number for it.
pub open spec fn decodable(raw: Seq<char>, detail: Detail) -> bool {
    &&& within_limits(raw)
    &&& json_text_at(raw, "currently"@, "icon"@) is Some
    &&& detail == Detail::IconAndTemperature ==> json_has_number_at(
        raw,
        "currently"@,
        "temperature"@,
    )
}

/// Whether `outcome` is what the answer `raw` decodes to: where the answer
/// holds what is asked for, conditions with its icon and, where the
/// temperature is read, with the double that its number was read into;
/// else the failure.
pub open spec fn decodes_to(raw: Seq<char>, detail: Detail, outcome: Result<
    ConditionsModel,
    Seq<char>,
>) -> bool {
    if decodable(raw, detail) {
        &&& outcome matches Ok(conditions)
        &&& Some(conditions.icon) == json_text_at(raw, "currently"@, "icon"@)
        &&& conditions.temperature is Some <==> detail == Detail::IconAndTemperature
    } else {
        outcome == Err::<ConditionsModel, Seq<char>>(decode_failure())
    }
}

/// The conditions that the values read from an answer make.
pub fn assemble(icon: Option<String>, temperature: Option<u64>, detail: Detail) -> (result: Result<
    CurrentWeatherConditions,
    ProgramError,
>)
    ensures
        conditions_outcome(result) == assembled(icon.deep_view(), temperature, detail),
{
    let failure = ProgramError::new(String::from_str("JSON parsing failed"));
    match icon {
        None => Err(failure),
        Some(icon) => match detail {
            Detail::Icon => Ok(CurrentWeatherConditions { icon, temperature: None }),
            Detail::IconAndTemperature => match temperature {
                None => Err(failure),
                Some(bits) => Ok(CurrentWeatherConditions { icon, temperature: Some(bits) }),
            },
        },
    }
}

/// The current conditions in the answer `raw`, with the values that `detail`
/// asks for.
pub fn decode(raw: &str, detail: Detail) -> (result: Result<CurrentWeatherConditions, ProgramError>)
    ensures
        decodes_to(raw@, detail, conditions_outcome(result)),
{
    if !fits_limits(raw) {
        return Err(ProgramError::new(String::from_str("JSON parsing failed")));
    }
    let icon = text_at(raw, "currently", "icon");
    let temperature = match detail {
        Detail::Icon => None,
        Detail::IconAndTemperature => number_at(raw, "currently", "temperature"),
    };
    assemble(icon, temperature, detail)
}

/// The current conditions in the answer `raw_json`: icon and temperature.
pub fn parse_out_current_conditions(raw_json: &str) -> (result: Result<
    CurrentWeatherConditions,
    ProgramError,
>)
    ensures
        decodes_to(raw_json@, Detail::IconAndTemperature, conditions_outcome(result)),
{
    decode(raw_json, Detail::IconAndTemperature)
}

} // verus!
