use vstd::prelude::*;

use crate::text::all_digits;
use crate::text::parse_u32;
use crate::text::spec_trimmed;
use crate::text::str_to_nat;
use crate::text::trimmed;

verus! {

/// The numeric value held in an attribute file's content: after stripping
/// surrounding whitespace, one or more decimal digits whose value fits in
/// `u32`; anything else is not a feature value.
pub open spec fn spec_feature_value(s: Seq<char>) -> Option<u32> {
    let t = spec_trimmed(s);
    if t.len() > 0 && all_digits(t) && str_to_nat(t) <= u32::MAX {
        Some(str_to_nat(t) as u32)
    } else {
        None
    }
}

/// The error message reported when an attribute file's content is not a
/// feature value.
pub open spec fn spec_invalid_content_msg() -> Seq<char> {
    "invalid settings file content"@
}

/// Round trip through the store: the content the applier writes for a
/// value (its digits and a newline) reads back as exactly that value.
pub proof fn lemma_content_round_trip(value: u32)
    ensures
        spec_feature_value(
            crate::text::spec_u32_digits(value as nat) + seq!['\n'],
        ) == Some(value),
{
    crate::text::lemma_digits_round_trip(value as nat);
    crate::text::lemma_trim_digits_newline(crate::text::spec_u32_digits(value as nat));
}

/// Parse the content of a feature's attribute file into its value.
pub fn feature(content: &str) -> (r: Result<u32, String>)
    ensures
        match spec_feature_value(content@) {
            Some(v) => r == Ok::<u32, String>(v),
            None => r matches Err(m) && m@ == spec_invalid_content_msg(),
        },
{
    let t = trimmed(content);
    match parse_u32(t) {
        Some(v) => Ok(v),
        None => Err(String::from_str("invalid settings file content")),
    }
}

/// Battery care limit as the selection index of its two-state control:
/// 0 for no limit (value 100), 1 for the 80% limit (any other value).
pub fn battery_limit(content: &str) -> (r: Result<u32, String>)
    ensures
        match spec_feature_value(content@) {
            Some(v) => r == Ok::<u32, String>(if v == 100 { 0u32 } else { 1u32 }),
            None => r matches Err(m) && m@ == spec_invalid_content_msg(),
        },
{
    let v = feature(content)?;
    Ok(if v == 100 { 0 } else { 1 })
}

/// Function-key lock state: on for any non-zero value.
pub fn fn_lock(content: &str) -> (r: Result<bool, String>)
    ensures
        match spec_feature_value(content@) {
            Some(v) => r == Ok::<bool, String>(v != 0),
            None => r matches Err(m) && m@ == spec_invalid_content_msg(),
        },
{
    let v = feature(content)?;
    Ok(v != 0)
}

/// USB charge-while-off state: on for any non-zero value.
pub fn usb_charge(content: &str) -> (r: Result<bool, String>)
    ensures
        match spec_feature_value(content@) {
            Some(v) => r == Ok::<bool, String>(v != 0),
            None => r matches Err(m) && m@ == spec_invalid_content_msg(),
        },
{
    let v = feature(content)?;
    Ok(v != 0)
}

/// Reader mode state: on for any non-zero value.
pub fn reader_mode(content: &str) -> (r: Result<bool, String>)
    ensures
        match spec_feature_value(content@) {
            Some(v) => r == Ok::<bool, String>(v != 0),
            None => r matches Err(m) && m@ == spec_invalid_content_msg(),
        },
{
    let v = feature(content)?;
    Ok(v != 0)
}

/// Silent fan mode state: value 0 means the silent fan is enabled.
pub fn fan_mode(content: &str) -> (r: Result<bool, String>)
    ensures
        match spec_feature_value(content@) {
            Some(v) => r == Ok::<bool, String>(v == 0),
            None => r matches Err(m) && m@ == spec_invalid_content_msg(),
        },
{
    let v = feature(content)?;
    Ok(v == 0)
}

} // verus!
