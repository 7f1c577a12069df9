use vstd::prelude::*;

use crate::Setting;
use crate::text::hyphenate;
use crate::text::spec_hyphenated;
use crate::text::spec_u32_digits;
use crate::text::str_eq;
use crate::text::u32_to_string;

verus! {

impl Setting {
    /// The stable identifier key of the setting, as used for its attribute
    /// file name and on the applier's command line.
    pub open spec fn spec_id(self) -> Seq<char> {
        match self {
            Setting::BatteryCareLimit => "battery_care_limit"@,
            Setting::FnLock => "fn_lock"@,
            Setting::UsbCharge => "usb_charge"@,
            Setting::ReaderMode => "reader_mode"@,
            Setting::FanMode => "fan_mode"@,
        }
    }

    pub fn id(self) -> (r: &'static str)
        ensures
            r@ == self.spec_id(),
    {
        match self {
            Setting::BatteryCareLimit => "battery_care_limit",
            Setting::FnLock => "fn_lock",
            Setting::UsbCharge => "usb_charge",
            Setting::ReaderMode => "reader_mode",
            Setting::FanMode => "fan_mode",
        }
    }

    /// The closed set of legal values for this setting.
    pub open spec fn spec_allowed(self, v: u32) -> bool {
        match self {
            Setting::BatteryCareLimit => v == 80 || v == 100,
            Setting::FanMode => v == 0 || v == 1 || v == 2,
            _ => v == 0 || v == 1,
        }
    }

    pub fn allowed(self, v: u32) -> (r: bool)
        ensures
            r == self.spec_allowed(v),
    {
        match self {
            Setting::BatteryCareLimit => v == 80 || v == 100,
            Setting::FanMode => v == 0 || v == 1 || v == 2,
            _ => v == 0 || v == 1,
        }
    }

    /// The value at which the feature is off; the companion service is
    /// meaningless there and is kept disabled.
    pub open spec fn spec_default_value(self) -> u32 {
        match self {
            Setting::BatteryCareLimit => 100,
            _ => 0,
        }
    }

    pub fn default_value(self) -> (r: u32)
        ensures
            r == self.spec_default_value(),
    {
        match self {
            Setting::BatteryCareLimit => 100,
            _ => 0,
        }
    }

    /// Whether committing this value implies the companion service being
    /// enabled (so that the value is re-applied at boot).
    pub open spec fn spec_service_enabled_for(self, v: u32) -> bool {
        v != self.spec_default_value()
    }

    pub fn service_enabled_for(self, v: u32) -> (r: bool)
        ensures
            r == self.spec_service_enabled_for(v),
    {
        v != self.default_value()
    }

    /// The companion service unit name: derived from the identifier with
    /// underscores turned into hyphens; the battery care unit also carries
    /// its one non-default value.
    pub open spec fn spec_service_unit(self) -> Seq<char> {
        match self {
            Setting::BatteryCareLimit => "lg-gram-"@ + spec_hyphenated(self.spec_id()) + "-80"@
                + ".service"@,
            _ => "lg-gram-"@ + spec_hyphenated(self.spec_id()) + ".service"@,
        }
    }

    pub fn service_unit(self) -> (r: String)
        ensures
            r@ == self.spec_service_unit(),
    {
        let mut r = String::from_str("lg-gram-");
        let h = hyphenate(self.id());
        r.append(h.as_str());
        if let Setting::BatteryCareLimit = self {
            r.append("-80");
        }
        r.append(".service");
        proof {
            assert(r@ =~= self.spec_service_unit());
        }
        r
    }
}

/// The setting whose identifier is the given string, if it is one of the
/// whitelisted identifiers.
pub open spec fn spec_setting_of_id(s: Seq<char>) -> Option<Setting> {
    if s == Setting::BatteryCareLimit.spec_id() {
        Some(Setting::BatteryCareLimit)
    } else if s == Setting::FnLock.spec_id() {
        Some(Setting::FnLock)
    } else if s == Setting::UsbCharge.spec_id() {
        Some(Setting::UsbCharge)
    } else if s == Setting::ReaderMode.spec_id() {
        Some(Setting::ReaderMode)
    } else if s == Setting::FanMode.spec_id() {
        Some(Setting::FanMode)
    } else {
        None
    }
}

pub fn setting_of_id(s: &str) -> (r: Option<Setting>)
    ensures
        r == spec_setting_of_id(s@),
{
    if str_eq(s, "battery_care_limit") {
        Some(Setting::BatteryCareLimit)
    } else if str_eq(s, "fn_lock") {
        Some(Setting::FnLock)
    } else if str_eq(s, "usb_charge") {
        Some(Setting::UsbCharge)
    } else if str_eq(s, "reader_mode") {
        Some(Setting::ReaderMode)
    } else if str_eq(s, "fan_mode") {
        Some(Setting::FanMode)
    } else {
        None
    }
}

/// Each identifier names exactly its own setting and holds no `=` sign.
pub proof fn lemma_setting_ids(s: Setting)
    ensures
        spec_setting_of_id(s.spec_id()) == Some(s),
        forall|j: int| 0 <= j < s.spec_id().len() ==> s.spec_id()[j] != '=',
{
    reveal_strlit("battery_care_limit");
    reveal_strlit("fn_lock");
    reveal_strlit("usb_charge");
    reveal_strlit("reader_mode");
    reveal_strlit("fan_mode");
}

/// The single command-line argument `setting=value` that a client hands to
/// the privileged applier.
pub fn feature_argument(setting: Setting, value: u32) -> (r: String)
    ensures
        r@ == setting.spec_id() + seq!['='] + spec_u32_digits(value as nat),
{
    proof {
        reveal_strlit("=");
    }
    let mut r = String::from_str(setting.id());
    r.append("=");
    let v = u32_to_string(value);
    r.append(v.as_str());
    proof {
        assert(r@ =~= setting.spec_id() + seq!['='] + spec_u32_digits(value as nat));
    }
    r
}

/// Attribute file content for a value: the canonical digits and a newline.
pub fn attribute_content(value: u32) -> (r: String)
    ensures
        r@ == spec_u32_digits(value as nat) + seq!['\n'],
{
    proof {
        reveal_strlit("\n");
    }
    let mut r = u32_to_string(value);
    r.append("\n");
    proof {
        assert(r@ =~= spec_u32_digits(value as nat) + seq!['\n']);
    }
    r
}

} // verus!
