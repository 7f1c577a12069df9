use vstd::prelude::*;

use crate::Setting;
use crate::applier::Op;
use crate::applier::plan_ordered;
use crate::settings::attribute_content;
use crate::text::spec_u32_digits;

verus! {

/// Why a feature change was not (or not fully) applied. Each variant
/// carries the setting so that every diagnostic names it.
#[derive(Clone, Copy, PartialEq, Eq, Structural, Debug)]
pub enum ApplyError {
    /// The requested value is outside the setting's allowed set.
    InvalidValue(Setting),
    /// The setting's attribute file does not exist: the feature is
    /// unsupported on this hardware.
    MissingSettingsFile(Setting),
    /// The companion service unit file does not exist.
    MissingUnitFile(Setting),
    /// The attribute write was rejected by the driver.
    WriteFailed(Setting),
    /// The service manager refused the enable or disable command.
    ServiceFailed(Setting),
}

impl ApplyError {
    /// The one-line, self-contained diagnostic for this error.
    pub open spec fn spec_message(self) -> Seq<char> {
        match self {
            ApplyError::InvalidValue(s) => "ERROR: Invalid value for setting: "@ + s.spec_id(),
            ApplyError::MissingSettingsFile(s) => "ERROR: Settings file does not exist: "@
                + s.spec_id(),
            ApplyError::MissingUnitFile(s) => "ERROR: Service unit file does not exist: "@
                + s.spec_id(),
            ApplyError::WriteFailed(s) => "ERROR: Error writing to settings file: "@ + s.spec_id(),
            ApplyError::ServiceFailed(s) => "ERROR: Service command failed: "@ + s.spec_id(),
        }
    }

    pub fn message(self) -> (r: String)
        ensures
            r@ == self.spec_message(),
    {
        let (prefix, s): (&'static str, Setting) = match self {
            ApplyError::InvalidValue(s) => ("ERROR: Invalid value for setting: ", s),
            ApplyError::MissingSettingsFile(s) => ("ERROR: Settings file does not exist: ", s),
            ApplyError::MissingUnitFile(s) => ("ERROR: Service unit file does not exist: ", s),
            ApplyError::WriteFailed(s) => ("ERROR: Error writing to settings file: ", s),
            ApplyError::ServiceFailed(s) => ("ERROR: Service command failed: ", s),
        };
        let mut r = String::from_str(prefix);
        r.append(s.id());
        r
    }
}

/// The confirmation line printed after a successful feature change.
pub open spec fn spec_success_message(setting: Setting) -> Seq<char> {
    "Successfully changed "@ + setting.spec_id() + " setting"@
}

pub fn success_message(setting: Setting) -> (r: String)
    ensures
        r@ == spec_success_message(setting),
{
    let mut r = String::from_str("Successfully changed ");
    r.append(setting.id());
    r.append(" setting");
    proof {
        assert(r@ =~= spec_success_message(setting));
    }
    r
}

/// The confirmation line printed after a successful service change.
pub open spec fn spec_service_message(setting: Setting) -> Seq<char> {
    "Successfully changed "@ + setting.spec_id() + " service"@
}

pub fn service_message(setting: Setting) -> (r: String)
    ensures
        r@ == spec_service_message(setting),
{
    let mut r = String::from_str("Successfully changed ");
    r.append(setting.id());
    r.append(" service");
    proof {
        assert(r@ =~= spec_service_message(setting));
    }
    r
}

/// Abstract state of the feature store and service manager.
pub ghost struct StoreView {
    pub attrs: Seq<u32>,
    pub attr_present: Seq<bool>,
    pub attr_writable: Seq<bool>,
    pub unit_present: Seq<bool>,
    pub enabled: Seq<bool>,
    pub service_ok: bool,
}

/// In-memory model of the feature store and the service manager: one
/// attribute value per setting, whether its file exists and accepts
/// writes, whether its companion unit file exists, whether its companion
/// service is enabled, and whether the service manager accepts commands.
/// The presence, writability and acceptance fields exist to inject
/// failures, so that the applier's behaviour is stated for every outcome.
pub struct StoreModel {
    pub attrs: Vec<u32>,
    pub attr_present: Vec<bool>,
    pub attr_writable: Vec<bool>,
    pub unit_present: Vec<bool>,
    pub enabled: Vec<bool>,
    pub service_ok: bool,
}

impl View for StoreModel {
    type V = StoreView;

    open spec fn view(&self) -> StoreView {
        StoreView {
            attrs: self.attrs@,
            attr_present: self.attr_present@,
            attr_writable: self.attr_writable@,
            unit_present: self.unit_present@,
            enabled: self.enabled@,
            service_ok: self.service_ok,
        }
    }
}

/// One slot per setting in each per-setting field.
pub open spec fn store_wf(v: StoreView) -> bool {
    &&& v.attrs.len() == 5
    &&& v.attr_present.len() == 5
    &&& v.attr_writable.len() == 5
    &&& v.unit_present.len() == 5
    &&& v.enabled.len() == 5
}

/// What one call of `set_feature` did: how the final store state, the
/// result and the performed-operation trace follow from the initial state.
pub open spec fn spec_set_feature_post(
    o: StoreView,
    f: StoreView,
    setting: Setting,
    value: u32,
    res: Result<Seq<char>, ApplyError>,
    trace: Seq<Op>,
) -> bool {
    let i = setting.spec_index();
    &&& f.attr_present == o.attr_present
    &&& f.attr_writable == o.attr_writable
    &&& f.unit_present == o.unit_present
    &&& f.service_ok == o.service_ok
    &&& forall|j: int|
        0 <= j < 5 && j != i ==> f.attrs[j] == o.attrs[j] && f.enabled[j] == o.enabled[j]
    &&& if !o.attr_present[i] {
        &&& res == Result::<Seq<char>, ApplyError>::Err(ApplyError::MissingSettingsFile(setting))
        &&& f.attrs == o.attrs
        &&& f.enabled == o.enabled
        &&& trace == Seq::<Op>::empty()
    } else if !o.unit_present[i] {
        &&& res == Result::<Seq<char>, ApplyError>::Err(ApplyError::MissingUnitFile(setting))
        &&& f.attrs == o.attrs
        &&& f.enabled == o.enabled
        &&& trace == Seq::<Op>::empty()
    } else if setting.spec_service_enabled_for(value) {
        // the write comes first; the service is enabled only after it succeeded
        if !o.attr_writable[i] {
            &&& res == Result::<Seq<char>, ApplyError>::Err(ApplyError::WriteFailed(setting))
            &&& f.attrs == o.attrs
            &&& f.enabled == o.enabled
            &&& trace == Seq::<Op>::empty()
        } else if !o.service_ok {
            &&& res == Result::<Seq<char>, ApplyError>::Err(ApplyError::ServiceFailed(setting))
            &&& f.attrs == o.attrs.update(i, value)
            &&& f.enabled == o.enabled
            &&& trace == seq![Op::WriteAttribute(setting, value)]
        } else {
            &&& res == Result::<Seq<char>, ApplyError>::Ok(spec_success_message(setting))
            &&& f.attrs == o.attrs.update(i, value)
            &&& f.enabled == o.enabled.update(i, true)
            &&& trace == seq![Op::WriteAttribute(setting, value), Op::EnableService(setting)]
        }
    } else {
        // the superseded service is disabled before the write is attempted
        if !o.service_ok {
            &&& res == Result::<Seq<char>, ApplyError>::Err(ApplyError::ServiceFailed(setting))
            &&& f.attrs == o.attrs
            &&& f.enabled == o.enabled
            &&& trace == Seq::<Op>::empty()
        } else if !o.attr_writable[i] {
            // safe state: at most a disabled service, the value unwritten
            &&& res == Result::<Seq<char>, ApplyError>::Err(ApplyError::WriteFailed(setting))
            &&& f.attrs == o.attrs
            &&& f.enabled == o.enabled.update(i, false)
            &&& trace == seq![Op::DisableService(setting)]
        } else {
            &&& res == Result::<Seq<char>, ApplyError>::Ok(spec_success_message(setting))
            &&& f.attrs == o.attrs.update(i, value)
            &&& f.enabled == o.enabled.update(i, false)
            &&& trace == seq![Op::DisableService(setting), Op::WriteAttribute(setting, value)]
        }
    }
}

/// Round trip: on a store that accepts the change — attribute and unit
/// files present, the write accepted, the service manager responding —
/// applying an allowed value succeeds, and reading the setting afterwards
/// yields exactly that value, with the companion service enabled exactly
/// when the value calls for it.
pub proof fn lemma_apply_then_read(
    o: StoreView,
    f: StoreView,
    setting: Setting,
    value: u32,
    res: Result<Seq<char>, ApplyError>,
    trace: Seq<Op>,
)
    requires
        store_wf(o),
        setting.spec_allowed(value),
        o.attr_present[setting.spec_index()],
        o.unit_present[setting.spec_index()],
        o.attr_writable[setting.spec_index()],
        o.service_ok,
        spec_set_feature_post(o, f, setting, value, res, trace),
    ensures
        res == Result::<Seq<char>, ApplyError>::Ok(spec_success_message(setting)),
        f.attrs[setting.spec_index()] == value,
        f.enabled[setting.spec_index()] == setting.spec_service_enabled_for(value),
{
}

impl StoreModel {
    /// A store in its default state: every feature at its off value, every
    /// file present and writable, no companion service enabled, the
    /// service manager accepting commands.
    pub fn new() -> (r: StoreModel)
        ensures
            store_wf(r@),
            r@.attrs == seq![100u32, 0u32, 0u32, 0u32, 0u32],
            r@.attr_present == seq![true, true, true, true, true],
            r@.attr_writable == seq![true, true, true, true, true],
            r@.unit_present == seq![true, true, true, true, true],
            r@.enabled == seq![false, false, false, false, false],
            r@.service_ok == true,
    {
        let r = StoreModel {
            attrs: vec![100, 0, 0, 0, 0],
            attr_present: vec![true, true, true, true, true],
            attr_writable: vec![true, true, true, true, true],
            unit_present: vec![true, true, true, true, true],
            enabled: vec![false, false, false, false, false],
            service_ok: true,
        };
        proof {
            assert(r@.attrs =~= seq![100u32, 0u32, 0u32, 0u32, 0u32]);
            assert(r@.attr_present =~= seq![true, true, true, true, true]);
            assert(r@.attr_writable =~= seq![true, true, true, true, true]);
            assert(r@.unit_present =~= seq![true, true, true, true, true]);
            assert(r@.enabled =~= seq![false, false, false, false, false]);
        }
        r
    }

    /// Current value of a setting's attribute.
    pub open spec fn spec_attr(self, s: Setting) -> u32 {
        self@.attrs[s.spec_index()]
    }

    /// Whether a setting's companion service is enabled.
    pub open spec fn spec_enabled(self, s: Setting) -> bool {
        self@.enabled[s.spec_index()]
    }

    /// Read the current value of a setting.
    pub fn read_feature(&self, s: Setting) -> (r: u32)
        requires
            store_wf(self@),
        ensures
            r == self.spec_attr(s),
    {
        self.attrs[s.index()]
    }

    /// The attribute file content a read of this setting returns: the
    /// value's digits and a trailing newline.
    pub fn read_content(&self, s: Setting) -> (r: String)
        requires
            store_wf(self@),
        ensures
            r@ == spec_u32_digits(self.spec_attr(s) as nat) + seq!['\n'],
    {
        attribute_content(self.attrs[s.index()])
    }

    /// Whether a setting's companion service is currently enabled.
    pub fn is_service_enabled(&self, s: Setting) -> (r: bool)
        requires
            store_wf(self@),
        ensures
            r == self.spec_enabled(s),
    {
        self.enabled[s.index()]
    }

    /// Mark a setting's attribute file as present or missing.
    pub fn set_attr_present(&mut self, s: Setting, p: bool)
        requires
            store_wf(old(self)@),
        ensures
            store_wf(final(self)@),
            final(self)@ == (StoreView {
                attr_present: old(self)@.attr_present.update(s.spec_index(), p),
                ..old(self)@
            }),
    {
        self.attr_present.set(s.index(), p);
    }

    /// Mark a setting's attribute file as accepting or rejecting writes.
    pub fn set_attr_writable(&mut self, s: Setting, w: bool)
        requires
            store_wf(old(self)@),
        ensures
            store_wf(final(self)@),
            final(self)@ == (StoreView {
                attr_writable: old(self)@.attr_writable.update(s.spec_index(), w),
                ..old(self)@
            }),
    {
        self.attr_writable.set(s.index(), w);
    }

    /// Mark a setting's companion unit file as present or missing.
    pub fn set_unit_present(&mut self, s: Setting, p: bool)
        requires
            store_wf(old(self)@),
        ensures
            store_wf(final(self)@),
            final(self)@ == (StoreView {
                unit_present: old(self)@.unit_present.update(s.spec_index(), p),
                ..old(self)@
            }),
    {
        self.unit_present.set(s.index(), p);
    }

    /// Make the service manager accept or refuse commands.
    pub fn set_service_ok(&mut self, ok: bool)
        requires
            store_wf(old(self)@),
        ensures
            store_wf(final(self)@),
            final(self)@ == (StoreView { service_ok: ok, ..old(self)@ }),
    {
        self.service_ok = ok;
    }

    /// Apply one whitelisted feature change in the safe order: refuse
    /// before any mutation when the attribute or unit file is missing;
    /// disable a superseded companion service before the attribute write;
    /// enable a companion service only after the write has succeeded.
    /// Returns the outcome and the mutating operations performed, in order.
    pub fn set_feature(&mut self, setting: Setting, value: u32) -> (r: (
        Result<String, ApplyError>,
        Vec<Op>,
    ))
        requires
            store_wf(old(self)@),
            setting.spec_allowed(value),
        ensures
            store_wf(final(self)@),
            spec_set_feature_post(
                old(self)@,
                final(self)@,
                setting,
                value,
                match r.0 {
                    Ok(m) => Ok(m@),
                    Err(e) => Err(e),
                },
                r.1@,
            ),
            plan_ordered(r.1@),
            r.0 is Ok ==> final(self).spec_attr(setting) == value,
            r.0 is Ok ==> final(self).spec_enabled(setting) == setting.spec_service_enabled_for(
                value,
            ),
            final(self).spec_enabled(setting) && !old(self).spec_enabled(setting)
                ==> final(self).spec_attr(setting) == value,
    {
        let i = setting.index();
        let mut trace: Vec<Op> = Vec::new();
        if !self.attr_present[i] {
            return (Err(ApplyError::MissingSettingsFile(setting)), trace);
        }
        if !self.unit_present[i] {
            return (Err(ApplyError::MissingUnitFile(setting)), trace);
        }
        if setting.service_enabled_for(value) {
            if !self.attr_writable[i] {
                return (Err(ApplyError::WriteFailed(setting)), trace);
            }
            self.attrs.set(i, value);
            trace.push(Op::WriteAttribute(setting, value));
            proof {
                assert(trace@ =~= seq![Op::WriteAttribute(setting, value)]);
            }
            if !self.service_ok {
                return (Err(ApplyError::ServiceFailed(setting)), trace);
            }
            self.enabled.set(i, true);
            trace.push(Op::EnableService(setting));
            proof {
                assert(trace@ =~= seq![
                    Op::WriteAttribute(setting, value),
                    Op::EnableService(setting),
                ]);
                assert(trace@[0] is WriteAttribute);
            }
            (Ok(success_message(setting)), trace)
        } else {
            if !self.service_ok {
                return (Err(ApplyError::ServiceFailed(setting)), trace);
            }
            self.enabled.set(i, false);
            trace.push(Op::DisableService(setting));
            proof {
                assert(trace@ =~= seq![Op::DisableService(setting)]);
            }
            if !self.attr_writable[i] {
                return (Err(ApplyError::WriteFailed(setting)), trace);
            }
            self.attrs.set(i, value);
            trace.push(Op::WriteAttribute(setting, value));
            proof {
                assert(trace@ =~= seq![
                    Op::DisableService(setting),
                    Op::WriteAttribute(setting, value),
                ]);
            }
            (Ok(success_message(setting)), trace)
        }
    }

    /// Enable or disable a setting's companion service without touching
    /// the attribute file: the service mode of the applier, issued by the
    /// persistence toggle.
    pub fn set_service(&mut self, setting: Setting, enable: bool) -> (r: Result<
        String,
        ApplyError,
    >)
        requires
            store_wf(old(self)@),
        ensures
            store_wf(final(self)@),
            final(self)@.attrs == old(self)@.attrs,
            final(self)@.attr_present == old(self)@.attr_present,
            final(self)@.attr_writable == old(self)@.attr_writable,
            final(self)@.unit_present == old(self)@.unit_present,
            final(self)@.service_ok == old(self)@.service_ok,
            ({
                let i = setting.spec_index();
                let o = old(self)@;
                let f = final(self)@;
                if !o.unit_present[i] {
                    &&& r matches Err(e) && e == ApplyError::MissingUnitFile(setting)
                    &&& f.enabled == o.enabled
                } else if !o.service_ok {
                    &&& r matches Err(e) && e == ApplyError::ServiceFailed(setting)
                    &&& f.enabled == o.enabled
                } else {
                    &&& r matches Ok(m) && m@ == spec_service_message(setting)
                    &&& f.enabled == o.enabled.update(i, enable)
                }
            }),
    {
        let i = setting.index();
        if !self.unit_present[i] {
            return Err(ApplyError::MissingUnitFile(setting));
        }
        if !self.service_ok {
            return Err(ApplyError::ServiceFailed(setting));
        }
        self.enabled.set(i, enable);
        Ok(service_message(setting))
    }

    /// Validate, then apply: a value outside the setting's allowed set is
    /// rejected before any file or service mutation.
    pub fn apply_feature(&mut self, setting: Setting, value: u32) -> (r: (
        Result<String, ApplyError>,
        Vec<Op>,
    ))
        requires
            store_wf(old(self)@),
        ensures
            store_wf(final(self)@),
            !setting.spec_allowed(value) ==> r.0 == Result::<String, ApplyError>::Err(
                ApplyError::InvalidValue(setting),
            ) && final(self)@ == old(self)@ && r.1@ == Seq::<Op>::empty(),
            setting.spec_allowed(value) ==> spec_set_feature_post(
                old(self)@,
                final(self)@,
                setting,
                value,
                match r.0 {
                    Ok(m) => Ok(m@),
                    Err(e) => Err(e),
                },
                r.1@,
            ),
            plan_ordered(r.1@),
    {
        if !setting.allowed(value) {
            let trace: Vec<Op> = Vec::new();
            return (Err(ApplyError::InvalidValue(setting)), trace);
        }
        self.set_feature(setting, value)
    }
}

} // verus!
