use vstd::prelude::*;

use crate::Setting;
use crate::applier::ApplyRequest;
use crate::applier::ServiceRequest;
use crate::kernel_features::feature;
use crate::kernel_features::spec_feature_value;
use crate::kernel_features::spec_invalid_content_msg;

verus! {

/// Lifecycle state of a per-feature controller.
#[derive(Clone, Copy, PartialEq, Eq, Structural, Debug)]
pub enum CtrlState {
    /// Not yet bound to a setting; user interaction is inert.
    Unbound,
    /// Bound, with the control showing the committed value.
    Ready,
    /// At least one apply request is outstanding.
    Applying,
    /// A revert was issued; the next change notification is self-inflicted
    /// and must be swallowed.
    Reverting,
}

/// What a change notification on the main control amounts to.
#[derive(Clone, Copy, PartialEq, Eq, Structural, Debug)]
pub enum ChangeOutcome {
    /// The notification was the echo of the controller's own revert;
    /// it is consumed and nothing is issued.
    Suppressed,
    /// The controller is not bound to a setting; nothing is issued.
    NotBound,
    /// The request to hand to the privileged applier.
    Request(ApplyRequest),
}

/// What a toggle notification on the persistence control amounts to.
#[derive(Clone, Copy, PartialEq, Eq, Structural, Debug)]
pub enum PersistOutcome {
    /// The echo of the controller's own restoration of the toggle.
    Suppressed,
    /// The controller is not bound to a setting; nothing is issued.
    NotBound,
    /// The service request to hand to the privileged applier.
    Request(ServiceRequest),
}

/// What the caller must do with the control after an apply result.
#[derive(Clone, Copy, PartialEq, Eq, Structural, Debug)]
pub enum ReconcileAction {
    /// The user's value is committed. `persist_cleared` says whether the
    /// coupled persistence toggle was programmatically switched off
    /// because the feature is now at its off value.
    Committed { persist_cleared: bool },
    /// The control must be programmatically restored to this index; the
    /// change notification that restoration produces will be suppressed.
    Revert { restore_index: usize },
    /// The apply failed but the control already shows the committed
    /// value: nothing is restored and no notification is suppressed.
    RevertUnneeded,
}

/// Abstract state of a per-feature controller.
pub ghost struct ControllerView {
    pub setting: Option<Setting>,
    pub state: CtrlState,
    pub values: Seq<u32>,
    pub displayed: int,
    pub committed: int,
    pub sensitive: bool,
    pub persist_active: bool,
    pub persist_sensitive: bool,
    pub persist_reverting: bool,
}

/// Validity of a controller: a non-empty value table, indices inside it,
/// and a setting bound exactly when the controller has left `Unbound`.
pub open spec fn ctrl_wf(c: ControllerView) -> bool {
    &&& c.values.len() >= 1
    &&& 0 <= c.displayed < c.values.len()
    &&& 0 <= c.committed < c.values.len()
    &&& (c.state is Unbound <==> c.setting is None)
}

/// The ordered value table of a setting's control, built once per
/// setting: for each control index the underlying value, with the off
/// value first — index 0 is always the value at which the companion
/// service is meaningless.
pub open spec fn spec_value_table(setting: Setting) -> Seq<u32> {
    match setting {
        Setting::BatteryCareLimit => seq![100u32, 80u32],
        Setting::FanMode => seq![0u32, 1u32, 2u32],
        _ => seq![0u32, 1u32],
    }
}

pub fn value_table(setting: Setting) -> (r: Vec<u32>)
    ensures
        r@ == spec_value_table(setting),
        r@.len() >= 1,
        r@[0] == setting.spec_default_value(),
        forall|i: int| 0 <= i < r@.len() ==> setting.spec_allowed(#[trigger] r@[i]),
{
    let mut r: Vec<u32> = Vec::new();
    match setting {
        Setting::BatteryCareLimit => {
            r.push(100);
            r.push(80);
            proof {
                assert(r@ =~= spec_value_table(setting));
            }
        },
        Setting::FanMode => {
            r.push(0);
            r.push(1);
            r.push(2);
            proof {
                assert(r@ =~= spec_value_table(setting));
            }
        },
        _ => {
            r.push(0);
            r.push(1);
            proof {
                assert(r@ =~= spec_value_table(setting));
            }
        },
    }
    r
}

/// The display label of one table entry: the battery care percentages
/// read as "100%" and "80%"; every other setting shows the value digits
/// themselves.
pub open spec fn spec_value_label(setting: Setting, value: u32) -> Seq<char> {
    match setting {
        Setting::BatteryCareLimit => crate::text::spec_u32_digits(value as nat) + "%"@,
        _ => crate::text::spec_u32_digits(value as nat),
    }
}

pub fn value_label(setting: Setting, value: u32) -> (r: String)
    ensures
        r@ == spec_value_label(setting, value),
{
    let mut r = crate::text::u32_to_string(value);
    if let Setting::BatteryCareLimit = setting {
        r.append("%");
    }
    r
}

/// First position of a value in the ordered value table.
pub open spec fn first_index_of(vs: Seq<u32>, v: u32) -> Option<int>
    decreases vs.len(),
{
    if vs.len() == 0 {
        None
    } else if vs[0] == v {
        Some(0int)
    } else {
        match first_index_of(vs.drop_first(), v) {
            Some(i) => Some(i + 1),
            None => None,
        }
    }
}

/// `first_index_of` finds the first occurrence, and `None` only when the
/// value is absent.
pub proof fn lemma_first_index_of(vs: Seq<u32>, v: u32)
    ensures
        match first_index_of(vs, v) {
            Some(i) => 0 <= i < vs.len() && vs[i] == v && forall|j: int|
                0 <= j < i ==> vs[j] != v,
            None => forall|j: int| 0 <= j < vs.len() ==> vs[j] != v,
        },
    decreases vs.len(),
{
    if vs.len() > 0 && vs[0] != v {
        lemma_first_index_of(vs.drop_first(), v);
        match first_index_of(vs.drop_first(), v) {
            Some(i) => {
                assert(vs[i + 1] == vs.drop_first()[i]);
                assert forall|j: int| 0 <= j < i + 1 implies vs[j] != v by {
                    if j > 0 {
                        assert(vs.drop_first()[j - 1] != v);
                    }
                }
            },
            None => {
                assert forall|j: int| 0 <= j < vs.len() implies vs[j] != v by {
                    if j > 0 {
                        assert(vs.drop_first()[j - 1] != v);
                    }
                }
            },
        }
    }
}

/// A position known to hold the first occurrence determines
/// `first_index_of`.
pub proof fn lemma_first_index_of_at(vs: Seq<u32>, v: u32, i: int)
    requires
        0 <= i < vs.len(),
        vs[i] == v,
        forall|j: int| 0 <= j < i ==> vs[j] != v,
    ensures
        first_index_of(vs, v) == Some(i),
    decreases i,
{
    if i > 0 {
        assert(forall|j: int| 0 <= j < i - 1 ==> vs.drop_first()[j] == vs[j + 1]);
        lemma_first_index_of_at(vs.drop_first(), v, i - 1);
    }
}

/// Controller state after a change notification carrying the control's
/// new index: the next state of the suppression machine. A pending
/// suppression flag is always consumed by the very next notification,
/// whatever its payload.
pub open spec fn spec_changed_ctrl(c: ControllerView, idx: int) -> ControllerView {
    if c.state is Reverting {
        ControllerView { displayed: idx, state: CtrlState::Ready, ..c }
    } else if c.state is Unbound {
        ControllerView { displayed: idx, ..c }
    } else {
        ControllerView { displayed: idx, state: CtrlState::Applying, ..c }
    }
}

/// What a change notification carrying the control's new index amounts
/// to: swallowed while the suppression flag is set, an error while
/// unbound, otherwise an apply request for the table value at the index.
pub open spec fn spec_changed_outcome(c: ControllerView, idx: int) -> ChangeOutcome {
    if c.state is Reverting {
        ChangeOutcome::Suppressed
    } else if c.state is Unbound {
        ChangeOutcome::NotBound
    } else {
        ChangeOutcome::Request(
            ApplyRequest { setting: c.setting->Some_0, value: c.values[idx] },
        )
    }
}

/// Controller state after an apply result: success commits the displayed
/// value and couples the persistence toggle's sensitivity to it; failure
/// arms the suppression flag and restores the committed index, or, when
/// the control already shows the committed value, quietly returns to
/// ready so that a never-echoed flag cannot wedge the controller.
pub open spec fn spec_result_ctrl(c: ControllerView, ok: bool) -> ControllerView {
    if ok {
        ControllerView {
            committed: c.displayed,
            state: CtrlState::Ready,
            persist_sensitive: c.displayed != 0,
            persist_active: if c.displayed == 0 {
                false
            } else {
                c.persist_active
            },
            ..c
        }
    } else if c.displayed != c.committed {
        ControllerView {
            displayed: c.committed,
            state: CtrlState::Reverting,
            persist_sensitive: false,
            ..c
        }
    } else {
        ControllerView { state: CtrlState::Ready, persist_sensitive: false, ..c }
    }
}

/// What the caller must do with the control after an apply result.
pub open spec fn spec_result_action(c: ControllerView, ok: bool) -> ReconcileAction {
    if ok {
        ReconcileAction::Committed { persist_cleared: c.displayed == 0 && c.persist_active }
    } else if c.displayed != c.committed {
        ReconcileAction::Revert { restore_index: c.committed as usize }
    } else {
        ReconcileAction::RevertUnneeded
    }
}

/// Persistence-toggle state after a toggle notification.
pub open spec fn spec_persist_changed_ctrl(c: ControllerView, active: bool) -> ControllerView {
    if c.persist_reverting {
        ControllerView { persist_active: active, persist_reverting: false, ..c }
    } else {
        ControllerView { persist_active: active, ..c }
    }
}

/// What a persistence-toggle notification amounts to.
pub open spec fn spec_persist_changed_outcome(c: ControllerView, active: bool) -> PersistOutcome {
    if c.persist_reverting {
        PersistOutcome::Suppressed
    } else if c.state is Unbound {
        PersistOutcome::NotBound
    } else {
        PersistOutcome::Request(ServiceRequest { setting: c.setting->Some_0, enable: active })
    }
}

/// Persistence-toggle state after a service apply result: failure inverts
/// the toggle back and arms its own suppression flag.
pub open spec fn spec_persist_result_ctrl(c: ControllerView, ok: bool) -> ControllerView {
    if ok {
        c
    } else {
        ControllerView {
            persist_active: !c.persist_active,
            persist_reverting: true,
            ..c
        }
    }
}

/// Per-feature controller of the synchronization engine. It owns the
/// selection state of one control as an index into an ordered value
/// table, plus a coupled persistence toggle, tracks the last committed
/// index, and suppresses the one self-inflicted change notification that
/// each programmatic revert produces.
pub struct Controller {
    setting: Option<Setting>,
    state: CtrlState,
    values: Vec<u32>,
    displayed: usize,
    committed: usize,
    sensitive: bool,
    persist_active: bool,
    persist_sensitive: bool,
    persist_reverting: bool,
}

impl View for Controller {
    type V = ControllerView;

    closed spec fn view(&self) -> ControllerView {
        ControllerView {
            setting: self.setting,
            state: self.state,
            values: self.values@,
            displayed: self.displayed as int,
            committed: self.committed as int,
            sensitive: self.sensitive,
            persist_active: self.persist_active,
            persist_sensitive: self.persist_sensitive,
            persist_reverting: self.persist_reverting,
        }
    }
}

impl Controller {
    /// A fresh, unbound, insensitive controller over an ordered table
    /// mapping control indices to setting values.
    pub fn new(values: Vec<u32>) -> (r: Controller)
        requires
            values@.len() >= 1,
        ensures
            ctrl_wf(r@),
            r@ == (ControllerView {
                setting: None,
                state: CtrlState::Unbound,
                values: values@,
                displayed: 0,
                committed: 0,
                sensitive: false,
                persist_active: false,
                persist_sensitive: false,
                persist_reverting: false,
            }),
    {
        Controller {
            setting: None,
            state: CtrlState::Unbound,
            values,
            displayed: 0,
            committed: 0,
            sensitive: false,
            persist_active: false,
            persist_sensitive: false,
            persist_reverting: false,
        }
    }

    pub fn setting(&self) -> (r: Option<Setting>)
        ensures
            r == self@.setting,
    {
        self.setting
    }

    pub fn displayed(&self) -> (r: usize)
        ensures
            r == self@.displayed,
    {
        self.displayed
    }

    pub fn committed(&self) -> (r: usize)
        ensures
            r == self@.committed,
    {
        self.committed
    }

    pub fn state(&self) -> (r: CtrlState)
        ensures
            r == self@.state,
    {
        self.state
    }

    pub fn is_sensitive(&self) -> (r: bool)
        ensures
            r == self@.sensitive,
    {
        self.sensitive
    }

    pub fn persist_active(&self) -> (r: bool)
        ensures
            r == self@.persist_active,
    {
        self.persist_active
    }

    pub fn persist_sensitive(&self) -> (r: bool)
        ensures
            r == self@.persist_sensitive,
    {
        self.persist_sensitive
    }

    pub fn persist_reverting(&self) -> (r: bool)
        ensures
            r == self@.persist_reverting,
    {
        self.persist_reverting
    }

    /// Number of entries in the ordered value table.
    pub fn value_count(&self) -> (r: usize)
        ensures
            r == self@.values.len(),
    {
        self.values.len()
    }

    /// The value shown by the control at an index of the table.
    pub fn value_at(&self, idx: usize) -> (r: u32)
        requires
            0 <= idx < self@.values.len(),
        ensures
            r == self@.values[idx as int],
    {
        self.values[idx]
    }

    /// Bind the controller to its setting, seeding the control from the
    /// attribute file content read once at attach time, without issuing
    /// any write-back. A content that does not parse, or a value outside
    /// the table, leaves the controller unbound and insensitive and
    /// returns the error to surface.
    pub fn init_id(&mut self, setting: Setting, content: &str) -> (r: Result<(), String>)
        requires
            ctrl_wf(old(self)@),
            old(self)@.state is Unbound,
        ensures
            ctrl_wf(final(self)@),
            final(self)@.values == old(self)@.values,
            match spec_feature_value(content@) {
                None => r matches Err(m) && m@ == spec_read_error_msg(
                    setting,
                    spec_invalid_content_msg(),
                ) && final(self)@ == (ControllerView {
                    sensitive: false,
                    persist_sensitive: false,
                    ..old(self)@
                }),
                Some(v) => match first_index_of(old(self)@.values, v) {
                    None => r matches Err(m) && m@ == spec_read_error_msg(
                        setting,
                        "unknown value"@,
                    ) && final(self)@ == (ControllerView {
                        sensitive: false,
                        persist_sensitive: false,
                        ..old(self)@
                    }),
                    Some(i) => r matches Ok(u) && final(self)@ == (ControllerView {
                        setting: Some(setting),
                        state: CtrlState::Ready,
                        displayed: i,
                        committed: i,
                        sensitive: true,
                        ..old(self)@
                    }),
                },
            },
    {
        let parsed = feature(content);
        match parsed {
            Err(e) => {
                self.sensitive = false;
                self.persist_sensitive = false;
                Err(read_error_msg(setting, e.as_str()))
            },
            Ok(v) => {
                let n = self.values.len();
                let mut i: usize = 0;
                while i < n
                    invariant
                        0 <= i <= n,
                        self@ == old(self)@,
                        ctrl_wf(self@),
                        old(self)@.state is Unbound,
                        n == self.values@.len(),
                        spec_feature_value(content@) == Some(v),
                        forall|j: int| 0 <= j < i ==> self.values@[j] != v,
                    decreases n - i,
                {
                    if self.values[i] == v {
                        proof {
                            lemma_first_index_of_at(self.values@, v, i as int);
                        }
                        self.setting = Some(setting);
                        self.state = CtrlState::Ready;
                        self.displayed = i;
                        self.committed = i;
                        self.sensitive = true;
                        return Ok(());
                    }
                    i = i + 1;
                }
                proof {
                    lemma_first_index_of(self.values@, v);
                    if first_index_of(self.values@, v) is Some {
                        let k = first_index_of(self.values@, v)->Some_0;
                        assert(self.values@[k] != v);
                    }
                }
                self.sensitive = false;
                self.persist_sensitive = false;
                Err(read_error_msg(setting, "unknown value"))
            },
        }
    }

    /// Seed the persistence toggle from the companion service's enabled
    /// state, read once at attach time. A failed read returns the
    /// controller to the unbound, insensitive state: while the companion
    /// state is unknown the controller must stay inert, issuing no
    /// feature applies; only the error to surface comes back.
    pub fn init_service(&mut self, enabled: Result<bool, String>) -> (r: Option<String>)
        requires
            ctrl_wf(old(self)@),
            !(old(self)@.state is Unbound),
        ensures
            ctrl_wf(final(self)@),
            match enabled {
                Ok(en) => r is None && final(self)@ == (ControllerView {
                    persist_active: en,
                    persist_sensitive: old(self)@.displayed != 0,
                    ..old(self)@
                }),
                Err(e) => r matches Some(m) && m@ == spec_service_error_msg(
                    old(self)@.setting->Some_0,
                    e@,
                ) && final(self)@ == (ControllerView {
                    setting: None,
                    state: CtrlState::Unbound,
                    sensitive: false,
                    persist_sensitive: false,
                    ..old(self)@
                }),
            },
    {
        match enabled {
            Ok(en) => {
                self.persist_active = en;
                self.persist_sensitive = self.displayed != 0;
                None
            },
            Err(e) => {
                let setting = match self.setting {
                    Some(s) => s,
                    None => {
                        proof {
                            assert(false);
                        }
                        Setting::BatteryCareLimit
                    },
                };
                self.setting = None;
                self.state = CtrlState::Unbound;
                self.sensitive = false;
                self.persist_sensitive = false;
                Some(service_error_msg(setting, e.as_str()))
            },
        }
    }

    /// Handle a change notification from the control, carrying the index
    /// the control now shows. A notification arriving while the
    /// suppression flag is set is the echo of the controller's own revert:
    /// the flag is cleared and nothing is issued, whatever the payload.
    pub fn on_changed(&mut self, new_index: usize) -> (r: ChangeOutcome)
        requires
            ctrl_wf(old(self)@),
            0 <= new_index < old(self)@.values.len(),
        ensures
            ctrl_wf(final(self)@),
            final(self)@ == spec_changed_ctrl(old(self)@, new_index as int),
            r == spec_changed_outcome(old(self)@, new_index as int),
    {
        self.displayed = new_index;
        if let CtrlState::Reverting = self.state {
            self.state = CtrlState::Ready;
            return ChangeOutcome::Suppressed;
        }
        match self.setting {
            None => ChangeOutcome::NotBound,
            Some(s) => {
                self.state = CtrlState::Applying;
                ChangeOutcome::Request(ApplyRequest { setting: s, value: self.values[new_index] })
            },
        }
    }

    /// Reconcile the control with an apply result: commit on success
    /// (coupling the persistence toggle's sensitivity to the new value),
    /// or arm the suppression flag and restore the committed index on
    /// failure. A failure that finds the control already at the committed
    /// index arms nothing, so a flag can never be left waiting for an
    /// echo that will not come.
    pub fn on_apply_result(&mut self, ok: bool) -> (r: ReconcileAction)
        requires
            ctrl_wf(old(self)@),
            !(old(self)@.state is Unbound),
        ensures
            ctrl_wf(final(self)@),
            final(self)@ == spec_result_ctrl(old(self)@, ok),
            r == spec_result_action(old(self)@, ok),
    {
        if ok {
            self.committed = self.displayed;
            self.state = CtrlState::Ready;
            let cleared = self.displayed == 0 && self.persist_active;
            self.persist_sensitive = self.displayed != 0;
            if self.displayed == 0 {
                self.persist_active = false;
            }
            ReconcileAction::Committed { persist_cleared: cleared }
        } else if self.displayed != self.committed {
            self.displayed = self.committed;
            self.state = CtrlState::Reverting;
            self.persist_sensitive = false;
            ReconcileAction::Revert { restore_index: self.committed }
        } else {
            self.state = CtrlState::Ready;
            self.persist_sensitive = false;
            ReconcileAction::RevertUnneeded
        }
    }

    /// Handle a toggle notification from the persistence control. The
    /// suppression mechanism mirrors the main control's.
    pub fn persist_changed(&mut self, active: bool) -> (r: PersistOutcome)
        requires
            ctrl_wf(old(self)@),
        ensures
            ctrl_wf(final(self)@),
            final(self)@ == spec_persist_changed_ctrl(old(self)@, active),
            r == spec_persist_changed_outcome(old(self)@, active),
    {
        self.persist_active = active;
        if self.persist_reverting {
            self.persist_reverting = false;
            return PersistOutcome::Suppressed;
        }
        match self.setting {
            None => PersistOutcome::NotBound,
            Some(s) => PersistOutcome::Request(ServiceRequest { setting: s, enable: active }),
        }
    }

    /// Reconcile the persistence toggle with a service apply result:
    /// failure inverts the toggle back and arms its suppression flag;
    /// the restored state to show is returned.
    pub fn persist_result(&mut self, ok: bool) -> (r: Option<bool>)
        requires
            ctrl_wf(old(self)@),
        ensures
            ctrl_wf(final(self)@),
            final(self)@ == spec_persist_result_ctrl(old(self)@, ok),
            r == (if ok {
                Option::<bool>::None
            } else {
                Option::<bool>::Some(!old(self)@.persist_active)
            }),
    {
        if ok {
            None
        } else {
            self.persist_active = !self.persist_active;
            self.persist_reverting = true;
            Some(self.persist_active)
        }
    }
}

/// The message surfaced when the attribute read at attach time fails.
pub open spec fn spec_read_error_msg(setting: Setting, detail: Seq<char>) -> Seq<char> {
    "Failed to read "@ + setting.spec_id() + " value: "@ + detail
}

fn read_error_msg(setting: Setting, detail: &str) -> (r: String)
    ensures
        r@ == spec_read_error_msg(setting, detail@),
{
    let mut r = String::from_str("Failed to read ");
    r.append(setting.id());
    r.append(" value: ");
    r.append(detail);
    proof {
        assert(r@ =~= spec_read_error_msg(setting, detail@));
    }
    r
}

/// The message surfaced when the companion service state read fails.
pub open spec fn spec_service_error_msg(setting: Setting, detail: Seq<char>) -> Seq<char> {
    "Failed to load "@ + setting.spec_id() + " service status: "@ + detail
}

fn service_error_msg(setting: Setting, detail: &str) -> (r: String)
    ensures
        r@ == spec_service_error_msg(setting, detail@),
{
    let mut r = String::from_str("Failed to load ");
    r.append(setting.id());
    r.append(" service status: ");
    r.append(detail);
    proof {
        assert(r@ =~= spec_service_error_msg(setting, detail@));
    }
    r
}

/// Committed at `a`, a user change to `b` followed by a failed apply ends
/// with the control back at `a`, the committed value unchanged, and the
/// suppression flag clear again after consuming exactly one notification:
/// the echo of the revert, which produces no apply request.
pub proof fn lemma_failed_apply_reverts(c: ControllerView, b: int)
    requires
        ctrl_wf(c),
        c.state is Ready,
        0 <= b < c.values.len(),
        b != c.committed,
    ensures
        ({
            let c1 = spec_changed_ctrl(c, b);
            let c2 = spec_result_ctrl(c1, false);
            let c3 = spec_changed_ctrl(c2, c2.displayed);
            &&& spec_changed_outcome(c, b) is Request
            &&& spec_result_action(c1, false) == (ReconcileAction::Revert {
                restore_index: c.committed as usize,
            })
            &&& c2.displayed == c.committed
            &&& spec_changed_outcome(c2, c2.displayed) is Suppressed
            &&& c3.displayed == c.committed
            &&& c3.committed == c.committed
            &&& c3.state is Ready
        }),
{
}

/// Committed at `a`, a user change to `b` followed by a successful apply
/// ends with the control at `b`, `b` committed, and no suppression flag
/// left set.
pub proof fn lemma_successful_apply_commits(c: ControllerView, b: int)
    requires
        ctrl_wf(c),
        c.state is Ready,
        0 <= b < c.values.len(),
    ensures
        ({
            let c1 = spec_changed_ctrl(c, b);
            let c2 = spec_result_ctrl(c1, true);
            &&& spec_changed_outcome(c, b) is Request
            &&& spec_result_action(c1, true) is Committed
            &&& c2.displayed == b
            &&& c2.committed == b
            &&& c2.state is Ready
            &&& !(c2.state is Reverting)
        }),
{
}

/// The persistence toggle's suppression mechanism mirrors the main
/// control's: a failed service apply inverts the toggle back and the
/// echo of that inversion is consumed without issuing a request.
pub proof fn lemma_persist_failed_reverts(c: ControllerView, active: bool)
    requires
        ctrl_wf(c),
        !(c.state is Unbound),
        !c.persist_reverting,
    ensures
        ({
            let c1 = spec_persist_changed_ctrl(c, active);
            let c2 = spec_persist_result_ctrl(c1, false);
            let c3 = spec_persist_changed_ctrl(c2, c2.persist_active);
            &&& spec_persist_changed_outcome(c, active) is Request
            &&& c2.persist_active == !active
            &&& spec_persist_changed_outcome(c2, c2.persist_active) is Suppressed
            &&& !c3.persist_reverting
        }),
{
}

} // verus!
