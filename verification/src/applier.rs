use vstd::prelude::*;

use crate::Setting;
use crate::settings::setting_of_id;
use crate::settings::spec_setting_of_id;
use crate::text::find_eq;
use crate::text::spec_u32_digits;
use crate::text::split_eq;
use crate::text::str_eq;

verus! {

/// A validated request to change one setting to one whitelisted value.
#[derive(Clone, Copy, PartialEq, Eq, Structural, Debug)]
pub struct ApplyRequest {
    pub setting: Setting,
    pub value: u32,
}

/// A validated request to enable or disable one setting's companion
/// service without touching the attribute file: the persistence toggle's
/// own apply.
#[derive(Clone, Copy, PartialEq, Eq, Structural, Debug)]
pub struct ServiceRequest {
    pub setting: Setting,
    pub enable: bool,
}

/// What a validated applier invocation asks for: a read-only system
/// information query, one feature change, or one companion service
/// enable/disable.
#[derive(Clone, Copy, PartialEq, Eq, Structural, Debug)]
pub enum Invocation {
    SystemInfo,
    Feature(ApplyRequest),
    Service(ServiceRequest),
}

/// The value a setting's value string stands for, if the string is in the
/// setting's allowed set. Allowed value strings are exactly the canonical
/// digit strings of the allowed numbers.
pub open spec fn spec_request_value(st: Setting, val: Seq<char>) -> Option<u32> {
    if st.spec_allowed(0) && val == "0"@ {
        Some(0u32)
    } else if st.spec_allowed(1) && val == "1"@ {
        Some(1u32)
    } else if st.spec_allowed(2) && val == "2"@ {
        Some(2u32)
    } else if st.spec_allowed(80) && val == "80"@ {
        Some(80u32)
    } else if st.spec_allowed(100) && val == "100"@ {
        Some(100u32)
    } else {
        None
    }
}

fn request_value(st: Setting, val: &str) -> (r: Option<u32>)
    ensures
        r == spec_request_value(st, val@),
{
    if st.allowed(0) && str_eq(val, "0") {
        Some(0)
    } else if st.allowed(1) && str_eq(val, "1") {
        Some(1)
    } else if st.allowed(2) && str_eq(val, "2") {
        Some(2)
    } else if st.allowed(80) && str_eq(val, "80") {
        Some(80)
    } else if st.allowed(100) && str_eq(val, "100") {
        Some(100)
    } else {
        None
    }
}

/// The allowed value strings are the canonical decimal forms of the
/// allowed numbers.
pub proof fn lemma_value_strings()
    ensures
        "0"@ == spec_u32_digits(0),
        "1"@ == spec_u32_digits(1),
        "2"@ == spec_u32_digits(2),
        "80"@ == spec_u32_digits(80),
        "100"@ == spec_u32_digits(100),
        "0"@ != "1"@ && "0"@ != "2"@ && "0"@ != "80"@ && "0"@ != "100"@,
        "1"@ != "2"@ && "1"@ != "80"@ && "1"@ != "100"@,
        "2"@ != "80"@ && "2"@ != "100"@,
        "80"@ != "100"@,
{
    reveal_strlit("0");
    reveal_strlit("1");
    reveal_strlit("2");
    reveal_strlit("80");
    reveal_strlit("100");
    assert(spec_u32_digits(0) =~= seq!['0']);
    assert(spec_u32_digits(1) =~= seq!['1']);
    assert(spec_u32_digits(2) =~= seq!['2']);
    assert(spec_u32_digits(8) =~= seq!['8']);
    assert(spec_u32_digits(80) =~= seq!['8', '0']);
    assert(spec_u32_digits(10) =~= seq!['1', '0']);
    assert(spec_u32_digits(100) =~= seq!['1', '0', '0']);
    assert("0"@.len() == 1 && "1"@.len() == 1 && "2"@.len() == 1 && "80"@.len() == 2 && "100"@.len()
        == 3);
    assert("0"@[0] == '0' && "1"@[0] == '1' && "2"@[0] == '2' && "80"@[0] == '8' && "100"@[0]
        == '1');
    assert("80"@[1] == '0' && "100"@[1] == '0' && "100"@[2] == '0');
    assert("0"@ =~= spec_u32_digits(0));
    assert("1"@ =~= spec_u32_digits(1));
    assert("2"@ =~= spec_u32_digits(2));
    assert("80"@ =~= spec_u32_digits(80));
    assert("100"@ =~= spec_u32_digits(100));
}

/// The feature request encoded by one `setting=value` argument: the part
/// before the first `=` must be a whitelisted identifier, the part after
/// it an allowed value string of that setting.
pub open spec fn spec_feature_request(arg: Seq<char>) -> Option<ApplyRequest> {
    match find_eq(arg) {
        None => None,
        Some(i) => {
            let sid = arg.take(i);
            let val = arg.subrange(i + 1, arg.len() as int);
            match spec_setting_of_id(sid) {
                None => None,
                Some(st) => match spec_request_value(st, val) {
                    None => None,
                    Some(v) => Some(ApplyRequest { setting: st, value: v }),
                },
            }
        },
    }
}

/// The service request encoded by one `setting=value` argument of the
/// service mode: a whitelisted identifier, and `1` to enable or `0` to
/// disable its companion service.
pub open spec fn spec_service_request(arg: Seq<char>) -> Option<ServiceRequest> {
    match find_eq(arg) {
        None => None,
        Some(i) => {
            let sid = arg.take(i);
            let val = arg.subrange(i + 1, arg.len() as int);
            match spec_setting_of_id(sid) {
                None => None,
                Some(st) => if val == "0"@ {
                    Some(ServiceRequest { setting: st, enable: false })
                } else if val == "1"@ {
                    Some(ServiceRequest { setting: st, enable: true })
                } else {
                    None
                },
            }
        },
    }
}

/// The validated meaning of an applier command line: `args[0]` is the
/// program path, `args[1]` the mode, and in the feature and service modes
/// `args[2]` the `setting=value` pair; further arguments are ignored.
pub open spec fn spec_validate(args: Seq<Seq<char>>) -> Option<Invocation> {
    if args.len() >= 2 && args[1] == "--system-info"@ {
        Some(Invocation::SystemInfo)
    } else if args.len() >= 3 && args[1] == "--feature"@ {
        match spec_feature_request(args[2]) {
            None => None,
            Some(req) => Some(Invocation::Feature(req)),
        }
    } else if args.len() >= 3 && args[1] == "--service"@ {
        match spec_service_request(args[2]) {
            None => None,
            Some(req) => Some(Invocation::Service(req)),
        }
    } else {
        None
    }
}

/// Validate an applier command line. Rejects, before any side effect,
/// every line whose mode token is unknown, whose setting is not
/// whitelisted, or whose value is outside the setting's allowed set.
pub fn validate_args(args: &Vec<String>) -> (r: Result<Invocation, ()>)
    ensures
        match r {
            Ok(inv) => spec_validate(args.deep_view()) == Some(inv),
            Err(_) => spec_validate(args.deep_view()) is None,
        },
{
    proof {
        assert(forall|i: int|
            0 <= i < args@.len() ==> args.deep_view()[i] == #[trigger] args@[i]@);
    }
    if args.len() < 2 {
        return Err(());
    }
    let mode = &args[1];
    if str_eq(mode.as_str(), "--system-info") {
        return Ok(Invocation::SystemInfo);
    }
    let is_feature = str_eq(mode.as_str(), "--feature");
    let is_service = str_eq(mode.as_str(), "--service");
    if !is_feature && !is_service {
        return Err(());
    }
    if args.len() < 3 {
        return Err(());
    }
    let arg = &args[2];
    match split_eq(arg.as_str()) {
        None => Err(()),
        Some((sid, val)) => match setting_of_id(sid) {
            None => Err(()),
            Some(st) => if is_feature {
                match request_value(st, val) {
                    None => Err(()),
                    Some(v) => Ok(Invocation::Feature(ApplyRequest { setting: st, value: v })),
                }
            } else {
                if str_eq(val, "0") {
                    Ok(Invocation::Service(ServiceRequest { setting: st, enable: false }))
                } else if str_eq(val, "1") {
                    Ok(Invocation::Service(ServiceRequest { setting: st, enable: true }))
                } else {
                    Err(())
                }
            },
        },
    }
}

/// Why an applier invocation was refused before any work.
#[derive(Clone, Copy, PartialEq, Eq, Structural, Debug)]
pub enum InvocationError {
    /// The caller lacks the required elevated privilege.
    NotRoot,
    /// The command line is not a valid invocation.
    Usage,
}

/// The diagnostic printed when the applier is started unprivileged.
pub open spec fn spec_not_root_message() -> Seq<char> {
    "ERROR: App must be run as root"@
}

pub fn not_root_message() -> (r: String)
    ensures
        r@ == spec_not_root_message(),
{
    String::from_str("ERROR: App must be run as root")
}

/// The usage diagnostic, given the program's display name.
pub open spec fn spec_usage_message(app_name: Seq<char>) -> Seq<char> {
    "ERROR: USAGE: "@ + app_name + " mode setting=value"@
}

pub fn usage_message(app_name: &str) -> (r: String)
    ensures
        r@ == spec_usage_message(app_name@),
{
    let mut r = String::from_str("ERROR: USAGE: ");
    r.append(app_name);
    r.append(" mode setting=value");
    proof {
        assert(r@ =~= spec_usage_message(app_name@));
    }
    r
}

/// Decide an applier invocation. The privilege check comes first and
/// fails fast; only then is the command line validated. Nothing is
/// mutated on any path.
pub fn check_invocation(is_root: bool, args: &Vec<String>) -> (r: Result<
    Invocation,
    InvocationError,
>)
    ensures
        !is_root ==> r == Result::<Invocation, InvocationError>::Err(InvocationError::NotRoot),
        is_root ==> match r {
            Ok(inv) => spec_validate(args.deep_view()) == Some(inv),
            Err(e) => e == InvocationError::Usage && spec_validate(args.deep_view()) is None,
        },
{
    if !is_root {
        return Err(InvocationError::NotRoot);
    }
    match validate_args(args) {
        Ok(inv) => Ok(inv),
        Err(_) => Err(InvocationError::Usage),
    }
}

/// One mutating operation of the privileged applier.
#[derive(Clone, Copy, PartialEq, Eq, Structural, Debug)]
pub enum Op {
    DisableService(Setting),
    WriteAttribute(Setting, u32),
    EnableService(Setting),
}

/// The safe ordering of a mutation sequence: a service disable never
/// follows an attribute write, and a service enable never precedes one.
pub open spec fn plan_ordered(ops: Seq<Op>) -> bool {
    &&& forall|i: int, j: int|
        0 <= i < ops.len() && 0 <= j < ops.len() && (#[trigger] ops[i]) is DisableService && (
        #[trigger] ops[j]) is WriteAttribute ==> i < j
    &&& forall|i: int, j: int|
        0 <= i < ops.len() && 0 <= j < ops.len() && (#[trigger] ops[i]) is EnableService && (
        #[trigger] ops[j]) is WriteAttribute ==> j < i
    &&& forall|i: int|
        0 <= i < ops.len() && (#[trigger] ops[i]) is EnableService ==> exists|j: int|
            0 <= j < i && (#[trigger] ops[j]) is WriteAttribute
}

/// The mutation plan for a validated feature change: when the new value
/// implies the companion service being enabled, the write comes first and
/// the enable after it; otherwise the disable comes first and the write
/// after it.
pub open spec fn spec_plan(setting: Setting, value: u32) -> Seq<Op> {
    if setting.spec_service_enabled_for(value) {
        seq![Op::WriteAttribute(setting, value), Op::EnableService(setting)]
    } else {
        seq![Op::DisableService(setting), Op::WriteAttribute(setting, value)]
    }
}

/// Build the mutation plan for a feature change.
pub fn plan_feature(setting: Setting, value: u32) -> (p: Vec<Op>)
    requires
        setting.spec_allowed(value),
    ensures
        p@ == spec_plan(setting, value),
        plan_ordered(p@),
{
    let mut p: Vec<Op> = Vec::new();
    if setting.service_enabled_for(value) {
        p.push(Op::WriteAttribute(setting, value));
        p.push(Op::EnableService(setting));
    } else {
        p.push(Op::DisableService(setting));
        p.push(Op::WriteAttribute(setting, value));
    }
    proof {
        assert(p@ =~= spec_plan(setting, value));
        lemma_plan_ordered(setting, value);
    }
    p
}

/// Every feature-change plan obeys the safe ordering: disables strictly
/// before the attribute write, enables strictly after it, and an enable
/// only ever after a write.
pub proof fn lemma_plan_ordered(setting: Setting, value: u32)
    ensures
        plan_ordered(spec_plan(setting, value)),
{
    let ops = spec_plan(setting, value);
    assert(ops.len() == 2);
    if setting.spec_service_enabled_for(value) {
        assert(ops[0] is WriteAttribute);
        assert(ops[1] is EnableService);
    } else {
        assert(ops[0] is DisableService);
        assert(ops[1] is WriteAttribute);
    }
}

/// Validation admits only whitelisted pairs: any accepted feature
/// request carries a value inside its setting's allowed set.
pub proof fn lemma_validated_is_allowed(arg: Seq<char>)
    ensures
        match spec_feature_request(arg) {
            Some(req) => req.setting.spec_allowed(req.value),
            None => true,
        },
{
}

/// A feature argument built from a whitelisted pair validates back to the
/// same request: the client side and the privileged applier agree across
/// the privilege boundary.
pub proof fn lemma_feature_argument_round_trip(setting: Setting, value: u32)
    requires
        setting.spec_allowed(value),
    ensures
        spec_feature_request(setting.spec_id() + seq!['='] + spec_u32_digits(value as nat))
            == Some(ApplyRequest { setting, value }),
{
    let arg = setting.spec_id() + seq!['='] + spec_u32_digits(value as nat);
    let n = setting.spec_id().len() as int;
    crate::settings::lemma_setting_ids(setting);
    assert(arg[n] == '=');
    assert(forall|j: int| 0 <= j < n ==> arg[j] == #[trigger] setting.spec_id()[j]);
    crate::text::lemma_find_eq_at(arg, n);
    assert(arg.take(n) =~= setting.spec_id());
    assert(arg.subrange(n + 1, arg.len() as int) =~= spec_u32_digits(value as nat));
    lemma_value_strings();
}

} // verus!
