use lg_gram::Setting;
use lg_gram::applier::ApplyRequest;
use lg_gram::applier::Invocation;
use lg_gram::applier::Op;
use lg_gram::applier::ServiceRequest;
use lg_gram::applier::check_invocation;
use lg_gram::applier::not_root_message;
use lg_gram::applier::plan_feature;
use lg_gram::applier::usage_message;
use lg_gram::applier::validate_args;
use lg_gram::kernel_features::battery_limit;
use lg_gram::kernel_features::fan_mode;
use lg_gram::kernel_features::feature;
use lg_gram::kernel_features::fn_lock;
use lg_gram::kernel_features::reader_mode;
use lg_gram::kernel_features::usb_charge;
use lg_gram::settings::attribute_content;
use lg_gram::settings::feature_argument;
use lg_gram::settings::setting_of_id;
use lg_gram::store::ApplyError;
use lg_gram::store::StoreModel;
use lg_gram::sysinfo::system_information;

fn argv(parts: &[&str]) -> Vec<String> {
    parts.iter().map(|s| s.to_string()).collect()
}

#[test]
fn getters_map_raw_values() {
    assert_eq!(feature(" 80\n"), Ok(80));
    assert_eq!(battery_limit("100\n"), Ok(0));
    assert_eq!(battery_limit("80\n"), Ok(1));
    assert_eq!(fn_lock("1\n"), Ok(true));
    assert_eq!(fn_lock("0\n"), Ok(false));
    assert_eq!(usb_charge("1"), Ok(true));
    assert_eq!(reader_mode("0"), Ok(false));
    assert_eq!(fan_mode("0\n"), Ok(true));
    assert_eq!(fan_mode("2\n"), Ok(false));
}

#[test]
fn getters_reject_bad_content() {
    let msg = "invalid settings file content".to_string();
    assert_eq!(feature("garbage"), Err(msg.clone()));
    assert_eq!(battery_limit(""), Err(msg.clone()));
    assert_eq!(fn_lock("1x"), Err(msg));
}

#[test]
fn validate_accepts_whitelisted_pairs() {
    assert_eq!(validate_args(&argv(&["w", "--system-info"])), Ok(Invocation::SystemInfo));
    assert_eq!(
        validate_args(&argv(&["w", "--feature", "battery_care_limit=80"])),
        Ok(Invocation::Feature(ApplyRequest { setting: Setting::BatteryCareLimit, value: 80 }))
    );
    assert_eq!(
        validate_args(&argv(&["w", "--feature", "battery_care_limit=100"])),
        Ok(Invocation::Feature(ApplyRequest { setting: Setting::BatteryCareLimit, value: 100 }))
    );
    assert_eq!(
        validate_args(&argv(&["w", "--feature", "fn_lock=1"])),
        Ok(Invocation::Feature(ApplyRequest { setting: Setting::FnLock, value: 1 }))
    );
    assert_eq!(
        validate_args(&argv(&["w", "--feature", "usb_charge=0"])),
        Ok(Invocation::Feature(ApplyRequest { setting: Setting::UsbCharge, value: 0 }))
    );
    assert_eq!(
        validate_args(&argv(&["w", "--feature", "reader_mode=1"])),
        Ok(Invocation::Feature(ApplyRequest { setting: Setting::ReaderMode, value: 1 }))
    );
    assert_eq!(
        validate_args(&argv(&["w", "--feature", "fan_mode=2"])),
        Ok(Invocation::Feature(ApplyRequest { setting: Setting::FanMode, value: 2 }))
    );
    assert_eq!(
        validate_args(&argv(&["w", "--service", "fn_lock=1"])),
        Ok(Invocation::Service(ServiceRequest { setting: Setting::FnLock, enable: true }))
    );
    assert_eq!(
        validate_args(&argv(&["w", "--service", "battery_care_limit=0"])),
        Ok(Invocation::Service(ServiceRequest { setting: Setting::BatteryCareLimit, enable: false }))
    );
}

#[test]
fn validate_rejects_everything_else() {
    assert_eq!(validate_args(&argv(&["w"])), Err(()));
    assert_eq!(validate_args(&argv(&["w", "--bogus"])), Err(()));
    assert_eq!(validate_args(&argv(&["w", "--feature"])), Err(()));
    assert_eq!(validate_args(&argv(&["w", "--feature", "noequals"])), Err(()));
    assert_eq!(validate_args(&argv(&["w", "--feature", "unknown_setting=1"])), Err(()));
    assert_eq!(validate_args(&argv(&["w", "--feature", "battery_care_limit=90"])), Err(()));
    assert_eq!(validate_args(&argv(&["w", "--feature", "battery_care_limit=080"])), Err(()));
    assert_eq!(validate_args(&argv(&["w", "--feature", "fn_lock=2"])), Err(()));
    assert_eq!(validate_args(&argv(&["w", "--feature", "fan_mode=3"])), Err(()));
    assert_eq!(validate_args(&argv(&["w", "--service", "fn_lock=2"])), Err(()));
    assert_eq!(validate_args(&argv(&["w", "--feature", "=80"])), Err(()));
}

#[test]
fn invocation_check_requires_root_first() {
    let args = argv(&["w", "--system-info"]);
    assert!(check_invocation(false, &args).is_err());
    assert_eq!(check_invocation(true, &args), Ok(Invocation::SystemInfo));
    assert_eq!(not_root_message(), "ERROR: App must be run as root");
    assert_eq!(usage_message("lg-gram-writer"), "ERROR: USAGE: lg-gram-writer mode setting=value");
}

#[test]
fn argument_round_trips_through_validation() {
    let pairs = [
        (Setting::BatteryCareLimit, 80u32),
        (Setting::BatteryCareLimit, 100),
        (Setting::FnLock, 0),
        (Setting::UsbCharge, 1),
        (Setting::ReaderMode, 0),
        (Setting::FanMode, 2),
    ];
    for (s, v) in pairs {
        let arg = feature_argument(s, v);
        let args = argv(&["w", "--feature", arg.as_str()]);
        assert_eq!(
            validate_args(&args),
            Ok(Invocation::Feature(ApplyRequest { setting: s, value: v }))
        );
    }
}

#[test]
fn identifiers_and_units() {
    assert_eq!(setting_of_id("battery_care_limit"), Some(Setting::BatteryCareLimit));
    assert_eq!(setting_of_id("fan_mode"), Some(Setting::FanMode));
    assert_eq!(setting_of_id("bogus"), None);
    assert_eq!(
        Setting::BatteryCareLimit.service_unit(),
        "lg-gram-battery-care-limit-80.service"
    );
    assert_eq!(Setting::FnLock.service_unit(), "lg-gram-fn-lock.service");
    assert_eq!(Setting::UsbCharge.service_unit(), "lg-gram-usb-charge.service");
    assert_eq!(Setting::ReaderMode.service_unit(), "lg-gram-reader-mode.service");
    assert_eq!(Setting::FanMode.service_unit(), "lg-gram-fan-mode.service");
    assert_eq!(attribute_content(80), "80\n");
}

#[test]
fn plans_keep_the_safe_order() {
    let p = plan_feature(Setting::BatteryCareLimit, 80);
    assert_eq!(
        p,
        vec![
            Op::WriteAttribute(Setting::BatteryCareLimit, 80),
            Op::EnableService(Setting::BatteryCareLimit),
        ]
    );
    let p = plan_feature(Setting::BatteryCareLimit, 100);
    assert_eq!(
        p,
        vec![
            Op::DisableService(Setting::BatteryCareLimit),
            Op::WriteAttribute(Setting::BatteryCareLimit, 100),
        ]
    );
    let p = plan_feature(Setting::FnLock, 1);
    assert_eq!(p[0], Op::WriteAttribute(Setting::FnLock, 1));
    assert_eq!(p[1], Op::EnableService(Setting::FnLock));
}

#[test]
fn apply_then_read_round_trips() {
    for (s, v) in [
        (Setting::BatteryCareLimit, 80u32),
        (Setting::BatteryCareLimit, 100),
        (Setting::FnLock, 1),
        (Setting::UsbCharge, 0),
        (Setting::ReaderMode, 1),
        (Setting::FanMode, 2),
    ] {
        let mut store = StoreModel::new();
        let (res, _) = store.apply_feature(s, v);
        assert!(res.is_ok());
        assert_eq!(store.read_feature(s), v);
        assert_eq!(feature(store.read_content(s).as_str()), Ok(v));
    }
}

#[test]
fn invalid_value_mutates_nothing() {
    let mut store = StoreModel::new();
    let (res, trace) = store.apply_feature(Setting::BatteryCareLimit, 42);
    assert_eq!(res, Err(ApplyError::InvalidValue(Setting::BatteryCareLimit)));
    assert!(trace.is_empty());
    assert_eq!(store.read_feature(Setting::BatteryCareLimit), 100);
    assert!(!store.is_service_enabled(Setting::BatteryCareLimit));
    let msg = ApplyError::InvalidValue(Setting::BatteryCareLimit).message();
    assert_eq!(msg, "ERROR: Invalid value for setting: battery_care_limit");
}

#[test]
fn enable_comes_only_after_successful_write() {
    // success: the write is recorded strictly before the enable
    let mut store = StoreModel::new();
    let (res, trace) = store.apply_feature(Setting::BatteryCareLimit, 80);
    assert_eq!(res, Ok("Successfully changed battery_care_limit setting".to_string()));
    let w = trace
        .iter()
        .position(|op| matches!(op, Op::WriteAttribute(_, _)))
        .unwrap();
    let e = trace
        .iter()
        .position(|op| matches!(op, Op::EnableService(_)))
        .unwrap();
    assert!(w < e);
    assert!(store.is_service_enabled(Setting::BatteryCareLimit));

    // injected write failure: no enable is ever performed
    let mut store = StoreModel::new();
    store.set_attr_writable(Setting::BatteryCareLimit, false);
    let (res, trace) = store.apply_feature(Setting::BatteryCareLimit, 80);
    assert_eq!(res, Err(ApplyError::WriteFailed(Setting::BatteryCareLimit)));
    assert!(trace.iter().all(|op| !matches!(op, Op::EnableService(_))));
    assert_eq!(store.read_feature(Setting::BatteryCareLimit), 100);
    assert!(!store.is_service_enabled(Setting::BatteryCareLimit));
}

#[test]
fn disable_comes_before_the_write_is_attempted() {
    // move battery care from 80 (service enabled) to 100 (no limit)
    let mut store = StoreModel::new();
    let (res, _) = store.apply_feature(Setting::BatteryCareLimit, 80);
    assert!(res.is_ok());

    // success: disable is recorded strictly before the write
    let (res, trace) = store.apply_feature(Setting::BatteryCareLimit, 100);
    assert!(res.is_ok());
    let d = trace
        .iter()
        .position(|op| matches!(op, Op::DisableService(_)))
        .unwrap();
    let w = trace
        .iter()
        .position(|op| matches!(op, Op::WriteAttribute(_, _)))
        .unwrap();
    assert!(d < w);

    // injected write failure: the service was already disabled, the value
    // stays unwritten - a safe state, never an enabled service for an
    // uncommitted value
    let mut store = StoreModel::new();
    let (res, _) = store.apply_feature(Setting::BatteryCareLimit, 80);
    assert!(res.is_ok());
    store.set_attr_writable(Setting::BatteryCareLimit, false);
    let (res, trace) = store.apply_feature(Setting::BatteryCareLimit, 100);
    assert_eq!(res, Err(ApplyError::WriteFailed(Setting::BatteryCareLimit)));
    assert_eq!(trace, vec![Op::DisableService(Setting::BatteryCareLimit)]);
    assert_eq!(store.read_feature(Setting::BatteryCareLimit), 80);
    assert!(!store.is_service_enabled(Setting::BatteryCareLimit));
}

#[test]
fn every_error_variant_has_an_input() {
    let mut store = StoreModel::new();
    store.set_attr_present(Setting::FnLock, false);
    let (res, trace) = store.apply_feature(Setting::FnLock, 1);
    assert_eq!(res, Err(ApplyError::MissingSettingsFile(Setting::FnLock)));
    assert!(trace.is_empty());

    let mut store = StoreModel::new();
    store.set_unit_present(Setting::FnLock, false);
    let (res, trace) = store.apply_feature(Setting::FnLock, 1);
    assert_eq!(res, Err(ApplyError::MissingUnitFile(Setting::FnLock)));
    assert!(trace.is_empty());

    let mut store = StoreModel::new();
    store.set_service_ok(false);
    let (res, trace) = store.apply_feature(Setting::FnLock, 1);
    assert_eq!(res, Err(ApplyError::ServiceFailed(Setting::FnLock)));
    // the write itself succeeded before the enable failed
    assert_eq!(trace, vec![Op::WriteAttribute(Setting::FnLock, 1)]);
    assert_eq!(store.read_feature(Setting::FnLock), 1);
    assert!(!store.is_service_enabled(Setting::FnLock));

    assert_eq!(
        ApplyError::MissingSettingsFile(Setting::FnLock).message(),
        "ERROR: Settings file does not exist: fn_lock"
    );
    assert_eq!(
        ApplyError::MissingUnitFile(Setting::FnLock).message(),
        "ERROR: Service unit file does not exist: fn_lock"
    );
    assert_eq!(
        ApplyError::WriteFailed(Setting::FnLock).message(),
        "ERROR: Error writing to settings file: fn_lock"
    );
    assert_eq!(
        ApplyError::ServiceFailed(Setting::FnLock).message(),
        "ERROR: Service command failed: fn_lock"
    );
}

#[test]
fn service_mode_touches_only_the_service() {
    let mut store = StoreModel::new();
    let res = store.set_service(Setting::UsbCharge, true);
    assert_eq!(res, Ok("Successfully changed usb_charge service".to_string()));
    assert!(store.is_service_enabled(Setting::UsbCharge));
    assert_eq!(store.read_feature(Setting::UsbCharge), 0);

    let mut store = StoreModel::new();
    store.set_unit_present(Setting::UsbCharge, false);
    let res = store.set_service(Setting::UsbCharge, true);
    assert_eq!(res, Err(ApplyError::MissingUnitFile(Setting::UsbCharge)));
    assert!(!store.is_service_enabled(Setting::UsbCharge));
}

#[test]
fn system_information_report_format() {
    let report = system_information("LG Gram\n", " 123SER ", "Phoenix", "1.0\n");
    assert_eq!(
        report,
        "Product Name\nLG Gram\nSerial Number\n123SER\nBIOS Vendor\nPhoenix\nBIOS Version\n1.0"
    );
}
