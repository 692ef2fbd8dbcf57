use devcgroup::plan::{Action, Devices, PolicyError, WriteTarget};
use devcgroup::rule::{DeviceKind, DeviceRule, PlatformDevice};

fn rule(
    allow: bool,
    kind: DeviceKind,
    major: Option<u32>,
    minor: Option<u32>,
    access: &str,
) -> DeviceRule {
    DeviceRule { allow, kind, major, minor, access: access.to_string() }
}

fn expect_write(action: &Action, target: WriteTarget, data: &str) {
    match action {
        Action::Write { target: t, data: d } => {
            assert_eq!(*t, target);
            assert_eq!(d, data);
        }
        Action::CreateDir => panic!("expected a write, found CreateDir"),
    }
}

#[test]
fn target_file_names() {
    assert_eq!(WriteTarget::Allow.file_name(), "devices.allow");
    assert_eq!(WriteTarget::Deny.file_name(), "devices.deny");
    assert_eq!(WriteTarget::Procs.file_name(), "cgroup.procs");
}

#[test]
fn allow_rule_targets_devices_allow() {
    let a = Devices::plan_device(&rule(true, DeviceKind::CharDevice, Some(1), Some(3), "rwm"));
    expect_write(&a, WriteTarget::Allow, "c 1:3 rwm");
}

#[test]
fn deny_rule_targets_devices_deny() {
    let a = Devices::plan_device(&rule(false, DeviceKind::BlockDevice, None, Some(9), "w"));
    expect_write(&a, WriteTarget::Deny, "b *:9 w");
}

#[test]
fn builtin_table_has_six_fixed_entries() {
    let ds = Devices::default_allow_devices();
    assert_eq!(ds.len(), 6);
    let expected: [(DeviceKind, Option<u32>, Option<u32>, &str); 6] = [
        (DeviceKind::CharDevice, None, None, "m"),
        (DeviceKind::BlockDevice, None, None, "m"),
        (DeviceKind::CharDevice, Some(5), Some(1), "rwm"),
        (DeviceKind::CharDevice, Some(136), None, "rwm"),
        (DeviceKind::CharDevice, Some(5), Some(2), "rwm"),
        (DeviceKind::CharDevice, Some(10), Some(200), "rwm"),
    ];
    for (d, (kind, major, minor, access)) in ds.iter().zip(expected.iter()) {
        assert!(d.allow);
        assert_eq!(d.kind, *kind);
        assert_eq!(d.major, *major);
        assert_eq!(d.minor, *minor);
        assert_eq!(d.access, *access);
    }
}

#[test]
fn empty_policy_end_to_end() {
    let plan = Devices::plan(&Vec::new(), &Vec::new(), 1234);
    assert_eq!(plan.len(), 8);
    assert!(matches!(plan[0], Action::CreateDir));
    expect_write(&plan[1], WriteTarget::Allow, "c *:* m");
    expect_write(&plan[2], WriteTarget::Allow, "b *:* m");
    expect_write(&plan[3], WriteTarget::Allow, "c 5:1 rwm");
    expect_write(&plan[4], WriteTarget::Allow, "c 136:* rwm");
    expect_write(&plan[5], WriteTarget::Allow, "c 5:2 rwm");
    expect_write(&plan[6], WriteTarget::Allow, "c 10:200 rwm");
    expect_write(&plan[7], WriteTarget::Procs, "1234");
}

#[test]
fn caller_rules_then_defaults_then_builtin_then_attach() {
    let rules = vec![
        rule(false, DeviceKind::AnyDevice, None, None, "rwm"),
        rule(true, DeviceKind::CharDevice, Some(42), Some(0), "rw"),
    ];
    let defaults = vec![PlatformDevice {
        kind: DeviceKind::CharDevice,
        major: 1,
        minor: 5,
        access: "rwm".to_string(),
    }];
    let plan = Devices::plan(&rules, &defaults, 99);
    assert_eq!(plan.len(), 2 + 1 + 6 + 1 + 1);
    assert!(matches!(plan[0], Action::CreateDir));
    expect_write(&plan[1], WriteTarget::Deny, "a *:* rwm");
    expect_write(&plan[2], WriteTarget::Allow, "c 42:0 rw");
    expect_write(&plan[3], WriteTarget::Allow, "c 1:5 rwm");
    expect_write(&plan[4], WriteTarget::Allow, "c *:* m");
    expect_write(&plan[5], WriteTarget::Allow, "b *:* m");
    expect_write(&plan[6], WriteTarget::Allow, "c 5:1 rwm");
    expect_write(&plan[7], WriteTarget::Allow, "c 136:* rwm");
    expect_write(&plan[8], WriteTarget::Allow, "c 5:2 rwm");
    expect_write(&plan[9], WriteTarget::Allow, "c 10:200 rwm");
    expect_write(&plan[10], WriteTarget::Procs, "99");
}

#[test]
fn create_dir_is_always_first() {
    let rules = vec![rule(true, DeviceKind::CharDevice, Some(5), Some(1), "r")];
    let plan = Devices::plan(&rules, &Vec::new(), 1);
    assert!(matches!(plan[0], Action::CreateDir));
    for action in plan.iter().skip(1) {
        assert!(matches!(action, Action::Write { .. }));
    }
}

#[test]
fn attach_is_always_last() {
    let rules = vec![rule(false, DeviceKind::BlockDevice, Some(8), None, "w")];
    let plan = Devices::plan(&rules, &Vec::new(), 321);
    expect_write(&plan[plan.len() - 1], WriteTarget::Procs, "321");
    for action in plan.iter().take(plan.len() - 1) {
        if let Action::Write { target, .. } = action {
            assert_ne!(*target, WriteTarget::Procs);
        }
    }
}

#[test]
fn failed_setup_is_setup_error() {
    assert_eq!(Devices::error_for(&Action::CreateDir), PolicyError::SetupError);
}

#[test]
fn failed_rule_write_is_policy_write_error() {
    let allow = Devices::plan_device(&rule(true, DeviceKind::CharDevice, Some(42), Some(0), "rw"));
    assert_eq!(
        Devices::error_for(&allow),
        PolicyError::PolicyWriteError { target: WriteTarget::Allow }
    );
    let deny = Devices::plan_device(&rule(false, DeviceKind::CharDevice, Some(42), Some(0), "rw"));
    assert_eq!(
        Devices::error_for(&deny),
        PolicyError::PolicyWriteError { target: WriteTarget::Deny }
    );
}

#[test]
fn failed_attach_is_attach_error() {
    let plan = Devices::plan(&Vec::new(), &Vec::new(), 1234);
    let attach = &plan[plan.len() - 1];
    assert_eq!(Devices::error_for(attach), PolicyError::AttachError);
}

#[test]
fn platform_default_becomes_allow_rule() {
    let d = PlatformDevice {
        kind: DeviceKind::BlockDevice,
        major: 7,
        minor: 0,
        access: "rwm".to_string(),
    };
    let r = d.to_allow_rule();
    assert!(r.allow);
    assert_eq!(r.kind, DeviceKind::BlockDevice);
    assert_eq!(r.major, Some(7));
    assert_eq!(r.minor, Some(0));
    assert_eq!(r.access, "rwm");
}
