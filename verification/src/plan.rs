//! The device-cgroup controller's plan: the ordered filesystem actions that
//! applying a device policy performs.
//!
//! Applying a policy means: create the cgroup directory, write each caller
//! rule in order, write an allow rule for each platform default device, write
//! the six built-in safe-allow rules, and finally attach the process by
//! writing its id to `cgroup.procs`. The kernel whitelist is cumulative, so
//! this order is part of the contract: the built-in rules come last and
//! therefore take precedence, and the process is attached only after every
//! rule is in place. `Devices::plan` computes that action sequence as data;
//! an unverified executor performs the actions in order and stops at the
//! first failure.

use vstd::prelude::*;

use crate::rule::{
    allow_rule, dec_seq, format_line, spec_line, u64_to_string, DeviceKind, DeviceRule,
    DeviceRuleV, PlatformDevice, PlatformDeviceV,
};

verus! {

/// The control file a rule line or process id is written to.
#[derive(Clone, Copy, PartialEq, Eq, Structural, Debug)]
pub enum WriteTarget {
    /// `devices.allow`: a write adds the rule to the whitelist.
    Allow,
    /// `devices.deny`: a write removes matching access from the whitelist.
    Deny,
    /// `cgroup.procs`: a write moves the process into the cgroup.
    Procs,
}

/// The file name of a write target, relative to the cgroup directory.
pub open spec fn target_file(t: WriteTarget) -> Seq<char> {
    match t {
        WriteTarget::Allow => "devices.allow"@,
        WriteTarget::Deny => "devices.deny"@,
        WriteTarget::Procs => "cgroup.procs"@,
    }
}

impl WriteTarget {
    /// The file name of this target, relative to the cgroup directory.
    pub fn file_name(&self) -> (s: &'static str)
        ensures
            s@ == target_file(*self),
    {
        match self {
            WriteTarget::Allow => "devices.allow",
            WriteTarget::Deny => "devices.deny",
            WriteTarget::Procs => "cgroup.procs",
        }
    }
}

/// One filesystem action of the controller: create the cgroup directory, or
/// open one control file and write one datum to it.
pub enum Action {
    CreateDir,
    Write { target: WriteTarget, data: String },
}

/// The mathematical value of an `Action`.
#[verifier::ext_equal]
pub enum ActionV {
    CreateDir,
    Write { target: WriteTarget, data: Seq<char> },
}

impl View for Action {
    type V = ActionV;

    open spec fn view(&self) -> ActionV {
        match self {
            Action::CreateDir => ActionV::CreateDir,
            Action::Write { target, data } => ActionV::Write { target: *target, data: data@ },
        }
    }
}

/// Why an `apply` failed: the step whose filesystem operation was refused.
#[derive(Clone, Copy, PartialEq, Eq, Structural, Debug)]
pub enum PolicyError {
    /// The cgroup directory could not be created.
    SetupError,
    /// A rule line could not be written to `devices.allow` or `devices.deny`.
    PolicyWriteError { target: WriteTarget },
    /// The process id could not be written to `cgroup.procs`.
    AttachError,
}

/// The target a rule is written to: `devices.allow` for an allow rule,
/// `devices.deny` for a deny rule.
pub open spec fn spec_target(r: DeviceRuleV) -> WriteTarget {
    if r.allow {
        WriteTarget::Allow
    } else {
        WriteTarget::Deny
    }
}

/// The write action a rule turns into: its line, sent to the file its
/// `allow` flag selects.
pub open spec fn rule_action(r: DeviceRuleV) -> ActionV {
    ActionV::Write { target: spec_target(r), data: spec_line(r) }
}

/// The final action of every plan: the process id, in decimal, written to
/// `cgroup.procs`.
pub open spec fn procs_action(pid: u32) -> ActionV {
    ActionV::Write { target: WriteTarget::Procs, data: dec_seq(pid as nat) }
}

/// The built-in minimal safe-allow rules, in order: mknod for any character
/// device, mknod for any block device, then full access to `/dev/console`
/// (char 5:1), the pseudo-terminals (char 136:*), `/dev/ptmx` (char 5:2),
/// and tun/tap (char 10:200).
pub open spec fn builtin_rules() -> Seq<DeviceRuleV> {
    seq![
        DeviceRuleV {
            allow: true,
            kind: DeviceKind::CharDevice,
            major: None,
            minor: None,
            access: "m"@,
        },
        DeviceRuleV {
            allow: true,
            kind: DeviceKind::BlockDevice,
            major: None,
            minor: None,
            access: "m"@,
        },
        DeviceRuleV {
            allow: true,
            kind: DeviceKind::CharDevice,
            major: Some(5),
            minor: Some(1),
            access: "rwm"@,
        },
        DeviceRuleV {
            allow: true,
            kind: DeviceKind::CharDevice,
            major: Some(136),
            minor: None,
            access: "rwm"@,
        },
        DeviceRuleV {
            allow: true,
            kind: DeviceKind::CharDevice,
            major: Some(5),
            minor: Some(2),
            access: "rwm"@,
        },
        DeviceRuleV {
            allow: true,
            kind: DeviceKind::CharDevice,
            major: Some(10),
            minor: Some(200),
            access: "rwm"@,
        },
    ]
}

/// The views of a sequence of rules.
pub open spec fn views_of_rules(s: Seq<DeviceRule>) -> Seq<DeviceRuleV> {
    s.map_values(|r: DeviceRule| r@)
}

/// The views of a sequence of platform devices.
pub open spec fn views_of_devices(s: Seq<PlatformDevice>) -> Seq<PlatformDeviceV> {
    s.map_values(|d: PlatformDevice| d@)
}

/// The views of a sequence of actions.
pub open spec fn views_of_actions(s: Seq<Action>) -> Seq<ActionV> {
    s.map_values(|a: Action| a@)
}

/// The full plan for one policy: directory creation first, then the caller
/// rules in their given order, then an allow rule per platform default
/// device, then the built-in safe-allow rules, and the process attach last.
pub open spec fn spec_plan(
    rules: Seq<DeviceRuleV>,
    defaults: Seq<PlatformDeviceV>,
    pid: u32,
) -> Seq<ActionV> {
    seq![ActionV::CreateDir] + rules.map_values(|r: DeviceRuleV| rule_action(r))
        + defaults.map_values(|d: PlatformDeviceV| rule_action(allow_rule(d)))
        + builtin_rules().map_values(|r: DeviceRuleV| rule_action(r)) + seq![procs_action(pid)]
}

/// The devices-controller: translates a device policy into the writes the
/// kernel's cgroup v1 devices controller understands.
pub struct Devices {}

impl Devices {
    /// The write action for one rule: its formatted line, targeted at
    /// `devices.allow` or `devices.deny` according to its `allow` flag.
    pub fn plan_device(rule: &DeviceRule) -> (a: Action)
        ensures
            a@ == rule_action(rule@),
    {
        let target = if rule.allow {
            WriteTarget::Allow
        } else {
            WriteTarget::Deny
        };
        Action::Write { target, data: format_line(rule) }
    }

    /// The built-in minimal safe-allow rules, as values: exactly the six
    /// entries of `builtin_rules`, in the same order.
    pub fn default_allow_devices() -> (ds: Vec<DeviceRule>)
        ensures
            views_of_rules(ds@) == builtin_rules(),
    {
        let mut ds: Vec<DeviceRule> = Vec::new();
        ds.push(DeviceRule {
            allow: true,
            kind: DeviceKind::CharDevice,
            major: None,
            minor: None,
            access: String::from_str("m"),
        });
        ds.push(DeviceRule {
            allow: true,
            kind: DeviceKind::BlockDevice,
            major: None,
            minor: None,
            access: String::from_str("m"),
        });
        // /dev/console
        ds.push(DeviceRule {
            allow: true,
            kind: DeviceKind::CharDevice,
            major: Some(5),
            minor: Some(1),
            access: String::from_str("rwm"),
        });
        // /dev/pts
        ds.push(DeviceRule {
            allow: true,
            kind: DeviceKind::CharDevice,
            major: Some(136),
            minor: None,
            access: String::from_str("rwm"),
        });
        // /dev/ptmx
        ds.push(DeviceRule {
            allow: true,
            kind: DeviceKind::CharDevice,
            major: Some(5),
            minor: Some(2),
            access: String::from_str("rwm"),
        });
        // tun/tap
        ds.push(DeviceRule {
            allow: true,
            kind: DeviceKind::CharDevice,
            major: Some(10),
            minor: Some(200),
            access: String::from_str("rwm"),
        });
        proof {
            assert(views_of_rules(ds@) =~= builtin_rules());
        }
        ds
    }

    /// The full, ordered action plan for applying one device policy:
    /// `spec_plan` of the caller rules, the platform default devices, and
    /// the process id. Performing these actions in order, against a cgroup
    /// directory, is what `apply` means.
    pub fn plan(rules: &Vec<DeviceRule>, defaults: &Vec<PlatformDevice>, pid: u32) -> (plan: Vec<
        Action,
    >)
        ensures
            views_of_actions(plan@) == spec_plan(
                views_of_rules(rules@),
                views_of_devices(defaults@),
                pid,
            ),
    {
        let ghost rv = views_of_rules(rules@);
        let ghost dv = views_of_devices(defaults@);
        let nr = rules.len();
        let nd = defaults.len();

        let mut plan: Vec<Action> = Vec::new();
        plan.push(Action::CreateDir);

        let mut i: usize = 0;
        while i < nr
            invariant
                nr == rules@.len(),
                i <= nr,
                plan@.len() == 1 + i,
                plan@[0]@ == ActionV::CreateDir,
                forall|j: int|
                    1 <= j <= i ==> #[trigger] plan@[j]@ == rule_action(rules@[j - 1]@),
            decreases nr - i,
        {
            let a = Self::plan_device(&rules[i]);
            plan.push(a);
            i += 1;
        }

        let mut i: usize = 0;
        while i < nd
            invariant
                nr == rules@.len(),
                nd == defaults@.len(),
                i <= nd,
                plan@.len() == 1 + nr + i,
                plan@[0]@ == ActionV::CreateDir,
                forall|j: int|
                    1 <= j <= nr ==> #[trigger] plan@[j]@ == rule_action(rules@[j - 1]@),
                forall|j: int|
                    nr + 1 <= j <= nr + i ==> #[trigger] plan@[j]@ == rule_action(
                        allow_rule(defaults@[j - 1 - nr]@),
                    ),
            decreases nd - i,
        {
            let r = defaults[i].to_allow_rule();
            let a = Self::plan_device(&r);
            plan.push(a);
            i += 1;
        }

        let builtin = Self::default_allow_devices();
        let nb = builtin.len();
        proof {
            assert(builtin@.len() == builtin_rules().len());
        }
        let mut i: usize = 0;
        while i < nb
            invariant
                nr == rules@.len(),
                nd == defaults@.len(),
                nb == builtin@.len(),
                views_of_rules(builtin@) == builtin_rules(),
                i <= nb,
                plan@.len() == 1 + nr + nd + i,
                plan@[0]@ == ActionV::CreateDir,
                forall|j: int|
                    1 <= j <= nr ==> #[trigger] plan@[j]@ == rule_action(rules@[j - 1]@),
                forall|j: int|
                    nr + 1 <= j <= nr + nd ==> #[trigger] plan@[j]@ == rule_action(
                        allow_rule(defaults@[j - 1 - nr]@),
                    ),
                forall|j: int|
                    nr + nd + 1 <= j <= nr + nd + i ==> #[trigger] plan@[j]@ == rule_action(
                        builtin_rules()[j - 1 - nr - nd],
                    ),
            decreases nb - i,
        {
            proof {
                assert(builtin@[i as int]@ == views_of_rules(builtin@)[i as int]);
            }
            let a = Self::plan_device(&builtin[i]);
            plan.push(a);
            i += 1;
        }

        plan.push(Action::Write { target: WriteTarget::Procs, data: u64_to_string(pid as u64) });

        proof {
            let pv = views_of_actions(plan@);
            let sp = spec_plan(rv, dv, pid);
            assert(builtin_rules().len() == 6);
            assert forall|k: int| 0 <= k < pv.len() implies pv[k] == sp[k] by {
                assert(pv[k] == plan@[k]@);
                if k == 0 {
                    assert(sp[k] == ActionV::CreateDir);
                } else if k <= nr {
                    assert(sp[k] == rule_action(rv[k - 1]));
                    assert(rv[k - 1] == rules@[k - 1]@);
                } else if k <= nr + nd {
                    assert(sp[k] == rule_action(allow_rule(dv[k - 1 - nr])));
                    assert(dv[k - 1 - nr] == defaults@[k - 1 - nr]@);
                } else if k <= nr + nd + 6 {
                    assert(sp[k] == rule_action(builtin_rules()[k - 1 - nr - nd]));
                } else {
                    assert(k == plan@.len() - 1);
                    assert(sp[k] == procs_action(pid));
                }
            }
            assert(pv =~= sp);
        }
        plan
    }

    /// Classifies a failed action: a refused directory creation is a
    /// `SetupError`, a refused rule write is a `PolicyWriteError` naming the
    /// file, and a refused process attach is an `AttachError`.
    pub fn error_for(a: &Action) -> (e: PolicyError)
        ensures
            a@ is CreateDir ==> e == PolicyError::SetupError,
            a@ matches ActionV::Write { target, .. } ==> e == (if target == WriteTarget::Procs {
                PolicyError::AttachError
            } else {
                PolicyError::PolicyWriteError { target }
            }),
    {
        match a {
            Action::CreateDir => PolicyError::SetupError,
            Action::Write { target, data: _ } => {
                match target {
                    WriteTarget::Allow => PolicyError::PolicyWriteError { target: *target },
                    WriteTarget::Deny => PolicyError::PolicyWriteError { target: *target },
                    WriteTarget::Procs => PolicyError::AttachError,
                }
            },
        }
    }
}

} // verus!
