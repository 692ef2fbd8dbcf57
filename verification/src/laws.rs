//! Laws of the controller, stated and proved once for all inputs: how rule
//! lines render wildcards, which file each rule is written to, and where the
//! built-in safe-allow rules, the directory creation and the process attach
//! stand in every plan.

use vstd::prelude::*;

use crate::plan::{
    builtin_rules, procs_action, rule_action, spec_plan, ActionV, WriteTarget,
};
use crate::rule::{kind_seq, spec_line, DeviceRuleV, PlatformDeviceV};

verus! {

/// Law: a rule whose major and minor are both wildcards formats with `*:*`
/// as its device-number field (the characters right after the kind and its
/// separating space).
pub proof fn lemma_wildcard_line(r: DeviceRuleV)
    requires
        r.major is None,
        r.minor is None,
    ensures
        spec_line(r).subrange(2, 5) == "*:*"@,
{
    reveal_strlit("*:*");
    assert(kind_seq(r.kind).len() == 1);
    assert(spec_line(r).subrange(2, 5) =~= "*:*"@);
}

/// Law: an allow rule is written to `devices.allow`, a deny rule to
/// `devices.deny`, and in both cases the datum is the rule's formatted line.
pub proof fn lemma_write_target(r: DeviceRuleV)
    ensures
        r.allow ==> rule_action(r) == (ActionV::Write {
            target: WriteTarget::Allow,
            data: spec_line(r),
        }),
        !r.allow ==> rule_action(r) == (ActionV::Write {
            target: WriteTarget::Deny,
            data: spec_line(r),
        }),
{
}

/// Law: every plan contains the six built-in safe-allow rules, as one block
/// in their fixed order, after all caller rules and all platform-default
/// rules; only the process attach follows them.
pub proof fn lemma_builtin_rules_after_all(
    rules: Seq<DeviceRuleV>,
    defaults: Seq<PlatformDeviceV>,
    pid: u32,
)
    ensures
        builtin_rules().len() == 6,
        spec_plan(rules, defaults, pid).len() == rules.len() + defaults.len() + 8,
        forall|j: int|
            0 <= j < 6 ==> spec_plan(rules, defaults, pid)[1 + rules.len() + defaults.len() + j]
                == rule_action(#[trigger] builtin_rules()[j]),
{
    let p = spec_plan(rules, defaults, pid);
    assert(builtin_rules().len() == 6);
    assert(p.len() == rules.len() + defaults.len() + 8);
    assert forall|j: int| 0 <= j < 6 implies p[1 + rules.len() + defaults.len() + j]
        == rule_action(#[trigger] builtin_rules()[j]) by {
        assert(p[1 + rules.len() + defaults.len() + j] == builtin_rules().map_values(
            |r: DeviceRuleV| rule_action(r),
        )[j]);
    }
}

/// Law: the directory creation is the first action of every plan, and every
/// file write stands strictly after it.
pub proof fn lemma_create_dir_first(
    rules: Seq<DeviceRuleV>,
    defaults: Seq<PlatformDeviceV>,
    pid: u32,
)
    ensures
        spec_plan(rules, defaults, pid)[0] == ActionV::CreateDir,
        forall|i: int|
            0 < i < spec_plan(rules, defaults, pid).len() ==> (#[trigger] spec_plan(
                rules,
                defaults,
                pid,
            )[i]) is Write,
{
    let p = spec_plan(rules, defaults, pid);
    let nr = rules.len() as int;
    let nd = defaults.len() as int;
    assert forall|i: int| 0 < i < p.len() implies (#[trigger] p[i]) is Write by {
        if i <= nr {
            assert(p[i] == rule_action(rules[i - 1]));
        } else if i <= nr + nd {
            assert(p[i] == rule_action(crate::rule::allow_rule(defaults[i - 1 - nr])));
        } else if i <= nr + nd + 6 {
            assert(p[i] == rule_action(builtin_rules()[i - 1 - nr - nd]));
        } else {
            assert(p[i] == procs_action(pid));
        }
    }
}

/// Law: the process attach is the last action of every plan and the only
/// write aimed at `cgroup.procs`; every allow/deny rule write precedes it.
/// An executor that performs the plan in order and stops at the first
/// refused action therefore never touches `cgroup.procs` once a rule write
/// was refused.
pub proof fn lemma_attach_last(rules: Seq<DeviceRuleV>, defaults: Seq<PlatformDeviceV>, pid: u32)
    ensures
        spec_plan(rules, defaults, pid).last() == procs_action(pid),
        forall|i: int|
            0 <= i < spec_plan(rules, defaults, pid).len() - 1 ==> ((#[trigger] spec_plan(
                rules,
                defaults,
                pid,
            )[i]) matches ActionV::Write { target, .. } ==> target != WriteTarget::Procs),
{
    let p = spec_plan(rules, defaults, pid);
    let nr = rules.len() as int;
    let nd = defaults.len() as int;
    assert(p.last() == procs_action(pid));
    assert forall|i: int| 0 <= i < p.len() - 1 implies ((#[trigger] p[i]) matches ActionV::Write {
        target,
        ..
    } ==> target != WriteTarget::Procs) by {
        if i == 0 {
            assert(p[i] == ActionV::CreateDir);
        } else if i <= nr {
            assert(p[i] == rule_action(rules[i - 1]));
        } else if i <= nr + nd {
            assert(p[i] == rule_action(crate::rule::allow_rule(defaults[i - 1 - nr])));
        } else {
            assert(p[i] == rule_action(builtin_rules()[i - 1 - nr - nd]));
        }
    }
}

} // verus!
