//! Device rules and their kernel text format.
//!
//! A rule is written to the kernel as a single line
//! `"<kind> <major-or-*>:<minor-or-*> <access>"`, for example `"c 5:1 rwm"`.
//! `spec_line` is the mathematical statement of that format; `format_line`
//! produces it, and the decimal rendering of device numbers is verified
//! against `dec_seq`.

use vstd::prelude::*;

verus! {

/// The device-node kind of a rule: character device (`c`), block device
/// (`b`), or any kind (`a`).
#[derive(Clone, Copy, PartialEq, Eq, Structural, Debug)]
pub enum DeviceKind {
    CharDevice,
    BlockDevice,
    AnyDevice,
}

/// The one-character kernel spelling of a device kind.
pub open spec fn kind_seq(k: DeviceKind) -> Seq<char> {
    match k {
        DeviceKind::CharDevice => seq!['c'],
        DeviceKind::BlockDevice => seq!['b'],
        DeviceKind::AnyDevice => seq!['a'],
    }
}

impl DeviceKind {
    /// The kernel spelling of this kind.
    pub fn as_str(&self) -> (s: &'static str)
        ensures
            s@ == kind_seq(*self),
    {
        proof {
            reveal_strlit("c");
            reveal_strlit("b");
            reveal_strlit("a");
        }
        match self {
            DeviceKind::CharDevice => {
                let s = "c";
                proof {
                    assert(s@ =~= kind_seq(*self));
                }
                s
            },
            DeviceKind::BlockDevice => {
                let s = "b";
                proof {
                    assert(s@ =~= kind_seq(*self));
                }
                s
            },
            DeviceKind::AnyDevice => {
                let s = "a";
                proof {
                    assert(s@ =~= kind_seq(*self));
                }
                s
            },
        }
    }
}

/// One device-access rule: whether it adds to the allow-list or the
/// deny-list, the device kind, the major/minor numbers (`None` meaning the
/// wildcard `*`), and the access characters (a combination of `r`, `w`, `m`).
pub struct DeviceRule {
    pub allow: bool,
    pub kind: DeviceKind,
    pub major: Option<u32>,
    pub minor: Option<u32>,
    pub access: String,
}

/// The mathematical value of a `DeviceRule`: the same fields with the access
/// string abstracted to its character sequence.
pub struct DeviceRuleV {
    pub allow: bool,
    pub kind: DeviceKind,
    pub major: Option<u32>,
    pub minor: Option<u32>,
    pub access: Seq<char>,
}

impl View for DeviceRule {
    type V = DeviceRuleV;

    open spec fn view(&self) -> DeviceRuleV {
        DeviceRuleV {
            allow: self.allow,
            kind: self.kind,
            major: self.major,
            minor: self.minor,
            access: self.access@,
        }
    }
}

/// A baseline device reported by the platform's default-device provider.
/// Unlike a caller rule it always names a concrete device, and it is always
/// translated into an allow rule.
pub struct PlatformDevice {
    pub kind: DeviceKind,
    pub major: u32,
    pub minor: u32,
    pub access: String,
}

/// The mathematical value of a `PlatformDevice`.
pub struct PlatformDeviceV {
    pub kind: DeviceKind,
    pub major: u32,
    pub minor: u32,
    pub access: Seq<char>,
}

impl View for PlatformDevice {
    type V = PlatformDeviceV;

    open spec fn view(&self) -> PlatformDeviceV {
        PlatformDeviceV {
            kind: self.kind,
            major: self.major,
            minor: self.minor,
            access: self.access@,
        }
    }
}

/// The allow rule a platform default device is translated into.
pub open spec fn allow_rule(d: PlatformDeviceV) -> DeviceRuleV {
    DeviceRuleV {
        allow: true,
        kind: d.kind,
        major: Some(d.major),
        minor: Some(d.minor),
        access: d.access,
    }
}

impl PlatformDevice {
    /// Translates a platform default device into its allow rule.
    pub fn to_allow_rule(&self) -> (r: DeviceRule)
        ensures
            r@ == allow_rule(self@),
    {
        DeviceRule {
            allow: true,
            kind: self.kind,
            major: Some(self.major),
            minor: Some(self.minor),
            access: self.access.clone(),
        }
    }
}

/// The decimal digit character for a value below ten.
pub open spec fn dec_digit(d: nat) -> char
    recommends
        d < 10,
{
    if d == 0 {
        '0'
    } else if d == 1 {
        '1'
    } else if d == 2 {
        '2'
    } else if d == 3 {
        '3'
    } else if d == 4 {
        '4'
    } else if d == 5 {
        '5'
    } else if d == 6 {
        '6'
    } else if d == 7 {
        '7'
    } else if d == 8 {
        '8'
    } else {
        '9'
    }
}

/// The decimal rendering of a natural number, without leading zeros
/// (except that zero itself renders as `"0"`).
pub open spec fn dec_seq(n: nat) -> Seq<char>
    decreases n,
{
    if n < 10 {
        seq![dec_digit(n)]
    } else {
        dec_seq(n / 10) + seq![dec_digit(n % 10)]
    }
}

/// The one-character string for a decimal digit.
fn dec_digit_str(d: u64) -> (s: &'static str)
    requires
        d < 10,
    ensures
        s@ == seq![dec_digit(d as nat)],
{
    proof {
        reveal_strlit("0");
        reveal_strlit("1");
        reveal_strlit("2");
        reveal_strlit("3");
        reveal_strlit("4");
        reveal_strlit("5");
        reveal_strlit("6");
        reveal_strlit("7");
        reveal_strlit("8");
        reveal_strlit("9");
    }
    let s: &'static str = if d == 0 {
        "0"
    } else if d == 1 {
        "1"
    } else if d == 2 {
        "2"
    } else if d == 3 {
        "3"
    } else if d == 4 {
        "4"
    } else if d == 5 {
        "5"
    } else if d == 6 {
        "6"
    } else if d == 7 {
        "7"
    } else if d == 8 {
        "8"
    } else {
        "9"
    };
    proof {
        assert(s@ =~= seq![dec_digit(d as nat)]);
    }
    s
}

/// Appends the decimal rendering of `n` to `s`.
pub fn push_dec(s: &mut String, n: u64)
    ensures
        final(s)@ == old(s)@ + dec_seq(n as nat),
    decreases n,
{
    if n < 10 {
        s.append(dec_digit_str(n));
        proof {
            assert(s@ =~= old(s)@ + dec_seq(n as nat));
        }
    } else {
        push_dec(s, n / 10);
        s.append(dec_digit_str(n % 10));
        proof {
            assert(s@ =~= old(s)@ + dec_seq(n as nat));
        }
    }
}

/// The decimal rendering of `n` as a fresh string.
pub fn u64_to_string(n: u64) -> (s: String)
    ensures
        s@ == dec_seq(n as nat),
{
    let mut s = String::new();
    push_dec(&mut s, n);
    proof {
        assert(s@ =~= dec_seq(n as nat));
    }
    s
}

/// The text standing for an optional device number: its decimal rendering,
/// or the wildcard `*` when absent.
pub open spec fn opt_dec_seq(m: Option<u32>) -> Seq<char> {
    match m {
        Option::None => seq!['*'],
        Option::Some(v) => dec_seq(v as nat),
    }
}

/// Appends the text for an optional device number to `s`.
fn push_opt_dec(s: &mut String, m: &Option<u32>)
    ensures
        final(s)@ == old(s)@ + opt_dec_seq(*m),
{
    proof {
        reveal_strlit("*");
    }
    match m {
        Option::None => {
            s.append("*");
            proof {
                assert(s@ =~= old(s)@ + opt_dec_seq(*m));
            }
        },
        Option::Some(v) => {
            push_dec(s, *v as u64);
        },
    }
}

/// The kernel line for a rule: kind, space, major or `*`, colon, minor or
/// `*`, space, access characters.
pub open spec fn spec_line(r: DeviceRuleV) -> Seq<char> {
    kind_seq(r.kind) + seq![' '] + opt_dec_seq(r.major) + seq![':'] + opt_dec_seq(r.minor)
        + seq![' '] + r.access
}

/// Formats the kernel line for a rule, e.g. `"c 5:1 rwm"`.
pub fn format_line(rule: &DeviceRule) -> (line: String)
    ensures
        line@ == spec_line(rule@),
{
    proof {
        reveal_strlit(" ");
        reveal_strlit(":");
    }
    let mut line = String::from_str(rule.kind.as_str());
    line.append(" ");
    push_opt_dec(&mut line, &rule.major);
    line.append(":");
    push_opt_dec(&mut line, &rule.minor);
    line.append(" ");
    line.append(rule.access.as_str());
    proof {
        assert(" "@ =~= seq![' ']);
        assert(":"@ =~= seq![':']);
        assert(line@ =~= spec_line(rule@));
    }
    line
}

} // verus!
