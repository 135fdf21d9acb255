//! The `dellctl` command line: its commands, the choice of a monitor, and
//! how a control name or VCP code becomes a read or a write.
use vstd::prelude::*;

use crate::capabilities::Capabilities;
use crate::ddc::{code_text, error_text, spec_parse_u32, VcpCode, VcpFeature, DdcError};
use crate::snapshot::{ChangedValue, SnapshotDiff, SnapshotValue};
use crate::profile::{control_named, control_with_code, ControlDefinition, MonitorProfile};
use crate::text::{concat2, concat3, contains_ignore_ascii_case, decimal_seq, decimal_string,
    lower_seq, parse_usize_dec, seq_contains, usize_from_str};
use crate::worker::MonitorRecord;

verus! {

/// The commands of `dellctl`.
#[derive(Debug, Clone, PartialEq, Eq)]
pub enum Command {
    Monitors,
    Caps { monitor: String },
    Get { monitor: String, control: String },
    SetValue { monitor: String, control: String, value: String, advanced: bool },
    Probe { monitor: String, read_only: bool },
    Snapshot { monitor: String },
    Diff { before: String, after: String },
}

/// A parsed command line.
#[derive(Debug, Clone, PartialEq, Eq)]
pub struct Cli {
    pub command: Command,
}

/// A write that may go to the monitor.
#[derive(Debug, Clone, Copy, PartialEq, Eq, Structural)]
pub struct ResolvedWrite {
    pub code: VcpCode,
    pub value: u32,
}

/// Why a command was refused.
#[derive(Debug, Clone, PartialEq, Eq)]
pub enum CliError {
    InvalidValue(String),
    UnsafeControl(String),
    UnknownControl(String),
    RawWriteNeedsAdvanced,
    MonitorIndexNotFound(usize),
    MonitorNotFound(String),
}

impl CliError {
    /// The message shown for the error.
    pub fn message(&self) -> (r: String)
        ensures
            r@ == cli_error_text(*self),
    {
        match self {
            CliError::InvalidValue(v) => concat3("invalid value `", v.as_str(), "`"),
            CliError::UnsafeControl(c) => concat3(
                "control `",
                c.as_str(),
                "` is not marked safe for writes",
            ),
            CliError::UnknownControl(c) => concat3("unknown control or VCP code `", c.as_str(), "`"),
            CliError::RawWriteNeedsAdvanced => String::from_str(
                "raw or unknown VCP writes require --advanced",
            ),
            CliError::MonitorIndexNotFound(i) => {
                let n = crate::text::decimal_string(*i as u64);
                concat3("monitor index ", n.as_str(), " not found")
            },
            CliError::MonitorNotFound(s) => concat3("monitor `", s.as_str(), "` not found"),
        }
    }
}

pub open spec fn cli_error_text(e: CliError) -> Seq<char> {
    match e {
        CliError::InvalidValue(v) => "invalid value `"@ + v@ + "`"@,
        CliError::UnsafeControl(c) => "control `"@ + c@ + "` is not marked safe for writes"@,
        CliError::UnknownControl(c) => "unknown control or VCP code `"@ + c@ + "`"@,
        CliError::RawWriteNeedsAdvanced => "raw or unknown VCP writes require --advanced"@,
        CliError::MonitorIndexNotFound(i) => "monitor index "@ + crate::text::decimal_seq(
            i as nat,
        ) + " not found"@,
        CliError::MonitorNotFound(s) => "monitor `"@ + s@ + "` not found"@,
    }
}

/// Whether the profile lets a raw write of this code through without
/// `--advanced`: only when its control for the code is safe.
pub open spec fn raw_write_safe(profile: Option<MonitorProfile>, code: u8) -> bool {
    match profile {
        Some(p) => match control_with_code(p.controls@, code) {
            Some(i) => p.controls@[i].safe_write,
            None => false,
        },
        None => false,
    }
}

pub open spec fn opt_profile(profile: Option<&MonitorProfile>) -> Option<MonitorProfile> {
    match profile {
        Some(p) => Some(*p),
        None => None,
    }
}

/// The outcome of resolving a write: the code and value, or the error.
pub open spec fn resolve_write_spec(
    profile: Option<MonitorProfile>,
    control: Seq<char>,
    value: Seq<char>,
    advanced: bool,
) -> Result<(u8, u32), CliErrorKind> {
    match spec_parse_u32(value) {
        None => Err(CliErrorKind::InvalidValue),
        Some(v) => {
            let named = match profile {
                Some(p) => control_named(p.controls@, control),
                None => None,
            };
            match named {
                Some(i) => if !advanced && !profile->Some_0.controls@[i].safe_write {
                    Err(CliErrorKind::UnsafeControl)
                } else {
                    Ok((profile->Some_0.controls@[i].vcp.0, v))
                },
                None => match spec_parse_u32(control) {
                    Some(c) if c <= 255 => if !advanced && !raw_write_safe(profile, c as u8) {
                        Err(CliErrorKind::RawWriteNeedsAdvanced)
                    } else {
                        Ok((c as u8, v))
                    },
                    _ => Err(CliErrorKind::UnknownControl),
                },
            }
        },
    }
}

/// The kinds of refusal, without their texts.
pub enum CliErrorKind {
    InvalidValue,
    UnsafeControl,
    UnknownControl,
    RawWriteNeedsAdvanced,
}

pub open spec fn kind_of(e: CliError) -> Option<CliErrorKind> {
    match e {
        CliError::InvalidValue(_) => Some(CliErrorKind::InvalidValue),
        CliError::UnsafeControl(_) => Some(CliErrorKind::UnsafeControl),
        CliError::UnknownControl(_) => Some(CliErrorKind::UnknownControl),
        CliError::RawWriteNeedsAdvanced => Some(CliErrorKind::RawWriteNeedsAdvanced),
        _ => None,
    }
}

/// Resolves a write: a named control of the profile must be safe unless
/// `--advanced` is given; otherwise the control must be a VCP code, and a
/// raw write needs `--advanced` unless the profile marks that code safe.
pub fn resolve_write(profile: Option<&MonitorProfile>, control: &str, value: &str, advanced: bool) -> (r:
    Result<ResolvedWrite, CliError>)
    ensures
        match resolve_write_spec(opt_profile(profile), control@, value@, advanced) {
            Ok((c, v)) => r == Ok::<ResolvedWrite, CliError>(
                ResolvedWrite { code: VcpCode(c), value: v },
            ),
            Err(k) => r matches Err(e) && kind_of(e) == Some(k) && match e {
                CliError::InvalidValue(s) => s@ == value@,
                CliError::UnsafeControl(s) => s@ == control@,
                CliError::UnknownControl(s) => s@ == control@,
                _ => true,
            },
        },
{
    let v = match crate::ddc::parse_u32(value) {
        Ok(v) => v,
        Err(_) => {
            return Err(CliError::InvalidValue(String::from_str(value)));
        },
    };
    if let Some(p) = profile {
        if let Some(control_def) = p.control(control) {
            if !advanced && !control_def.safe_write {
                return Err(CliError::UnsafeControl(String::from_str(control)));
            }
            return Ok(ResolvedWrite { code: control_def.vcp, value: v });
        }
    }
    let code = match VcpCode::parse_str(control) {
        Ok(c) => c,
        Err(_) => {
            return Err(CliError::UnknownControl(String::from_str(control)));
        },
    };
    let safe_raw_write = match profile {
        Some(p) => p.can_write_vcp(code.get()),
        None => false,
    };
    if !advanced && !safe_raw_write {
        return Err(CliError::RawWriteNeedsAdvanced);
    }
    Ok(ResolvedWrite { code, value: v })
}

/// Resolves a read: a named control of the profile, or else a VCP code.
pub fn resolve_read(profile: Option<&MonitorProfile>, control: &str) -> (r: Result<VcpCode, CliError>)
    ensures
        ({
            let named = match opt_profile(profile) {
                Some(p) => control_named(p.controls@, control@),
                None => None,
            };
            match named {
                Some(i) => r == Ok::<VcpCode, CliError>(opt_profile(profile)->Some_0.controls@[i].vcp),
                None => match spec_parse_u32(control@) {
                    Some(c) => if c <= 255 {
                        r == Ok::<VcpCode, CliError>(VcpCode(c as u8))
                    } else {
                        r matches Err(CliError::UnknownControl(s)) && s@ == control@
                    },
                    None => r matches Err(CliError::UnknownControl(s)) && s@ == control@,
                },
            }
        }),
{
    if let Some(p) = profile {
        if let Some(control_def) = p.control(control) {
            return Ok(control_def.vcp);
        }
    }
    match VcpCode::parse_str(control) {
        Ok(c) => Ok(c),
        Err(_) => Err(CliError::UnknownControl(String::from_str(control))),
    }
}

/// A monitor matches a selector when its description or model contains it,
/// without regard to ASCII case.
pub open spec fn monitor_matches(m: MonitorRecord, selector: Seq<char>) -> bool {
    seq_contains(lower_seq(m.info.description@), lower_seq(selector)) || seq_contains(
        lower_seq(
            match m.info.model {
                Some(s) => s@,
                None => Seq::empty(),
            },
        ),
        lower_seq(selector),
    )
}

/// The monitor a selector names: a number is an index; anything else is
/// looked up in the descriptions and models, first match first.
pub fn select_monitor(monitors: &[MonitorRecord], selector: &str) -> (r: Result<usize, CliError>)
    ensures
        match parse_usize_dec(selector@) {
            Some(i) => if i < monitors@.len() {
                r == Ok::<usize, CliError>(i)
            } else {
                r == Err::<usize, CliError>(CliError::MonitorIndexNotFound(i))
            },
            None => match r {
                Ok(i) => i < monitors@.len() && monitor_matches(monitors@[i as int], selector@)
                    && forall|j: int| 0 <= j < i ==> !monitor_matches(monitors@[j], selector@),
                Err(e) => e matches CliError::MonitorNotFound(s) && s@ == selector@ && forall|j: int|
                    0 <= j < monitors@.len() ==> !monitor_matches(monitors@[j], selector@),
            },
        },
{
    if let Some(index) = usize_from_str(selector) {
        if index < monitors.len() {
            return Ok(index);
        }
        return Err(CliError::MonitorIndexNotFound(index));
    }
    let mut i: usize = 0;
    while i < monitors.len()
        invariant
            i <= monitors.len(),
            parse_usize_dec(selector@) is None,
            forall|j: int| 0 <= j < i ==> !monitor_matches(monitors@[j], selector@),
        decreases monitors.len() - i,
    {
        let m = &monitors[i];
        let in_description = contains_ignore_ascii_case(m.info.description.as_str(), selector);
        let in_model = match &m.info.model {
            Some(model) => contains_ignore_ascii_case(model.as_str(), selector),
            None => {
                proof {
                    let e = lower_seq(Seq::<char>::empty());
                    let n = lower_seq(selector@);
                    assert(e =~= Seq::<char>::empty());
                    if n.len() == 0 {
                        assert(e.subrange(0, 0) =~= n);
                        assert(crate::text::occurs_at(e, n, 0));
                    }
                }
                selector.is_empty()
            },
        };
        if in_description || in_model {
            return Ok(i);
        }
        assert(!monitor_matches(monitors@[i as int], selector@));
        i = i + 1;
    }
    Err(CliError::MonitorNotFound(String::from_str(selector)))
}

/// Why `probe --write` is refused.
pub open spec fn probe_write_refusal_text() -> Seq<char> {
    "probe write mode is intentionally not implemented in v1; use set --advanced for explicit writes"@
}

/// `probe` only reads; asking it to write is refused with the reason.
pub fn check_probe_mode(read_only: bool) -> (r: Result<(), String>)
    ensures
        read_only ==> r is Ok,
        !read_only ==> (r matches Err(e) && e@ == probe_write_refusal_text()),
{
    if read_only {
        Ok(())
    } else {
        Err(
            String::from_str(
                "probe write mode is intentionally not implemented in v1; use set --advanced for explicit writes",
            ),
        )
    }
}

pub open spec fn dec(n: u32) -> Seq<char> {
    decimal_seq(n as nat)
}

/// `0x10 current=50 max=100`: a read feature as `get` and `probe` print it.
pub open spec fn feature_line_text(code: u8, current: u32, maximum: u32) -> Seq<char> {
    code_text(code) + " current="@ + dec(current) + " max="@ + dec(maximum)
}

pub fn feature_line(feature: &VcpFeature) -> (r: String)
    ensures
        r@ == feature_line_text(feature.code.0, feature.current, feature.maximum),
{
    let code = feature.code.display();
    let current = decimal_string(feature.current as u64);
    let maximum = decimal_string(feature.maximum as u64);
    let head = concat3(code.as_str(), " current=", current.as_str());
    concat3(head.as_str(), " max=", maximum.as_str())
}

/// `0x14 error=...`: a code that `probe` could not read.
pub open spec fn probe_error_line_text(code: u8, error: DdcError) -> Seq<char> {
    code_text(code) + " error="@ + error_text(error)
}

pub fn probe_error_line(code: u8, error: &DdcError) -> (r: String)
    ensures
        r@ == probe_error_line_text(code, *error),
{
    let c = VcpCode::new(code).display();
    let m = error.message();
    concat3(c.as_str(), " error=", m.as_str())
}

/// `set 0x10 to 70`: the confirmation of a write.
pub open spec fn write_confirmation_text(code: u8, value: u32) -> Seq<char> {
    "set "@ + code_text(code) + " to "@ + dec(value)
}

pub fn write_confirmation(write: &ResolvedWrite) -> (r: String)
    ensures
        r@ == write_confirmation_text(write.code.0, write.value),
{
    let c = write.code.display();
    let v = decimal_string(write.value as u64);
    concat3(concat2("set ", c.as_str()).as_str(), " to ", v.as_str())
}

pub open spec fn changed_line(c: ChangedValue) -> Seq<char> {
    "changed "@ + code_text(c.code.0) + ": "@ + dec(c.before) + " -> "@ + dec(c.after)
}

pub open spec fn added_line(v: SnapshotValue) -> Seq<char> {
    "added "@ + code_text(v.code.0) + ": "@ + dec(v.value)
}

pub open spec fn removed_line(v: SnapshotValue) -> Seq<char> {
    "removed "@ + code_text(v.code.0) + ": "@ + dec(v.value)
}

/// The lines `diff` prints: the changed codes, the added ones, the removed
/// ones, or "no changes".
pub open spec fn diff_lines_spec(
    changed: Seq<ChangedValue>,
    added: Seq<SnapshotValue>,
    removed: Seq<SnapshotValue>,
) -> Seq<Seq<char>> {
    if changed.len() == 0 && added.len() == 0 && removed.len() == 0 {
        seq!["no changes"@]
    } else {
        changed.map_values(|c: ChangedValue| changed_line(c)) + added.map_values(
            |v: SnapshotValue| added_line(v),
        ) + removed.map_values(|v: SnapshotValue| removed_line(v))
    }
}

pub open spec fn strings_view(s: Seq<String>) -> Seq<Seq<char>> {
    s.map_values(|x: String| x@)
}

fn value_line(prefix: &str, v: &SnapshotValue) -> (r: String)
    ensures
        r@ == prefix@ + code_text(v.code.0) + ": "@ + dec(v.value),
{
    let c = v.code.display();
    let n = decimal_string(v.value as u64);
    concat3(concat2(prefix, c.as_str()).as_str(), ": ", n.as_str())
}

pub fn diff_lines(diff: &SnapshotDiff) -> (r: Vec<String>)
    ensures
        strings_view(r@) == diff_lines_spec(diff.changed@, diff.added@, diff.removed@),
{
    let mut lines: Vec<String> = Vec::new();
    if diff.changed.len() == 0 && diff.added.len() == 0 && diff.removed.len() == 0 {
        lines.push(String::from_str("no changes"));
        assert(strings_view(lines@) =~= seq!["no changes"@]);
        return lines;
    }
    let mut i: usize = 0;
    while i < diff.changed.len()
        invariant
            i <= diff.changed.len(),
            strings_view(lines@) =~= diff.changed@.subrange(0, i as int).map_values(
                |c: ChangedValue| changed_line(c),
            ),
        decreases diff.changed.len() - i,
    {
        let c = &diff.changed[i];
        let code = c.code.display();
        let b = decimal_string(c.before as u64);
        let a = decimal_string(c.after as u64);
        let head = concat3(concat2("changed ", code.as_str()).as_str(), ": ", b.as_str());
        let line = concat3(head.as_str(), " -> ", a.as_str());
        let ghost before = lines@;
        lines.push(line);
        proof {
            assert(strings_view(lines@) =~= strings_view(before).push(lines@.last()@));
        }
        i = i + 1;
    }
    let ghost after_changed = strings_view(lines@);
    let mut j: usize = 0;
    while j < diff.added.len()
        invariant
            j <= diff.added.len(),
            strings_view(lines@) =~= after_changed + diff.added@.subrange(0, j as int).map_values(
                |v: SnapshotValue| added_line(v),
            ),
        decreases diff.added.len() - j,
    {
        let line = value_line("added ", &diff.added[j]);
        let ghost before = lines@;
        lines.push(line);
        proof {
            assert(strings_view(lines@) =~= strings_view(before).push(lines@.last()@));
        }
        j = j + 1;
    }
    let ghost after_added = strings_view(lines@);
    let mut k: usize = 0;
    while k < diff.removed.len()
        invariant
            k <= diff.removed.len(),
            strings_view(lines@) =~= after_added + diff.removed@.subrange(0, k as int).map_values(
                |v: SnapshotValue| removed_line(v),
            ),
        decreases diff.removed.len() - k,
    {
        let line = value_line("removed ", &diff.removed[k]);
        let ghost before = lines@;
        lines.push(line);
        proof {
            assert(strings_view(lines@) =~= strings_view(before).push(lines@.last()@));
        }
        k = k + 1;
    }
    proof {
        assert(diff.changed@.subrange(0, diff.changed@.len() as int) =~= diff.changed@);
        assert(diff.added@.subrange(0, diff.added@.len() as int) =~= diff.added@);
        assert(diff.removed@.subrange(0, diff.removed@.len() as int) =~= diff.removed@);
    }
    lines
}

/// The model a monitor is listed with: the one Windows reports, else the one
/// in its capabilities, else "unknown".
pub open spec fn listed_model(m: MonitorRecord) -> Seq<char> {
    match m.info.model {
        Some(x) => x@,
        None => match m.capabilities {
            Some(c) => match c.model_view() {
                Some(x) => x,
                None => "unknown"@,
            },
            None => "unknown"@,
        },
    }
}

pub open spec fn bool_text(b: bool) -> Seq<char> {
    if b {
        "true"@
    } else {
        "false"@
    }
}

/// `0: Dell U4025QW model=U4025QW ddc=true`: a monitor as `monitors` lists it.
pub open spec fn monitor_line_text(index: usize, m: MonitorRecord) -> Seq<char> {
    decimal_seq(index as nat) + ": "@ + m.info.description@ + " model="@ + listed_model(m)
        + " ddc="@ + bool_text(m.capabilities is Some)
}

pub fn monitor_list_line(index: usize, monitor: &MonitorRecord) -> (r: String)
    ensures
        r@ == monitor_line_text(index, *monitor),
{
    let model: &str = match &monitor.info.model {
        Some(m) => m.as_str(),
        None => match &monitor.capabilities {
            Some(c) => match c.model_text() {
                Some(m) => m,
                None => "unknown",
            },
            None => "unknown",
        },
    };
    let ddc: &str = if monitor.capabilities.is_some() {
        "true"
    } else {
        "false"
    };
    let n = decimal_string(index as u64);
    let head = concat3(n.as_str(), ": ", monitor.info.description.as_str());
    let mid = concat3(head.as_str(), " model=", model);
    concat3(mid.as_str(), " ddc=", ddc)
}

/// Codes as `0xNN` texts separated by spaces.
pub open spec fn codes_text(cs: Seq<u8>) -> Seq<char>
    decreases cs.len(),
{
    if cs.len() == 0 {
        Seq::empty()
    } else if cs.len() == 1 {
        code_text(cs[0])
    } else {
        codes_text(cs.drop_last()) + " "@ + code_text(cs.last())
    }
}

pub open spec fn text_or_unknown(t: Option<Seq<char>>) -> Seq<char> {
    match t {
        Some(x) => x,
        None => "unknown"@,
    }
}

/// The lines `caps` prints after the raw string: the model, the MCCS
/// version, and the reported codes in ascending order.
pub fn caps_lines(caps: &Capabilities) -> (r: Vec<String>)
    ensures
        r@.len() == 3,
        r@[0]@ == "model="@ + text_or_unknown(caps.model_view()),
        r@[1]@ == "mccs="@ + text_or_unknown(caps.mccs_view()),
        exists|cs: Seq<u8>|
            (forall|i: int, j: int| 0 <= i < j < cs.len() ==> cs[i] < cs[j]) && (forall|k: u8|
                cs.contains(k) <==> caps.vcp_map().contains_key(k)) && r@[2]@ == "vcp="@
                + codes_text(cs),
{
    let model: &str = match caps.model_text() {
        Some(m) => m,
        None => "unknown",
    };
    let mccs: &str = match caps.mccs_text() {
        Some(m) => m,
        None => "unknown",
    };
    let codes = caps.vcp_codes();
    let mut text = String::new();
    let mut i: usize = 0;
    while i < codes.len()
        invariant
            i <= codes.len(),
            text@ == codes_text(codes@.subrange(0, i as int)),
        decreases codes.len() - i,
    {
        let c = VcpCode::new(codes[i]).display();
        proof {
            assert(codes@.subrange(0, i + 1).drop_last() =~= codes@.subrange(0, i as int));
        }
        if i == 0 {
            text = c;
        } else {
            text = concat3(text.as_str(), " ", c.as_str());
        }
        i = i + 1;
    }
    proof {
        assert(codes@.subrange(0, codes@.len() as int) =~= codes@);
    }
    let mut lines: Vec<String> = Vec::new();
    lines.push(concat2("model=", model));
    lines.push(concat2("mccs=", mccs));
    lines.push(concat2("vcp=", text.as_str()));
    lines
}

/// The first control of a profile with a code is at `i`.
proof fn lemma_first_code_index(controls: Seq<ControlDefinition>, code: u8, i: int)
    requires
        0 <= i < controls.len(),
        controls[i].vcp.0 == code,
        forall|j: int| 0 <= j < i ==> controls[j].vcp.0 != code,
    ensures
        control_with_code(controls, code) == Some(i),
{
    let k = control_with_code(controls, code)->Some_0;
    if k < i {
        assert(controls[k].vcp.0 != code);
    }
    if i < k {
        assert(controls[i].vcp.0 != code);
    }
}

/// The first control of a profile with a code may be written.
pub open spec fn first_control_with_code_is_safe(controls: Seq<ControlDefinition>, code: u8) -> bool {
    exists|i: int|
        0 <= i < controls.len() && #[trigger] controls[i].vcp.0 == code && controls[i].safe_write
            && forall|j: int| 0 <= j < i ==> controls[j].vcp.0 != code
}

proof fn lemma_earliest_code(controls: Seq<ControlDefinition>, code: u8, i: int)
    requires
        0 <= i < controls.len(),
        controls[i].vcp.0 == code,
    ensures
        exists|k: int|
            0 <= k <= i && controls[k].vcp.0 == code && forall|j: int|
                0 <= j < k ==> controls[j].vcp.0 != code,
    decreases i,
{
    if exists|j: int| 0 <= j < i && controls[j].vcp.0 == code {
        let j = choose|j: int| 0 <= j < i && controls[j].vcp.0 == code;
        lemma_earliest_code(controls, code, j);
    } else {
        assert(forall|j: int| 0 <= j < i ==> controls[j].vcp.0 != code);
    }
}

/// The index `control_with_code` gives is that of the first control with
/// the code.
proof fn lemma_code_index_is_first(controls: Seq<ControlDefinition>, code: u8)
    ensures
        control_with_code(controls, code) matches Some(k) ==> 0 <= k < controls.len()
            && controls[k].vcp.0 == code && forall|j: int| 0 <= j < k ==> controls[j].vcp.0 != code,
{
    if exists|i: int| 0 <= i < controls.len() && controls[i].vcp.0 == code {
        let i = choose|i: int| 0 <= i < controls.len() && controls[i].vcp.0 == code;
        lemma_earliest_code(controls, code, i);
    }
}

proof fn lemma_raw_write_safe_is_first_safe(p: MonitorProfile, code: u8)
    ensures
        raw_write_safe(Some(p), code) == first_control_with_code_is_safe(p.controls@, code),
{
    let cs = p.controls@;
    lemma_code_index_is_first(cs, code);
    if first_control_with_code_is_safe(cs, code) {
        let i = choose|i: int|
            0 <= i < cs.len() && #[trigger] cs[i].vcp.0 == code && cs[i].safe_write && forall|j: int|
                0 <= j < i ==> cs[j].vcp.0 != code;
        lemma_first_code_index(cs, code, i);
    } else if raw_write_safe(Some(p), code) {
        let k = control_with_code(cs, code)->Some_0;
        assert(0 <= k < cs.len() && cs[k].vcp.0 == code && cs[k].safe_write);
        assert(first_control_with_code_is_safe(cs, code));
    }
}

/// A raw VCP write (a control text that names no control but reads as a
/// code) goes through without `--advanced` exactly when the first control
/// of the profile with that code may be written: then it resolves to that
/// code and the value; otherwise it is refused as needing `--advanced`.
/// With `--advanced` it always resolves.
pub proof fn law_raw_write_follows_the_profile_safety(
    p: MonitorProfile,
    control: Seq<char>,
    value: Seq<char>,
    code: u8,
)
    requires
        spec_parse_u32(control) == Some(code as u32),
        control_named(p.controls@, control) is None,
        spec_parse_u32(value) is Some,
    ensures
        first_control_with_code_is_safe(p.controls@, code) ==> resolve_write_spec(
            Some(p),
            control,
            value,
            false,
        ) == Ok::<(u8, u32), CliErrorKind>((code, spec_parse_u32(value)->Some_0)),
        !first_control_with_code_is_safe(p.controls@, code) ==> resolve_write_spec(
            Some(p),
            control,
            value,
            false,
        ) == Err::<(u8, u32), CliErrorKind>(CliErrorKind::RawWriteNeedsAdvanced),
        resolve_write_spec(Some(p), control, value, true) == Ok::<(u8, u32), CliErrorKind>(
            (code, spec_parse_u32(value)->Some_0),
        ),
{
    lemma_raw_write_safe_is_first_safe(p, code);
    assert(((code as u32) as u8) == code);
}

/// Selecting a monitor by text ignores ASCII case: a monitor whose
/// description or model contains the selector, both in lower case, is a
/// match; and two selectors that differ only in the case of ASCII letters
/// match the same monitors, so the selection is the same.
pub proof fn law_monitor_selection_ignores_case(m: MonitorRecord, a: Seq<char>, b: Seq<char>)
    ensures
        seq_contains(lower_seq(m.info.description@), lower_seq(a)) ==> monitor_matches(m, a),
        (m.info.model matches Some(model) && seq_contains(lower_seq(model@), lower_seq(a)))
            ==> monitor_matches(m, a),
        !seq_contains(lower_seq(m.info.description@), lower_seq(a)) && !(m.info.model matches Some(
            model,
        ) && seq_contains(lower_seq(model@), lower_seq(a))) && lower_seq(a).len() > 0
            ==> !monitor_matches(m, a),
        lower_seq(a) == lower_seq(b) ==> monitor_matches(m, a) == monitor_matches(m, b),
{
    if m.info.model is None && lower_seq(a).len() > 0 {
        let e = lower_seq(Seq::<char>::empty());
        assert(e =~= Seq::<char>::empty());
        assert forall|i: int| !crate::text::occurs_at(e, lower_seq(a), i) by {}
    }
}

} // verus!
