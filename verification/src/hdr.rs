//! Windows HDR state: mapping a DDC monitor to its display target, resolving
//! the target again after topology changes, decoding the advanced-color flags,
//! and the read-check-write-confirm sequence of an HDR change.
use vstd::prelude::*;

use crate::counting::{
    count_where, first_where, last_where, lemma_count_prefix_step, lemma_first_where, lemma_first_where_is, lemma_count_by_multiset, lemma_count_zero, lemma_full_prefix,
    lemma_last_where, lemma_single_match,
};
use crate::ddc::DdcError;
use crate::text::{concat2, concat3, eq_ignore_ascii_case, eq_ignore_case, trim_seq, trim_str};

verus! {

/// The HDR state that Windows reports for a display target.
#[derive(Debug, Clone, Copy, PartialEq, Eq, Structural)]
pub struct HdrState {
    pub supported: bool,
    pub user_enabled: bool,
    pub active: bool,
    pub limited_by_policy: bool,
}

/// The handle of a Windows display monitor (an `HMONITOR`), carried as a number.
#[derive(Clone, Copy, Debug, PartialEq, Eq, Structural)]
pub struct DisplayMonitorHandle(isize);

impl DisplayMonitorHandle {
    pub fn new(raw: isize) -> (h: Self)
        ensures
            h.raw_value() == raw,
    {
        DisplayMonitorHandle(raw)
    }

    pub closed spec fn raw_value(self) -> isize {
        self.0
    }

    pub fn raw(self) -> (r: isize)
        ensures
            r == self.raw_value(),
    {
        self.0
    }
}

/// A display target, named by its monitor device path.
#[derive(Debug, Clone, PartialEq, Eq, Hash)]
pub struct DisplayTargetId {
    monitor_device_path: String,
}

impl View for DisplayTargetId {
    type V = Seq<char>;

    closed spec fn view(&self) -> Seq<char> {
        self.monitor_device_path@
    }
}

impl DisplayTargetId {
    pub fn new(monitor_device_path: &str) -> (t: Self)
        ensures
            t@ == monitor_device_path@,
    {
        DisplayTargetId { monitor_device_path: String::from_str(monitor_device_path) }
    }

    pub fn monitor_device_path(&self) -> (r: &str)
        ensures
            r@ == self@,
    {
        self.monitor_device_path.as_str()
    }
}

/// One active path of the Windows display topology.
#[derive(Debug, Clone, PartialEq, Eq)]
pub struct DisplayPathIdentity {
    pub source_name: String,
    pub monitor_device_path: String,
}

/// How many attempts a topology query gets.
pub const TOPOLOGY_QUERY_ATTEMPTS: usize = 3;

pub const ADVANCED_COLOR_MODE_SDR: i32 = 0;

pub const ADVANCED_COLOR_MODE_WCG: i32 = 1;

pub const ADVANCED_COLOR_MODE_HDR: i32 = 2;

/// Why one topology query attempt failed.
#[derive(Debug)]
pub enum TopologyQueryError {
    /// The topology changed between sizing the buffers and filling them.
    InsufficientBuffer,
    Failed(String),
}

/// What to do after one topology query attempt.
#[derive(Debug)]
pub enum TopologyStep<T> {
    Finish(Result<T, DdcError>),
    Retry,
}

/// The text of the error after every attempt found the buffers too small.
pub open spec fn topology_changed_message() -> Seq<char> {
    "display topology changed during 3 query attempts"@
}

/// The retry rule of a topology query: an answer or a hard failure ends it;
/// an insufficient buffer is retried until the last attempt, which then fails
/// as transient.
pub fn topology_query_step<T>(attempt: usize, outcome: Result<T, TopologyQueryError>) -> (s:
    TopologyStep<T>)
    requires
        1 <= attempt <= TOPOLOGY_QUERY_ATTEMPTS,
    ensures
        match outcome {
            Ok(v) => s == TopologyStep::Finish(Ok::<T, DdcError>(v)),
            Err(TopologyQueryError::InsufficientBuffer) => if attempt < TOPOLOGY_QUERY_ATTEMPTS {
                s is Retry
            } else {
                s matches TopologyStep::Finish(Err(DdcError::Transient(m))) && m@
                    == topology_changed_message()
            },
            Err(TopologyQueryError::Failed(m)) => s == TopologyStep::Finish(
                Err::<T, DdcError>(DdcError::Permanent(m)),
            ),
        },
{
    match outcome {
        Ok(v) => TopologyStep::Finish(Ok(v)),
        Err(TopologyQueryError::InsufficientBuffer) => {
            if attempt < TOPOLOGY_QUERY_ATTEMPTS {
                TopologyStep::Retry
            } else {
                TopologyStep::Finish(
                    Err(
                        DdcError::Transient(
                            String::from_str("display topology changed during 3 query attempts"),
                        ),
                    ),
                )
            }
        },
        Err(TopologyQueryError::Failed(m)) => TopologyStep::Finish(Err(DdcError::Permanent(m))),
    }
}

/// Runs a topology query under the retry rule of `topology_query_step`.
/// The result is one that the query returned, a hard failure it reported,
/// or the transient error after the last insufficient buffer.
pub fn retry_topology_query<T, F>(query: F) -> (r: Result<T, DdcError>) where
    F: FnMut() -> Result<T, TopologyQueryError>,

    requires
        forall|s: F| call_requires(s, ()),
    ensures
        r is Ok ==> exists|s: F| call_ensures(s, (), Ok::<T, TopologyQueryError>(r->Ok_0)),
        r matches Err(DdcError::Permanent(m)) ==> exists|s: F|
            call_ensures(s, (), Err::<T, TopologyQueryError>(TopologyQueryError::Failed(m))),
        r matches Err(DdcError::Transient(m)) ==> m@ == topology_changed_message(),
        r matches Err(e) ==> e is Permanent || e is Transient,
{
    let mut query = query;
    let mut attempt: usize = 1;
    loop
        invariant
            1 <= attempt <= TOPOLOGY_QUERY_ATTEMPTS,
            forall|s: F| call_requires(s, ()),
        decreases TOPOLOGY_QUERY_ATTEMPTS - attempt,
    {
        let ghost before = query;
        let outcome = query();
        let ghost seen = outcome;
        proof {
            assert(call_ensures(before, (), outcome));
        }
        match topology_query_step(attempt, outcome) {
            TopologyStep::Finish(result) => {
                proof {
                    if result is Ok {
                        assert(call_ensures(before, (), Ok::<T, TopologyQueryError>(result->Ok_0)));
                    }
                    if result is Err && result->Err_0 is Permanent {
                        let m = result->Err_0->Permanent_0;
                        assert(seen == Err::<T, TopologyQueryError>(TopologyQueryError::Failed(m)));
                        assert(call_ensures(
                            before,
                            (),
                            Err::<T, TopologyQueryError>(TopologyQueryError::Failed(m)),
                        ));
                    }
                }
                return result;
            },
            TopologyStep::Retry => {
                attempt = attempt + 1;
            },
        }
    }
}

/// Windows' advanced-color flags: bit 4 says HDR is supported, bit 5 that the
/// user enabled it, bit 3 that policy limits it; HDR is active when bit 1 is
/// set and the active color mode is HDR.
pub fn hdr_state_from_raw(flags: u32, active_color_mode: i32) -> (s: HdrState)
    ensures
        s == (HdrState {
            supported: flags & 0x10 != 0,
            user_enabled: flags & 0x20 != 0,
            active: flags & 0x2 != 0 && active_color_mode == ADVANCED_COLOR_MODE_HDR,
            limited_by_policy: flags & 0x8 != 0,
        }),
{
    HdrState {
        supported: flags & 0x10 != 0,
        user_enabled: flags & 0x20 != 0,
        active: flags & 0x2 != 0 && active_color_mode == ADVANCED_COLOR_MODE_HDR,
        limited_by_policy: flags & 0x8 != 0,
    }
}

/// A physical source name that matches `name` without regard to ASCII case.
pub open spec fn source_is(name: Seq<char>) -> spec_fn(String) -> bool {
    |c: String| eq_ignore_case(c@, name)
}

/// A topology path whose source matches `name` without regard to ASCII case.
pub open spec fn path_source_is(name: Seq<char>) -> spec_fn(DisplayPathIdentity) -> bool {
    |p: DisplayPathIdentity| eq_ignore_case(p.source_name@, name)
}

/// A topology path whose device path matches `device` without regard to ASCII case.
pub open spec fn device_is(device: Seq<char>) -> spec_fn(DisplayPathIdentity) -> bool {
    |p: DisplayPathIdentity| eq_ignore_case(p.monitor_device_path@, device)
}

/// Resolving a target in a topology: the index of the one path with its
/// device path, or the message of why there is none.
pub open spec fn resolve_target_spec(device: Seq<char>, paths: Seq<DisplayPathIdentity>) -> Result<
    int,
    Seq<char>,
> {
    let n = count_where(paths, device_is(device));
    if n == 0 {
        Err("Windows target device path "@ + device + " is not active"@)
    } else if n > 1 {
        Err("Windows target device path "@ + device + " is not unique"@)
    } else {
        Ok(last_where(paths, device_is(device))->Some_0)
    }
}

/// Mapping a DDC monitor's display source to its display target: the device
/// path of the target, or the message of why the mapping is not unique.
pub open spec fn map_display_target_spec(
    name: Seq<char>,
    physical: Seq<String>,
    paths: Seq<DisplayPathIdentity>,
) -> Result<Seq<char>, Seq<char>> {
    let np = count_where(physical, source_is(name));
    let nt = count_where(paths, path_source_is(name));
    if trim_seq(name).len() == 0 {
        Err("DDC monitor has an empty Windows display source"@)
    } else if np == 0 {
        Err("DDC monitor source "@ + name + " is unavailable"@)
    } else if np > 1 {
        Err("multiple DDC monitors share Windows source "@ + name)
    } else if nt == 0 {
        Err("Windows source "@ + name + " has no active target"@)
    } else if nt > 1 {
        Err("Windows source "@ + name + " maps to multiple Windows targets"@)
    } else {
        let device = paths[last_where(paths, path_source_is(name))->Some_0].monitor_device_path@;
        if trim_seq(device).len() == 0 {
            Err("Windows source "@ + name + " has no monitor device path"@)
        } else if count_where(paths, device_is(device)) != 1 {
            Err("Windows target device path "@ + device + " is not unique"@)
        } else {
            Ok(device)
        }
    }
}

/// The number of physical sources that match `name`.
fn count_sources(sources: &[String], name: &str) -> (n: usize)
    ensures
        n == count_where(sources@, source_is(name@)),
{
    let mut n: usize = 0;
    let mut i: usize = 0;
    while i < sources.len()
        invariant
            i <= sources.len(),
            n == count_where(sources@.subrange(0, i as int), source_is(name@)),
            n <= i,
        decreases sources.len() - i,
    {
        proof {
            lemma_count_prefix_step(sources@, source_is(name@), i as int);
        }
        if eq_ignore_ascii_case(sources[i].as_str(), name) {
            n = n + 1;
        }
        i = i + 1;
    }
    proof {
        lemma_full_prefix(sources@);
    }
    n
}

/// The number of paths whose source matches `name`, and the last of them.
fn find_paths_by_source(paths: &[DisplayPathIdentity], name: &str) -> (r: (usize, usize))
    ensures
        r.0 == count_where(paths@, path_source_is(name@)),
        r.0 > 0 ==> last_where(paths@, path_source_is(name@)) == Some(r.1 as int),
{
    let mut n: usize = 0;
    let mut last: usize = 0;
    let mut i: usize = 0;
    while i < paths.len()
        invariant
            i <= paths.len(),
            n == count_where(paths@.subrange(0, i as int), path_source_is(name@)),
            n <= i,
            n > 0 ==> last_where(paths@.subrange(0, i as int), path_source_is(name@)) == Some(
                last as int,
            ),
            n == 0 ==> last_where(paths@.subrange(0, i as int), path_source_is(name@)) is None,
        decreases paths.len() - i,
    {
        proof {
            lemma_count_prefix_step(paths@, path_source_is(name@), i as int);
        }
        if eq_ignore_ascii_case(paths[i].source_name.as_str(), name) {
            n = n + 1;
            last = i;
        }
        i = i + 1;
    }
    proof {
        lemma_full_prefix(paths@);
    }
    (n, last)
}

/// The number of paths whose device path matches `device`, and the last of them.
fn find_paths_by_device(paths: &[DisplayPathIdentity], device: &str) -> (r: (usize, usize))
    ensures
        r.0 == count_where(paths@, device_is(device@)),
        r.0 > 0 ==> last_where(paths@, device_is(device@)) == Some(r.1 as int),
{
    let mut n: usize = 0;
    let mut last: usize = 0;
    let mut i: usize = 0;
    while i < paths.len()
        invariant
            i <= paths.len(),
            n == count_where(paths@.subrange(0, i as int), device_is(device@)),
            n <= i,
            n > 0 ==> last_where(paths@.subrange(0, i as int), device_is(device@)) == Some(
                last as int,
            ),
            n == 0 ==> last_where(paths@.subrange(0, i as int), device_is(device@)) is None,
        decreases paths.len() - i,
    {
        proof {
            lemma_count_prefix_step(paths@, device_is(device@), i as int);
        }
        if eq_ignore_ascii_case(paths[i].monitor_device_path.as_str(), device) {
            n = n + 1;
            last = i;
        }
        i = i + 1;
    }
    proof {
        lemma_full_prefix(paths@);
    }
    (n, last)
}

/// Maps the display source of a DDC monitor to its display target. The source
/// must name exactly one physical monitor and exactly one active path, whose
/// device path must be present and unique in the topology.
pub fn map_display_target(
    source_name: &str,
    physical_sources: &[String],
    paths: &[DisplayPathIdentity],
) -> (r: Result<DisplayTargetId, DdcError>)
    ensures
        match r {
            Ok(t) => map_display_target_spec(source_name@, physical_sources@, paths@) == Ok::<
                Seq<char>,
                Seq<char>,
            >(t@),
            Err(e) => e matches DdcError::Permanent(m) && map_display_target_spec(
                source_name@,
                physical_sources@,
                paths@,
            ) == Err::<Seq<char>, Seq<char>>(m@),
        },
{
    let trimmed = trim_str(source_name);
    if trimmed.as_str().is_empty() {
        return Err(
            DdcError::Permanent(String::from_str("DDC monitor has an empty Windows display source")),
        );
    }
    let physical_matches = count_sources(physical_sources, source_name);
    if physical_matches == 0 {
        return Err(
            DdcError::Permanent(concat3("DDC monitor source ", source_name, " is unavailable")),
        );
    }
    if physical_matches > 1 {
        return Err(
            DdcError::Permanent(concat2("multiple DDC monitors share Windows source ", source_name)),
        );
    }
    let (path_matches, index) = find_paths_by_source(paths, source_name);
    if path_matches == 0 {
        return Err(
            DdcError::Permanent(concat3("Windows source ", source_name, " has no active target")),
        );
    }
    if path_matches > 1 {
        return Err(
            DdcError::Permanent(
                concat3("Windows source ", source_name, " maps to multiple Windows targets"),
            ),
        );
    }
    proof {
        lemma_last_where(paths@, path_source_is(source_name@));
    }
    let device = paths[index].monitor_device_path.as_str();
    let trimmed_device = trim_str(device);
    if trimmed_device.as_str().is_empty() {
        return Err(
            DdcError::Permanent(
                concat3("Windows source ", source_name, " has no monitor device path"),
            ),
        );
    }
    let (target_matches, _) = find_paths_by_device(paths, device);
    if target_matches != 1 {
        return Err(
            DdcError::Permanent(concat3("Windows target device path ", device, " is not unique")),
        );
    }
    Ok(DisplayTargetId::new(device))
}

/// Finds the one active path of a target by its device path, wherever the
/// path now stands in the topology.
pub fn resolve_target_path<'a>(target: &DisplayTargetId, paths: &'a [DisplayPathIdentity]) -> (r:
    Result<&'a DisplayPathIdentity, DdcError>)
    ensures
        match r {
            Ok(p) => resolve_target_spec(target@, paths@) matches Ok(i) && *p == paths@[i],
            Err(e) => e matches DdcError::Permanent(m) && resolve_target_spec(target@, paths@)
                == Err::<int, Seq<char>>(m@),
        },
{
    let device = target.monitor_device_path();
    let (matches, index) = find_paths_by_device(paths, device);
    if matches == 0 {
        return Err(
            DdcError::Permanent(concat3("Windows target device path ", device, " is not active")),
        );
    }
    if matches > 1 {
        return Err(
            DdcError::Permanent(concat3("Windows target device path ", device, " is not unique")),
        );
    }
    proof {
        lemma_last_where(paths@, device_is(target@));
    }
    Ok(&paths[index])
}

/// Two paths are the same when source and device path agree without regard
/// to ASCII case.
pub open spec fn same_path_as(p: DisplayPathIdentity) -> spec_fn(DisplayPathIdentity) -> bool {
    |x: DisplayPathIdentity|
        eq_ignore_case(x.source_name@, p.source_name@) && eq_ignore_case(
            x.monitor_device_path@,
            p.monitor_device_path@,
        )
}

/// Two topologies are the same when they hold the same paths, each as often,
/// in any order and without regard to ASCII case.
pub open spec fn same_topology(left: Seq<DisplayPathIdentity>, right: Seq<DisplayPathIdentity>) -> bool {
    forall|p: DisplayPathIdentity|
        #[trigger] count_where(left, same_path_as(p)) == count_where(right, same_path_as(p))
}

fn same_path(a: &DisplayPathIdentity, b: &DisplayPathIdentity) -> (r: bool)
    ensures
        r == same_path_as(*b)(*a),
{
    eq_ignore_ascii_case(a.source_name.as_str(), b.source_name.as_str()) && eq_ignore_ascii_case(
        a.monitor_device_path.as_str(),
        b.monitor_device_path.as_str(),
    )
}

fn count_same_paths(paths: &[DisplayPathIdentity], p: &DisplayPathIdentity) -> (n: usize)
    ensures
        n == count_where(paths@, same_path_as(*p)),
{
    let mut n: usize = 0;
    let mut i: usize = 0;
    while i < paths.len()
        invariant
            i <= paths.len(),
            n == count_where(paths@.subrange(0, i as int), same_path_as(*p)),
            n <= i,
        decreases paths.len() - i,
    {
        proof {
            lemma_count_prefix_step(paths@, same_path_as(*p), i as int);
        }
        if same_path(&paths[i], p) {
            n = n + 1;
        }
        i = i + 1;
    }
    proof {
        lemma_full_prefix(paths@);
    }
    n
}

/// Paths that are the same count alike in any topology.
proof fn lemma_same_path_counts(s: Seq<DisplayPathIdentity>, p: DisplayPathIdentity, q: DisplayPathIdentity)
    requires
        same_path_as(q)(p),
    ensures
        count_where(s, same_path_as(p)) == count_where(s, same_path_as(q)),
{
    assert(same_path_as(p) =~= same_path_as(q));
}

/// Every path of `s` counts alike in both topologies.
spec fn counts_agree_on(s: Seq<DisplayPathIdentity>, left: Seq<DisplayPathIdentity>, right: Seq<DisplayPathIdentity>, upto: int) -> bool {
    forall|i: int|
        0 <= i < upto ==> #[trigger] count_where(left, same_path_as(s[i])) == count_where(
            right,
            same_path_as(s[i]),
        )
}

fn counts_agree(s: &[DisplayPathIdentity], left: &[DisplayPathIdentity], right: &[DisplayPathIdentity]) -> (r: bool)
    ensures
        r == counts_agree_on(s@, left@, right@, s@.len() as int),
{
    let mut i: usize = 0;
    while i < s.len()
        invariant
            i <= s.len(),
            counts_agree_on(s@, left@, right@, i as int),
        decreases s.len() - i,
    {
        if count_same_paths(left, &s[i]) != count_same_paths(right, &s[i]) {
            return false;
        }
        i = i + 1;
    }
    true
}

/// Whether two topologies are the same, ignoring the order of the paths and
/// ASCII case: a reordering is the same topology, a reassignment of sources
/// to devices is not.
pub fn same_display_topology(left: &[DisplayPathIdentity], right: &[DisplayPathIdentity]) -> (r:
    bool)
    ensures
        r == same_topology(left@, right@),
{
    let from_left = counts_agree(left, left, right);
    if !from_left {
        return false;
    }
    let from_right = counts_agree(right, left, right);
    if !from_right {
        return false;
    }
    proof {
        assert forall|p: DisplayPathIdentity|
            #[trigger] count_where(left@, same_path_as(p)) == count_where(
                right@,
                same_path_as(p),
            ) by {
            if exists|i: int| 0 <= i < left@.len() && same_path_as(p)(left@[i]) {
                let i = choose|i: int| 0 <= i < left@.len() && same_path_as(p)(left@[i]);
                lemma_same_path_counts(left@, p, left@[i]);
                lemma_same_path_counts(right@, p, left@[i]);
                assert(count_where(left@, same_path_as(left@[i])) == count_where(
                    right@,
                    same_path_as(left@[i]),
                ));
            } else if exists|j: int| 0 <= j < right@.len() && same_path_as(p)(right@[j]) {
                let j = choose|j: int| 0 <= j < right@.len() && same_path_as(p)(right@[j]);
                lemma_same_path_counts(left@, p, right@[j]);
                lemma_same_path_counts(right@, p, right@[j]);
                assert(count_where(left@, same_path_as(right@[j])) == count_where(
                    right@,
                    same_path_as(right@[j]),
                ));
            } else {
                lemma_count_zero(left@, same_path_as(p));
                lemma_count_zero(right@, same_path_as(p));
            }
        }
    }
    true
}

/// Sameness of topologies does not depend on which one is named first.
pub proof fn law_same_topology_is_symmetric(
    left: Seq<DisplayPathIdentity>,
    right: Seq<DisplayPathIdentity>,
)
    ensures
        same_topology(left, right) == same_topology(right, left),
{
    if same_topology(left, right) {
        assert forall|p: DisplayPathIdentity|
            #[trigger] count_where(right, same_path_as(p)) == count_where(left, same_path_as(p)) by {
            assert(count_where(left, same_path_as(p)) == count_where(right, same_path_as(p)));
        }
    }
    if same_topology(right, left) {
        assert forall|p: DisplayPathIdentity|
            #[trigger] count_where(left, same_path_as(p)) == count_where(right, same_path_as(p)) by {
            assert(count_where(right, same_path_as(p)) == count_where(left, same_path_as(p)));
        }
    }
}

/// Reordering the paths of a topology gives the same topology.
pub proof fn law_reordered_topology_is_the_same(
    left: Seq<DisplayPathIdentity>,
    right: Seq<DisplayPathIdentity>,
)
    requires
        left.to_multiset() == right.to_multiset(),
    ensures
        same_topology(left, right),
{
    assert forall|p: DisplayPathIdentity|
        #[trigger] count_where(left, same_path_as(p)) == count_where(right, same_path_as(p)) by {
        lemma_count_by_multiset(left, right, same_path_as(p));
    }
}

/// UTF-16 decoding with replacement: a high surrogate followed by a low
/// one is the character they encode; any other surrogate unit is one
/// U+FFFD; every other unit is the character of that value.
pub open spec fn utf16_lossy(units: Seq<u16>) -> Seq<char>
    decreases units.len(),
{
    if units.len() == 0 {
        Seq::empty()
    } else {
        let u = units[0];
        if u < 0xD800 || u > 0xDFFF {
            seq![u as char] + utf16_lossy(units.drop_first())
        } else if u <= 0xDBFF && units.len() >= 2 && 0xDC00 <= units[1] <= 0xDFFF {
            seq![(0x10000 + (u - 0xD800) * 0x400 + (units[1] - 0xDC00)) as char] + utf16_lossy(
                units.subrange(2, units.len() as int),
            )
        } else {
            seq!['\u{FFFD}'] + utf16_lossy(units.drop_first())
        }
    }
}

/// `String::from_utf16_lossy`: the text that the code units encode, with
/// each unpaired surrogate replaced by U+FFFD, as `utf16_lossy` states.
#[verifier::external_body]
fn string_from_utf16_lossy(units: &[u16]) -> (r: String)
    ensures
        r@ == utf16_lossy(units@),
{
    String::from_utf16_lossy(units)
}

/// Whether a UTF-16 code unit is the NUL terminator.
pub open spec fn is_nul_unit() -> spec_fn(u16) -> bool {
    |u: u16| u == 0
}

/// The code units of a NUL-terminated wide string: those before the first
/// NUL, or all of them.
pub open spec fn units_before_nul(units: Seq<u16>) -> Seq<u16> {
    match first_where(units, is_nul_unit()) {
        Some(i) => units.subrange(0, i),
        None => units,
    }
}

/// A wide-string field of an active display path, which must not be empty.
pub fn non_empty_wide_string(value: &[u16], field: &str) -> (r: Result<String, DdcError>)
    ensures
        ({
            let text = utf16_lossy(units_before_nul(value@));
            match r {
                Ok(s) => text.len() > 0 && s@ == text,
                Err(e) => text.len() == 0 && match e {
                    DdcError::Permanent(m) => m@ == "active path has no "@ + field@,
                    _ => false,
                },
            }
        }),
{
    let mut len: usize = 0;
    while len < value.len()
        invariant
            len <= value.len(),
            forall|j: int| 0 <= j < len ==> value@[j] != 0,
        ensures
            len <= value.len(),
            forall|j: int| 0 <= j < len ==> value@[j] != 0,
            len < value.len() ==> value@[len as int] == 0,
        decreases value.len() - len,
    {
        if value[len] == 0 {
            break;
        }
        len = len + 1;
    }
    proof {
        let p = is_nul_unit();
        lemma_first_where(value@, p);
        assert forall|j: int| 0 <= j < len implies !p(#[trigger] value@[j]) by {}
        if len < value.len() {
            lemma_first_where_is(value@, p, len as int);
        } else {
            assert(forall|j: int| 0 <= j < value@.len() ==> !p(value@[j]));
        }
    }
    let mut units: Vec<u16> = Vec::new();
    let mut i: usize = 0;
    while i < len
        invariant
            len <= value.len(),
            i <= len,
            units@ == value@.subrange(0, i as int),
        decreases len - i,
    {
        units.push(value[i]);
        i = i + 1;
    }
    proof {
        if len == value.len() {
            assert(value@.subrange(0, len as int) =~= value@);
        }
    }
    let text = string_from_utf16_lossy(units.as_slice());
    if text.as_str().unicode_len() == 0 {
        Err(DdcError::Permanent(concat2("active path has no ", field)))
    } else {
        Ok(text)
    }
}

/// A route to a display target in the display configuration.
#[derive(Debug, Clone, Copy, PartialEq, Eq, Structural)]
pub struct DisplayRoute {
    pub adapter_id_low: u32,
    pub adapter_id_high: i32,
    pub target_id: u32,
}

/// An active display path: its identity and its route.
#[derive(Debug, Clone, PartialEq, Eq)]
pub struct ActiveDisplayPath {
    pub identity: DisplayPathIdentity,
    pub route: DisplayRoute,
}

/// The advanced-color flags and mode as Windows reports them.
#[derive(Debug, Clone, Copy, PartialEq, Eq, Structural)]
pub struct RawHdrState {
    pub flags: u32,
    pub active_color_mode: i32,
}

/// The display configuration calls that HDR control needs. Windows provides
/// one; tests provide scripted ones.
pub trait DisplayConfigApi {
    fn active_paths(&mut self) -> Result<Vec<ActiveDisplayPath>, DdcError>;

    fn hdr_state(&mut self, route: DisplayRoute) -> Result<RawHdrState, DdcError>;

    fn set_hdr_enabled(&mut self, route: DisplayRoute, enabled: bool) -> Result<(), DdcError>;
}

/// A copy of a path identity.
pub fn copy_identity(p: &DisplayPathIdentity) -> (r: DisplayPathIdentity)
    ensures
        r == *p,
{
    DisplayPathIdentity {
        source_name: p.source_name.clone(),
        monitor_device_path: p.monitor_device_path.clone(),
    }
}

/// The identities of active paths, in order.
pub open spec fn identities(paths: Seq<ActiveDisplayPath>) -> Seq<DisplayPathIdentity> {
    paths.map_values(|p: ActiveDisplayPath| p.identity)
}

fn active_identities(paths: &[ActiveDisplayPath]) -> (r: Vec<DisplayPathIdentity>)
    ensures
        r@ == identities(paths@),
{
    let mut r: Vec<DisplayPathIdentity> = Vec::new();
    let mut i: usize = 0;
    while i < paths.len()
        invariant
            i <= paths.len(),
            r@ == identities(paths@.subrange(0, i as int)),
        decreases paths.len() - i,
    {
        r.push(copy_identity(&paths[i].identity));
        i = i + 1;
        assert(r@ =~= identities(paths@.subrange(0, i as int)));
    }
    assert(paths@.subrange(0, i as int) =~= paths@);
    r
}

/// The route of the one active path of a target.
pub fn resolve_active_path(target: &DisplayTargetId, paths: &[ActiveDisplayPath]) -> (r: Result<
    DisplayRoute,
    DdcError,
>)
    ensures
        match r {
            Ok(route) => resolve_target_spec(target@, identities(paths@)) matches Ok(i)
                && route == paths@[i].route,
            Err(e) => e matches DdcError::Permanent(m) && resolve_target_spec(
                target@,
                identities(paths@),
            ) == Err::<int, Seq<char>>(m@),
        },
{
    let ids = active_identities(paths);
    let device = target.monitor_device_path();
    let (matches, index) = find_paths_by_device(ids.as_slice(), device);
    if matches == 0 {
        return Err(
            DdcError::Permanent(concat3("Windows target device path ", device, " is not active")),
        );
    }
    if matches > 1 {
        return Err(
            DdcError::Permanent(concat3("Windows target device path ", device, " is not unique")),
        );
    }
    proof {
        lemma_last_where(ids@, device_is(target@));
    }
    Ok(paths[index].route)
}

/// Whether an HDR change may be made, and whether it needs a write: a target
/// without HDR support or under a policy limit is refused; a write is needed
/// only where the user setting differs from the request.
pub fn hdr_change_plan(current: HdrState, enabled: bool) -> (r: Result<bool, DdcError>)
    ensures
        !current.supported ==> (r matches Err(DdcError::Permanent(m)) && m@
            == "selected Windows display does not support HDR"@),
        current.supported && current.limited_by_policy ==> (r matches Err(
            DdcError::Permanent(m),
        ) && m@ == "HDR changes are blocked by Windows policy"@),
        current.supported && !current.limited_by_policy ==> r == Ok::<bool, DdcError>(
            current.user_enabled != enabled,
        ),
{
    if !current.supported {
        return Err(
            DdcError::Permanent(String::from_str("selected Windows display does not support HDR")),
        );
    }
    if current.limited_by_policy {
        return Err(
            DdcError::Permanent(String::from_str("HDR changes are blocked by Windows policy")),
        );
    }
    Ok(current.user_enabled != enabled)
}

/// The outcome of an HDR change given the state read back afterwards: the
/// change holds only if Windows confirms the requested user setting.
pub fn confirm_hdr_change(confirmed: HdrState, enabled: bool) -> (r: Result<HdrState, DdcError>)
    ensures
        confirmed.user_enabled == enabled ==> r == Ok::<HdrState, DdcError>(confirmed),
        confirmed.user_enabled != enabled ==> (r matches Err(DdcError::Permanent(m)) && m@ == (
        if enabled {
            "Windows did not confirm HDR enabled"@
        } else {
            "Windows did not confirm HDR disabled"@
        })),
{
    if confirmed.user_enabled != enabled {
        if enabled {
            return Err(DdcError::Permanent(String::from_str("Windows did not confirm HDR enabled")));
        } else {
            return Err(
                DdcError::Permanent(String::from_str("Windows did not confirm HDR disabled")),
            );
        }
    }
    Ok(confirmed)
}

/// A call made on a `DisplayConfigApi`: its arguments and what it answered.
#[allow(inconsistent_fields)]
pub enum ApiCall {
    ActivePaths { reply: Result<Seq<ActiveDisplayPath>, DdcError> },
    ReadHdr { route: DisplayRoute, reply: Result<RawHdrState, DdcError> },
    WriteHdr { route: DisplayRoute, enabled: bool, reply: Result<(), DdcError> },
}

pub open spec fn paths_reply(r: Result<Vec<ActiveDisplayPath>, DdcError>) -> Result<
    Seq<ActiveDisplayPath>,
    DdcError,
> {
    match r {
        Ok(v) => Ok(v@),
        Err(e) => Err(e),
    }
}

/// A display configuration together with the log of the calls made on it
/// through this wrapper: each call passes its arguments on unchanged and is
/// recorded with the answer it got.
pub struct LoggedDisplayConfig<A: DisplayConfigApi> {
    pub api: A,
    log: Ghost<Seq<ApiCall>>,
}

impl<A: DisplayConfigApi> LoggedDisplayConfig<A> {
    /// The calls made so far, in order, with their answers.
    pub closed spec fn calls(&self) -> Seq<ApiCall> {
        self.log@
    }

    /// The configuration the calls go to.
    pub closed spec fn inner(&self) -> A {
        self.api
    }

    /// A configuration with no calls logged yet.
    pub fn new(api: A) -> (r: Self)
        ensures
            r.inner() == api,
            r.calls() == Seq::<ApiCall>::empty(),
    {
        LoggedDisplayConfig { api, log: Ghost(Seq::empty()) }
    }

    pub fn active_paths(&mut self) -> (r: Result<Vec<ActiveDisplayPath>, DdcError>)
        ensures
            final(self).calls() == old(self).calls().push(ApiCall::ActivePaths { reply: paths_reply(r) }),
    {
        let r = self.api.active_paths();
        self.log = Ghost(self.log@.push(ApiCall::ActivePaths { reply: paths_reply(r) }));
        r
    }

    pub fn hdr_state(&mut self, route: DisplayRoute) -> (r: Result<RawHdrState, DdcError>)
        ensures
            final(self).calls() == old(self).calls().push(ApiCall::ReadHdr { route, reply: r }),
    {
        let r = self.api.hdr_state(route);
        self.log = Ghost(self.log@.push(ApiCall::ReadHdr { route, reply: r }));
        r
    }

    pub fn set_hdr_enabled(&mut self, route: DisplayRoute, enabled: bool) -> (r: Result<(), DdcError>)
        ensures
            final(self).calls() == old(self).calls().push(
                ApiCall::WriteHdr { route, enabled, reply: r },
            ),
    {
        let r = self.api.set_hdr_enabled(route, enabled);
        self.log = Ghost(self.log@.push(ApiCall::WriteHdr { route, enabled, reply: r }));
        r
    }
}

/// What a read of a target's HDR state came to.
pub enum ReadOutcome {
    /// The display configuration answered with an error.
    ApiError(DdcError),
    /// The target could not be resolved among the active paths.
    Unresolved(Seq<char>),
    /// The decoded state of the target's path.
    State(HdrState),
}

/// The outcome of the calls of one read of a target's HDR state: the active
/// paths are asked for, the target is resolved among them, and the state of
/// its route is read. `None` where the calls are not those of a read.
pub open spec fn read_outcome(target: DisplayTargetId, calls: Seq<ApiCall>) -> Option<ReadOutcome> {
    if calls.len() == 0 {
        None
    } else {
        match calls[0] {
            ApiCall::ActivePaths { reply: Err(e) } => if calls.len() == 1 {
                Some(ReadOutcome::ApiError(e))
            } else {
                None
            },
            ApiCall::ActivePaths { reply: Ok(ps) } => match resolve_target_spec(
                target@,
                identities(ps),
            ) {
                Err(m) => if calls.len() == 1 {
                    Some(ReadOutcome::Unresolved(m))
                } else {
                    None
                },
                Ok(i) => if calls.len() == 2 {
                    match calls[1] {
                        ApiCall::ReadHdr { route, reply } => if route == ps[i].route {
                            match reply {
                                Err(e) => Some(ReadOutcome::ApiError(e)),
                                Ok(raw) => Some(
                                    ReadOutcome::State(
                                        hdr_state_from_raw_spec(raw.flags, raw.active_color_mode),
                                    ),
                                ),
                            }
                        } else {
                            None
                        },
                        _ => None,
                    }
                } else {
                    None
                },
            },
            _ => None,
        }
    }
}

/// A failure that Windows or the library reports with this text.
pub open spec fn permanent_error<T>(r: Result<T, DdcError>, text: Seq<char>) -> bool {
    r matches Err(DdcError::Permanent(m)) && m@ == text
}

/// The result of a read, by its outcome.
pub open spec fn read_result(o: Option<ReadOutcome>, r: Result<HdrState, DdcError>) -> bool {
    match o {
        Some(ReadOutcome::ApiError(e)) => r == Err::<HdrState, DdcError>(e),
        Some(ReadOutcome::Unresolved(m)) => permanent_error(r, m),
        Some(ReadOutcome::State(s)) => r == Ok::<HdrState, DdcError>(s),
        None => false,
    }
}

/// The result of the confirming read after an HDR change.
pub open spec fn confirm_result(o: Option<ReadOutcome>, enabled: bool, r: Result<HdrState, DdcError>) -> bool {
    match o {
        Some(ReadOutcome::State(s)) => if s.user_enabled == enabled {
            r == Ok::<HdrState, DdcError>(s)
        } else {
            permanent_error(
                r,
                if enabled {
                    "Windows did not confirm HDR enabled"@
                } else {
                    "Windows did not confirm HDR disabled"@
                },
            )
        },
        _ => read_result(o, r),
    }
}

/// An HDR change of a target, by the calls made and their answers: the
/// target is resolved and its state read; a display without HDR support or
/// under a blocking policy is refused with no write; the setting is written,
/// with the target's route and the requested state, only when it differs;
/// then the state is read again and must show the requested setting.
pub open spec fn set_hdr_run(
    target: DisplayTargetId,
    enabled: bool,
    calls: Seq<ApiCall>,
    r: Result<HdrState, DdcError>,
) -> bool {
    let first = if calls.len() < 2 {
        calls
    } else {
        calls.subrange(0, 2)
    };
    match read_outcome(target, first) {
        Some(ReadOutcome::State(cur)) => {
            let route = match calls[1] {
                ApiCall::ReadHdr { route, .. } => route,
                _ => route_of_nothing(),
            };
            if !cur.supported {
                calls.len() == 2 && permanent_error(
                    r,
                    "selected Windows display does not support HDR"@,
                )
            } else if cur.limited_by_policy {
                calls.len() == 2 && permanent_error(r, "HDR changes are blocked by Windows policy"@)
            } else if cur.user_enabled != enabled {
                calls.len() >= 3 && match calls[2] {
                    ApiCall::WriteHdr { route: w, enabled: e, reply: Err(err) } => w == route && e
                        == enabled && calls.len() == 3 && r == Err::<HdrState, DdcError>(err),
                    ApiCall::WriteHdr { route: w, enabled: e, reply: Ok(()) } => w == route && e
                        == enabled && confirm_result(
                        read_outcome(target, calls.subrange(3, calls.len() as int)),
                        enabled,
                        r,
                    ),
                    _ => false,
                }
            } else {
                confirm_result(
                    read_outcome(target, calls.subrange(2, calls.len() as int)),
                    enabled,
                    r,
                )
            }
        },
        o => calls.len() == first.len() && read_result(o, r),
    }
}

/// A route that stands for no call.
pub open spec fn route_of_nothing() -> DisplayRoute {
    DisplayRoute { adapter_id_low: 0, adapter_id_high: 0, target_id: 0 }
}

/// Reads the HDR state of a target: the target is resolved in the current
/// topology, then its advanced-color state is read and decoded.
pub fn hdr_state_with_api<A: DisplayConfigApi>(
    api: &mut LoggedDisplayConfig<A>,
    target: &DisplayTargetId,
) -> (r: Result<HdrState, DdcError>)
    ensures
        final(api).calls().len() >= old(api).calls().len(),
        final(api).calls().subrange(0, old(api).calls().len() as int) == old(api).calls(),
        read_result(
            read_outcome(
                *target,
                final(api).calls().subrange(old(api).calls().len() as int, final(api).calls().len() as int),
            ),
            r,
        ),
{
    let ghost c0 = api.calls();
    let ghost m = c0.len() as int;
    let paths = match api.active_paths() {
        Ok(p) => p,
        Err(e) => {
            assert(api.calls().subrange(m, api.calls().len() as int) =~= seq![api.calls()[m]]);
            assert(api.calls().subrange(0, m) =~= c0);
            return Err(e);
        },
    };
    let ghost c1 = api.calls();
    let route = match resolve_active_path(target, paths.as_slice()) {
        Ok(r) => r,
        Err(e) => {
            assert(api.calls().subrange(m, api.calls().len() as int) =~= seq![api.calls()[m]]);
            assert(api.calls().subrange(0, m) =~= c0);
            return Err(e);
        },
    };
    let answer = api.hdr_state(route);
    proof {
        let added = api.calls().subrange(m, api.calls().len() as int);
        assert(added[0] == c1[m]);
        assert(added[1] == api.calls()[m + 1]);
        assert(api.calls().subrange(0, m) =~= c0);
    }
    match answer {
        Ok(raw) => {
            let s = hdr_state_from_raw(raw.flags, raw.active_color_mode);
            Ok(s)
        },
        Err(e) => Err(e),
    }
}

/// The decoded state, as `hdr_state_from_raw` computes it.
pub open spec fn hdr_state_from_raw_spec(flags: u32, active_color_mode: i32) -> HdrState {
    HdrState {
        supported: flags & 0x10 != 0,
        user_enabled: flags & 0x20 != 0,
        active: flags & 0x2 != 0 && active_color_mode == ADVANCED_COLOR_MODE_HDR,
        limited_by_policy: flags & 0x8 != 0,
    }
}

/// Changes the HDR setting of a target: the target is resolved and its state
/// read; `hdr_change_plan` decides; the write is made only when needed; the
/// state is read again from a fresh topology, and `confirm_hdr_change` decides
/// the outcome. `set_hdr_run` states the calls, their arguments and the result
/// for every answer.
pub fn set_hdr_enabled_with_api<A: DisplayConfigApi>(
    api: &mut LoggedDisplayConfig<A>,
    target: &DisplayTargetId,
    enabled: bool,
) -> (r: Result<HdrState, DdcError>)
    ensures
        final(api).calls().len() >= old(api).calls().len(),
        final(api).calls().subrange(0, old(api).calls().len() as int) == old(api).calls(),
        set_hdr_run(
            *target,
            enabled,
            final(api).calls().subrange(old(api).calls().len() as int, final(api).calls().len() as int),
            r,
        ),
{
    let ghost c0 = api.calls();
    let ghost m = c0.len() as int;
    let paths = match api.active_paths() {
        Ok(p) => p,
        Err(e) => {
            assert(api.calls().subrange(m, api.calls().len() as int) =~= seq![api.calls()[m]]);
            assert(api.calls().subrange(0, m) =~= c0);
            return Err(e);
        },
    };
    let route = match resolve_active_path(target, paths.as_slice()) {
        Ok(r) => r,
        Err(e) => {
            assert(api.calls().subrange(m, api.calls().len() as int) =~= seq![api.calls()[m]]);
            assert(api.calls().subrange(0, m) =~= c0);
            return Err(e);
        },
    };
    let current_raw = match api.hdr_state(route) {
        Ok(raw) => raw,
        Err(e) => {
            assert(api.calls().subrange(m, api.calls().len() as int) =~= seq![
                api.calls()[m],
                api.calls()[m + 1],
            ]);
            assert(api.calls().subrange(0, m) =~= c0);
            return Err(e);
        },
    };
    let ghost c2 = api.calls();
    proof {
        assert(c2.subrange(m, c2.len() as int).subrange(0, 2) =~= seq![c2[m], c2[m + 1]]);
    }
    let current = hdr_state_from_raw(current_raw.flags, current_raw.active_color_mode);
    let needs_write = match hdr_change_plan(current, enabled) {
        Ok(b) => b,
        Err(e) => {
            assert(c2.subrange(m, c2.len() as int) =~= seq![c2[m], c2[m + 1]]);
            assert(c2.subrange(0, m) =~= c0);
            return Err(e);
        },
    };
    if needs_write {
        match api.set_hdr_enabled(route, enabled) {
            Ok(()) => {},
            Err(e) => {
                let ghost c3 = api.calls();
                assert(c3.subrange(m, c3.len() as int).subrange(0, 2) =~= seq![c2[m], c2[m + 1]]);
                assert(c3.subrange(m, c3.len() as int)[2] == c3[m + 2]);
                assert(c3.subrange(0, m) =~= c0);
                return Err(e);
            },
        }
    }
    let ghost c3 = api.calls();
    let confirmed = hdr_state_with_api(api, target);
    let r = match confirmed {
        Ok(state) => confirm_hdr_change(state, enabled),
        Err(e) => Err(e),
    };
    proof {
        let all = api.calls();
        let added = all.subrange(m, all.len() as int);
        let k = c3.len() - m;
        assert(all.subrange(0, c3.len() as int) == c3);
        assert(added.subrange(0, 2) =~= seq![c2[m], c2[m + 1]]) by {
            assert(all[m] == c3[m]);
            assert(all[m + 1] == c3[m + 1]);
            assert(c3.subrange(0, c2.len() as int) =~= c2 || !needs_write);
        }
        assert(added.subrange(k, added.len() as int) =~= all.subrange(c3.len() as int, all.len() as int));
        if needs_write {
            assert(added[2] == c3[m + 2]);
        }
        assert(all.subrange(0, m) =~= c0);
    }
    r
}

/// The HDR state of a target. Display configuration is a Windows service;
/// elsewhere the request fails.
pub fn hdr_state(target: &DisplayTargetId) -> (r: Result<HdrState, DdcError>)
    ensures
        r matches Err(DdcError::Permanent(m)) && m@
            == "Windows HDR control is only available on Windows"@,
{
    Err(DdcError::Permanent(String::from_str("Windows HDR control is only available on Windows")))
}

/// Changes the HDR setting of a target. Display configuration is a Windows
/// service; elsewhere the request fails.
pub fn set_hdr_enabled(target: &DisplayTargetId, enabled: bool) -> (r: Result<HdrState, DdcError>)
    ensures
        r matches Err(DdcError::Permanent(m)) && m@
            == "Windows HDR control is only available on Windows"@,
{
    Err(DdcError::Permanent(String::from_str("Windows HDR control is only available on Windows")))
}

} // verus!
