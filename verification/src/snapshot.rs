//! Snapshots of a monitor's VCP values and the differences between two of them.
use std::collections::BTreeMap;

use vstd::prelude::*;

use crate::ddc::VcpCode;

verus! {

broadcast use {vstd::laws_cmp::group_laws_cmp, vstd::std_specs::btree::group_btree_axioms};

/// A point in time, in whole seconds since the Unix epoch and the
/// nanoseconds past that second.
#[derive(Debug, Clone, Copy, PartialEq, Eq, Structural)]
pub struct Timestamp {
    pub secs: i64,
    pub nanos: u32,
}

/// The values of a monitor's VCP codes at one moment.
#[derive(Debug, Clone)]
pub struct Snapshot {
    pub monitor: String,
    pub captured_at: Timestamp,
    pub values: BTreeMap<u8, u32>,
}

/// The map that a list of (code, value) pairs describes: a later pair for a
/// code replaces an earlier one.
pub open spec fn pairs_map(pairs: Seq<(u8, u32)>) -> Map<u8, u32>
    decreases pairs.len(),
{
    if pairs.len() == 0 {
        Map::empty()
    } else {
        pairs_map(pairs.drop_last()).insert(pairs.last().0, pairs.last().1)
    }
}

impl Snapshot {
    /// A snapshot of the given values, taken at `captured_at`.
    pub fn from_pairs(monitor: &str, pairs: &[(u8, u32)], captured_at: Timestamp) -> (s: Self)
        ensures
            s.monitor@ == monitor@,
            s.values@ == pairs_map(pairs@),
            s.captured_at == captured_at,
    {
        let mut values: BTreeMap<u8, u32> = BTreeMap::new();
        let mut i: usize = 0;
        while i < pairs.len()
            invariant
                i <= pairs.len(),
                values@ == pairs_map(pairs@.subrange(0, i as int)),
            decreases pairs.len() - i,
        {
            let (code, value) = pairs[i];
            values.insert(code, value);
            assert(pairs@.subrange(0, i as int + 1).drop_last() =~= pairs@.subrange(0, i as int));
            i = i + 1;
        }
        assert(pairs@.subrange(0, pairs@.len() as int) =~= pairs@);
        Snapshot { monitor: String::from_str(monitor), captured_at, values }
    }

    /// The value of a code, if the snapshot holds one.
    pub fn value(&self, code: u8) -> (r: Option<u32>)
        ensures
            r == (if self.values@.contains_key(code) {
                Some(self.values@[code])
            } else {
                None
            }),
    {
        match self.values.get(&code) {
            Some(v) => Some(*v),
            None => None,
        }
    }
}

/// A code whose value differs between two snapshots.
#[derive(Debug, Clone, Copy, PartialEq, Eq, Structural)]
pub struct ChangedValue {
    pub code: VcpCode,
    pub before: u32,
    pub after: u32,
}

/// A code and its value.
#[derive(Debug, Clone, Copy, PartialEq, Eq, Structural)]
pub struct SnapshotValue {
    pub code: VcpCode,
    pub value: u32,
}

/// What changed between two snapshots: the codes present in both with
/// different values, the codes only the later one has, and the codes only
/// the earlier one has; each list in increasing order of code.
#[derive(Debug, Clone)]
pub struct SnapshotDiff {
    pub changed: Vec<ChangedValue>,
    pub added: Vec<SnapshotValue>,
    pub removed: Vec<SnapshotValue>,
}

pub open spec fn is_changed(before: Map<u8, u32>, after: Map<u8, u32>, c: u8) -> bool {
    before.contains_key(c) && after.contains_key(c) && before[c] != after[c]
}

pub open spec fn is_added(before: Map<u8, u32>, after: Map<u8, u32>, c: u8) -> bool {
    !before.contains_key(c) && after.contains_key(c)
}

pub open spec fn is_removed(before: Map<u8, u32>, after: Map<u8, u32>, c: u8) -> bool {
    before.contains_key(c) && !after.contains_key(c)
}

/// The changed values, exactly: in increasing order of code, one for each
/// code whose value differs, with the value before and after.
pub open spec fn changed_list_of(s: Seq<ChangedValue>, before: Map<u8, u32>, after: Map<u8, u32>) -> bool {
    &&& forall|i: int, j: int| 0 <= i < j < s.len() ==> s[i].code.0 < s[j].code.0
    &&& forall|i: int|
        0 <= i < s.len() ==> is_changed(before, after, #[trigger] s[i].code.0) && s[i].before
            == before[s[i].code.0] && s[i].after == after[s[i].code.0]
    &&& forall|c: u8|
        #[trigger] is_changed(before, after, c) ==> exists|i: int|
            0 <= i < s.len() && s[i].code.0 == c
}

/// A list of values, exactly: in increasing order of code, one for each code
/// that `which` selects, with its value in `values`.
pub open spec fn value_list_of(
    s: Seq<SnapshotValue>,
    which: spec_fn(u8) -> bool,
    values: Map<u8, u32>,
) -> bool {
    &&& forall|i: int, j: int| 0 <= i < j < s.len() ==> s[i].code.0 < s[j].code.0
    &&& forall|i: int|
        0 <= i < s.len() ==> which(#[trigger] s[i].code.0) && s[i].value == values[s[i].code.0]
    &&& forall|c: u8| #[trigger] which(c) ==> exists|i: int| 0 <= i < s.len() && s[i].code.0 == c
}

/// `d` is the difference from `before` to `after`.
pub open spec fn is_diff_of(d: SnapshotDiff, before: Map<u8, u32>, after: Map<u8, u32>) -> bool {
    &&& changed_list_of(d.changed@, before, after)
    &&& value_list_of(d.added@, |c: u8| is_added(before, after, c), after)
    &&& value_list_of(d.removed@, |c: u8| is_removed(before, after, c), before)
}

/// Whether some item of a list of changes is about a code.
pub open spec fn changed_mentions(s: Seq<ChangedValue>, c: u8) -> bool {
    exists|i: int| 0 <= i < s.len() && s[i].code.0 == c
}

pub open spec fn values_mention(s: Seq<SnapshotValue>, c: u8) -> bool {
    exists|i: int| 0 <= i < s.len() && s[i].code.0 == c
}

fn lookup(m: &BTreeMap<u8, u32>, c: u8) -> (r: Option<u32>)
    ensures
        r == (if m@.contains_key(c) {
            Some(m@[c])
        } else {
            None
        }),
{
    match m.get(&c) {
        Some(v) => Some(*v),
        None => None,
    }
}

impl SnapshotDiff {
    /// The difference from one snapshot to another.
    pub fn between(before: &Snapshot, after: &Snapshot) -> (d: Self)
        ensures
            is_diff_of(d, before.values@, after.values@),
    {
        let ghost b = before.values@;
        let ghost a = after.values@;
        let mut changed: Vec<ChangedValue> = Vec::new();
        let mut added: Vec<SnapshotValue> = Vec::new();
        let mut removed: Vec<SnapshotValue> = Vec::new();
        let mut next: u16 = 0;
        while next < 256
            invariant
                next <= 256,
                b == before.values@,
                a == after.values@,
                forall|i: int, j: int|
                    0 <= i < j < changed@.len() ==> changed@[i].code.0 < changed@[j].code.0,
                forall|i: int|
                    0 <= i < changed@.len() ==> #[trigger] changed@[i].code.0 < next && is_changed(
                        b,
                        a,
                        changed@[i].code.0,
                    ) && changed@[i].before == b[changed@[i].code.0] && changed@[i].after
                        == a[changed@[i].code.0],
                forall|c: u8|
                    c < next && #[trigger] is_changed(b, a, c) ==> changed_mentions(changed@, c),
                forall|i: int, j: int|
                    0 <= i < j < added@.len() ==> added@[i].code.0 < added@[j].code.0,
                forall|i: int|
                    0 <= i < added@.len() ==> #[trigger] added@[i].code.0 < next && is_added(
                        b,
                        a,
                        added@[i].code.0,
                    ) && added@[i].value == a[added@[i].code.0],
                forall|c: u8| c < next && #[trigger] is_added(b, a, c) ==> values_mention(added@, c),
                forall|i: int, j: int|
                    0 <= i < j < removed@.len() ==> removed@[i].code.0 < removed@[j].code.0,
                forall|i: int|
                    0 <= i < removed@.len() ==> #[trigger] removed@[i].code.0 < next && is_removed(
                        b,
                        a,
                        removed@[i].code.0,
                    ) && removed@[i].value == b[removed@[i].code.0],
                forall|c: u8|
                    c < next && #[trigger] is_removed(b, a, c) ==> values_mention(removed@, c),
            decreases 256 - next,
        {
            let c: u8 = next as u8;
            let old_value = lookup(&before.values, c);
            let new_value = lookup(&after.values, c);
            let ghost changed_before = changed@;
            let ghost added_before = added@;
            let ghost removed_before = removed@;
            match (old_value, new_value) {
                (Some(x), Some(y)) => {
                    if x != y {
                        changed.push(ChangedValue { code: VcpCode(c), before: x, after: y });
                    }
                },
                (Some(x), None) => {
                    removed.push(SnapshotValue { code: VcpCode(c), value: x });
                },
                (None, Some(y)) => {
                    added.push(SnapshotValue { code: VcpCode(c), value: y });
                },
                (None, None) => {},
            }
            proof {
                assert forall|d: u8|
                    d < next + 1 && #[trigger] is_changed(b, a, d) implies changed_mentions(
                    changed@,
                    d,
                ) by {
                    if d < next {
                        let i = choose|i: int|
                            0 <= i < changed_before.len() && changed_before[i].code.0 == d;
                        assert(changed@[i] == changed_before[i]);
                    } else {
                        assert(changed@[changed@.len() - 1].code.0 == d);
                    }
                }
                assert forall|d: u8|
                    d < next + 1 && #[trigger] is_added(b, a, d) implies values_mention(
                    added@,
                    d,
                ) by {
                    if d < next {
                        let i = choose|i: int|
                            0 <= i < added_before.len() && added_before[i].code.0 == d;
                        assert(added@[i] == added_before[i]);
                    } else {
                        assert(added@[added@.len() - 1].code.0 == d);
                    }
                }
                assert forall|d: u8|
                    d < next + 1 && #[trigger] is_removed(b, a, d) implies values_mention(
                    removed@,
                    d,
                ) by {
                    if d < next {
                        let i = choose|i: int|
                            0 <= i < removed_before.len() && removed_before[i].code.0 == d;
                        assert(removed@[i] == removed_before[i]);
                    } else {
                        assert(removed@[removed@.len() - 1].code.0 == d);
                    }
                }
            }
            next = next + 1;
        }
        let d = SnapshotDiff { changed, added, removed };
        proof {
            assert forall|c: u8| #[trigger] is_changed(b, a, c) implies exists|i: int|
                0 <= i < d.changed@.len() && d.changed@[i].code.0 == c by {
                assert(changed_mentions(changed@, c));
                let i = choose|i: int| 0 <= i < changed@.len() && changed@[i].code.0 == c;
                assert(d.changed@[i].code.0 == c);
            }
            assert forall|c: u8| #[trigger] is_added(b, a, c) implies exists|i: int|
                0 <= i < d.added@.len() && d.added@[i].code.0 == c by {
                assert(values_mention(added@, c));
                let i = choose|i: int| 0 <= i < added@.len() && added@[i].code.0 == c;
                assert(d.added@[i].code.0 == c);
            }
            assert forall|c: u8| #[trigger] is_removed(b, a, c) implies exists|i: int|
                0 <= i < d.removed@.len() && d.removed@[i].code.0 == c by {
                assert(values_mention(removed@, c));
                let i = choose|i: int| 0 <= i < removed@.len() && removed@[i].code.0 == c;
                assert(d.removed@[i].code.0 == c);
            }
        }
        d
    }

    /// The values before and after of a changed code.
    pub fn changed_value(&self, code: u8) -> (r: Option<(u32, u32)>)
        ensures
            match r {
                Some((x, y)) => exists|i: int|
                    0 <= i < self.changed@.len() && self.changed@[i] == (ChangedValue {
                        code: VcpCode(code),
                        before: x,
                        after: y,
                    }),
                None => !changed_mentions(self.changed@, code),
            },
    {
        let mut i: usize = 0;
        while i < self.changed.len()
            invariant
                i <= self.changed.len(),
                forall|j: int| 0 <= j < i ==> self.changed@[j].code.0 != code,
            decreases self.changed.len() - i,
        {
            let v = self.changed[i];
            if v.code.0 == code {
                return Some((v.before, v.after));
            }
            i = i + 1;
        }
        None
    }

    /// The value of an added code.
    pub fn added_value(&self, code: u8) -> (r: Option<u32>)
        ensures
            match r {
                Some(v) => exists|i: int|
                    0 <= i < self.added@.len() && self.added@[i] == (SnapshotValue {
                        code: VcpCode(code),
                        value: v,
                    }),
                None => !values_mention(self.added@, code),
            },
    {
        find_value(&self.added, code)
    }

    /// The last value of a removed code.
    pub fn removed_value(&self, code: u8) -> (r: Option<u32>)
        ensures
            match r {
                Some(v) => exists|i: int|
                    0 <= i < self.removed@.len() && self.removed@[i] == (SnapshotValue {
                        code: VcpCode(code),
                        value: v,
                    }),
                None => !values_mention(self.removed@, code),
            },
    {
        find_value(&self.removed, code)
    }

    /// Whether the code changed, appeared or disappeared.
    pub fn has_change(&self, code: u8) -> (r: bool)
        ensures
            r == (changed_mentions(self.changed@, code) || values_mention(self.added@, code)
                || values_mention(self.removed@, code)),
    {
        self.changed_value(code).is_some() || self.added_value(code).is_some()
            || self.removed_value(code).is_some()
    }
}

fn find_value(values: &Vec<SnapshotValue>, code: u8) -> (r: Option<u32>)
    ensures
        match r {
            Some(v) => exists|i: int|
                0 <= i < values@.len() && values@[i] == (SnapshotValue {
                    code: VcpCode(code),
                    value: v,
                }),
            None => !values_mention(values@, code),
        },
{
    let mut i: usize = 0;
    while i < values.len()
        invariant
            i <= values.len(),
            forall|j: int| 0 <= j < i ==> values@[j].code.0 != code,
        decreases values.len() - i,
    {
        let v = values[i];
        if v.code.0 == code {
            return Some(v.value);
        }
        i = i + 1;
    }
    None
}

/// The difference of a snapshot from itself is empty.
pub proof fn law_diff_with_itself_is_empty(d: SnapshotDiff, values: Map<u8, u32>)
    requires
        is_diff_of(d, values, values),
    ensures
        d.changed@.len() == 0,
        d.added@.len() == 0,
        d.removed@.len() == 0,
{
    if d.changed@.len() > 0 {
        assert(is_changed(values, values, d.changed@[0].code.0));
    }
    if d.added@.len() > 0 {
        assert((|c: u8| is_added(values, values, c))(d.added@[0].code.0));
    }
    if d.removed@.len() > 0 {
        assert((|c: u8| is_removed(values, values, c))(d.removed@[0].code.0));
    }
}

/// A diff reports a code exactly when the two snapshots disagree on it:
/// different values, or a value on one side only.
pub proof fn law_diff_reports_exactly_the_differing_codes(
    d: SnapshotDiff,
    before: Map<u8, u32>,
    after: Map<u8, u32>,
    c: u8,
)
    requires
        is_diff_of(d, before, after),
    ensures
        (changed_mentions(d.changed@, c) || values_mention(d.added@, c) || values_mention(
            d.removed@,
            c,
        )) <==> (before.contains_key(c) != after.contains_key(c) || (before.contains_key(c)
            && before[c] != after[c])),
{
    if changed_mentions(d.changed@, c) {
        let i = choose|i: int| 0 <= i < d.changed@.len() && d.changed@[i].code.0 == c;
        assert(is_changed(before, after, d.changed@[i].code.0));
    }
    if values_mention(d.added@, c) {
        let i = choose|i: int| 0 <= i < d.added@.len() && d.added@[i].code.0 == c;
        assert((|c: u8| is_added(before, after, c))(d.added@[i].code.0));
    }
    if values_mention(d.removed@, c) {
        let i = choose|i: int| 0 <= i < d.removed@.len() && d.removed@[i].code.0 == c;
        assert((|c: u8| is_removed(before, after, c))(d.removed@[i].code.0));
    }
    if is_changed(before, after, c) {
        assert(changed_mentions(d.changed@, c));
    }
    if is_added(before, after, c) {
        assert((|c: u8| is_added(before, after, c))(c));
    }
    if is_removed(before, after, c) {
        assert((|c: u8| is_removed(before, after, c))(c));
    }
}

} // verus!
