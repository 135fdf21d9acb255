//! Monitor profiles: the named controls of a model, which of them may be
//! written, and the labels of their enumerated values; the built-in profile
//! and the catalog of profiles by model.
use vstd::prelude::*;

use crate::ddc::{VcpCode, VcpValue};
use crate::text::str_eq;

verus! {

/// A monitor as the system enumerates it.
#[derive(Debug, Clone, PartialEq, Eq, PartialOrd, Ord, Hash)]
pub struct MonitorId(pub String);

#[derive(Debug, Clone, PartialEq, Eq)]
pub struct PhysicalMonitor {
    pub id: MonitorId,
    pub description: String,
    pub model: Option<String>,
}

#[derive(Debug, Clone, PartialEq, Eq)]
pub struct ProfileIdentity {
    pub manufacturer: String,
    pub model: String,
}

#[derive(Debug, Clone, Copy, PartialEq, Eq, Structural)]
pub enum ControlKind {
    Continuous,
    Enum,
    Momentary,
}

/// One control of a profile.
#[derive(Debug, Clone, PartialEq, Eq)]
pub struct ControlDefinition {
    pub name: String,
    pub label: String,
    pub vcp: VcpCode,
    pub kind: ControlKind,
    pub safe_write: bool,
    /// Labels of enumerated values, one per value.
    pub values: Vec<(VcpValue, String)>,
}

#[derive(Debug, Clone, PartialEq, Eq)]
pub struct QuickAction {
    pub name: String,
    pub label: String,
    pub control: String,
    pub value: VcpValue,
}

#[derive(Debug, Clone, PartialEq, Eq)]
pub struct MonitorProfile {
    pub identity: ProfileIdentity,
    pub controls: Vec<ControlDefinition>,
    pub quick_actions: Vec<QuickAction>,
}

#[derive(Debug, Clone, PartialEq, Eq)]
pub struct KvmRoute {
    pub input: VcpValue,
    pub usb_upstream: Option<VcpValue>,
}

/// The index of the first control with the given name.
pub open spec fn control_named(controls: Seq<ControlDefinition>, name: Seq<char>) -> Option<int> {
    if exists|i: int| 0 <= i < controls.len() && controls[i].name@ == name {
        Some(
            choose|i: int|
                0 <= i < controls.len() && controls[i].name@ == name && forall|j: int|
                    0 <= j < i ==> controls[j].name@ != name,
        )
    } else {
        None
    }
}

/// The index of the first control with the given VCP code.
pub open spec fn control_with_code(controls: Seq<ControlDefinition>, code: u8) -> Option<int> {
    if exists|i: int| 0 <= i < controls.len() && controls[i].vcp.0 == code {
        Some(
            choose|i: int|
                0 <= i < controls.len() && controls[i].vcp.0 == code && forall|j: int|
                    0 <= j < i ==> controls[j].vcp.0 != code,
        )
    } else {
        None
    }
}

/// The index of the first quick action with the given name.
pub open spec fn action_named(actions: Seq<QuickAction>, name: Seq<char>) -> Option<int> {
    if exists|i: int| 0 <= i < actions.len() && actions[i].name@ == name {
        Some(
            choose|i: int|
                0 <= i < actions.len() && actions[i].name@ == name && forall|j: int|
                    0 <= j < i ==> actions[j].name@ != name,
        )
    } else {
        None
    }
}

/// The label of the first entry for a value.
pub open spec fn label_of(values: Seq<(VcpValue, String)>, value: u32) -> Option<Seq<char>> {
    if exists|i: int| 0 <= i < values.len() && values[i].0.0 == value {
        Some(
            values[choose|i: int|
                0 <= i < values.len() && values[i].0.0 == value && forall|j: int|
                    0 <= j < i ==> values[j].0.0 != value].1@,
        )
    } else {
        None
    }
}

/// A first match is unique: the spec functions above pick that index.
proof fn lemma_first_index_unique(i: int, k: int, p: spec_fn(int) -> bool)
    requires
        p(i),
        p(k),
        forall|j: int| 0 <= j < i ==> !#[trigger] p(j),
        forall|j: int| 0 <= j < k ==> !#[trigger] p(j),
        0 <= i,
        0 <= k,
    ensures
        i == k,
{
    if i < k {
        assert(!p(i));
    } else if k < i {
        assert(!p(k));
    }
}

impl MonitorProfile {
    /// The first control with the given name.
    pub fn control(&self, name: &str) -> (r: Option<&ControlDefinition>)
        ensures
            match control_named(self.controls@, name@) {
                Some(i) => r == Some(&self.controls@[i]),
                None => r is None,
            },
    {
        let mut i: usize = 0;
        while i < self.controls.len()
            invariant
                i <= self.controls.len(),
                forall|j: int| 0 <= j < i ==> self.controls@[j].name@ != name@,
            decreases self.controls.len() - i,
        {
            if str_eq(self.controls[i].name.as_str(), name) {
                proof {
                    let k = control_named(self.controls@, name@)->Some_0;
                    lemma_first_index_unique(
                        i as int,
                        k,
                        |j: int| 0 <= j < self.controls.len() && self.controls@[j].name@ == name@,
                    );
                }
                return Some(&self.controls[i]);
            }
            i = i + 1;
        }
        None
    }

    /// The first control with the given VCP code.
    pub fn control_by_vcp(&self, code: VcpCode) -> (r: Option<&ControlDefinition>)
        ensures
            match control_with_code(self.controls@, code.0) {
                Some(i) => r == Some(&self.controls@[i]),
                None => r is None,
            },
    {
        let mut i: usize = 0;
        while i < self.controls.len()
            invariant
                i <= self.controls.len(),
                forall|j: int| 0 <= j < i ==> self.controls@[j].vcp.0 != code.0,
            decreases self.controls.len() - i,
        {
            if self.controls[i].vcp.0 == code.0 {
                proof {
                    let k = control_with_code(self.controls@, code.0)->Some_0;
                    lemma_first_index_unique(
                        i as int,
                        k,
                        |j: int| 0 <= j < self.controls.len() && self.controls@[j].vcp.0 == code.0,
                    );
                }
                return Some(&self.controls[i]);
            }
            i = i + 1;
        }
        None
    }

    /// The first quick action with the given name.
    pub fn quick_action(&self, name: &str) -> (r: Option<&QuickAction>)
        ensures
            match action_named(self.quick_actions@, name@) {
                Some(i) => r == Some(&self.quick_actions@[i]),
                None => r is None,
            },
    {
        let mut i: usize = 0;
        while i < self.quick_actions.len()
            invariant
                i <= self.quick_actions.len(),
                forall|j: int| 0 <= j < i ==> self.quick_actions@[j].name@ != name@,
            decreases self.quick_actions.len() - i,
        {
            if str_eq(self.quick_actions[i].name.as_str(), name) {
                proof {
                    let k = action_named(self.quick_actions@, name@)->Some_0;
                    lemma_first_index_unique(
                        i as int,
                        k,
                        |j: int| 0 <= j < self.quick_actions.len() && self.quick_actions@[j].name@
                            == name@,
                    );
                }
                return Some(&self.quick_actions[i]);
            }
            i = i + 1;
        }
        None
    }

    /// A named control may be written only when the profile marks it safe.
    pub fn can_write_control(&self, name: &str) -> (r: bool)
        ensures
            r == (match control_named(self.controls@, name@) {
                Some(i) => self.controls@[i].safe_write,
                None => false,
            }),
    {
        match self.control(name) {
            Some(control) => control.safe_write,
            None => false,
        }
    }

    /// A raw VCP code may be written only when a safe control uses it.
    pub fn can_write_vcp(&self, code: u8) -> (r: bool)
        ensures
            r == (match control_with_code(self.controls@, code) {
                Some(i) => self.controls@[i].safe_write,
                None => false,
            }),
    {
        match self.control_by_vcp(VcpCode::new(code)) {
            Some(control) => control.safe_write,
            None => false,
        }
    }
}

/// No value of a table is labelled twice.
pub open spec fn distinct_values(values: Seq<(VcpValue, String)>) -> bool {
    forall|i: int, j: int| 0 <= i < j < values.len() ==> #[trigger] values[i].0.0 != #[trigger] values[j].0.0
}

impl ControlDefinition {
    /// Labels a value: the label of a value already in the table is
    /// replaced in place, a new value is added at the end. A table without
    /// repeated values keeps none.
    pub fn set_value_label(&mut self, value: VcpValue, label: String)
        ensures
            final(self).name == old(self).name,
            final(self).label == old(self).label,
            final(self).vcp == old(self).vcp,
            final(self).kind == old(self).kind,
            final(self).safe_write == old(self).safe_write,
            distinct_values(old(self).values@) ==> distinct_values(final(self).values@),
            ({
                let vs = old(self).values@;
                if exists|k: int| 0 <= k < vs.len() && vs[k].0.0 == value.0 {
                    exists|k: int|
                        0 <= k < vs.len() && vs[k].0.0 == value.0 && forall|j: int|
                            0 <= j < k ==> vs[j].0.0 != value.0 && final(self).values@ == vs.update(
                            k,
                            (value, label),
                        )
                } else {
                    final(self).values@ == vs.push((value, label))
                }
            }),
    {
        let ghost vs = self.values@;
        let mut i: usize = 0;
        while i < self.values.len()
            invariant
                i <= self.values.len(),
                self.values@ == vs,
                vs == old(self).values@,
                self.name == old(self).name && self.label == old(self).label,
                self.vcp == old(self).vcp && self.kind == old(self).kind,
                self.safe_write == old(self).safe_write,
                forall|j: int| 0 <= j < i ==> self.values@[j].0.0 != value.0,
            decreases self.values.len() - i,
        {
            if self.values[i].0.0 == value.0 {
                self.values.set(i, (value, label));
                proof {
                    let k = i as int;
                    assert(0 <= k < vs.len() && vs[k].0.0 == value.0 && forall|j: int|
                        0 <= j < k ==> vs[j].0.0 != value.0 && self.values@ == vs.update(
                        k,
                        (value, label),
                    ));
                    assert forall|a: int, b: int| 0 <= a < b < self.values@.len() && distinct_values(vs)
                        implies #[trigger] self.values@[a].0.0 != #[trigger] self.values@[b].0.0 by {
                        assert(vs[a].0.0 != vs[b].0.0);
                    }
                }
                return;
            }
            i = i + 1;
        }
        self.values.push((value, label));
        proof {
            assert forall|a: int, b: int| 0 <= a < b < self.values@.len() && distinct_values(vs)
                implies #[trigger] self.values@[a].0.0 != #[trigger] self.values@[b].0.0 by {
                if b < vs.len() {
                    assert(vs[a].0.0 != vs[b].0.0);
                }
            }
        }
    }

    /// The label of a value; packed MCCS values fall back to their low byte.
    pub fn value_label(&self, value: u32) -> (r: Option<&str>)
        ensures
            match label_of(self.values@, value) {
                Some(l) => r is Some && r->Some_0@ == l,
                None => match label_of(self.values@, value & 0xFF) {
                    Some(l) => r is Some && r->Some_0@ == l,
                    None => r is None,
                },
            },
    {
        match self.label_for(value) {
            Some(l) => Some(l),
            None => self.label_for(value & 0xFF),
        }
    }

    fn label_for(&self, value: u32) -> (r: Option<&str>)
        ensures
            match label_of(self.values@, value) {
                Some(l) => r is Some && r->Some_0@ == l,
                None => r is None,
            },
    {
        let mut i: usize = 0;
        while i < self.values.len()
            invariant
                i <= self.values.len(),
                forall|j: int| 0 <= j < i ==> self.values@[j].0.0 != value,
            decreases self.values.len() - i,
        {
            if self.values[i].0.0 == value {
                proof {
                    let k = choose|k: int|
                        0 <= k < self.values.len() && self.values@[k].0.0 == value && forall|j: int|
                            0 <= j < k ==> self.values@[j].0.0 != value;
                    lemma_first_index_unique(
                        i as int,
                        k,
                        |j: int| 0 <= j < self.values.len() && self.values@[j].0.0 == value,
                    );
                }
                return Some(self.values[i].1.as_str());
            }
            i = i + 1;
        }
        None
    }
}

} // verus!
