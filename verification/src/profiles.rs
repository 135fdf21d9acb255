//! The built-in profile and the catalog of profiles by model.
use vstd::prelude::*;

use crate::ddc::{VcpCode, VcpValue};
use crate::profile::{distinct_values, ControlDefinition, ControlKind, MonitorProfile, ProfileIdentity, QuickAction};
use crate::text::str_eq;

verus! {

/// A control's name, code, kind and write permission.
pub open spec fn control_is(
    c: ControlDefinition,
    name: Seq<char>,
    code: u8,
    kind: ControlKind,
    safe: bool,
) -> bool {
    c.name@ == name && c.vcp.0 == code && c.kind == kind && c.safe_write == safe
}

/// The built-in U4025QW profile: brightness, contrast and the input source
/// may be written; Smart HDR and the hardware KVM are vendor controls that
/// may not. Each control and quick action carries its label; only the input
/// has a table of values.
pub open spec fn is_u4025qw_profile(p: MonitorProfile) -> bool {
    &&& p.controls.len() == 5 ==> {
        &&& p.controls@[0].label@ == "Brightness"@ && p.controls@[0].values.len() == 0
        &&& p.controls@[1].label@ == "Contrast"@ && p.controls@[1].values.len() == 0
        &&& p.controls@[2].label@ == "Input Source"@
        &&& p.controls@[3].label@ == "Smart HDR"@ && p.controls@[3].values.len() == 0
        &&& p.controls@[4].label@ == "Hardware KVM"@ && p.controls@[4].values.len() == 0
    }
    &&& p.quick_actions.len() == 3 ==> {
        &&& p.quick_actions@[0].label@ == "Switch to USB-C"@
        &&& p.quick_actions@[1].label@ == "Switch to DisplayPort"@
        &&& p.quick_actions@[2].label@ == "Switch to HDMI"@
    }
    &&& p.identity.manufacturer@ == "DEL"@
    &&& p.identity.model@ == "U4025QW"@
    &&& p.controls.len() == 5
    &&& control_is(p.controls@[0], "brightness"@, 0x10, ControlKind::Continuous, true)
    &&& control_is(p.controls@[1], "contrast"@, 0x12, ControlKind::Continuous, true)
    &&& control_is(p.controls@[2], "input"@, 0x60, ControlKind::Enum, true)
    &&& control_is(p.controls@[3], "smart-hdr"@, 0xE2, ControlKind::Enum, false)
    &&& control_is(p.controls@[4], "hardware-kvm"@, 0xE7, ControlKind::Enum, false)
    &&& p.controls@[2].values.len() == 3
    &&& distinct_values(p.controls@[2].values@)
    &&& p.controls@[2].values@[0].0.0 == 0x0F && p.controls@[2].values@[0].1@ == "DisplayPort"@
    &&& p.controls@[2].values@[1].0.0 == 0x11 && p.controls@[2].values@[1].1@ == "HDMI"@
    &&& p.controls@[2].values@[2].0.0 == 0x19 && p.controls@[2].values@[2].1@ == "USB-C"@
    &&& p.quick_actions.len() == 3
    &&& p.quick_actions@[0].name@ == "usb-c"@ && p.quick_actions@[0].control@ == "input"@
        && p.quick_actions@[0].value.0 == 0x19
    &&& p.quick_actions@[1].name@ == "displayport"@ && p.quick_actions@[1].control@ == "input"@
        && p.quick_actions@[1].value.0 == 0x0F
    &&& p.quick_actions@[2].name@ == "hdmi"@ && p.quick_actions@[2].control@ == "input"@
        && p.quick_actions@[2].value.0 == 0x11
}

fn control(name: &str, label: &str, code: u8, kind: ControlKind, safe_write: bool) -> (c:
    ControlDefinition)
    ensures
        control_is(c, name@, code, kind, safe_write),
        c.label@ == label@,
        c.values.len() == 0,
{
    ControlDefinition {
        name: String::from_str(name),
        label: String::from_str(label),
        vcp: VcpCode::new(code),
        kind,
        safe_write,
        values: Vec::new(),
    }
}

fn input_action(name: &str, label: &str, value: u32) -> (a: QuickAction)
    ensures
        a.name@ == name@,
        a.label@ == label@,
        a.control@ == "input"@,
        a.value.0 == value,
{
    QuickAction {
        name: String::from_str(name),
        label: String::from_str(label),
        control: String::from_str("input"),
        value: VcpValue::new(value),
    }
}

/// The built-in profile of the Dell U4025QW.
pub fn u4025qw_profile() -> (p: MonitorProfile)
    ensures
        is_u4025qw_profile(p),
{
    let mut input = control("input", "Input Source", 0x60, ControlKind::Enum, true);
    input.values.push((VcpValue::new(0x0F), String::from_str("DisplayPort")));
    input.values.push((VcpValue::new(0x11), String::from_str("HDMI")));
    input.values.push((VcpValue::new(0x19), String::from_str("USB-C")));
    let mut controls: Vec<ControlDefinition> = Vec::new();
    controls.push(control("brightness", "Brightness", 0x10, ControlKind::Continuous, true));
    controls.push(control("contrast", "Contrast", 0x12, ControlKind::Continuous, true));
    controls.push(input);
    controls.push(control("smart-hdr", "Smart HDR", 0xE2, ControlKind::Enum, false));
    controls.push(control("hardware-kvm", "Hardware KVM", 0xE7, ControlKind::Enum, false));
    let mut quick_actions: Vec<QuickAction> = Vec::new();
    quick_actions.push(input_action("usb-c", "Switch to USB-C", 0x19));
    quick_actions.push(input_action("displayport", "Switch to DisplayPort", 0x0F));
    quick_actions.push(input_action("hdmi", "Switch to HDMI", 0x11));
    MonitorProfile {
        identity: ProfileIdentity {
            manufacturer: String::from_str("DEL"),
            model: String::from_str("U4025QW"),
        },
        controls,
        quick_actions,
    }
}

/// The built-in profile of a model, if there is one.
pub fn profile_for_model(model: Option<&str>) -> (r: Option<MonitorProfile>)
    ensures
        match r {
            Some(p) => model is Some && model->Some_0@ == "U4025QW"@ && is_u4025qw_profile(p),
            None => !(model is Some && model->Some_0@ == "U4025QW"@),
        },
{
    match model {
        Some(m) => {
            if str_eq(m, "U4025QW") {
                Some(u4025qw_profile())
            } else {
                None
            }
        },
        None => None,
    }
}

/// The index of the first profile of a model.
pub open spec fn profile_of_model(s: Seq<MonitorProfile>, model: Seq<char>) -> Option<int> {
    if exists|i: int| 0 <= i < s.len() && s[i].identity.model@ == model {
        Some(
            choose|i: int|
                0 <= i < s.len() && s[i].identity.model@ == model && forall|j: int|
                    0 <= j < i ==> s[j].identity.model@ != model,
        )
    } else {
        None
    }
}

/// Profiles by model; a profile added later replaces the one of the same model.
#[derive(Debug)]
pub struct ProfileCatalog {
    profiles: Vec<MonitorProfile>,
}

proof fn lemma_earliest_exists(s: Seq<MonitorProfile>, model: Seq<char>, i: int)
    requires
        0 <= i < s.len(),
        s[i].identity.model@ == model,
    ensures
        exists|k: int|
            0 <= k <= i && s[k].identity.model@ == model && forall|j: int|
                0 <= j < k ==> s[j].identity.model@ != model,
    decreases i,
{
    if exists|j: int| 0 <= j < i && s[j].identity.model@ == model {
        let j = choose|j: int| 0 <= j < i && s[j].identity.model@ == model;
        lemma_earliest_exists(s, model, j);
    } else {
        assert(forall|j: int| 0 <= j < i ==> s[j].identity.model@ != model);
    }
}

proof fn lemma_profile_of_model(s: Seq<MonitorProfile>, model: Seq<char>)
    ensures
        match profile_of_model(s, model) {
            Some(i) => 0 <= i < s.len() && s[i].identity.model@ == model && forall|j: int|
                0 <= j < i ==> s[j].identity.model@ != model,
            None => forall|j: int| 0 <= j < s.len() ==> s[j].identity.model@ != model,
        },
{
    if exists|i: int| 0 <= i < s.len() && s[i].identity.model@ == model {
        let i = choose|i: int| 0 <= i < s.len() && s[i].identity.model@ == model;
        lemma_earliest_exists(s, model, i);
    }
}

proof fn lemma_first_profile(s: Seq<MonitorProfile>, model: Seq<char>, i: int)
    requires
        0 <= i < s.len(),
        s[i].identity.model@ == model,
        forall|j: int| 0 <= j < i ==> s[j].identity.model@ != model,
    ensures
        profile_of_model(s, model) == Some(i),
{
    let k = profile_of_model(s, model)->Some_0;
    if k < i {
        assert(s[k].identity.model@ != model);
    }
    if i < k {
        assert(s[i].identity.model@ != model);
    }
}

/// No two profiles of a sequence are of the same model.
pub open spec fn distinct_models(s: Seq<MonitorProfile>) -> bool {
    forall|i: int, j: int|
        0 <= i < j < s.len() ==> #[trigger] s[i].identity.model@ != #[trigger] s[j].identity.model@
}

impl ProfileCatalog {
    /// A catalog holds at most one profile of each model.
    #[verifier::type_invariant]
    closed spec fn one_profile_per_model(self) -> bool {
        distinct_models(self.profiles@)
    }

    /// The profiles in the catalog, in the order they were first added.
    pub closed spec fn profiles_view(&self) -> Seq<MonitorProfile> {
        self.profiles@
    }

    /// A catalog that holds the built-in profile.
    pub fn with_builtin() -> (c: Self)
        ensures
            c.profiles_view().len() == 1,
            is_u4025qw_profile(c.profiles_view()[0]),
            distinct_models(c.profiles_view()),
    {
        let mut profiles: Vec<MonitorProfile> = Vec::new();
        profiles.push(u4025qw_profile());
        ProfileCatalog { profiles }
    }

    /// Adds a profile; one of the same model is replaced in place.
    pub fn insert(&mut self, profile: MonitorProfile)
        ensures
            distinct_models(final(self).profiles_view()),
            match profile_of_model(old(self).profiles_view(), profile.identity.model@) {
                Some(i) => final(self).profiles_view() == old(self).profiles_view().update(i, profile),
                None => final(self).profiles_view() == old(self).profiles_view().push(profile),
            },
    {
        proof {
            use_type_invariant(&*self);
        }
        let mut profiles: Vec<MonitorProfile> = Vec::new();
        std::mem::swap(&mut profiles, &mut self.profiles);
        let ghost before = profiles@;
        assert(before == old(self).profiles@);
        let mut i: usize = 0;
        while i < profiles.len()
            invariant
                i <= profiles.len(),
                profiles@ == before,
                before == old(self).profiles_view(),
                distinct_models(before),
                forall|j: int| 0 <= j < i ==> profiles@[j].identity.model@ != profile.identity.model@,
            decreases profiles.len() - i,
        {
            if str_eq(profiles[i].identity.model.as_str(), profile.identity.model.as_str()) {
                proof {
                    lemma_first_profile(profiles@, profile.identity.model@, i as int);
                }
                profiles.set(i, profile);
                proof {
                    assert forall|a: int, b: int| 0 <= a < b < profiles@.len() implies
                        #[trigger] profiles@[a].identity.model@ != #[trigger] profiles@[b].identity.model@ by {
                        if a != i as int && b != i as int {
                            assert(before[a].identity.model@ != before[b].identity.model@);
                        } else if a == i as int {
                            assert(before[a].identity.model@ != before[b].identity.model@);
                        } else {
                            assert(before[a].identity.model@ != before[b].identity.model@);
                        }
                    }
                }
                self.profiles = profiles;
                return;
            }
            i = i + 1;
        }
        profiles.push(profile);
        proof {
            assert forall|a: int, b: int| 0 <= a < b < profiles@.len() implies
                #[trigger] profiles@[a].identity.model@ != #[trigger] profiles@[b].identity.model@ by {
                if b < before.len() {
                    assert(before[a].identity.model@ != before[b].identity.model@);
                } else {
                    assert(profiles@[b] == profile);
                    assert(profiles@[a] == before[a]);
                }
            }
        }
        self.profiles = profiles;
    }

    /// The profile of a model.
    pub fn for_model(&self, model: &str) -> (r: Option<&MonitorProfile>)
        ensures
            match profile_of_model(self.profiles_view(), model@) {
                Some(i) => r == Some(&self.profiles_view()[i]),
                None => r is None,
            },
    {
        let mut i: usize = 0;
        while i < self.profiles.len()
            invariant
                i <= self.profiles.len(),
                forall|j: int| 0 <= j < i ==> self.profiles@[j].identity.model@ != model@,
            decreases self.profiles.len() - i,
        {
            if str_eq(self.profiles[i].identity.model.as_str(), model) {
                proof {
                    lemma_first_profile(self.profiles@, model@, i as int);
                }
                return Some(&self.profiles[i]);
            }
            i = i + 1;
        }
        None
    }
}

/// After a profile is added, looking up its model finds exactly that profile:
/// a user profile overrides the built-in one of the same model.
pub proof fn law_inserted_profile_is_found(
    before: Seq<MonitorProfile>,
    after: Seq<MonitorProfile>,
    profile: MonitorProfile,
)
    requires
        match profile_of_model(before, profile.identity.model@) {
            Some(i) => after == before.update(i, profile),
            None => after == before.push(profile),
        },
    ensures
        profile_of_model(after, profile.identity.model@) matches Some(k) && after[k] == profile,
{
    let m = profile.identity.model@;
    lemma_profile_of_model(before, m);
    match profile_of_model(before, m) {
        Some(i) => {
            assert forall|j: int| 0 <= j < i implies after[j].identity.model@ != m by {
                assert(after[j] == before[j]);
            }
            lemma_first_profile(after, m, i);
        },
        None => {
            let n = before.len() as int;
            assert forall|j: int| 0 <= j < n implies after[j].identity.model@ != m by {
                assert(after[j] == before[j]);
            }
            lemma_first_profile(after, m, n);
        },
    }
}

} // verus!
