//! Committing and clearing a global shortcut: the binding is changed first,
//! and the settings then show what became of it.
use vstd::prelude::*;

use crate::app_controller::{
    normalized_shortcut, settled_shortcut, shortcut_of, with_shortcut, AppController,
    ControllerModel,
};
use crate::controller_types::{shortcut_default, ShortcutTarget};
use crate::hotkeys::{
    call_reply, calls_since, display_shortcut_hotkey, is_unregister, new_key, registration_calls,
    registration_error_text, AssignmentOutcome, BindingView, HotKeyRegistrar, RegistrarCall,
    ShortcutHotkeys,
};
use crate::persistence::PersistedSettings;
use crate::text::str_eq;

verus! {

/// The settings after a shortcut was bound to `target`: it shows the
/// shortcut, and a target that lost its hotkey shows none.
pub open spec fn after_registration(
    m: ControllerModel,
    target: ShortcutTarget,
    shortcut: Seq<char>,
    displaced: Option<ShortcutTarget>,
) -> ControllerModel {
    let m1 = with_shortcut(m, target, settled_shortcut(shortcut, Seq::empty()));
    match displaced {
        Some(d) => if d != target {
            with_shortcut(m1, d, shortcut_default())
        } else {
            m1
        },
        None => m1,
    }
}

/// The settings after a refused change: the shortcut shown before, with the
/// reason.
pub open spec fn after_refusal(m: ControllerModel, target: ShortcutTarget, error: Seq<char>) -> ControllerModel {
    with_shortcut(m, target, settled_shortcut(shortcut_of(m, target).value, error))
}

/// The registrar calls made between two states of the bindings, the later
/// one extending the call log of the earlier.
pub open spec fn calls_between<R: HotKeyRegistrar>(
    before: ShortcutHotkeys<R>,
    after: ShortcutHotkeys<R>,
) -> Seq<RegistrarCall> {
    calls_since(after.registrar_calls(), before.registrar_calls().len() as int)
}

pub open spec fn extends_calls<R: HotKeyRegistrar>(
    before: ShortcutHotkeys<R>,
    after: ShortcutHotkeys<R>,
) -> bool {
    after.registrar_calls().len() >= before.registrar_calls().len() && after.registrar_calls().subrange(
        0,
        before.registrar_calls().len() as int,
    ) == before.registrar_calls()
}

/// The bindings after `target` took `id` (shown as `display`) from the
/// target that held it.
pub open spec fn bindings_after_move<R: HotKeyRegistrar>(
    before: ShortcutHotkeys<R>,
    after: ShortcutHotkeys<R>,
    target: ShortcutTarget,
    display: Seq<char>,
    id: u32,
) -> bool {
    let displaced = before.target_bound_to(id);
    forall|t: ShortcutTarget|
        after.binding(t) == (if t == target {
            Some(BindingView { display, id })
        } else if Some(t) == displaced {
            None
        } else {
            before.binding(t)
        })
}

/// Binds a shortcut to a target and shows the outcome in the settings: the
/// new shortcut when it was bound (the target it was taken from showing
/// none), the previous one with the reason when it was refused.
pub fn commit_shortcut<R: HotKeyRegistrar>(
    controller: &mut AppController,
    hotkeys: &mut ShortcutHotkeys<R>,
    target: ShortcutTarget,
    shortcut: String,
)
    requires
        old(hotkeys).wf(),
    ensures
        final(hotkeys).wf(),
        ({
            let normalized = normalized_shortcut(shortcut@);
            match display_shortcut_hotkey(normalized) {
                Err(message) => final(controller)@ == after_refusal(
                    old(controller)@,
                    target,
                    message,
                ) && forall|t: ShortcutTarget| final(hotkeys).binding(t) == old(hotkeys).binding(t),
                Ok(id) => if old(hotkeys).bound_to(target, id) {
                    final(controller)@ == after_registration(
                        old(controller)@,
                        target,
                        shortcut@,
                        None,
                    ) && forall|t: ShortcutTarget|
                        final(hotkeys).binding(t) == old(hotkeys).binding(t)
                } else {
                    exists|r: Result<AssignmentOutcome, String>|
                        #[trigger] registration_calls(
                            *old(hotkeys),
                            target,
                            new_key(normalized),
                            calls_between(*old(hotkeys), *final(hotkeys)),
                            r,
                        ) && match r {
                            Ok(_) => final(controller)@ == after_registration(
                                old(controller)@,
                                target,
                                shortcut@,
                                old(hotkeys).target_bound_to(id),
                            ) && bindings_after_move(
                                *old(hotkeys),
                                *final(hotkeys),
                                target,
                                normalized,
                                id,
                            ),
                            Err(m) => final(controller)@ == after_refusal(
                                old(controller)@,
                                target,
                                m@,
                            ) && forall|t: ShortcutTarget|
                                final(hotkeys).binding(t) == old(hotkeys).binding(t),
                        }
                },
            }
        }),
        extends_calls(*old(hotkeys), *final(hotkeys)),
        ({
            let normalized = normalized_shortcut(shortcut@);
            match display_shortcut_hotkey(normalized) {
                Err(_) => calls_between(*old(hotkeys), *final(hotkeys)).len() == 0,
                Ok(id) => old(hotkeys).bound_to(target, id) ==> calls_between(
                    *old(hotkeys),
                    *final(hotkeys),
                ).len() == 0,
            }
        }),
{
    let ghost old_controller = controller@;
    let previous_value = String::from_str(controller.shortcut_value(target));
    let result = hotkeys.register_shortcut(target, shortcut.as_str());
    let ghost outcome_of_call = result;
    match result {
        Ok(outcome) => {
            controller.apply_shortcut_registration_success(
                target,
                shortcut,
                outcome.displaced_target,
            );
        },
        Err(error) => {
            let ghost e = error@;
            controller.apply_shortcut_registration_failure(target, previous_value, error);
            assert(controller@ == after_refusal(old_controller, target, e));
        },
    }
    proof {
        let normalized = normalized_shortcut(shortcut@);
        if let Ok(id) = display_shortcut_hotkey(normalized) {
            if !old(hotkeys).bound_to(target, id) {
                assert(registration_calls(
                    *old(hotkeys),
                    target,
                    new_key(normalized),
                    calls_between(*old(hotkeys), *hotkeys),
                    outcome_of_call,
                ));
            }
        }
    }
}

/// Unbinds a target's shortcut and shows the outcome: none when it was let
/// go, the previous shortcut with the reason when the system refused.
pub fn clear_shortcut<R: HotKeyRegistrar>(
    controller: &mut AppController,
    hotkeys: &mut ShortcutHotkeys<R>,
    target: ShortcutTarget,
)
    requires
        old(hotkeys).wf(),
    ensures
        final(hotkeys).wf(),
        extends_calls(*old(hotkeys), *final(hotkeys)),
        ({
            let cs = calls_between(*old(hotkeys), *final(hotkeys));
            match old(hotkeys).bound_key(target) {
                None => cs.len() == 0 && final(controller)@ == with_shortcut(
                    old(controller)@,
                    target,
                    shortcut_default(),
                ) && forall|t: ShortcutTarget| final(hotkeys).binding(t) == old(hotkeys).binding(t),
                Some(k) => cs.len() == 1 && is_unregister(cs[0], k) && match call_reply(cs[0]) {
                    Ok(()) => {
                        &&& final(controller)@ == with_shortcut(
                            old(controller)@,
                            target,
                            shortcut_default(),
                        )
                        &&& final(hotkeys).binding(target) is None
                        &&& forall|t: ShortcutTarget|
                            t != target ==> final(hotkeys).binding(t) == old(hotkeys).binding(t)
                    },
                    Err(e) => {
                        &&& final(controller)@ == after_refusal(
                            old(controller)@,
                            target,
                            registration_error_text(e),
                        )
                        &&& forall|t: ShortcutTarget|
                            final(hotkeys).binding(t) == old(hotkeys).binding(t)
                    },
                },
            }
        }),
{
    let ghost old_controller = controller@;
    proof {
        hotkeys.lemma_binding_has_key(target);
    }
    let previous_value = String::from_str(controller.shortcut_value(target));
    match hotkeys.clear_shortcut(target) {
        Ok(()) => {
            controller.apply_shortcut_clear_success(target);
        },
        Err(error) => {
            let ghost e = error@;
            controller.apply_shortcut_registration_failure(target, previous_value, error);
            assert(controller@ == after_refusal(old_controller, target, e));
        },
    }
}

/// A saved shortcut that binds nothing: empty, or "None".
pub open spec fn is_unset(shortcut: Seq<char>) -> bool {
    shortcut.len() == 0 || shortcut == "None"@
}

/// Every binding of `after` is the one of `before`.
pub open spec fn same_bindings<R: HotKeyRegistrar>(
    before: ShortcutHotkeys<R>,
    after: ShortcutHotkeys<R>,
) -> bool {
    forall|t: ShortcutTarget| after.binding(t) == before.binding(t)
}

/// What binding one saved shortcut at start-up does, from the settings `c0`
/// and bindings `h0` to `c1` and `h1`, with the registrar calls made in
/// between (`registration_calls`). An unset shortcut changes nothing.
/// One the parser refuses, or that the system refuses, leaves every binding
/// as it was and shows "None" with the reason. One already bound to the
/// target, or bound now, shows the shortcut; a target that lost the hotkey
/// to it shows none.
pub open spec fn saved_shortcut_step<R: HotKeyRegistrar>(
    c0: ControllerModel,
    h0: ShortcutHotkeys<R>,
    target: ShortcutTarget,
    saved: Seq<char>,
    c1: ControllerModel,
    h1: ShortcutHotkeys<R>,
) -> bool {
    &&& extends_calls(h0, h1)
    &&& if is_unset(saved) {
        c1 == c0 && same_bindings(h0, h1) && calls_between(h0, h1).len() == 0
    } else {
        match display_shortcut_hotkey(saved) {
            Err(message) => c1 == with_shortcut(c0, target, settled_shortcut("None"@, message))
                && same_bindings(h0, h1) && calls_between(h0, h1).len() == 0,
            Ok(id) => if h0.bound_to(target, id) {
                c1 == after_registration(c0, target, saved, None) && same_bindings(h0, h1)
                    && calls_between(h0, h1).len() == 0
            } else {
                exists|r: Result<AssignmentOutcome, String>|
                    #[trigger] registration_calls(h0, target, new_key(saved), calls_between(h0, h1), r)
                        && match r {
                        Ok(_) => c1 == after_registration(c0, target, saved, h0.target_bound_to(id))
                            && bindings_after_move(h0, h1, target, saved, id),
                        Err(m) => c1 == with_shortcut(c0, target, settled_shortcut("None"@, m@))
                            && same_bindings(h0, h1),
                    }
            },
        }
    }
}

/// Binds one saved shortcut at start-up. An unset one changes nothing; one
/// that cannot be bound shows "None" with the reason.
pub fn register_saved_shortcut<R: HotKeyRegistrar>(
    controller: &mut AppController,
    hotkeys: &mut ShortcutHotkeys<R>,
    target: ShortcutTarget,
    saved: &str,
)
    requires
        old(hotkeys).wf(),
    ensures
        final(hotkeys).wf(),
        saved_shortcut_step(
            old(controller)@,
            *old(hotkeys),
            target,
            saved@,
            final(controller)@,
            *final(hotkeys),
        ),
{
    if saved.is_empty() || str_eq(saved, "None") {
        assert(hotkeys.registrar_calls().subrange(0, hotkeys.registrar_calls().len() as int)
            =~= hotkeys.registrar_calls());
        assert(calls_between(*hotkeys, *hotkeys) =~= Seq::<RegistrarCall>::empty());
        return;
    }
    let ghost old_controller = controller@;
    let result = hotkeys.register_shortcut(target, saved);
    let ghost outcome_of_call = result;
    match result {
        Ok(outcome) => {
            proof {
                if old(hotkeys).binding(target) is Some {
                }
            }
            controller.apply_shortcut_registration_success(
                target,
                String::from_str(saved),
                outcome.displaced_target,
            );
            assert(controller@ == after_registration(
                old_controller,
                target,
                saved@,
                outcome.displaced_target,
            ));
        },
        Err(error) => {
            let ghost e = error@;
            controller.apply_shortcut_registration_failure(target, String::from_str("None"), error);
            assert(controller@ == with_shortcut(
                old_controller,
                target,
                settled_shortcut("None"@, e),
            ));
        },
    }
    proof {
        if let Ok(id) = display_shortcut_hotkey(saved@) {
            if !old(hotkeys).bound_to(target, id) {
                assert(registration_calls(
                    *old(hotkeys),
                    target,
                    new_key(saved@),
                    calls_between(*old(hotkeys), *hotkeys),
                    outcome_of_call,
                ));
            }
        }
    }
}

/// Binds the saved shortcuts of the three targets at start-up, in the
/// order the settings show them: USB-C, then DisplayPort, then HDMI, each
/// step from where the one before left the settings and the bindings.
pub fn register_saved_shortcuts<R: HotKeyRegistrar>(
    controller: &mut AppController,
    hotkeys: &mut ShortcutHotkeys<R>,
    settings: &PersistedSettings,
)
    requires
        old(hotkeys).wf(),
    ensures
        final(hotkeys).wf(),
        exists|c1: ControllerModel, h1: ShortcutHotkeys<R>, c2: ControllerModel, h2: ShortcutHotkeys<R>|
            {
                &&& saved_shortcut_step(
                    old(controller)@,
                    *old(hotkeys),
                    ShortcutTarget::UsbC,
                    settings.tb_shortcut@,
                    c1,
                    h1,
                )
                &&& saved_shortcut_step(
                    c1,
                    h1,
                    ShortcutTarget::DisplayPort,
                    settings.dp_shortcut@,
                    c2,
                    h2,
                )
                &&& saved_shortcut_step(
                    c2,
                    h2,
                    ShortcutTarget::Hdmi,
                    settings.hdmi_shortcut@,
                    final(controller)@,
                    *final(hotkeys),
                )
            },
{
    register_saved_shortcut(controller, hotkeys, ShortcutTarget::UsbC, settings.tb_shortcut.as_str());
    let ghost c1 = controller@;
    let ghost h1 = *hotkeys;
    register_saved_shortcut(
        controller,
        hotkeys,
        ShortcutTarget::DisplayPort,
        settings.dp_shortcut.as_str(),
    );
    let ghost c2 = controller@;
    let ghost h2 = *hotkeys;
    register_saved_shortcut(controller, hotkeys, ShortcutTarget::Hdmi, settings.hdmi_shortcut.as_str());
}

} // verus!
