//! Global shortcuts of the input targets: how a shortcut as the settings show
//! it ("Ctrl+Alt+Q") becomes a hotkey, and the bindings of targets to
//! hotkeys, where one hotkey belongs to at most one target.
use vstd::prelude::*;

use crate::app_controller::normalized_shortcut;
use crate::controller_types::ShortcutTarget;
use crate::text::{chars_eq, chars_of, concat2, concat3, string_from_chars, trim_chars, trim_seq};

verus! {

/// Why the hotkey parser refused a shortcut text.
#[derive(Debug, Clone, PartialEq, Eq)]
pub enum HotKeyParseFailure {
    UnsupportedKey(String),
    EmptyToken(String),
    InvalidFormat(String),
}

/// A parse failure with its texts as character sequences.
pub enum ParseFailureView {
    UnsupportedKey(Seq<char>),
    EmptyToken(Seq<char>),
    InvalidFormat(Seq<char>),
}

pub open spec fn failure_view(f: HotKeyParseFailure) -> ParseFailureView {
    match f {
        HotKeyParseFailure::UnsupportedKey(k) => ParseFailureView::UnsupportedKey(k@),
        HotKeyParseFailure::EmptyToken(t) => ParseFailureView::EmptyToken(t@),
        HotKeyParseFailure::InvalidFormat(t) => ParseFailureView::InvalidFormat(t@),
    }
}

pub open spec fn parse_result_view(r: Result<u32, HotKeyParseFailure>) -> Result<
    u32,
    ParseFailureView,
> {
    match r {
        Ok(id) => Ok(id),
        Err(f) => Err(failure_view(f)),
    }
}

/// What the hotkey parser of `global-hotkey` makes of a text: the id of the
/// hotkey (its modifier bits and key code), or why it refused the text.
pub uninterp spec fn parsed_hotkey(text: Seq<char>) -> Result<u32, ParseFailureView>;

/// `global_hotkey::hotkey::HotKey::from_str`, keeping the parsed hotkey's
/// `id` field. The contract claims only that the outcome is the one
/// `parsed_hotkey` names for the text: the parse depends on the text alone.
#[verifier::external_body]
fn parse_hotkey_id(text: &str) -> (r: Result<u32, HotKeyParseFailure>)
    ensures
        parse_result_view(r) == parsed_hotkey(text@),
{
    match text.parse::<global_hotkey::hotkey::HotKey>() {
        Ok(hotkey) => Ok(hotkey.id),
        Err(global_hotkey::hotkey::HotKeyParseError::UnsupportedKey(k)) => Err(
            HotKeyParseFailure::UnsupportedKey(k),
        ),
        Err(global_hotkey::hotkey::HotKeyParseError::EmptyToken(t)) => Err(
            HotKeyParseFailure::EmptyToken(t),
        ),
        Err(global_hotkey::hotkey::HotKeyParseError::InvalidFormat(t)) => Err(
            HotKeyParseFailure::InvalidFormat(t),
        ),
    }
}

pub open spec fn modifier_required_text() -> Seq<char> {
    "Shortcut must include at least one modifier."@
}

/// The parts of a text between its separators `c`, as `str::split` gives them.
pub open spec fn split_scan(s: Seq<char>, c: char) -> (Seq<Seq<char>>, Seq<char>)
    decreases s.len(),
{
    if s.len() == 0 {
        (Seq::empty(), Seq::empty())
    } else {
        let prev = split_scan(s.drop_last(), c);
        if s.last() == c {
            (prev.0.push(prev.1), Seq::empty())
        } else {
            (prev.0, prev.1.push(s.last()))
        }
    }
}

pub open spec fn split_on(s: Seq<char>, c: char) -> Seq<Seq<char>> {
    let r = split_scan(s, c);
    r.0.push(r.1)
}

/// The `+`-separated parts of a shortcut, trimmed.
pub open spec fn shortcut_parts(s: Seq<char>) -> Seq<Seq<char>> {
    split_on(s, '+').map_values(|p: Seq<char>| trim_seq(p))
}

/// The parser's name of a modifier as the settings show it.
pub open spec fn modifier_token(t: Seq<char>) -> Option<Seq<char>> {
    if t == "Ctrl"@ {
        Some("ctrl"@)
    } else if t == "Alt"@ {
        Some("alt"@)
    } else if t == "Shift"@ {
        Some("shift"@)
    } else if t == "Win"@ {
        Some("super"@)
    } else {
        None
    }
}

pub open spec fn unsupported_modifier_text(t: Seq<char>) -> Seq<char> {
    "Unsupported modifier \""@ + t + "\"."@
}

/// The modifiers in the parser's names, each followed by `+`; the first one
/// that has no name is refused.
pub open spec fn translated_modifiers(mods: Seq<Seq<char>>) -> Result<Seq<char>, Seq<char>>
    decreases mods.len(),
{
    if mods.len() == 0 {
        Ok(Seq::empty())
    } else {
        match translated_modifiers(mods.drop_last()) {
            Err(e) => Err(e),
            Ok(p) => match modifier_token(mods.last()) {
                None => Err(unsupported_modifier_text(mods.last())),
                Some(m) => Ok(p + m + "+"@),
            },
        }
    }
}

/// The text handed to the hotkey parser: the modifiers translated, then the
/// key as written; at least one modifier is needed.
pub open spec fn shortcut_parser_text(shortcut: Seq<char>) -> Result<Seq<char>, Seq<char>> {
    let parts = shortcut_parts(shortcut);
    if shortcut == "None"@ || parts.len() < 2 {
        Err(modifier_required_text())
    } else {
        match translated_modifiers(parts.take(parts.len() - 1)) {
            Err(e) => Err(e),
            Ok(p) => Ok(p + parts.last()),
        }
    }
}

/// The message for a text the hotkey parser refused.
pub open spec fn parse_failure_text(f: ParseFailureView) -> Seq<char> {
    match f {
        ParseFailureView::UnsupportedKey(k) => "\""@ + k + "\" is not supported for global shortcuts."@,
        _ => modifier_required_text(),
    }
}

/// The hotkey id of a shortcut as the settings show it, or the message why
/// it cannot be a global shortcut.
pub open spec fn display_shortcut_hotkey(shortcut: Seq<char>) -> Result<u32, Seq<char>> {
    match shortcut_parser_text(shortcut) {
        Err(e) => Err(e),
        Ok(text) => match parsed_hotkey(text) {
            Ok(id) => Ok(id),
            Err(f) => Err(parse_failure_text(f)),
        },
    }
}

/// A hotkey: its id, and the text the parser made it from.
#[derive(Debug, Clone, PartialEq, Eq)]
pub struct ShortcutKey {
    pub id: u32,
    pub parser_text: String,
}

pub open spec fn chars_views(s: Seq<Vec<char>>) -> Seq<Seq<char>> {
    s.map_values(|v: Vec<char>| v@)
}

fn split_chars(s: &Vec<char>, c: char) -> (r: Vec<Vec<char>>)
    ensures
        chars_views(r@) == split_on(s@, c),
{
    let mut done: Vec<Vec<char>> = Vec::new();
    let mut cur: Vec<char> = Vec::new();
    let mut i: usize = 0;
    while i < s.len()
        invariant
            i <= s.len(),
            (chars_views(done@), cur@) == split_scan(s@.subrange(0, i as int), c),
        decreases s.len() - i,
    {
        proof {
            assert(s@.subrange(0, i + 1).drop_last() =~= s@.subrange(0, i as int));
        }
        if s[i] == c {
            let ghost before = done@;
            done.push(cur);
            cur = Vec::new();
            proof {
                assert(chars_views(done@) =~= chars_views(before).push(
                    done@[done@.len() - 1]@,
                ));
            }
        } else {
            cur.push(s[i]);
        }
        i = i + 1;
    }
    proof {
        assert(s@.subrange(0, s@.len() as int) =~= s@);
    }
    let ghost before = done@;
    done.push(cur);
    proof {
        assert(chars_views(done@) =~= chars_views(before).push(done@[done@.len() - 1]@));
    }
    done
}

fn trimmed_parts(shortcut: &str) -> (r: Vec<Vec<char>>)
    ensures
        chars_views(r@) == shortcut_parts(shortcut@),
{
    let chars = chars_of(shortcut);
    let parts = split_chars(&chars, '+');
    let mut r: Vec<Vec<char>> = Vec::new();
    let mut i: usize = 0;
    while i < parts.len()
        invariant
            i <= parts.len(),
            chars_views(parts@) == split_on(shortcut@, '+'),
            chars_views(r@) =~= split_on(shortcut@, '+').subrange(0, i as int).map_values(
                |p: Seq<char>| trim_seq(p),
            ),
        decreases parts.len() - i,
    {
        let t = trim_chars(&parts[i]);
        proof {
            assert(parts@[i as int]@ == split_on(shortcut@, '+')[i as int]);
        }
        let ghost before = r@;
        r.push(t);
        proof {
            assert(chars_views(r@) =~= chars_views(before).push(t@));
        }
        i = i + 1;
    }
    proof {
        assert(split_on(shortcut@, '+').subrange(0, parts@.len() as int) =~= split_on(
            shortcut@,
            '+',
        ));
    }
    r
}

fn modifier_name(token: &Vec<char>) -> (r: Option<&'static str>)
    ensures
        match r {
            Some(m) => modifier_token(token@) == Some(m@),
            None => modifier_token(token@) is None,
        },
{
    if chars_eq(token, &chars_of("Ctrl")) {
        Some("ctrl")
    } else if chars_eq(token, &chars_of("Alt")) {
        Some("alt")
    } else if chars_eq(token, &chars_of("Shift")) {
        Some("shift")
    } else if chars_eq(token, &chars_of("Win")) {
        Some("super")
    } else {
        None
    }
}

/// The text handed to the hotkey parser for a shortcut as shown.
pub fn shortcut_parser_text_of(shortcut: &str) -> (r: Result<String, String>)
    ensures
        match r {
            Ok(t) => shortcut_parser_text(shortcut@) == Ok::<Seq<char>, Seq<char>>(t@),
            Err(e) => shortcut_parser_text(shortcut@) == Err::<Seq<char>, Seq<char>>(e@),
        },
{
    let parts = trimmed_parts(shortcut);
    let ghost ps = shortcut_parts(shortcut@);
    if chars_eq(&chars_of(shortcut), &chars_of("None")) || parts.len() < 2 {
        return Err(String::from_str("Shortcut must include at least one modifier."));
    }
    let n = parts.len() - 1;
    let mut text = String::new();
    let mut j: usize = 0;
    while j < n
        invariant
            n == parts.len() - 1,
            j <= n,
            chars_views(parts@) == ps,
            ps == shortcut_parts(shortcut@),
            shortcut@ != "None"@,
            translated_modifiers(ps.take(j as int)) == Ok::<Seq<char>, Seq<char>>(text@),
        decreases n - j,
    {
        proof {
            assert(ps.take(j + 1).drop_last() =~= ps.take(j as int));
            assert(parts@[j as int]@ == ps[j as int]);
        }
        match modifier_name(&parts[j]) {
            Some(m) => {
                text = concat3(text.as_str(), m, "+");
            },
            None => {
                let token = string_from_chars(parts[j].as_slice());
                proof {
                    let mods = ps.take(n as int);
                    assert(ps.take(j + 1).last() == ps[j as int]);
                    assert(mods.take(j + 1) =~= ps.take(j + 1));
                    assert(mods.take(mods.len() as int) =~= mods);
                    lemma_translation_error_persists(mods, (j + 1) as int);
                }
                return Err(concat3("Unsupported modifier \"", token.as_str(), "\"."));
            },
        }
        j = j + 1;
    }
    let key = string_from_chars(parts[n].as_slice());
    proof {
        assert(parts@[n as int]@ == ps.last());
    }
    Ok(concat2(text.as_str(), key.as_str()))
}

proof fn lemma_translation_error_persists(mods: Seq<Seq<char>>, k: int)
    requires
        0 < k <= mods.len(),
        translated_modifiers(mods.take(k)) is Err,
    ensures
        translated_modifiers(mods.take(mods.len() as int)) == translated_modifiers(mods.take(k)),
    decreases mods.len() - k,
{
    if k < mods.len() {
        assert(mods.take(k + 1).drop_last() =~= mods.take(k));
        lemma_translation_error_persists(mods, k + 1);
    }
}

/// The message for a text the hotkey parser refused.
pub fn map_hotkey_parse_error(error: HotKeyParseFailure) -> (r: String)
    ensures
        r@ == parse_failure_text(failure_view(error)),
{
    match error {
        HotKeyParseFailure::UnsupportedKey(key) => concat3(
            "\"",
            key.as_str(),
            "\" is not supported for global shortcuts.",
        ),
        _ => String::from_str("Shortcut must include at least one modifier."),
    }
}

/// Turns a shortcut as shown into a hotkey.
pub fn parse_display_shortcut(shortcut: &str) -> (r: Result<ShortcutKey, String>)
    ensures
        match r {
            Ok(k) => display_shortcut_hotkey(shortcut@) == Ok::<u32, Seq<char>>(k.id)
                && shortcut_parser_text(shortcut@) == Ok::<Seq<char>, Seq<char>>(k.parser_text@),
            Err(e) => display_shortcut_hotkey(shortcut@) == Err::<u32, Seq<char>>(e@),
        },
{
    let text = match shortcut_parser_text_of(shortcut) {
        Ok(t) => t,
        Err(e) => {
            return Err(e);
        },
    };
    match parse_hotkey_id(text.as_str()) {
        Ok(id) => Ok(ShortcutKey { id, parser_text: text }),
        Err(f) => Err(map_hotkey_parse_error(f)),
    }
}

/// Why the system refused to register or unregister a hotkey.
#[derive(Debug, Clone, PartialEq, Eq)]
pub enum RegistrationError {
    /// Another application holds the hotkey.
    AlreadyRegistered,
    FailedToRegister(String),
    /// Any other refusal, with the text it displays.
    Other(String),
}

pub open spec fn registration_error_text(e: RegistrationError) -> Seq<char> {
    match e {
        RegistrationError::AlreadyRegistered => "That shortcut is already in use by another application."@,
        RegistrationError::FailedToRegister(m) => "Failed to register shortcut: "@ + m@,
        RegistrationError::Other(t) => t@,
    }
}

/// The message shown for a refused registration.
pub fn format_registration_error(error: RegistrationError) -> (r: String)
    ensures
        r@ == registration_error_text(error),
{
    match error {
        RegistrationError::AlreadyRegistered => String::from_str(
            "That shortcut is already in use by another application.",
        ),
        RegistrationError::FailedToRegister(m) => concat2(
            "Failed to register shortcut: ",
            m.as_str(),
        ),
        RegistrationError::Other(t) => t,
    }
}

/// Registers hotkeys with the system: the global hotkey manager in the
/// application, scripted fakes in tests.
pub trait HotKeyRegistrar {
    fn register(&self, hotkey: &ShortcutKey) -> Result<(), RegistrationError>;

    fn unregister(&self, hotkey: &ShortcutKey) -> Result<(), RegistrationError>;
}

/// A shortcut bound to a target: as shown, and as a hotkey.
#[derive(Debug)]
pub struct RegisteredShortcut {
    pub display_value: String,
    pub hotkey: ShortcutKey,
}

/// A binding: the shortcut as shown and the id of its hotkey.
pub struct BindingView {
    pub display: Seq<char>,
    pub id: u32,
}

pub open spec fn entry_key(r: Option<RegisteredShortcut>) -> Option<KeyView> {
    match r {
        Some(e) => Some(key_view(e.hotkey)),
        None => None,
    }
}

pub open spec fn binding_view(r: Option<RegisteredShortcut>) -> Option<BindingView> {
    match r {
        Some(e) => Some(BindingView { display: e.display_value@, id: e.hotkey.id }),
        None => None,
    }
}

/// What a registration did to the other targets.
#[derive(Debug, Clone, Copy, PartialEq, Eq, Structural)]
pub struct AssignmentOutcome {
    /// The target that held the hotkey before and lost it.
    pub displaced_target: Option<ShortcutTarget>,
}

pub fn normalize_shortcut_value(value: &str) -> (r: String)
    ensures
        r@ == normalized_shortcut(value@),
{
    let chars = chars_of(value);
    if chars.len() == 0 {
        String::from_str("None")
    } else {
        String::from_str(value)
    }
}

/// A hotkey as handed to the registrar: its id and its parser text.
pub struct KeyView {
    pub id: u32,
    pub text: Seq<char>,
}

pub open spec fn key_view(k: ShortcutKey) -> KeyView {
    KeyView { id: k.id, text: k.parser_text@ }
}

/// A call made on the registrar: the hotkey handed over and the answer.
pub enum RegistrarCall {
    Register { key: KeyView, reply: Result<(), RegistrationError> },
    Unregister { key: KeyView, reply: Result<(), RegistrationError> },
}

pub open spec fn is_register(c: RegistrarCall, k: KeyView) -> bool {
    match c {
        RegistrarCall::Register { key, .. } => key == k,
        _ => false,
    }
}

pub open spec fn is_unregister(c: RegistrarCall, k: KeyView) -> bool {
    match c {
        RegistrarCall::Unregister { key, .. } => key == k,
        _ => false,
    }
}

pub open spec fn call_reply(c: RegistrarCall) -> Result<(), RegistrationError> {
    match c {
        RegistrarCall::Register { reply, .. } => reply,
        RegistrarCall::Unregister { reply, .. } => reply,
    }
}

/// A refusal reported with the message of the registrar's error.
pub open spec fn refused_with<T>(r: Result<T, String>, reply: Result<(), RegistrationError>) -> bool {
    match reply {
        Err(e) => r matches Err(m) && m@ == registration_error_text(e),
        Ok(()) => false,
    }
}

/// The hotkey of a shortcut as the settings show it, once it parses.
pub open spec fn new_key(shortcut: Seq<char>) -> KeyView {
    KeyView {
        id: display_shortcut_hotkey(shortcut)->Ok_0,
        text: shortcut_parser_text(shortcut)->Ok_0,
    }
}

/// The displaced target's hotkey registered again, as the last call, when
/// there is one.
pub open spec fn restores(displaced_key: Option<KeyView>, cs: Seq<RegistrarCall>, j: int) -> bool {
    match displaced_key {
        Some(k) => cs.len() == j + 1 && is_register(cs[j], k),
        None => cs.len() == j,
    }
}

/// The calls from the registration of the new hotkey on (at index `i`):
/// register it; on refusal, restore the displaced hotkey; then release the
/// target's old hotkey, and on refusal release the new one and restore.
pub open spec fn calls_after_release(
    displaced_key: Option<KeyView>,
    old_key: Option<KeyView>,
    key: KeyView,
    cs: Seq<RegistrarCall>,
    i: int,
    r: Result<AssignmentOutcome, String>,
) -> bool {
    cs.len() > i && is_register(cs[i], key) && match call_reply(cs[i]) {
        Err(_) => restores(displaced_key, cs, i + 1) && refused_with(r, call_reply(cs[i])),
        Ok(()) => match old_key {
            None => cs.len() == i + 1 && r is Ok,
            Some(k) => cs.len() > i + 1 && is_unregister(cs[i + 1], k) && match call_reply(cs[i + 1]) {
                Ok(()) => cs.len() == i + 2 && r is Ok,
                Err(_) => cs.len() > i + 2 && is_unregister(cs[i + 2], key) && restores(
                    displaced_key,
                    cs,
                    i + 3,
                ) && refused_with(r, call_reply(cs[i + 1])),
            },
        },
    }
}

/// The registrar calls of binding `key` to `target` from the bindings `h`:
/// the hotkey is first taken from the target holding it, then registered,
/// then the target's old hotkey is released; a refused step undoes the
/// steps before it, and its error is the result.
pub open spec fn registration_calls<R: HotKeyRegistrar>(
    h: ShortcutHotkeys<R>,
    target: ShortcutTarget,
    key: KeyView,
    cs: Seq<RegistrarCall>,
    r: Result<AssignmentOutcome, String>,
) -> bool {
    let displaced_key = match h.target_bound_to(key.id) {
        Some(d) => h.bound_key(d),
        None => None,
    };
    let old_key = h.bound_key(target);
    match displaced_key {
        Some(k) => cs.len() >= 1 && is_unregister(cs[0], k) && match call_reply(cs[0]) {
            Err(_) => cs.len() == 1 && refused_with(r, call_reply(cs[0])),
            Ok(()) => calls_after_release(displaced_key, old_key, key, cs, 1, r),
        },
        None => calls_after_release(displaced_key, old_key, key, cs, 0, r),
    }
}

/// The calls made after the first `n`.
pub open spec fn calls_since(cs: Seq<RegistrarCall>, n: int) -> Seq<RegistrarCall> {
    cs.subrange(n, cs.len() as int)
}

/// An item of a prefix is the item of the whole.
proof fn lemma_prefix_item<T>(whole: Seq<T>, prefix: Seq<T>, k: int)
    requires
        prefix.len() <= whole.len(),
        whole.subrange(0, prefix.len() as int) == prefix,
        0 <= k < prefix.len(),
    ensures
        whole[k] == prefix[k],
{
    assert(whole.subrange(0, prefix.len() as int)[k] == whole[k]);
}

/// The global shortcuts of the three input targets.
pub struct ShortcutHotkeys<R: HotKeyRegistrar> {
    registrar: R,
    log: Ghost<Seq<RegistrarCall>>,
    tb: Option<RegisteredShortcut>,
    dp: Option<RegisteredShortcut>,
    hdmi: Option<RegisteredShortcut>,
}

impl<R: HotKeyRegistrar> ShortcutHotkeys<R> {
    /// The calls made on the registrar so far, in order, with their answers.
    pub closed spec fn registrar_calls(&self) -> Seq<RegistrarCall> {
        self.log@
    }

    /// The registrar the hotkeys are registered with.
    pub closed spec fn registrar_of(&self) -> R {
        self.registrar
    }

    /// The registrar the hotkeys are registered with.
    pub fn registrar(&self) -> (r: &R)
        ensures
            *r == self.registrar_of(),
    {
        &self.registrar
    }

    /// The hotkey bound to a target, as handed to the registrar.
    pub closed spec fn bound_key(&self, t: ShortcutTarget) -> Option<KeyView> {
        match t {
            ShortcutTarget::UsbC => entry_key(self.tb),
            ShortcutTarget::DisplayPort => entry_key(self.dp),
            ShortcutTarget::Hdmi => entry_key(self.hdmi),
        }
    }

    /// A target has a binding exactly when it has a bound hotkey, of the
    /// same id.
    pub proof fn lemma_binding_has_key(&self, t: ShortcutTarget)
        ensures
            self.binding(t) is Some <==> self.bound_key(t) is Some,
            self.binding(t) is Some ==> self.binding(t)->Some_0.id == self.bound_key(t)->Some_0.id,
    {
    }

    /// The binding of a target.
    pub closed spec fn binding(&self, t: ShortcutTarget) -> Option<BindingView> {
        match t {
            ShortcutTarget::UsbC => binding_view(self.tb),
            ShortcutTarget::DisplayPort => binding_view(self.dp),
            ShortcutTarget::Hdmi => binding_view(self.hdmi),
        }
    }

    /// No hotkey is bound to two targets.
    pub open spec fn wf(&self) -> bool {
        forall|a: ShortcutTarget, b: ShortcutTarget|
            a != b && #[trigger] self.binding(a) is Some && #[trigger] self.binding(b) is Some
                ==> self.binding(a)->Some_0.id != self.binding(b)->Some_0.id
    }

    /// Whether a target's hotkey has this id.
    pub open spec fn bound_to(&self, t: ShortcutTarget, id: u32) -> bool {
        self.binding(t) matches Some(b) && b.id == id
    }

    /// The target whose hotkey has this id.
    pub open spec fn target_bound_to(&self, id: u32) -> Option<ShortcutTarget> {
        if self.bound_to(ShortcutTarget::UsbC, id) {
            Some(ShortcutTarget::UsbC)
        } else if self.bound_to(ShortcutTarget::DisplayPort, id) {
            Some(ShortcutTarget::DisplayPort)
        } else if self.bound_to(ShortcutTarget::Hdmi, id) {
            Some(ShortcutTarget::Hdmi)
        } else {
            None
        }
    }

    pub fn with_registrar(registrar: R) -> (h: Self)
        ensures
            h.wf(),
            forall|t: ShortcutTarget| h.binding(t) is None && h.bound_key(t) is None,
            h.registrar_calls() == Seq::<RegistrarCall>::empty(),
    {
        ShortcutHotkeys { registrar, log: Ghost(Seq::empty()), tb: None, dp: None, hdmi: None }
    }

    fn slot(&self, target: ShortcutTarget) -> (r: &Option<RegisteredShortcut>)
        ensures
            binding_view(*r) == self.binding(target),
            entry_key(*r) == self.bound_key(target),
    {
        match target {
            ShortcutTarget::UsbC => &self.tb,
            ShortcutTarget::DisplayPort => &self.dp,
            ShortcutTarget::Hdmi => &self.hdmi,
        }
    }

    fn set_slot(&mut self, target: ShortcutTarget, value: Option<RegisteredShortcut>)
        ensures
            final(self).binding(target) == binding_view(value),
            final(self).bound_key(target) == entry_key(value),
            forall|t: ShortcutTarget|
                t != target ==> final(self).binding(t) == old(self).binding(t) && final(self).bound_key(t)
                    == old(self).bound_key(t),
            final(self).registrar_calls() == old(self).registrar_calls(),
    {
        match target {
            ShortcutTarget::UsbC => {
                self.tb = value;
            },
            ShortcutTarget::DisplayPort => {
                self.dp = value;
            },
            ShortcutTarget::Hdmi => {
                self.hdmi = value;
            },
        }
    }

    /// The target whose hotkey fired.
    pub fn target_for_event_id(&self, id: u32) -> (r: Option<ShortcutTarget>)
        ensures
            r == self.target_bound_to(id),
    {
        let targets = ShortcutTarget::all();
        let mut i: usize = 0;
        while i < 3
            invariant
                i <= 3,
                targets@ == seq![ShortcutTarget::UsbC, ShortcutTarget::DisplayPort, ShortcutTarget::Hdmi],
                forall|k: int| 0 <= k < i ==> !self.bound_to(#[trigger] targets@[k], id),
            decreases 3 - i,
        {
            let t = targets[i];
            if let Some(e) = self.slot(t) {
                if e.hotkey.id == id {
                    return Some(t);
                }
            }
            i = i + 1;
        }
        None
    }

    /// The shortcut of a target as shown.
    pub fn registered_shortcut_value(&self, target: ShortcutTarget) -> (r: Option<&str>)
        ensures
            match r {
                Some(v) => self.binding(target) matches Some(b) && v@ == b.display,
                None => self.binding(target) is None,
            },
    {
        match self.slot(target) {
            Some(e) => Some(e.display_value.as_str()),
            None => None,
        }
    }

    /// Registers again the hotkey of a target that was given up for another.
    fn restore_displaced_entry(&mut self, displaced_target: Option<ShortcutTarget>)
        ensures
            forall|t: ShortcutTarget|
                final(self).binding(t) == old(self).binding(t) && final(self).bound_key(t) == old(self).bound_key(t),
            ({
                let dk = match displaced_target {
                    Some(d) => old(self).bound_key(d),
                    None => None,
                };
                match dk {
                    Some(k) => final(self).registrar_calls().len() == old(self).registrar_calls().len()
                        + 1 && final(self).registrar_calls().drop_last() == old(self).registrar_calls()
                        && is_register(final(self).registrar_calls().last(), k),
                    None => final(self).registrar_calls() == old(self).registrar_calls(),
                }
            }),
    {
        if let Some(d) = displaced_target {
            let ghost k = self.bound_key(d);
            let reply = match self.slot(d) {
                Some(e) => self.registrar.register(&e.hotkey),
                None => {
                    return;
                },
            };
            self.log = Ghost(self.log@.push(RegistrarCall::Register { key: k->Some_0, reply }));
            assert(self.log@.drop_last() =~= old(self).registrar_calls());
        }
    }

    /// Hands the target's bound hotkey to the registrar to be released.
    fn release_bound(&mut self, target: ShortcutTarget) -> (reply: Result<(), RegistrationError>)
        requires
            old(self).bound_key(target) is Some,
        ensures
            forall|t: ShortcutTarget|
                final(self).binding(t) == old(self).binding(t) && final(self).bound_key(t) == old(self).bound_key(t),
            final(self).registrar_calls() == old(self).registrar_calls().push(
                RegistrarCall::Unregister { key: old(self).bound_key(target)->Some_0, reply },
            ),
    {
        let ghost k = self.bound_key(target);
        let reply = match self.slot(target) {
            Some(e) => self.registrar.unregister(&e.hotkey),
            None => Ok(()),
        };
        self.log = Ghost(self.log@.push(RegistrarCall::Unregister { key: k->Some_0, reply }));
        reply
    }

    /// Hands a hotkey to the registrar to be registered.
    fn register_key(&mut self, key: &ShortcutKey) -> (reply: Result<(), RegistrationError>)
        ensures
            forall|t: ShortcutTarget|
                final(self).binding(t) == old(self).binding(t) && final(self).bound_key(t) == old(self).bound_key(t),
            final(self).registrar_calls() == old(self).registrar_calls().push(
                RegistrarCall::Register { key: key_view(*key), reply },
            ),
    {
        let reply = self.registrar.register(key);
        self.log = Ghost(self.log@.push(RegistrarCall::Register { key: key_view(*key), reply }));
        reply
    }

    /// Hands a hotkey to the registrar to be released.
    fn unregister_key(&mut self, key: &ShortcutKey) -> (reply: Result<(), RegistrationError>)
        ensures
            forall|t: ShortcutTarget|
                final(self).binding(t) == old(self).binding(t) && final(self).bound_key(t) == old(self).bound_key(t),
            final(self).registrar_calls() == old(self).registrar_calls().push(
                RegistrarCall::Unregister { key: key_view(*key), reply },
            ),
    {
        let reply = self.registrar.unregister(key);
        self.log = Ghost(self.log@.push(RegistrarCall::Unregister { key: key_view(*key), reply }));
        reply
    }

    /// Binds a shortcut to a target. The same hotkey again changes nothing;
    /// a hotkey held by another target moves to this one; when the system
    /// refuses a step, every binding stays as it was. `registration_calls`
    /// states the registrar calls made, with which hotkeys, and the result
    /// for each answer.
    pub fn register_shortcut(&mut self, target: ShortcutTarget, shortcut: &str) -> (r: Result<
        AssignmentOutcome,
        String,
    >)
        requires
            old(self).wf(),
        ensures
            final(self).wf(),
            final(self).registrar_calls().len() >= old(self).registrar_calls().len(),
            final(self).registrar_calls().subrange(0, old(self).registrar_calls().len() as int)
                == old(self).registrar_calls(),
            ({
                let normalized = normalized_shortcut(shortcut@);
                let cs = calls_since(final(self).registrar_calls(), old(self).registrar_calls().len() as int);
                let unchanged = forall|t: ShortcutTarget|
                    final(self).binding(t) == old(self).binding(t) && final(self).bound_key(t) == old(self).bound_key(t);
                match display_shortcut_hotkey(normalized) {
                    Err(message) => r matches Err(e) && e@ == message && unchanged && cs.len() == 0,
                    Ok(id) => if old(self).bound_to(target, id) {
                        r == Ok::<AssignmentOutcome, String>(
                            AssignmentOutcome { displaced_target: None },
                        ) && unchanged && cs.len() == 0
                    } else {
                        &&& registration_calls(*old(self), target, new_key(normalized), cs, r)
                        &&& match r {
                            Ok(o) => o.displaced_target == old(self).target_bound_to(id) && forall|
                                t: ShortcutTarget,
                            |
                                final(self).binding(t) == (if t == target {
                                    Some(BindingView { display: normalized, id })
                                } else if Some(t) == o.displaced_target {
                                    None
                                } else {
                                    old(self).binding(t)
                                }) && final(self).bound_key(t) == (if t == target {
                                    Some(new_key(normalized))
                                } else if Some(t) == o.displaced_target {
                                    None
                                } else {
                                    old(self).bound_key(t)
                                }),
                            Err(_) => unchanged,
                        }
                    },
                }
            }),
    {
        let ghost n0 = self.registrar_calls().len() as int;
        let normalized = normalize_shortcut_value(shortcut);
        let new_hotkey = match parse_display_shortcut(normalized.as_str()) {
            Ok(k) => k,
            Err(e) => {
                assert(calls_since(self.registrar_calls(), n0) =~= Seq::<RegistrarCall>::empty());
                assert(self.registrar_calls().subrange(0, n0) =~= self.registrar_calls());
                return Err(e);
            },
        };
        let ghost key = key_view(new_hotkey);
        assert(key == new_key(normalized@));
        let current_id: Option<u32> = match self.slot(target) {
            Some(e) => Some(e.hotkey.id),
            None => None,
        };
        if current_id == Some(new_hotkey.id) {
            assert(calls_since(self.registrar_calls(), n0) =~= Seq::<RegistrarCall>::empty());
            assert(self.registrar_calls().subrange(0, n0) =~= self.registrar_calls());
            return Ok(AssignmentOutcome { displaced_target: None });
        }
        let holder = self.target_for_event_id(new_hotkey.id);
        let displaced_target = if holder == Some(target) {
            None
        } else {
            holder
        };
        assert(displaced_target == old(self).target_bound_to(key.id));
        let ghost dk = match displaced_target {
            Some(d) => old(self).bound_key(d),
            None => None,
        };
        let ghost ok = old(self).bound_key(target);
        let ghost c0 = self.registrar_calls();
        if let Some(d) = displaced_target {
            let unregistered = self.release_bound(d);
            if let Err(error) = unregistered {
                let r = Err(format_registration_error(error));
                proof {
                    let cs = calls_since(self.registrar_calls(), n0);
                    assert(cs =~= seq![self.registrar_calls()[n0]]);
                    assert(self.registrar_calls().subrange(0, n0) =~= c0);
                }
                return r;
            }
        }
        let ghost c1 = self.registrar_calls();
        let ghost i: int = c1.len() - n0;
        let registered = self.register_key(&new_hotkey);
        let ghost c2 = self.registrar_calls();
        match registered {
            Ok(()) => {},
            Err(error) => {
                self.restore_displaced_entry(displaced_target);
                let r = Err(format_registration_error(error));
                proof {
                    let all = self.registrar_calls();
                    let cs = calls_since(all, n0);
                    assert(all.subrange(0, c2.len() as int) =~= c2) by {
                        if dk is Some {
                            assert(all.drop_last() == c2);
                        }
                    }
                    assert(c2.subrange(0, c1.len() as int) =~= c1);
                    lemma_prefix_item(all, c2, n0 + i);
                    assert(cs[i] == c2[n0 + i]);
                    if dk is Some {
                        lemma_prefix_item(all, c2, n0);
                        lemma_prefix_item(c2, c1, n0);
                        assert(cs[0] == c1[n0]);
                        assert(cs[i + 1] == all.last());
                    }
                    assert(cs.len() == (if dk is Some { i + 2 } else { i + 1 }));
                    assert(all.subrange(0, n0) =~= c0);
                }
                return r;
            },
        }
        if current_id.is_some() {
            let unregistered = self.release_bound(target);
            let ghost c3 = self.registrar_calls();
            match unregistered {
                Ok(()) => {},
                Err(error) => {
                    let _ = self.unregister_key(&new_hotkey);
                    let ghost c4 = self.registrar_calls();
                    self.restore_displaced_entry(displaced_target);
                    let r = Err(format_registration_error(error));
                    proof {
                        let all = self.registrar_calls();
                        let cs = calls_since(all, n0);
                        assert(all.subrange(0, c4.len() as int) =~= c4) by {
                            if dk is Some {
                                assert(all.drop_last() == c4);
                            }
                        }
                        assert(c2.subrange(0, c1.len() as int) =~= c1);
                        assert(c3.subrange(0, c2.len() as int) =~= c2);
                        assert(c4.subrange(0, c3.len() as int) =~= c3);
                        lemma_prefix_item(all, c4, n0 + i);
                        lemma_prefix_item(c4, c3, n0 + i);
                        lemma_prefix_item(c3, c2, n0 + i);
                        lemma_prefix_item(all, c4, n0 + i + 1);
                        lemma_prefix_item(c4, c3, n0 + i + 1);
                        lemma_prefix_item(all, c4, n0 + i + 2);
                        assert(cs[i] == c2[n0 + i]);
                        assert(cs[i + 1] == c3[n0 + i + 1]);
                        assert(cs[i + 2] == c4[n0 + i + 2]);
                        if dk is Some {
                            lemma_prefix_item(all, c4, n0);
                            lemma_prefix_item(c4, c3, n0);
                            lemma_prefix_item(c3, c2, n0);
                            lemma_prefix_item(c2, c1, n0);
                            assert(cs[0] == c1[n0]);
                            assert(cs[i + 3] == all.last());
                        }
                        assert(cs.len() == (if dk is Some { i + 4 } else { i + 3 }));
                        assert(all.subrange(0, n0) =~= c0);
                    }
                    return r;
                },
            }
        }
        if let Some(d) = displaced_target {
            self.set_slot(d, None);
        }
        let id = new_hotkey.id;
        self.set_slot(target, Some(RegisteredShortcut { display_value: normalized, hotkey: new_hotkey }));
        proof {
            let all = self.registrar_calls();
            let cs = calls_since(all, n0);
            assert(cs[i] == c2[n0 + i]);
            if dk is Some {
                assert(cs[0] == c1[n0]);
            }
            if ok is Some {
                assert(cs[i + 1] == all[n0 + i + 1]);
            }
            assert(all.subrange(0, n0) =~= c0);
            assert forall|a: ShortcutTarget, b: ShortcutTarget|
                a != b && #[trigger] self.binding(a) is Some && #[trigger] self.binding(b)
                    is Some implies self.binding(a)->Some_0.id != self.binding(b)->Some_0.id by {
                if a != target && b != target {
                    assert(old(self).binding(a) == self.binding(a));
                    assert(old(self).binding(b) == self.binding(b));
                } else if a == target {
                    assert(old(self).binding(b) == self.binding(b));
                    assert(!old(self).bound_to(b, id));
                } else {
                    assert(old(self).binding(a) == self.binding(a));
                    assert(!old(self).bound_to(a, id));
                }
            }
        }
        Ok(AssignmentOutcome { displaced_target })
    }

    /// Removes the shortcut of a target; when the system refuses to let the
    /// hotkey go, it stays bound. The one registrar call is the release of
    /// the target's bound hotkey, and the result follows its answer.
    pub fn clear_shortcut(&mut self, target: ShortcutTarget) -> (r: Result<(), String>)
        requires
            old(self).wf(),
        ensures
            final(self).wf(),
            ({
                let cs = calls_since(final(self).registrar_calls(), old(self).registrar_calls().len() as int);
                &&& final(self).registrar_calls().len() >= old(self).registrar_calls().len()
                &&& final(self).registrar_calls().subrange(0, old(self).registrar_calls().len() as int)
                    == old(self).registrar_calls()
                &&& match old(self).bound_key(target) {
                    None => r is Ok && cs.len() == 0,
                    Some(k) => cs.len() == 1 && is_unregister(cs[0], k) && match call_reply(cs[0]) {
                        Ok(()) => r is Ok,
                        Err(_) => refused_with(r, call_reply(cs[0])),
                    },
                }
            }),
            match r {
                Ok(()) => final(self).binding(target) is None && final(self).bound_key(target) is None
                    && forall|t: ShortcutTarget|
                    t != target ==> final(self).binding(t) == old(self).binding(t) && final(self).bound_key(t) == old(self).bound_key(t),
                Err(_) => forall|t: ShortcutTarget|
                    final(self).binding(t) == old(self).binding(t) && final(self).bound_key(t) == old(self).bound_key(t),
            },
    {
        let ghost n0 = self.registrar_calls().len() as int;
        let bound = match self.slot(target) {
            Some(_) => true,
            None => false,
        };
        if !bound {
            assert(calls_since(self.registrar_calls(), n0) =~= Seq::<RegistrarCall>::empty());
            assert(self.registrar_calls().subrange(0, n0) =~= self.registrar_calls());
            return Ok(());
        }
        let unregistered = self.release_bound(target);
        proof {
            assert(calls_since(self.registrar_calls(), n0) =~= seq![self.registrar_calls()[n0]]);
            assert(self.registrar_calls().subrange(0, n0) =~= old(self).registrar_calls());
        }
        if let Err(error) = unregistered {
            return Err(format_registration_error(error));
        }
        self.set_slot(target, None);
        proof {
            assert forall|a: ShortcutTarget, b: ShortcutTarget|
                a != b && #[trigger] self.binding(a) is Some && #[trigger] self.binding(b)
                    is Some implies self.binding(a)->Some_0.id != self.binding(b)->Some_0.id by {
                assert(old(self).binding(a) == self.binding(a));
                assert(old(self).binding(b) == self.binding(b));
            }
        }
        Ok(())
    }
}

} // verus!
