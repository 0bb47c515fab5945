//! The bindings of a shortcut configuration: which action a pressed key
//! triggers, and which bindings are in conflict.

use crate::search::{first_index, lemma_first_index_is, lemma_first_index_none};
use crate::shortcuts::{
    action_category, action_default_key, action_default_modifiers, action_description_key,
    action_name, action_named, action_scope, category_name, key_name, key_named, scope_of_mode,
    spec_all_actions, spec_bindable_keys, Key, KeyModifiers, ShortcutAction, ShortcutCategory,
    ShortcutScope,
};
use crate::state::EditMode;
use crate::text::{
    contains_text, lowercase, str_contains, str_eq, str_starts_with, to_lowercase,
};
use vstd::prelude::*;
use vstd::string::StringExecFns;

verus! {

/// A binding as a configuration file writes it: the action and the key by
/// name.
#[derive(Debug)]
pub struct ShortcutBinding {
    /// Name of the action.
    pub action: String,
    /// Name of the key.
    pub key: String,
    pub ctrl: bool,
    pub shift: bool,
    pub alt: bool,
    /// Where the binding is active.
    pub scope: ShortcutScope,
    /// Key of the translated description.
    pub description: String,
    /// Name of the category.
    pub category: String,
}

/// Model of a [`ShortcutBinding`].
pub struct ShortcutBindingView {
    pub action: Seq<char>,
    pub key: Seq<char>,
    pub ctrl: bool,
    pub shift: bool,
    pub alt: bool,
    pub scope: ShortcutScope,
    pub description: Seq<char>,
    pub category: Seq<char>,
}

impl View for ShortcutBinding {
    type V = ShortcutBindingView;

    open spec fn view(&self) -> ShortcutBindingView {
        ShortcutBindingView {
            action: self.action@,
            key: self.key@,
            ctrl: self.ctrl,
            shift: self.shift,
            alt: self.alt,
            scope: self.scope,
            description: self.description@,
            category: self.category@,
        }
    }
}

/// A shortcut configuration.
#[derive(Debug)]
pub struct ShortcutConfig {
    /// Version of the format.
    pub version: String,
    /// The bindings. Of two bindings of one action the first is shown; of
    /// two bindings of one key in one scope the last is triggered.
    pub shortcuts: Vec<ShortcutBinding>,
}

/// Model of a [`ShortcutConfig`].
#[verifier::ext_equal]
pub struct ShortcutConfigView {
    pub version: Seq<char>,
    pub shortcuts: Seq<ShortcutBindingView>,
}

impl View for ShortcutConfig {
    type V = ShortcutConfigView;

    open spec fn view(&self) -> ShortcutConfigView {
        ShortcutConfigView {
            version: self.version@,
            shortcuts: self.shortcuts@.map_values(|b: ShortcutBinding| b@),
        }
    }
}

/// A binding that the keyboard can trigger: a key with modifiers in a
/// scope, and the action.
#[derive(Clone, Copy, Debug, PartialEq, Eq, Structural)]
pub struct KeyBinding {
    pub key: Key,
    pub modifiers: KeyModifiers,
    pub scope: ShortcutScope,
    pub action: ShortcutAction,
}

/// The binding that `b` describes, where it names an action and a key that
/// a binding can name.
pub open spec fn parse_binding(b: ShortcutBindingView) -> Option<KeyBinding> {
    match (action_named(b.action), key_named(b.key)) {
        (Some(action), Some(key)) => Some(
            KeyBinding {
                key,
                modifiers: KeyModifiers { ctrl: b.ctrl, shift: b.shift, alt: b.alt },
                scope: b.scope,
                action,
            },
        ),
        _ => None,
    }
}

/// The bindings that `shortcuts` describe, in order; those that name no
/// action or no key are left out.
pub open spec fn parsed_bindings(shortcuts: Seq<ShortcutBindingView>) -> Seq<KeyBinding> {
    shortcuts.filter_map(|b: ShortcutBindingView| parse_binding(b))
}

/// The action that the key `key` with `modifiers` triggers in `scope`: that
/// of the last binding of the key in that scope.
pub open spec fn bound_action(
    bindings: Seq<KeyBinding>,
    key: Key,
    modifiers: KeyModifiers,
    scope: ShortcutScope,
) -> Option<ShortcutAction>
    decreases bindings.len(),
{
    if bindings.len() == 0 {
        None
    } else {
        let last = bindings.last();
        if last.key == key && last.modifiers == modifiers && last.scope == scope {
            Some(last.action)
        } else {
            bound_action(bindings.drop_last(), key, modifiers, scope)
        }
    }
}

/// The action that `key` with `modifiers` triggers in the mode `mode`: a
/// binding of the scope of the mode comes before a global one.
pub open spec fn triggered_action(
    bindings: Seq<KeyBinding>,
    key: Key,
    modifiers: KeyModifiers,
    mode: EditMode,
) -> Option<ShortcutAction> {
    match bound_action(bindings, key, modifiers, scope_of_mode(mode)) {
        Some(action) => Some(action),
        None => bound_action(bindings, key, modifiers, ShortcutScope::Global),
    }
}

/// The action that the pressed keys trigger: the keys that a binding can
/// name are looked at in their order, and the first that is pressed and
/// triggers an action decides.
pub open spec fn spec_handle_input(
    bindings: Seq<KeyBinding>,
    pressed: Seq<Key>,
    modifiers: KeyModifiers,
    mode: EditMode,
) -> Option<ShortcutAction> {
    let keys = spec_bindable_keys();
    match first_index(
        keys.len() as int,
        |k: int| pressed.contains(keys[k]) && triggered_action(bindings, keys[k], modifiers, mode)
            is Some,
    ) {
        Some(k) => triggered_action(bindings, keys[k], modifiers, mode),
        None => None,
    }
}

/// Whether the action `other` bound before is in conflict with `binding`
/// in `scope`: the key of `binding` triggers another action there.
pub open spec fn clash(seen: Seq<KeyBinding>, binding: KeyBinding, scope: ShortcutScope) -> nat {
    match bound_action(seen, binding.key, binding.modifiers, scope) {
        Some(other) => if other != binding.action {
            1
        } else {
            0
        },
        None => 0,
    }
}

/// The conflicts of `binding` with the bindings `seen` before it. A global
/// binding is in conflict with a binding of its key in any scope, another
/// one with a binding of its key in the global scope or in its own.
pub open spec fn conflicts_with(seen: Seq<KeyBinding>, binding: KeyBinding) -> nat {
    if binding.scope == ShortcutScope::Global {
        clash(seen, binding, ShortcutScope::Global) + clash(seen, binding, ShortcutScope::Normal)
            + clash(seen, binding, ShortcutScope::Drawing) + clash(
            seen,
            binding,
            ShortcutScope::Editing,
        )
    } else {
        clash(seen, binding, ShortcutScope::Global) + clash(seen, binding, binding.scope)
    }
}

/// The number of conflicts among `bindings`: each binding is held against
/// those before it.
pub open spec fn conflict_count(bindings: Seq<KeyBinding>) -> nat
    decreases bindings.len(),
{
    if bindings.len() == 0 {
        0
    } else {
        conflict_count(bindings.drop_last()) + conflicts_with(
            bindings.drop_last(),
            bindings.last(),
        )
    }
}

/// The binding of `action` in the default configuration, if the action has
/// a default key.
pub open spec fn default_binding(action: ShortcutAction) -> Option<ShortcutBindingView> {
    match action_default_key(action) {
        Some(key) => Some(
            ShortcutBindingView {
                action: action_name(action),
                key: key_name(key),
                ctrl: action_default_modifiers(action).ctrl,
                shift: action_default_modifiers(action).shift,
                alt: action_default_modifiers(action).alt,
                scope: action_scope(action),
                description: action_description_key(action),
                category: category_name(action_category(action)),
            },
        ),
        None => None,
    }
}

/// The default configuration: the default binding of every action that
/// has one, in the order of the actions.
pub open spec fn default_config_view() -> ShortcutConfigView {
    ShortcutConfigView {
        version: "1.0"@,
        shortcuts: spec_all_actions().filter_map(|a: ShortcutAction| default_binding(a)),
    }
}

/// The bindings without those of the action named `action`.
pub open spec fn without_action(
    shortcuts: Seq<ShortcutBindingView>,
    action: Seq<char>,
) -> Seq<ShortcutBindingView> {
    shortcuts.filter(|b: ShortcutBindingView| b.action != action)
}

/// The bindings after `binding` was merged in: it takes the place of every
/// binding of its action, at the end.
pub open spec fn merge_binding(
    shortcuts: Seq<ShortcutBindingView>,
    binding: ShortcutBindingView,
) -> Seq<ShortcutBindingView> {
    without_action(shortcuts, binding.action).push(binding)
}

/// The bindings after those of `overrides` were merged in, one after the
/// other.
pub open spec fn merge_bindings(
    shortcuts: Seq<ShortcutBindingView>,
    overrides: Seq<ShortcutBindingView>,
) -> Seq<ShortcutBindingView>
    decreases overrides.len(),
{
    if overrides.len() == 0 {
        shortcuts
    } else {
        merge_binding(merge_bindings(shortcuts, overrides.drop_last()), overrides.last())
    }
}

/// The first binding of the action named `action`.
pub open spec fn binding_of(shortcuts: Seq<ShortcutBindingView>, action: Seq<char>) -> Option<int> {
    first_index(shortcuts.len() as int, |k: int| shortcuts[k].action == action)
}

/// How a key is shown in a menu: a short name for the keys that have one,
/// the digit for a number key, else the name of the key.
pub open spec fn key_label(key: Seq<char>) -> Seq<char> {
    if key == "Escape"@ {
        "Esc"@
    } else if key == "Delete"@ {
        "Del"@
    } else if key == "ArrowLeft"@ {
        "←"@
    } else if key == "ArrowRight"@ {
        "→"@
    } else if key == "ArrowUp"@ {
        "↑"@
    } else if key == "ArrowDown"@ {
        "↓"@
    } else if key == "Plus"@ {
        "+"@
    } else if key == "Minus"@ {
        "-"@
    } else if key == "Equals"@ {
        "="@
    } else if "Num"@.is_prefix_of(key) {
        key.subrange("Num"@.len() as int, key.len() as int)
    } else {
        key
    }
}

/// How the editor of shortcuts shows a key: as a menu does, but with the
/// names of the plus, minus and equals keys.
pub open spec fn editor_key_label(key: Seq<char>) -> Seq<char> {
    if key == "Plus"@ || key == "Minus"@ || key == "Equals"@ {
        key
    } else {
        key_label(key)
    }
}

/// The modifiers of a binding as a menu shows them, each followed by `+`.
pub open spec fn modifier_label(ctrl: bool, shift: bool, alt: bool) -> Seq<char> {
    (if ctrl {
        "Ctrl+"@
    } else {
        Seq::empty()
    }) + (if shift {
        "Shift+"@
    } else {
        Seq::empty()
    }) + (if alt {
        "Alt+"@
    } else {
        Seq::empty()
    })
}

/// How a menu shows a binding, as in `Ctrl+S`.
pub open spec fn binding_label(b: ShortcutBindingView) -> Seq<char> {
    modifier_label(b.ctrl, b.shift, b.alt) + key_label(b.key)
}

/// How the list of shortcuts shows a binding: the modifiers and the name
/// of the key.
pub open spec fn binding_text(b: ShortcutBindingView) -> Seq<char> {
    modifier_label(b.ctrl, b.shift, b.alt) + b.key
}

/// The modifiers of a binding, each followed by `+`.
fn modifier_prefix(ctrl: bool, shift: bool, alt: bool) -> (label: String)
    ensures
        label@ == modifier_label(ctrl, shift, alt),
{
    let mut label: String = String::new();
    if ctrl {
        label.append("Ctrl+");
    }
    if shift {
        label.append("Shift+");
    }
    if alt {
        label.append("Alt+");
    }
    assert(label@ =~= modifier_label(ctrl, shift, alt));
    label
}

/// How the list of shortcuts shows `binding`.
pub fn format_shortcut(binding: &ShortcutBinding) -> (text: String)
    ensures
        text@ == binding_text(binding@),
{
    let mut text: String = modifier_prefix(binding.ctrl, binding.shift, binding.alt);
    text.append(binding.key.as_str());
    text
}

/// How the editor of shortcuts shows `binding`, as in `Ctrl+Esc`.
pub fn format_binding_display(binding: &ShortcutBinding) -> (text: String)
    ensures
        text@ == modifier_label(binding.ctrl, binding.shift, binding.alt) + editor_key_label(
            binding.key@,
        ),
{
    let mut text: String = modifier_prefix(binding.ctrl, binding.shift, binding.alt);
    let key: &str = binding.key.as_str();
    if str_eq(key, "Plus") || str_eq(key, "Minus") || str_eq(key, "Equals") {
        text.append(key);
    } else {
        text.append(label_of_key(key));
    }
    text
}

/// How the editor of shortcuts shows a key that was pressed with
/// `modifiers`, as in `Ctrl+Shift+ArrowLeft`.
pub fn format_modifiers_and_key(modifiers: &KeyModifiers, key: Key) -> (text: String)
    ensures
        text@ == modifier_label(modifiers.ctrl, modifiers.shift, modifiers.alt) + key_name(key),
{
    let mut text: String = modifier_prefix(modifiers.ctrl, modifiers.shift, modifiers.alt);
    text.append(key.name());
    text
}

/// How a menu shows the key named `key`.
pub fn label_of_key(key: &str) -> (label: &str)
    ensures
        label@ == key_label(key@),
{
    if str_eq(key, "Escape") {
        "Esc"
    } else if str_eq(key, "Delete") {
        "Del"
    } else if str_eq(key, "ArrowLeft") {
        "←"
    } else if str_eq(key, "ArrowRight") {
        "→"
    } else if str_eq(key, "ArrowUp") {
        "↑"
    } else if str_eq(key, "ArrowDown") {
        "↓"
    } else if str_eq(key, "Plus") {
        "+"
    } else if str_eq(key, "Minus") {
        "-"
    } else if str_eq(key, "Equals") {
        "="
    } else if str_starts_with(key, "Num") {
        proof {
            reveal_strlit("Num");
        }
        key.substring_char(3, key.unicode_len())
    } else {
        key
    }
}

impl ShortcutBinding {
    /// A copy of the binding.
    pub fn duplicate(&self) -> (copy: ShortcutBinding)
        ensures
            copy@ == self@,
    {
        ShortcutBinding {
            action: self.action.clone(),
            key: self.key.clone(),
            ctrl: self.ctrl,
            shift: self.shift,
            alt: self.alt,
            scope: self.scope,
            description: self.description.clone(),
            category: self.category.clone(),
        }
    }

    /// The binding that the keyboard can trigger, where this one names an
    /// action and a key that a binding can name.
    pub fn parse(&self) -> (parsed: Option<KeyBinding>)
        ensures
            parsed == parse_binding(self@),
    {
        let action: ShortcutAction = match ShortcutAction::from_name(self.action.as_str()) {
            Some(action) => action,
            None => {
                return None;
            },
        };
        let key: Key = match Key::from_name(self.key.as_str()) {
            Some(key) => key,
            None => {
                return None;
            },
        };
        Some(
            KeyBinding {
                key,
                modifiers: KeyModifiers { ctrl: self.ctrl, shift: self.shift, alt: self.alt },
                scope: self.scope,
                action,
            },
        )
    }

    /// The default binding of `action`, if the action has a default key.
    pub fn default_for(action: ShortcutAction) -> (binding: Option<ShortcutBinding>)
        ensures
            match default_binding(action) {
                Some(b) => binding matches Some(made) && made@ == b,
                None => binding is None,
            },
    {
        match action.default_key() {
            Some(key) => {
                let modifiers: KeyModifiers = action.default_modifiers();
                Some(
                    ShortcutBinding {
                        action: String::from_str(action.as_str()),
                        key: String::from_str(key.name()),
                        ctrl: modifiers.ctrl,
                        shift: modifiers.shift,
                        alt: modifiers.alt,
                        scope: action.scope(),
                        description: String::from_str(action.description_key()),
                        category: String::from_str(action.category().as_str()),
                    },
                )
            },
            None => None,
        }
    }
}

impl ShortcutConfig {
    /// A copy of the configuration.
    pub fn duplicate(&self) -> (copy: ShortcutConfig)
        ensures
            copy@ == self@,
    {
        let mut shortcuts: Vec<ShortcutBinding> = Vec::new();
        let mut k: usize = 0;
        while k < self.shortcuts.len()
            invariant
                k <= self.shortcuts@.len(),
                shortcuts@.len() == k,
                forall|j: int| 0 <= j < k ==> (#[trigger] shortcuts@[j])@ == self.shortcuts@[j]@,
            decreases self.shortcuts@.len() - k,
        {
            shortcuts.push(self.shortcuts[k].duplicate());
            k = k + 1;
        }
        let copy = ShortcutConfig { version: self.version.clone(), shortcuts };
        assert(copy@.shortcuts =~= self@.shortcuts);
        copy
    }

    /// The default configuration.
    pub fn default_config() -> (config: ShortcutConfig)
        ensures
            config@ == default_config_view(),
    {
        let actions = ShortcutAction::all_actions();
        let ghost make = |a: ShortcutAction| default_binding(a);
        let mut shortcuts: Vec<ShortcutBinding> = Vec::new();
        let mut k: usize = 0;
        while k < actions.len()
            invariant
                k <= actions@.len(),
                actions@ == spec_all_actions(),
                make == |a: ShortcutAction| default_binding(a),
                shortcuts@.map_values(|b: ShortcutBinding| b@) == actions@.take(k as int).filter_map(
                    make,
                ),
            decreases actions@.len() - k,
        {
            let ghost before = shortcuts@.map_values(|b: ShortcutBinding| b@);
            proof {
                lemma_filter_map_next(actions@, make, k as int);
            }
            match ShortcutBinding::default_for(actions[k]) {
                Some(binding) => {
                    shortcuts.push(binding);
                    assert(shortcuts@.map_values(|b: ShortcutBinding| b@) =~= before.push(binding@));
                },
                None => {},
            }
            k = k + 1;
        }
        assert(actions@.take(k as int) =~= actions@);
        ShortcutConfig { version: String::from_str("1.0"), shortcuts }
    }

    /// The bindings that the keyboard can trigger.
    pub fn build_bindings(&self) -> (bindings: Vec<KeyBinding>)
        ensures
            bindings@ == parsed_bindings(self@.shortcuts),
    {
        let ghost parse = |b: ShortcutBindingView| parse_binding(b);
        let mut bindings: Vec<KeyBinding> = Vec::new();
        let mut k: usize = 0;
        while k < self.shortcuts.len()
            invariant
                k <= self.shortcuts@.len(),
                parse == |b: ShortcutBindingView| parse_binding(b),
                bindings@ == self@.shortcuts.take(k as int).filter_map(parse),
            decreases self.shortcuts@.len() - k,
        {
            proof {
                lemma_filter_map_next(self@.shortcuts, parse, k as int);
            }
            match self.shortcuts[k].parse() {
                Some(binding) => {
                    bindings.push(binding);
                },
                None => {},
            }
            k = k + 1;
        }
        assert(self@.shortcuts.take(k as int) =~= self@.shortcuts);
        bindings
    }

    /// Position of the first binding of `action`.
    pub fn binding_index(&self, action: ShortcutAction) -> (found: Option<usize>)
        ensures
            found.is_some() == binding_of(self@.shortcuts, action_name(action)).is_some(),
            found matches Some(k) ==> k < self.shortcuts@.len() && binding_of(
                self@.shortcuts,
                action_name(action),
            ) == Some(k as int),
    {
        let ghost pred = |k: int| self@.shortcuts[k].action == action_name(action);
        let name: &str = action.as_str();
        let mut k: usize = 0;
        while k < self.shortcuts.len()
            invariant
                k <= self.shortcuts@.len(),
                name@ == action_name(action),
                pred == |k: int| self@.shortcuts[k].action == action_name(action),
                forall|j: int| 0 <= j < k ==> !#[trigger] pred(j),
            decreases self.shortcuts@.len() - k,
        {
            if str_eq(self.shortcuts[k].action.as_str(), name) {
                proof {
                    assert(pred(k as int));
                    lemma_first_index_is(self.shortcuts@.len() as int, pred, k as int);
                }
                return Some(k);
            }
            assert(!pred(k as int));
            k = k + 1;
        }
        proof {
            lemma_first_index_none(self.shortcuts@.len() as int, pred);
        }
        None
    }

    /// Removes every binding of the action named `action`.
    pub fn remove_bindings_of(&mut self, action: &str)
        ensures
            final(self)@ == (ShortcutConfigView {
                shortcuts: without_action(old(self)@.shortcuts, action@),
                ..old(self)@
            }),
    {
        let ghost before = self@.shortcuts;
        let ghost keep = |b: ShortcutBindingView| b.action != action@;
        let mut i: usize = 0;
        let ghost mut seen: int = 0;
        while i < self.shortcuts.len()
            invariant
                i <= self.shortcuts@.len(),
                0 <= seen <= before.len(),
                self.shortcuts@.len() - i == before.len() - seen,
                self@.shortcuts.take(i as int) == before.take(seen).filter(keep),
                self@.shortcuts.skip(i as int) == before.skip(seen),
                self.version == old(self).version,
                keep == |b: ShortcutBindingView| b.action != action@,
            decreases self.shortcuts@.len() - i,
        {
            let ghost current = self@.shortcuts;
            proof {
                crate::annotation::lemma_filter_next(before, keep, seen);
                crate::annotation::lemma_skip_next(current, i as int, before, seen);
            }
            if str_eq(self.shortcuts[i].action.as_str(), action) {
                self.shortcuts.remove(i);
                proof {
                    assert(self@.shortcuts =~= current.remove(i as int));
                    assert(self@.shortcuts.take(i as int) =~= current.take(i as int));
                    assert(self@.shortcuts.skip(i as int) =~= current.skip(i + 1));
                    seen = seen + 1;
                }
            } else {
                proof {
                    assert(current.take(i + 1) =~= current.take(i as int).push(current[i as int]));
                    seen = seen + 1;
                }
                i = i + 1;
            }
        }
        proof {
            assert(before.take(seen) =~= before);
            assert(self@.shortcuts.take(i as int) =~= self@.shortcuts);
        }
    }

    /// Merges `binding` in: it takes the place of every binding of its
    /// action, at the end.
    pub fn merge_binding(&mut self, binding: ShortcutBinding)
        ensures
            final(self)@ == (ShortcutConfigView {
                shortcuts: merge_binding(old(self)@.shortcuts, binding@),
                ..old(self)@
            }),
    {
        self.remove_bindings_of(binding.action.as_str());
        let ghost filtered = self@.shortcuts;
        self.shortcuts.push(binding);
        assert(self@.shortcuts =~= filtered.push(binding@));
    }
}

/// The shortcuts of a session: a configuration and the bindings that the
/// keyboard can trigger by it.
#[derive(Debug)]
pub struct ShortcutManager {
    bindings: Vec<KeyBinding>,
    config: ShortcutConfig,
}

impl View for ShortcutManager {
    type V = ShortcutConfigView;

    closed spec fn view(&self) -> ShortcutConfigView {
        self.config@
    }
}

/// Whether `key` is among `keys`.
fn is_pressed(keys: &Vec<Key>, key: Key) -> (pressed: bool)
    ensures
        pressed == keys@.contains(key),
{
    let mut k: usize = 0;
    while k < keys.len()
        invariant
            k <= keys@.len(),
            forall|j: int| 0 <= j < k ==> keys@[j] != key,
        decreases keys@.len() - k,
    {
        if keys[k] == key {
            return true;
        }
        k = k + 1;
    }
    false
}

/// The action that `key` with `modifiers` triggers in `scope`.
pub fn lookup_binding(
    bindings: &Vec<KeyBinding>,
    key: Key,
    modifiers: KeyModifiers,
    scope: ShortcutScope,
) -> (action: Option<ShortcutAction>)
    ensures
        action == bound_action(bindings@, key, modifiers, scope),
{
    let mut k: usize = bindings.len();
    assert(bindings@.take(k as int) =~= bindings@);
    while k > 0
        invariant
            k <= bindings@.len(),
            bound_action(bindings@, key, modifiers, scope) == bound_action(
                bindings@.take(k as int),
                key,
                modifiers,
                scope,
            ),
        decreases k,
    {
        k = k - 1;
        let binding: KeyBinding = bindings[k];
        proof {
            assert(bindings@.take(k + 1).last() == bindings@[k as int]);
            assert(bindings@.take(k + 1).drop_last() =~= bindings@.take(k as int));
        }
        if binding.key == key && binding.modifiers == modifiers && binding.scope == scope {
            return Some(binding.action);
        }
    }
    assert(bindings@.take(0).len() == 0);
    None
}

/// The number `n`, or the largest `usize` where `n` is larger.
pub open spec fn capped(n: nat) -> usize {
    if n > usize::MAX {
        usize::MAX
    } else {
        n as usize
    }
}

/// The number of conflicts among `bindings`, or the largest `usize` where
/// there are more.
pub fn count_conflicts(bindings: &Vec<KeyBinding>) -> (count: usize)
    ensures
        count == capped(conflict_count(bindings@)),
{
    let mut total: u128 = 0;
    let mut seen: Vec<KeyBinding> = Vec::new();
    let mut k: usize = 0;
    while k < bindings.len()
        invariant
            k <= bindings@.len(),
            seen@ == bindings@.take(k as int),
            total == conflict_count(bindings@.take(k as int)),
            total <= 4 * k,
        decreases bindings@.len() - k,
    {
        let binding: KeyBinding = bindings[k];
        let mut found: u128 = 0;
        if binding.scope == ShortcutScope::Global {
            found = found + clash_in(&seen, binding, ShortcutScope::Global);
            found = found + clash_in(&seen, binding, ShortcutScope::Normal);
            found = found + clash_in(&seen, binding, ShortcutScope::Drawing);
            found = found + clash_in(&seen, binding, ShortcutScope::Editing);
        } else {
            found = found + clash_in(&seen, binding, ShortcutScope::Global);
            found = found + clash_in(&seen, binding, binding.scope);
        }
        proof {
            assert(bindings@.take(k + 1).last() == binding);
            assert(bindings@.take(k + 1).drop_last() =~= bindings@.take(k as int));
            assert(bindings@.take(k + 1) =~= seen@.push(binding));
        }
        total = total + found;
        seen.push(binding);
        k = k + 1;
    }
    assert(bindings@.take(k as int) =~= bindings@);
    if total > usize::MAX as u128 {
        usize::MAX
    } else {
        total as usize
    }
}

/// Decides [`clash`].
fn clash_in(seen: &Vec<KeyBinding>, binding: KeyBinding, scope: ShortcutScope) -> (found: u128)
    ensures
        found == clash(seen@, binding, scope),
        found <= 1,
{
    match lookup_binding(seen, binding.key, binding.modifiers, scope) {
        Some(other) => if other != binding.action {
            1
        } else {
            0
        },
        None => 0,
    }
}

impl ShortcutManager {
    /// The manager is consistent: the bindings that the keyboard can
    /// trigger are those that the configuration describes.
    pub closed spec fn wf(&self) -> bool {
        self.bindings@ == parsed_bindings(self.config@.shortcuts)
    }

    /// The manager of the default configuration.
    pub fn new() -> (manager: ShortcutManager)
        ensures
            manager@ == default_config_view(),
            manager.wf(),
    {
        ShortcutManager::from_config(ShortcutConfig::default_config())
    }

    /// The manager of `config`.
    pub fn from_config(config: ShortcutConfig) -> (manager: ShortcutManager)
        ensures
            manager@ == config@,
            manager.wf(),
    {
        let bindings = config.build_bindings();
        ShortcutManager { bindings, config }
    }

    /// The action that the pressed keys trigger in the mode `mode`. The
    /// keys that a binding can name are looked at in their order; for each
    /// that is pressed, a binding of the scope of the mode comes before a
    /// global one.
    pub fn handle_input(&self, pressed: &Vec<Key>, modifiers: KeyModifiers, mode: EditMode) -> (action:
        Option<ShortcutAction>)
        requires
            self.wf(),
        ensures
            action == spec_handle_input(
                parsed_bindings(self@.shortcuts),
                pressed@,
                modifiers,
                mode,
            ),
    {
        let scope: ShortcutScope = ShortcutScope::of_mode(mode);
        let keys: Vec<Key> = Key::bindable_keys();
        let ghost bindings = self.bindings@;
        let ghost pred = |k: int|
            pressed@.contains(spec_bindable_keys()[k]) && triggered_action(
                bindings,
                spec_bindable_keys()[k],
                modifiers,
                mode,
            ) is Some;
        let mut k: usize = 0;
        while k < keys.len()
            invariant
                k <= keys@.len(),
                keys@ == spec_bindable_keys(),
                bindings == self.bindings@,
                bindings == parsed_bindings(self@.shortcuts),
                scope == scope_of_mode(mode),
                pred == |k: int|
                    pressed@.contains(spec_bindable_keys()[k]) && triggered_action(
                        bindings,
                        spec_bindable_keys()[k],
                        modifiers,
                        mode,
                    ) is Some,
                forall|j: int| 0 <= j < k ==> !#[trigger] pred(j),
            decreases keys@.len() - k,
        {
            let key: Key = keys[k];
            if is_pressed(pressed, key) {
                let found: Option<ShortcutAction> = match lookup_binding(
                    &self.bindings,
                    key,
                    modifiers,
                    scope,
                ) {
                    Some(action) => Some(action),
                    None => lookup_binding(&self.bindings, key, modifiers, ShortcutScope::Global),
                };
                if found.is_some() {
                    proof {
                        assert(pred(k as int));
                        lemma_first_index_is(keys@.len() as int, pred, k as int);
                    }
                    return found;
                }
            }
            assert(!pred(k as int));
            k = k + 1;
        }
        proof {
            lemma_first_index_none(keys@.len() as int, pred);
        }
        None
    }

    /// The first binding of `action` in the configuration.
    pub fn get_binding(&self, action: ShortcutAction) -> (binding: Option<&ShortcutBinding>)
        ensures
            match binding_of(self@.shortcuts, action_name(action)) {
                Some(k) => binding matches Some(b) && b@ == self@.shortcuts[k],
                None => binding is None,
            },
    {
        match self.config.binding_index(action) {
            Some(k) => {
                assert(self.config@.shortcuts[k as int] == self.config.shortcuts@[k as int]@);
                Some(&self.config.shortcuts[k])
            },
            None => None,
        }
    }

    /// Merges the bindings of `config` into the configuration, one after
    /// the other: a binding takes the place of the bindings of its action.
    pub fn merge_config(&mut self, config: &ShortcutConfig)
        ensures
            final(self)@ == (ShortcutConfigView {
                shortcuts: merge_bindings(old(self)@.shortcuts, config@.shortcuts),
                ..old(self)@
            }),
            final(self).wf(),
    {
        let mut k: usize = 0;
        while k < config.shortcuts.len()
            invariant
                k <= config.shortcuts@.len(),
                self.config@ == (ShortcutConfigView {
                    shortcuts: merge_bindings(
                        old(self).config@.shortcuts,
                        config@.shortcuts.take(k as int),
                    ),
                    ..old(self).config@
                }),
            decreases config.shortcuts@.len() - k,
        {
            proof {
                assert(config@.shortcuts.take(k + 1).drop_last() =~= config@.shortcuts.take(
                    k as int,
                ));
                assert(config@.shortcuts.take(k + 1).last() == config.shortcuts@[k as int]@);
            }
            self.config.merge_binding(config.shortcuts[k].duplicate());
            k = k + 1;
        }
        assert(config@.shortcuts.take(k as int) =~= config@.shortcuts);
        self.bindings = self.config.build_bindings();
    }

    /// The number of conflicts in the configuration.
    pub fn detect_conflicts(&self) -> (count: usize)
        requires
            self.wf(),
        ensures
            count == capped(conflict_count(parsed_bindings(self@.shortcuts))),
    {
        count_conflicts(&self.bindings)
    }

    /// How a menu shows the shortcut of `action`, as in `Ctrl+S`; `None`
    /// for an action without a binding.
    pub fn format_shortcut(&self, action: ShortcutAction) -> (text: Option<String>)
        ensures
            match binding_of(self@.shortcuts, action_name(action)) {
                Some(k) => text matches Some(t) && t@ == binding_label(self@.shortcuts[k]),
                None => text is None,
            },
    {
        match self.get_binding(action) {
            Some(binding) => {
                let mut text: String = modifier_prefix(binding.ctrl, binding.shift, binding.alt);
                text.append(label_of_key(binding.key.as_str()));
                Some(text)
            },
            None => None,
        }
    }

    /// The configuration.
    pub fn get_config(&self) -> (config: &ShortcutConfig)
        ensures
            config@ == self@,
    {
        &self.config
    }

    /// Takes `config` as the configuration.
    pub fn apply_config(&mut self, config: ShortcutConfig)
        ensures
            final(self)@ == config@,
            final(self).wf(),
    {
        self.bindings = config.build_bindings();
        self.config = config;
    }
}

impl Default for ShortcutManager {
    fn default() -> (manager: ShortcutManager)
        ensures
            manager@ == default_config_view(),
            manager.wf(),
    {
        ShortcutManager::new()
    }
}

/// The state of the editor of shortcuts.
#[derive(Debug)]
pub struct ShortcutEditorState {
    /// The configuration that is being edited.
    pub working_config: ShortcutConfig,
    /// The action whose shortcut is being set.
    pub editing_action: Option<ShortcutAction>,
    /// The key that was pressed for it.
    pub captured_key: Option<Key>,
    /// The modifiers that were held with the key.
    pub captured_modifiers: KeyModifiers,
    /// Text that the names of the listed actions contain.
    pub search_filter: String,
    /// The category of the listed actions.
    pub category_filter: Option<ShortcutCategory>,
    /// The number of conflicts in the configuration.
    pub conflict_count: usize,
    /// The editor waits for a key.
    pub is_capturing: bool,
}

/// The bindings with the first binding of `action` set to `key` with
/// `modifiers`.
pub open spec fn rebind(
    shortcuts: Seq<ShortcutBindingView>,
    action: ShortcutAction,
    key: Key,
    modifiers: KeyModifiers,
) -> Seq<ShortcutBindingView> {
    match binding_of(shortcuts, action_name(action)) {
        Some(k) => shortcuts.update(
            k,
            ShortcutBindingView {
                key: key_name(key),
                ctrl: modifiers.ctrl,
                shift: modifiers.shift,
                alt: modifiers.alt,
                ..shortcuts[k]
            },
        ),
        None => shortcuts,
    }
}

/// The function keys, in their order.
pub open spec fn spec_function_keys() -> Seq<Key> {
    seq![
        Key::F1,
        Key::F2,
        Key::F3,
        Key::F4,
        Key::F5,
        Key::F6,
        Key::F7,
        Key::F8,
        Key::F9,
        Key::F10,
        Key::F11,
        Key::F12,
    ]
}

/// The keys that the editor can take for a shortcut, in the order in which
/// it looks at them: the keys that a binding can name but the last of
/// them, the equals key, and then the function keys.
pub open spec fn spec_capturable_keys() -> Seq<Key> {
    spec_bindable_keys().drop_last() + spec_function_keys()
}

/// The key that the editor holds after the keys `pressed` were reported:
/// the first of the keys that it can take that is pressed, or the key
/// `before` where none of them is.
pub open spec fn captured(before: Option<Key>, pressed: Seq<Key>) -> Option<Key> {
    let keys = spec_capturable_keys();
    match first_index(keys.len() as int, |k: int| pressed.contains(keys[k])) {
        Some(k) => Some(keys[k]),
        None => before,
    }
}

/// The keys that the editor can take for a shortcut.
pub fn capturable_keys() -> (keys: Vec<Key>)
    ensures
        keys@ == spec_capturable_keys(),
{
    let mut keys: Vec<Key> = Key::bindable_keys();
    keys.pop();
    assert(keys@ =~= spec_bindable_keys().drop_last());
    let ghost front = keys@;
    keys.push(Key::F1);
    keys.push(Key::F2);
    keys.push(Key::F3);
    keys.push(Key::F4);
    keys.push(Key::F5);
    keys.push(Key::F6);
    keys.push(Key::F7);
    keys.push(Key::F8);
    keys.push(Key::F9);
    keys.push(Key::F10);
    keys.push(Key::F11);
    keys.push(Key::F12);
    assert(keys@ =~= front + spec_function_keys());
    keys
}

/// The action `action` is listed: it is of the category that is asked
/// for, if one is, and its name contains the text that is searched for, if
/// any is, in whatever case.
pub open spec fn is_listed(
    category: Option<ShortcutCategory>,
    search: Seq<char>,
    action: ShortcutAction,
) -> bool {
    &&& category matches Some(c) ==> action_category(action) == c
    &&& search.len() > 0 ==> contains_text(lowercase(action_name(action)), lowercase(search))
}

/// The action `action` with its first binding, where the action is listed
/// and has a binding.
pub open spec fn listed_shortcut(
    shortcuts: Seq<ShortcutBindingView>,
    category: Option<ShortcutCategory>,
    search: Seq<char>,
    action: ShortcutAction,
) -> Option<(ShortcutAction, ShortcutBindingView)> {
    if is_listed(category, search, action) {
        match binding_of(shortcuts, action_name(action)) {
            Some(k) => Some((action, shortcuts[k])),
            None => None,
        }
    } else {
        None
    }
}

impl ShortcutEditorState {
    /// The actions that the list shows, each with its first binding: the
    /// actions of the chosen category whose names contain the text searched
    /// for, in the order of the actions.
    pub fn get_filtered_shortcuts(&self) -> (listed: Vec<(ShortcutAction, &ShortcutBinding)>)
        ensures
            listed@.map_values(|e: (ShortcutAction, &ShortcutBinding)| (e.0, e.1@))
                == spec_all_actions().filter_map(
                |a: ShortcutAction|
                    listed_shortcut(
                        self.working_config@.shortcuts,
                        self.category_filter,
                        self.search_filter@,
                        a,
                    ),
            ),
    {
        let actions = ShortcutAction::all_actions();
        let ghost choose_listed = |a: ShortcutAction|
            listed_shortcut(
                self.working_config@.shortcuts,
                self.category_filter,
                self.search_filter@,
                a,
            );
        let search_lower: String = to_lowercase(self.search_filter.as_str());
        let searching: bool = self.search_filter.as_str().unicode_len() > 0;
        let mut listed: Vec<(ShortcutAction, &ShortcutBinding)> = Vec::new();
        let mut k: usize = 0;
        while k < actions.len()
            invariant
                k <= actions@.len(),
                actions@ == spec_all_actions(),
                search_lower@ == lowercase(self.search_filter@),
                searching == (self.search_filter@.len() > 0),
                choose_listed == |a: ShortcutAction|
                    listed_shortcut(
                        self.working_config@.shortcuts,
                        self.category_filter,
                        self.search_filter@,
                        a,
                    ),
                listed@.map_values(|e: (ShortcutAction, &ShortcutBinding)| (e.0, e.1@))
                    == actions@.take(k as int).filter_map(choose_listed),
            decreases actions@.len() - k,
        {
            let action: ShortcutAction = actions[k];
            let ghost before = listed@.map_values(
                |e: (ShortcutAction, &ShortcutBinding)| (e.0, e.1@),
            );
            proof {
                lemma_filter_map_next(actions@, choose_listed, k as int);
            }
            let in_category: bool = match self.category_filter {
                Some(c) => action.category() == c,
                None => true,
            };
            let matches_search: bool = if searching {
                let name_lower: String = to_lowercase(action.as_str());
                str_contains(name_lower.as_str(), search_lower.as_str())
            } else {
                true
            };
            if in_category && matches_search {
                match self.working_config.binding_index(action) {
                    Some(b) => {
                        let binding: &ShortcutBinding = &self.working_config.shortcuts[b];
                        listed.push((action, binding));
                        assert(self.working_config@.shortcuts[b as int] == binding@);
                        assert(listed@.map_values(
                            |e: (ShortcutAction, &ShortcutBinding)| (e.0, e.1@),
                        ) =~= before.push((action, binding@)));
                    },
                    None => {},
                }
            }
            k = k + 1;
        }
        assert(actions@.take(k as int) =~= actions@);
        listed
    }

    /// The number of conflicts shown is that of the configuration.
    pub open spec fn wf(&self) -> bool {
        self.conflict_count == capped(conflict_count(parsed_bindings(self.working_config@.shortcuts)))
    }

    /// The editor of a copy of `current_config`.
    pub fn new(current_config: &ShortcutConfig) -> (state: ShortcutEditorState)
        ensures
            state.working_config@ == current_config@,
            state.editing_action is None,
            state.captured_key is None,
            state.captured_modifiers == (KeyModifiers { ctrl: false, shift: false, alt: false }),
            state.search_filter@.len() == 0,
            state.category_filter is None,
            !state.is_capturing,
            state.wf(),
    {
        let mut state = ShortcutEditorState {
            working_config: current_config.duplicate(),
            editing_action: None,
            captured_key: None,
            captured_modifiers: KeyModifiers { ctrl: false, shift: false, alt: false },
            search_filter: String::new(),
            category_filter: None,
            conflict_count: 0,
            is_capturing: false,
        };
        state.refresh_conflicts();
        state
    }

    /// Starts to set the shortcut of `action`: the editor waits for a key.
    pub fn start_editing(&mut self, action: ShortcutAction)
        ensures
            final(self).editing_action == Some(action),
            final(self).captured_key is None,
            final(self).captured_modifiers == (KeyModifiers {
                ctrl: false,
                shift: false,
                alt: false,
            }),
            final(self).is_capturing,
            final(self).working_config == old(self).working_config,
            final(self).search_filter == old(self).search_filter,
            final(self).category_filter == old(self).category_filter,
            final(self).conflict_count == old(self).conflict_count,
    {
        self.editing_action = Some(action);
        self.captured_key = None;
        self.captured_modifiers = KeyModifiers { ctrl: false, shift: false, alt: false };
        self.is_capturing = true;
    }

    /// Stops setting a shortcut.
    pub fn cancel_editing(&mut self)
        ensures
            final(self).editing_action is None,
            !final(self).is_capturing,
            final(self).captured_key == old(self).captured_key,
            final(self).captured_modifiers == old(self).captured_modifiers,
            final(self).working_config == old(self).working_config,
            final(self).search_filter == old(self).search_filter,
            final(self).category_filter == old(self).category_filter,
            final(self).conflict_count == old(self).conflict_count,
    {
        self.editing_action = None;
        self.is_capturing = false;
    }

    /// Sets the shortcut of the action that is being edited to the key that
    /// was pressed, where there is both, and counts the conflicts anew.
    pub fn apply_edit(&mut self)
        ensures
            match (old(self).editing_action, old(self).captured_key) {
                (Some(action), Some(key)) => {
                    &&& final(self).working_config@ == (ShortcutConfigView {
                        shortcuts: rebind(
                            old(self).working_config@.shortcuts,
                            action,
                            key,
                            old(self).captured_modifiers,
                        ),
                        ..old(self).working_config@
                    })
                    &&& final(self).editing_action is None
                    &&& !final(self).is_capturing
                    &&& final(self).wf()
                },
                _ => {
                    &&& final(self).working_config@ == old(self).working_config@
                    &&& final(self).editing_action == old(self).editing_action
                    &&& final(self).is_capturing == old(self).is_capturing
                    &&& final(self).conflict_count == old(self).conflict_count
                },
            },
            final(self).captured_key == old(self).captured_key,
            final(self).captured_modifiers == old(self).captured_modifiers,
    {
        match (self.editing_action, self.captured_key) {
            (Some(action), Some(key)) => {
                self.update_binding(action, key, self.captured_modifiers);
                self.cancel_editing();
                self.refresh_conflicts();
            },
            _ => {},
        }
    }

    /// Sets the first binding of `action` to `key` with `modifiers`.
    fn update_binding(&mut self, action: ShortcutAction, key: Key, modifiers: KeyModifiers)
        ensures
            final(self).working_config@ == (ShortcutConfigView {
                shortcuts: rebind(old(self).working_config@.shortcuts, action, key, modifiers),
                ..old(self).working_config@
            }),
            final(self).editing_action == old(self).editing_action,
            final(self).captured_key == old(self).captured_key,
            final(self).captured_modifiers == old(self).captured_modifiers,
            final(self).is_capturing == old(self).is_capturing,
            final(self).conflict_count == old(self).conflict_count,
    {
        let ghost before = self.working_config@.shortcuts;
        match self.working_config.binding_index(action) {
            Some(k) => {
                let mut binding: ShortcutBinding = self.working_config.shortcuts[k].duplicate();
                binding.key = String::from_str(key.name());
                binding.ctrl = modifiers.ctrl;
                binding.shift = modifiers.shift;
                binding.alt = modifiers.alt;
                let ghost changed = binding@;
                assert(before[k as int] == self.working_config.shortcuts@[k as int]@);
                self.working_config.shortcuts[k] = binding;
                assert(self.working_config@.shortcuts =~= before.update(k as int, changed));
            },
            None => {},
        }
    }

    /// Takes what the keyboard reports while the editor waits for a key:
    /// the modifiers that are held, and the first of the keys that the
    /// editor can take that is pressed. Where none of them is pressed, the
    /// key taken before stays.
    pub fn capture_input(&mut self, pressed: &Vec<Key>, modifiers: KeyModifiers)
        ensures
            final(self).captured_modifiers == modifiers,
            final(self).captured_key == captured(old(self).captured_key, pressed@),
            final(self).working_config == old(self).working_config,
            final(self).editing_action == old(self).editing_action,
            final(self).is_capturing == old(self).is_capturing,
            final(self).search_filter == old(self).search_filter,
            final(self).category_filter == old(self).category_filter,
            final(self).conflict_count == old(self).conflict_count,
    {
        self.captured_modifiers = modifiers;
        let keys: Vec<Key> = capturable_keys();
        let ghost pred = |k: int| pressed@.contains(spec_capturable_keys()[k]);
        let mut k: usize = 0;
        while k < keys.len()
            invariant
                k <= keys@.len(),
                keys@ == spec_capturable_keys(),
                pred == |k: int| pressed@.contains(spec_capturable_keys()[k]),
                forall|j: int| 0 <= j < k ==> !#[trigger] pred(j),
                self.captured_modifiers == modifiers,
                self.captured_key == old(self).captured_key,
                self.working_config == old(self).working_config,
                self.editing_action == old(self).editing_action,
                self.is_capturing == old(self).is_capturing,
                self.search_filter == old(self).search_filter,
                self.category_filter == old(self).category_filter,
                self.conflict_count == old(self).conflict_count,
            decreases keys@.len() - k,
        {
            let key: Key = keys[k];
            if is_pressed(pressed, key) {
                proof {
                    assert(pred(k as int));
                    lemma_first_index_is(keys@.len() as int, pred, k as int);
                }
                self.captured_key = Some(key);
                return ;
            }
            assert(!pred(k as int));
            k = k + 1;
        }
        proof {
            lemma_first_index_none(keys@.len() as int, pred);
        }
    }

    /// Forgets the key and the modifiers that were taken.
    pub fn clear_capture(&mut self)
        ensures
            final(self).captured_key is None,
            final(self).captured_modifiers == (KeyModifiers {
                ctrl: false,
                shift: false,
                alt: false,
            }),
            final(self).working_config == old(self).working_config,
            final(self).editing_action == old(self).editing_action,
            final(self).is_capturing == old(self).is_capturing,
            final(self).search_filter == old(self).search_filter,
            final(self).category_filter == old(self).category_filter,
            final(self).conflict_count == old(self).conflict_count,
    {
        self.captured_key = None;
        self.captured_modifiers = KeyModifiers { ctrl: false, shift: false, alt: false };
    }

    /// Removes every binding of `action`, and counts the conflicts anew.
    pub fn clear_binding(&mut self, action: ShortcutAction)
        ensures
            final(self).working_config@ == (ShortcutConfigView {
                shortcuts: without_action(old(self).working_config@.shortcuts, action_name(action)),
                ..old(self).working_config@
            }),
            final(self).wf(),
            final(self).editing_action == old(self).editing_action,
            final(self).captured_key == old(self).captured_key,
            final(self).captured_modifiers == old(self).captured_modifiers,
            final(self).is_capturing == old(self).is_capturing,
            final(self).search_filter == old(self).search_filter,
            final(self).category_filter == old(self).category_filter,
    {
        self.working_config.remove_bindings_of(action.as_str());
        self.refresh_conflicts();
    }

    /// Puts the default configuration in the place of the one that is
    /// edited, and counts the conflicts anew.
    pub fn restore_defaults(&mut self)
        ensures
            final(self).working_config@ == default_config_view(),
            final(self).wf(),
            final(self).editing_action == old(self).editing_action,
            final(self).captured_key == old(self).captured_key,
            final(self).captured_modifiers == old(self).captured_modifiers,
            final(self).is_capturing == old(self).is_capturing,
            final(self).search_filter == old(self).search_filter,
            final(self).category_filter == old(self).category_filter,
    {
        self.working_config = ShortcutConfig::default_config();
        self.refresh_conflicts();
    }

    /// Counts the conflicts in the configuration anew.
    pub fn refresh_conflicts(&mut self)
        ensures
            final(self).wf(),
            final(self).working_config == old(self).working_config,
            final(self).editing_action == old(self).editing_action,
            final(self).captured_key == old(self).captured_key,
            final(self).captured_modifiers == old(self).captured_modifiers,
            final(self).is_capturing == old(self).is_capturing,
            final(self).search_filter == old(self).search_filter,
            final(self).category_filter == old(self).category_filter,
    {
        let bindings = self.working_config.build_bindings();
        self.conflict_count = count_conflicts(&bindings);
    }
}

/// Mapping one element more: what the first `m + 1` elements give is what
/// the first `m` give, and what the element at `m` gives if it gives
/// anything.
pub proof fn lemma_filter_map_next<A, B>(s: Seq<A>, f: spec_fn(A) -> Option<B>, m: int)
    requires
        0 <= m < s.len(),
    ensures
        s.take(m + 1).filter_map(f) == match f(s[m]) {
            Some(b) => s.take(m).filter_map(f).push(b),
            None => s.take(m).filter_map(f),
        },
{
    assert(s.take(m + 1).drop_last() =~= s.take(m));
    assert(s.take(m + 1).last() == s[m]);
    match f(s[m]) {
        Some(b) => {
            assert(s.take(m).filter_map(f) + seq![b] =~= s.take(m).filter_map(f).push(b));
        },
        None => {},
    }
}

} // verus!
