//! First-run GLM (Zhipu) API key onboarding step.
//!
//! When the GLM provider is active but no API key is available from the
//! environment or the auth store, this step asks the user to paste a key.
//! Enter asks for the key to be persisted; Esc skips and lets the user go on
//! without a key. The step is a state machine: each key event or paste moves
//! the widget to its next state and names the action that the terminal loop
//! around it performs (redraw, or save the key and report back).

use vstd::prelude::*;

use crate::auth::{opt_view, spec_stored_glm_api_key, AuthDotJson};
use crate::text::{is_blank, lemma_trim_idempotent, trim_seq, trim_whitespace};

verus! {

// ---------------------------------------------------------------------------
// Keys
// ---------------------------------------------------------------------------

/// The key of a key event, as far as the step tells keys apart.
#[derive(Clone, Copy, Debug, PartialEq, Eq, Structural)]
pub enum KeyCode {
    Char(char),
    Backspace,
    Enter,
    Esc,
    /// Any other key.
    Other,
}

/// The modifier keys held during a key event.
#[derive(Clone, Copy, Debug, PartialEq, Eq, Structural)]
pub struct KeyModifiers {
    pub shift: bool,
    pub control: bool,
    pub alt: bool,
    pub super_key: bool,
    pub hyper: bool,
    pub meta: bool,
}

/// Whether a key was pressed, held (repeat) or released.
#[derive(Clone, Copy, Debug, PartialEq, Eq, Structural)]
pub enum KeyEventKind {
    Press,
    Repeat,
    Release,
}

/// A key event from the terminal.
#[derive(Clone, Copy, Debug, PartialEq, Eq, Structural)]
pub struct KeyEvent {
    pub code: KeyCode,
    pub modifiers: KeyModifiers,
    pub kind: KeyEventKind,
}

/// A key with the exact modifiers that trigger an action.
#[derive(Clone, Copy, Debug, PartialEq, Eq, Structural)]
pub struct KeyBinding {
    pub code: KeyCode,
    pub modifiers: KeyModifiers,
}

pub open spec fn no_modifiers() -> KeyModifiers {
    KeyModifiers { shift: false, control: false, alt: false, super_key: false, hyper: false, meta: false }
}

impl KeyModifiers {
    /// No modifier held.
    pub fn none() -> (r: KeyModifiers)
        ensures
            r == no_modifiers(),
    {
        KeyModifiers { shift: false, control: false, alt: false, super_key: false, hyper: false, meta: false }
    }
}

/// A modifier that turns a character key into a command chord is held.
pub open spec fn is_command_chord(m: KeyModifiers) -> bool {
    m.control || m.alt || m.super_key
}

impl KeyEvent {
    /// A key press of `code` with `modifiers`.
    pub fn new(code: KeyCode, modifiers: KeyModifiers) -> (r: KeyEvent)
        ensures
            r.code == code,
            r.modifiers == modifiers,
            r.kind == KeyEventKind::Press,
    {
        KeyEvent { code, modifiers, kind: KeyEventKind::Press }
    }
}

/// `binding` is triggered by `event`: same key, same modifiers, pressed or repeated.
pub open spec fn binding_matches(binding: KeyBinding, event: KeyEvent) -> bool {
    &&& binding.code == event.code
    &&& binding.modifiers == event.modifiers
    &&& (event.kind == KeyEventKind::Press || event.kind == KeyEventKind::Repeat)
}

/// Some binding of `bindings` is triggered by `event`.
pub open spec fn pressed(bindings: Seq<KeyBinding>, event: KeyEvent) -> bool {
    exists|i: int| 0 <= i < bindings.len() && binding_matches(#[trigger] bindings[i], event)
}

impl KeyBinding {
    /// True when `event` triggers this binding.
    pub fn is_press(&self, event: &KeyEvent) -> (r: bool)
        ensures
            r == binding_matches(*self, *event),
    {
        self.code == event.code && self.modifiers == event.modifiers && (event.kind
            == KeyEventKind::Press || event.kind == KeyEventKind::Repeat)
    }
}

/// True when `event` triggers one of `bindings`.
pub fn is_pressed(bindings: &[KeyBinding], event: &KeyEvent) -> (r: bool)
    ensures
        r == pressed(bindings@, *event),
{
    let mut i: usize = 0;
    while i < bindings.len()
        invariant
            i <= bindings@.len(),
            forall|k: int| 0 <= k < i ==> !binding_matches(#[trigger] bindings@[k], *event),
        decreases bindings@.len() - i,
    {
        if bindings[i].is_press(event) {
            return true;
        }
        i = i + 1;
    }
    false
}

/// The bindings that confirm the entered key: Enter.
pub open spec fn confirm_bindings() -> Seq<KeyBinding> {
    seq![KeyBinding { code: KeyCode::Enter, modifiers: no_modifiers() }]
}

/// The bindings that skip the step: Esc.
pub open spec fn cancel_bindings() -> Seq<KeyBinding> {
    seq![KeyBinding { code: KeyCode::Esc, modifiers: no_modifiers() }]
}

/// The bindings that confirm the entered key.
pub fn confirm_keys() -> (r: Vec<KeyBinding>)
    ensures
        r@ == confirm_bindings(),
{
    let r = vec![KeyBinding { code: KeyCode::Enter, modifiers: KeyModifiers::none() }];
    assert(r@ =~= confirm_bindings());
    r
}

/// The bindings that skip the step.
pub fn cancel_keys() -> (r: Vec<KeyBinding>)
    ensures
        r@ == cancel_bindings(),
{
    let r = vec![KeyBinding { code: KeyCode::Esc, modifiers: KeyModifiers::none() }];
    assert(r@ =~= cancel_bindings());
    r
}

// ---------------------------------------------------------------------------
// The step
// ---------------------------------------------------------------------------

/// How the step ended.
#[derive(Clone, Copy, Debug, PartialEq, Eq, Structural)]
pub enum GlmApiKeyOutcome {
    Saved,
    Skipped,
}

/// Whether the onboarding step still waits for the user.
#[derive(Clone, Copy, Debug, PartialEq, Eq, Structural)]
pub enum StepState {
    InProgress,
    Complete,
}

/// The API-key entry step: the text typed so far, the error shown under it,
/// and how the step ended, once it has.
pub struct GlmApiKeyWidget {
    value: String,
    error: Option<String>,
    outcome: Option<GlmApiKeyOutcome>,
}

/// The state of the step as values of the specification.
pub struct GlmApiKeyWidgetView {
    pub value: Seq<char>,
    pub error: Option<Seq<char>>,
    pub outcome: Option<GlmApiKeyOutcome>,
}

impl View for GlmApiKeyWidget {
    type V = GlmApiKeyWidgetView;

    closed spec fn view(&self) -> GlmApiKeyWidgetView {
        GlmApiKeyWidgetView { value: self.value@, error: opt_view(self.error), outcome: self.outcome }
    }
}

/// What the terminal loop does after a key event.
pub enum KeyEventAction {
    /// Nothing: the event was not for this step.
    Ignored,
    /// Redraw the step.
    Redraw,
    /// Persist this API key, report the result through
    /// [`GlmApiKeyWidget::record_save_result`], then redraw.
    SaveApiKey(String),
}

/// [`KeyEventAction`] as a value of the specification.
pub enum KeyEventActionView {
    Ignored,
    Redraw,
    SaveApiKey(Seq<char>),
}

pub open spec fn action_view(a: KeyEventAction) -> KeyEventActionView {
    match a {
        KeyEventAction::Ignored => KeyEventActionView::Ignored,
        KeyEventAction::Redraw => KeyEventActionView::Redraw,
        KeyEventAction::SaveApiKey(k) => KeyEventActionView::SaveApiKey(k@),
    }
}

/// The error shown when Enter is pressed with nothing but whitespace entered.
pub open spec fn empty_key_error() -> Seq<char> {
    "API key cannot be empty"@
}

/// The error shown when persisting the key failed with `detail`.
pub open spec fn save_failed_error(detail: Seq<char>) -> Seq<char> {
    "Failed to save API key: "@ + detail
}

/// The state of a fresh step.
pub open spec fn initial_view() -> GlmApiKeyWidgetView {
    GlmApiKeyWidgetView { value: Seq::empty(), error: None, outcome: None }
}

/// Enter in the entry field: a blank entry is refused with an error; any
/// other entry is handed on, trimmed, to be persisted.
pub open spec fn spec_save_api_key(w: GlmApiKeyWidgetView) -> (GlmApiKeyWidgetView, KeyEventActionView) {
    if is_blank(w.value) {
        (
            GlmApiKeyWidgetView { value: w.value, error: Some(empty_key_error()), outcome: w.outcome },
            KeyEventActionView::Redraw,
        )
    } else {
        (w, KeyEventActionView::SaveApiKey(trim_seq(w.value)))
    }
}

/// The next state and action after key event `e` in state `w`.
pub open spec fn spec_handle_key_event(w: GlmApiKeyWidgetView, e: KeyEvent) -> (GlmApiKeyWidgetView, KeyEventActionView) {
    if w.outcome is Some || e.kind != KeyEventKind::Press {
        (w, KeyEventActionView::Ignored)
    } else if pressed(cancel_bindings(), e) {
        (
            GlmApiKeyWidgetView { value: w.value, error: w.error, outcome: Some(GlmApiKeyOutcome::Skipped) },
            KeyEventActionView::Redraw,
        )
    } else if pressed(confirm_bindings(), e) {
        spec_save_api_key(w)
    } else {
        match e.code {
            KeyCode::Backspace => (
                GlmApiKeyWidgetView {
                    value: if w.value.len() > 0 { w.value.drop_last() } else { w.value },
                    error: None,
                    outcome: w.outcome,
                },
                KeyEventActionView::Redraw,
            ),
            KeyCode::Char(c) => if !is_command_chord(e.modifiers) {
                (
                    GlmApiKeyWidgetView { value: w.value.push(c), error: None, outcome: w.outcome },
                    KeyEventActionView::Redraw,
                )
            } else {
                (w, KeyEventActionView::Redraw)
            },
            _ => (w, KeyEventActionView::Redraw),
        }
    }
}

/// The next state after pasting `pasted` in state `w`, and whether to redraw.
pub open spec fn spec_handle_paste(w: GlmApiKeyWidgetView, pasted: Seq<char>) -> (GlmApiKeyWidgetView, bool) {
    if w.outcome is Some || trim_seq(pasted).len() == 0 {
        (w, false)
    } else {
        (
            GlmApiKeyWidgetView { value: w.value + trim_seq(pasted), error: None, outcome: w.outcome },
            true,
        )
    }
}

/// The state after persisting the key ended with `result` (the error's
/// message on failure).
pub open spec fn spec_record_save_result(w: GlmApiKeyWidgetView, result: Result<(), Seq<char>>) -> GlmApiKeyWidgetView {
    match result {
        Ok(()) => GlmApiKeyWidgetView { value: w.value, error: None, outcome: Some(GlmApiKeyOutcome::Saved) },
        Err(detail) => GlmApiKeyWidgetView { value: w.value, error: Some(save_failed_error(detail)), outcome: w.outcome },
    }
}

pub open spec fn result_view(r: Result<(), String>) -> Result<(), Seq<char>> {
    match r {
        Ok(()) => Ok(()),
        Err(e) => Err(e@),
    }
}

/// The step state that a widget in state `w` reports.
pub open spec fn spec_step_state(w: GlmApiKeyWidgetView) -> StepState {
    if w.outcome is Some {
        StepState::Complete
    } else {
        StepState::InProgress
    }
}

/// What to draw for the step.
pub enum GlmApiKeyScreen {
    /// The entry form: the entered text (`None`: show the placeholder) and the
    /// error under it, if any.
    Entry { input: Option<String>, error: Option<String> },
    /// The confirmation that the key was saved.
    Saved,
    /// Nothing: the step was skipped.
    Blank,
}

impl GlmApiKeyWidget {
    /// A fresh step: nothing entered, no error, not finished.
    pub fn new() -> (r: GlmApiKeyWidget)
        ensures
            r@ == initial_view(),
    {
        let r = GlmApiKeyWidget { value: String::new(), error: None, outcome: None };
        assert(r@.value =~= Seq::<char>::empty());
        r
    }

    /// The text entered so far.
    pub fn value(&self) -> (r: &String)
        ensures
            r@ == self@.value,
    {
        &self.value
    }

    /// The error shown under the entry field.
    pub fn error(&self) -> (r: &Option<String>)
        ensures
            opt_view(*r) == self@.error,
    {
        &self.error
    }

    /// How the step ended, once it has.
    pub fn outcome(&self) -> (r: Option<GlmApiKeyOutcome>)
        ensures
            r == self@.outcome,
    {
        self.outcome
    }

    /// True while the user is still editing the API-key field.
    pub fn is_entry_active(&self) -> (r: bool)
        ensures
            r == (self@.outcome is None),
    {
        self.outcome.is_none()
    }

    /// True when the API-key input field currently contains user text.
    pub fn entry_has_text(&self) -> (r: bool)
        ensures
            r == (self@.value.len() > 0),
    {
        !self.value.as_str().is_empty()
    }

    /// `Complete` once the key was saved or the step skipped, else `InProgress`.
    pub fn get_step_state(&self) -> (r: StepState)
        ensures
            r == spec_step_state(self@),
            (r == StepState::Complete) == (self@.outcome is Some),
            self@.outcome is None ==> r == StepState::InProgress,
    {
        proof {
            lemma_step_state_follows_outcome(self@);
        }
        if self.outcome.is_some() {
            StepState::Complete
        } else {
            StepState::InProgress
        }
    }

    /// Enter in the entry field: refuses a blank entry with an error, and
    /// otherwise returns the trimmed key to persist.
    pub fn save_api_key(&mut self) -> (r: KeyEventAction)
        ensures
            (final(self)@, action_view(r)) == spec_save_api_key(old(self)@),
            is_blank(old(self)@.value) ==> {
                &&& r is Redraw
                &&& final(self)@.value == old(self)@.value
                &&& final(self)@.error == Some("API key cannot be empty"@)
                &&& final(self)@.outcome == old(self)@.outcome
            },
            !is_blank(old(self)@.value) ==> {
                &&& r matches KeyEventAction::SaveApiKey(key) && key@ == trim_seq(old(self)@.value)
                &&& final(self)@ == old(self)@
            },
    {
        let api_key = trim_whitespace(self.value.as_str());
        if api_key.is_empty() {
            let msg = "API key cannot be empty".to_owned();
            self.error = Some(msg);
            return KeyEventAction::Redraw;
        }
        KeyEventAction::SaveApiKey(api_key.to_owned())
    }

    /// Applies a key event and returns what the terminal loop does next.
    pub fn handle_key_event(&mut self, key_event: KeyEvent) -> (r: KeyEventAction)
        ensures
            (final(self)@, action_view(r)) == spec_handle_key_event(old(self)@, key_event),
            // A finished step, and any event that is not a press, change nothing.
            old(self)@.outcome is Some || key_event.kind != KeyEventKind::Press ==> r is Ignored
                && final(self)@ == old(self)@,
            // From here on: a press while the step is in progress.
            old(self)@.outcome is None && key_event.kind == KeyEventKind::Press ==> {
                &&& key_event.code == KeyCode::Esc && key_event.modifiers == no_modifiers() ==> {
                    &&& r is Redraw
                    &&& final(self)@.outcome == Some(GlmApiKeyOutcome::Skipped)
                    &&& final(self)@.value == old(self)@.value
                    &&& final(self)@.error == old(self)@.error
                }
                &&& key_event.code == KeyCode::Enter && key_event.modifiers == no_modifiers()
                    && is_blank(old(self)@.value) ==> {
                    &&& r is Redraw
                    &&& final(self)@.outcome is None
                    &&& final(self)@.value == old(self)@.value
                    &&& final(self)@.error == Some("API key cannot be empty"@)
                }
                &&& key_event.code == KeyCode::Enter && key_event.modifiers == no_modifiers()
                    && !is_blank(old(self)@.value) ==> {
                    &&& r matches KeyEventAction::SaveApiKey(key) && key@ == trim_seq(old(self)@.value)
                    &&& final(self)@ == old(self)@
                }
                &&& key_event.code == KeyCode::Backspace ==> {
                    &&& r is Redraw
                    &&& final(self)@.value == (if old(self)@.value.len() > 0 {
                        old(self)@.value.drop_last()
                    } else {
                        old(self)@.value
                    })
                    &&& final(self)@.error is None
                    &&& final(self)@.outcome is None
                }
                &&& key_event.code matches KeyCode::Char(c) ==> {
                    &&& r is Redraw
                    &&& final(self)@.outcome is None
                    &&& !is_command_chord(key_event.modifiers) ==> final(self)@.value == old(self)@.value.push(c)
                        && final(self)@.error is None
                    &&& is_command_chord(key_event.modifiers) ==> final(self)@ == old(self)@
                }
                &&& key_event.code == KeyCode::Other ==> r is Redraw && final(self)@ == old(self)@
                &&& (key_event.code == KeyCode::Esc || key_event.code == KeyCode::Enter)
                    && key_event.modifiers != no_modifiers() ==> r is Redraw && final(self)@ == old(self)@
            },
    {
        proof {
            lemma_handle_key_event_cases(self@, key_event);
        }
        if self.outcome.is_some() || key_event.kind != KeyEventKind::Press {
            return KeyEventAction::Ignored;
        }
        let cancel = cancel_keys();
        let confirm = confirm_keys();
        if is_pressed(cancel.as_slice(), &key_event) {
            self.outcome = Some(GlmApiKeyOutcome::Skipped);
            KeyEventAction::Redraw
        } else if is_pressed(confirm.as_slice(), &key_event) {
            self.save_api_key()
        } else {
            match key_event.code {
                KeyCode::Backspace => {
                    let _ = pop_char(&mut self.value);
                    self.error = None;
                },
                KeyCode::Char(c) => {
                    let m = key_event.modifiers;
                    if !(m.control || m.alt || m.super_key) {
                        push_char(&mut self.value, c);
                        self.error = None;
                    }
                },
                _ => {},
            }
            KeyEventAction::Redraw
        }
    }

    /// Applies a paste: the pasted text, trimmed, is appended to the entry.
    /// Returns whether to redraw.
    pub fn handle_paste(&mut self, pasted: String) -> (r: bool)
        ensures
            (final(self)@, r) == spec_handle_paste(old(self)@, pasted@),
            old(self)@.outcome is None && trim_seq(pasted@).len() > 0 ==> {
                &&& r
                &&& final(self)@.value == old(self)@.value + trim_seq(pasted@)
                &&& final(self)@.error is None
                &&& final(self)@.outcome is None
            },
            old(self)@.outcome is Some || trim_seq(pasted@).len() == 0 ==> !r && final(self)@ == old(self)@,
    {
        proof {
            lemma_paste_cases(self@, pasted@);
        }
        if self.outcome.is_some() {
            return false;
        }
        let trimmed = trim_whitespace(pasted.as_str());
        if trimmed.is_empty() {
            return false;
        }
        self.value.append(trimmed);
        self.error = None;
        true
    }

    /// Records how persisting the key requested by
    /// [`KeyEventAction::SaveApiKey`] ended: saved, or failed with `result`'s
    /// message.
    pub fn record_save_result(&mut self, result: Result<(), String>)
        requires
            old(self)@.outcome is None,
        ensures
            final(self)@ == spec_record_save_result(old(self)@, result_view(result)),
            final(self)@.value == old(self)@.value,
            result is Ok ==> final(self)@.outcome == Some(GlmApiKeyOutcome::Saved)
                && final(self)@.error is None,
            result matches Err(detail) ==> final(self)@.outcome is None
                && final(self)@.error == Some("Failed to save API key: "@ + detail@),
    {
        match result {
            Ok(()) => {
                self.error = None;
                self.outcome = Some(GlmApiKeyOutcome::Saved);
            },
            Err(detail) => {
                let mut msg = "Failed to save API key: ".to_owned();
                msg.append(detail.as_str());
                self.error = Some(msg);
            },
        }
    }

    /// What to draw: the entry form while in progress, the confirmation once
    /// saved, nothing once skipped.
    pub fn screen(&self) -> (r: GlmApiKeyScreen)
        ensures
            match r {
                GlmApiKeyScreen::Entry { input, error } => {
                    &&& self@.outcome is None
                    &&& opt_view(input) == (if self@.value.len() == 0 {
                        None
                    } else {
                        Some(self@.value)
                    })
                    &&& opt_view(error) == self@.error
                },
                GlmApiKeyScreen::Saved => self@.outcome == Some(GlmApiKeyOutcome::Saved),
                GlmApiKeyScreen::Blank => self@.outcome == Some(GlmApiKeyOutcome::Skipped),
            },
    {
        match self.outcome {
            Some(GlmApiKeyOutcome::Saved) => GlmApiKeyScreen::Saved,
            Some(GlmApiKeyOutcome::Skipped) => GlmApiKeyScreen::Blank,
            None => {
                let input = if self.value.as_str().is_empty() {
                    None
                } else {
                    Some(self.value.clone())
                };
                let error = match &self.error {
                    Some(e) => Some(e.clone()),
                    None => None,
                };
                GlmApiKeyScreen::Entry { input, error }
            },
        }
    }
}

/// `String::push`: appends `c`.
#[verifier::external_body]
fn push_char(s: &mut String, c: char)
    ensures
        final(s)@ == old(s)@.push(c),
{
    s.push(c)
}

/// `String::pop`: removes and returns the last character, if there is one.
#[verifier::external_body]
fn pop_char(s: &mut String) -> (r: Option<char>)
    ensures
        old(s)@.len() == 0 ==> r is None && final(s)@ == old(s)@,
        old(s)@.len() > 0 ==> r == Some(old(s)@.last()) && final(s)@ == old(s)@.drop_last(),
{
    s.pop()
}

// ---------------------------------------------------------------------------
// Whether the step is needed
// ---------------------------------------------------------------------------

/// A lookup of the API key found one.
pub open spec fn found_key(lookup: Result<Option<String>, String>) -> bool {
    lookup matches Ok(Some(_))
}

/// The GLM provider is active and neither the environment nor the auth
/// store has an API key for it.
pub open spec fn spec_setup_needed(
    provider_is_glm: bool,
    env_api_key: Result<Option<String>, String>,
    stored_key_lookup: Result<Option<String>, String>,
) -> bool {
    provider_is_glm && !found_key(env_api_key) && !found_key(stored_key_lookup)
}

/// True when the lookup of the stored GLM API key found one (a failed lookup
/// counts as none).
pub fn has_stored_glm_api_key(stored_key_lookup: &Result<Option<String>, String>) -> (r: bool)
    ensures
        r == found_key(*stored_key_lookup),
        r == (*stored_key_lookup matches Ok(Some(_))),
{
    match stored_key_lookup {
        Ok(Some(_)) => true,
        _ => false,
    }
}

/// True when the answer of [`glm_api_key_setup_needed`] depends on the auth
/// store: the GLM provider is active and the environment has no key. Only
/// then does the store need to be read.
pub fn store_lookup_needed(provider_is_glm: bool, env_api_key: &Result<Option<String>, String>) -> (r: bool)
    ensures
        r == (provider_is_glm && !found_key(*env_api_key)),
        r == (provider_is_glm && !(*env_api_key matches Ok(Some(_)))),
        !r ==> forall|lookup: Result<Option<String>, String>|
            !#[trigger] spec_setup_needed(provider_is_glm, *env_api_key, lookup),
{
    provider_is_glm && !matches!(env_api_key, Ok(Some(_)))
}

/// True when the GLM provider is active but no API key is available from the
/// environment (`env_api_key`, the provider's key lookup) or the auth store
/// (`stored_key_lookup`), so first-run onboarding should ask for one.
pub fn glm_api_key_setup_needed(
    provider_is_glm: bool,
    env_api_key: &Result<Option<String>, String>,
    stored_key_lookup: &Result<Option<String>, String>,
) -> (r: bool)
    ensures
        r == spec_setup_needed(provider_is_glm, *env_api_key, *stored_key_lookup),
        r == (provider_is_glm && !(*env_api_key matches Ok(Some(_))) && !(*stored_key_lookup matches Ok(Some(_)))),
{
    proof {
        lemma_setup_needed_exactly_without_keys(provider_is_glm, *env_api_key, *stored_key_lookup);
    }
    provider_is_glm && !matches!(env_api_key, Ok(Some(_))) && !has_stored_glm_api_key(stored_key_lookup)
}

// ---------------------------------------------------------------------------
// Laws of the step
// ---------------------------------------------------------------------------

/// A press of `code` with no modifier held.
pub open spec fn plain_press(code: KeyCode) -> KeyEvent {
    KeyEvent { code, modifiers: no_modifiers(), kind: KeyEventKind::Press }
}

/// Once the step has finished, key events and pastes change nothing and ask
/// for nothing.
pub proof fn lemma_finished_step_is_final(w: GlmApiKeyWidgetView, e: KeyEvent, pasted: Seq<char>)
    requires
        w.outcome is Some,
    ensures
        spec_handle_key_event(w, e) == (w, KeyEventActionView::Ignored),
        spec_handle_paste(w, pasted) == (w, false),
{
}

/// Only presses count: a repeated or released key is ignored.
pub proof fn lemma_only_presses_count(w: GlmApiKeyWidgetView, e: KeyEvent)
    requires
        e.kind != KeyEventKind::Press,
    ensures
        spec_handle_key_event(w, e) == (w, KeyEventActionView::Ignored),
{
}

/// Esc skips the step: it completes as skipped, keeps the entry, and asks
/// for no save.
pub proof fn lemma_esc_skips_without_saving(w: GlmApiKeyWidgetView)
    requires
        w.outcome is None,
    ensures
        spec_handle_key_event(w, plain_press(KeyCode::Esc)).0.outcome == Some(GlmApiKeyOutcome::Skipped),
        spec_handle_key_event(w, plain_press(KeyCode::Esc)).0.value == w.value,
        spec_handle_key_event(w, plain_press(KeyCode::Esc)).1 == KeyEventActionView::Redraw,
        spec_step_state(spec_handle_key_event(w, plain_press(KeyCode::Esc)).0) == StepState::Complete,
{
    assert(binding_matches(cancel_bindings()[0], plain_press(KeyCode::Esc)));
}

/// Enter with a blank entry shows the empty-key error, keeps the step in
/// progress and asks for no save.
pub proof fn lemma_blank_entry_is_refused(w: GlmApiKeyWidgetView)
    requires
        w.outcome is None,
        is_blank(w.value),
    ensures
        spec_handle_key_event(w, plain_press(KeyCode::Enter)).0.outcome is None,
        spec_handle_key_event(w, plain_press(KeyCode::Enter)).0.error == Some(empty_key_error()),
        spec_handle_key_event(w, plain_press(KeyCode::Enter)).0.value == w.value,
        spec_handle_key_event(w, plain_press(KeyCode::Enter)).1 == KeyEventActionView::Redraw,
        spec_step_state(spec_handle_key_event(w, plain_press(KeyCode::Enter)).0) == StepState::InProgress,
{
    assert(!binding_matches(cancel_bindings()[0], plain_press(KeyCode::Enter)));
    assert(binding_matches(confirm_bindings()[0], plain_press(KeyCode::Enter)));
}

/// Enter with a non-blank entry asks to save the trimmed entry and leaves the
/// state as it is; a successful save completes the step as saved, a failed
/// one keeps it in progress and shows the failure.
pub proof fn lemma_enter_saves_trimmed_entry(w: GlmApiKeyWidgetView, detail: Seq<char>)
    requires
        w.outcome is None,
        !is_blank(w.value),
    ensures
        spec_handle_key_event(w, plain_press(KeyCode::Enter)) == (w, KeyEventActionView::SaveApiKey(trim_seq(w.value))),
        spec_record_save_result(w, Ok(())).outcome == Some(GlmApiKeyOutcome::Saved),
        spec_record_save_result(w, Ok(())).error is None,
        spec_step_state(spec_record_save_result(w, Ok(()))) == StepState::Complete,
        spec_record_save_result(w, Err(detail)).outcome is None,
        spec_record_save_result(w, Err(detail)).error == Some(save_failed_error(detail)),
        spec_step_state(spec_record_save_result(w, Err(detail))) == StepState::InProgress,
{
    assert(!binding_matches(cancel_bindings()[0], plain_press(KeyCode::Enter)));
    assert(binding_matches(confirm_bindings()[0], plain_press(KeyCode::Enter)));
}

/// A save is asked for only by Enter, while the step is in progress, with a
/// non-blank entry; the key to save is the entry trimmed, which is not blank
/// and has no whitespace around it.
pub proof fn lemma_save_request_shape(w: GlmApiKeyWidgetView, e: KeyEvent, key: Seq<char>)
    requires
        spec_handle_key_event(w, e).1 == KeyEventActionView::SaveApiKey(key),
    ensures
        w.outcome is None,
        e.kind == KeyEventKind::Press,
        pressed(confirm_bindings(), e),
        !is_blank(w.value),
        key == trim_seq(w.value),
        !is_blank(key),
        trim_seq(key) == key,
{
    lemma_trim_idempotent(w.value);
}

/// A key saved from the step is what the next lookup of the auth store
/// finds, so the step is no longer needed: `saved` is what the login wrote
/// for the key that the step asked to save, and `stored_key_lookup` is the
/// lookup's result on it.
pub proof fn lemma_saved_from_step_is_found(
    w: GlmApiKeyWidgetView,
    e: KeyEvent,
    key: Seq<char>,
    saved: AuthDotJson,
    provider_is_glm: bool,
    env_api_key: Result<Option<String>, String>,
    stored_key_lookup: Result<Option<String>, String>,
)
    requires
        spec_handle_key_event(w, e).1 == KeyEventActionView::SaveApiKey(key),
        opt_view(saved.glm_api_key) == Some(key),
        stored_key_lookup matches Ok(found) && opt_view(found) == spec_stored_glm_api_key(
            Some(saved),
        ),
    ensures
        spec_stored_glm_api_key(Some(saved)) == Some(key),
        !spec_setup_needed(provider_is_glm, env_api_key, stored_key_lookup),
{
    lemma_save_request_shape(w, e, key);
}

/// Typing a character with no command modifier appends it to the entry and
/// clears the error.
pub proof fn lemma_typing_appends(w: GlmApiKeyWidgetView, c: char, m: KeyModifiers)
    requires
        w.outcome is None,
        !is_command_chord(m),
    ensures
        spec_handle_key_event(w, KeyEvent { code: KeyCode::Char(c), modifiers: m, kind: KeyEventKind::Press })
            == (
            GlmApiKeyWidgetView { value: w.value.push(c), error: None, outcome: None },
            KeyEventActionView::Redraw,
        ),
{
    let e = KeyEvent { code: KeyCode::Char(c), modifiers: m, kind: KeyEventKind::Press };
    assert(!binding_matches(cancel_bindings()[0], e));
    assert(!binding_matches(confirm_bindings()[0], e));
}

/// A character typed with Ctrl, Alt or Super held is not entered.
pub proof fn lemma_command_chords_are_not_entered(w: GlmApiKeyWidgetView, c: char, m: KeyModifiers)
    requires
        w.outcome is None,
        is_command_chord(m),
    ensures
        spec_handle_key_event(w, KeyEvent { code: KeyCode::Char(c), modifiers: m, kind: KeyEventKind::Press })
            == (w, KeyEventActionView::Redraw),
{
    let e = KeyEvent { code: KeyCode::Char(c), modifiers: m, kind: KeyEventKind::Press };
    assert(!binding_matches(cancel_bindings()[0], e));
    assert(!binding_matches(confirm_bindings()[0], e));
}

/// Backspace removes the last character of the entry, if there is one, and
/// clears the error.
pub proof fn lemma_backspace_removes_last(w: GlmApiKeyWidgetView)
    requires
        w.outcome is None,
    ensures
        spec_handle_key_event(w, plain_press(KeyCode::Backspace)).0.value == (if w.value.len() > 0 {
            w.value.drop_last()
        } else {
            w.value
        }),
        spec_handle_key_event(w, plain_press(KeyCode::Backspace)).0.error is None,
        spec_handle_key_event(w, plain_press(KeyCode::Backspace)).0.outcome is None,
{
    assert(!binding_matches(cancel_bindings()[0], plain_press(KeyCode::Backspace)));
    assert(!binding_matches(confirm_bindings()[0], plain_press(KeyCode::Backspace)));
}

/// The step is not needed when the environment supplies an API key, nor
/// when the provider is not GLM.
pub proof fn lemma_no_setup_with_env_key(
    provider_is_glm: bool,
    env_api_key: Result<Option<String>, String>,
    stored_key_lookup: Result<Option<String>, String>,
)
    requires
        found_key(env_api_key) || !provider_is_glm,
    ensures
        !spec_setup_needed(provider_is_glm, env_api_key, stored_key_lookup),
{
}

/// The step is complete exactly when it has an outcome; a fresh step is in
/// progress.
pub proof fn lemma_step_state_follows_outcome(w: GlmApiKeyWidgetView)
    ensures
        (spec_step_state(w) == StepState::Complete) == (w.outcome is Some),
        w.outcome is None ==> spec_step_state(w) == StepState::InProgress,
        spec_step_state(initial_view()) == StepState::InProgress,
{
}

/// A paste while the step is in progress appends the trimmed paste, clears
/// any error shown and asks for a redraw; a blank paste, or any paste once
/// the step has finished, changes nothing.
pub proof fn lemma_paste_cases(w: GlmApiKeyWidgetView, pasted: Seq<char>)
    ensures
        w.outcome is None && trim_seq(pasted).len() > 0 ==> {
            &&& spec_handle_paste(w, pasted).1
            &&& spec_handle_paste(w, pasted).0.value == w.value + trim_seq(pasted)
            &&& spec_handle_paste(w, pasted).0.error is None
            &&& spec_handle_paste(w, pasted).0.outcome is None
        },
        w.outcome is Some || trim_seq(pasted).len() == 0 ==> !spec_handle_paste(w, pasted).1
            && spec_handle_paste(w, pasted).0 == w,
{
}

/// What each key press does while the step is in progress: Esc skips, Enter
/// refuses a blank entry or asks to save the trimmed entry, Backspace
/// removes the last character, a character without a command modifier is
/// appended, and every other key (or Esc/Enter with a modifier) only
/// redraws. Once finished, or for anything but a press, nothing happens.
pub proof fn lemma_handle_key_event_cases(w: GlmApiKeyWidgetView, e: KeyEvent)
    ensures
        w.outcome is Some || e.kind != KeyEventKind::Press ==> spec_handle_key_event(w, e) == (
            w,
            KeyEventActionView::Ignored,
        ),
        w.outcome is None && e.kind == KeyEventKind::Press ==> {
            let (n, a) = spec_handle_key_event(w, e);
            &&& e.code == KeyCode::Esc && e.modifiers == no_modifiers() ==> {
                &&& a == KeyEventActionView::Redraw
                &&& n.outcome == Some(GlmApiKeyOutcome::Skipped)
                &&& n.value == w.value
                &&& n.error == w.error
            }
            &&& e.code == KeyCode::Enter && e.modifiers == no_modifiers() && is_blank(w.value) ==> {
                &&& a == KeyEventActionView::Redraw
                &&& n.outcome is None
                &&& n.value == w.value
                &&& n.error == Some("API key cannot be empty"@)
            }
            &&& e.code == KeyCode::Enter && e.modifiers == no_modifiers() && !is_blank(w.value) ==> {
                &&& a == KeyEventActionView::SaveApiKey(trim_seq(w.value))
                &&& n == w
            }
            &&& e.code == KeyCode::Backspace ==> {
                &&& a == KeyEventActionView::Redraw
                &&& n.value == (if w.value.len() > 0 {
                    w.value.drop_last()
                } else {
                    w.value
                })
                &&& n.error is None
                &&& n.outcome is None
            }
            &&& e.code matches KeyCode::Char(c) ==> {
                &&& a == KeyEventActionView::Redraw
                &&& n.outcome is None
                &&& !is_command_chord(e.modifiers) ==> n.value == w.value.push(c) && n.error is None
                &&& is_command_chord(e.modifiers) ==> n == w
            }
            &&& e.code == KeyCode::Other ==> a == KeyEventActionView::Redraw && n == w
            &&& (e.code == KeyCode::Esc || e.code == KeyCode::Enter) && e.modifiers != no_modifiers()
                ==> a == KeyEventActionView::Redraw && n == w
        },
{
    assert(cancel_bindings().len() == 1);
    assert(confirm_bindings().len() == 1);
    if w.outcome is None && e.kind == KeyEventKind::Press {
        if e.code == KeyCode::Esc && e.modifiers == no_modifiers() {
            assert(binding_matches(cancel_bindings()[0], e));
        } else {
            assert(!binding_matches(cancel_bindings()[0], e));
            if e.code == KeyCode::Enter && e.modifiers == no_modifiers() {
                assert(binding_matches(confirm_bindings()[0], e));
            } else {
                assert(!binding_matches(confirm_bindings()[0], e));
            }
        }
    }
}

/// Setup is needed exactly when the GLM provider is active and neither the
/// environment lookup nor the store lookup found a key: with no key anywhere
/// it is needed, with a key in either place it is not.
pub proof fn lemma_setup_needed_exactly_without_keys(
    provider_is_glm: bool,
    env_api_key: Result<Option<String>, String>,
    stored_key_lookup: Result<Option<String>, String>,
)
    ensures
        provider_is_glm && !(env_api_key matches Ok(Some(_))) && !(stored_key_lookup matches Ok(Some(_)))
            ==> spec_setup_needed(provider_is_glm, env_api_key, stored_key_lookup),
        spec_setup_needed(provider_is_glm, env_api_key, stored_key_lookup) ==> provider_is_glm
            && !(env_api_key matches Ok(Some(_))) && !(stored_key_lookup matches Ok(Some(_))),
        spec_setup_needed(true, Ok(None), Ok(None)),
{
}

} // verus!
