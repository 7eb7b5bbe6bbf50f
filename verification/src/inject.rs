//! Text into the focused window: typed key by key, or pasted by way of the
//! clipboard.

use vstd::prelude::*;

use crate::settings::{text_of, InjectionMode};

verus! {

/// Longer text is pasted where the mode leaves the choice.
pub const PASTE_THRESHOLD: usize = 200;

/// How long the clipboard is given to take the text, in milliseconds.
pub const PASTE_SETTLE_MS: u64 = 50;

/// How long the window is given to take the clipboard before the old text is
/// put back, in milliseconds.
pub const PASTE_RESTORE_MS: u64 = 150;

/// How a text is to be injected.
#[derive(Debug, Clone, Copy, PartialEq, Eq, Structural)]
pub enum InjectPlan {
    /// Not at all: it is empty.
    Nothing,
    Paste,
    Type,
}

/// How a text of a given length is to be injected.
pub open spec fn plan_for(chars: nat, mode: InjectionMode) -> InjectPlan {
    if chars == 0 {
        InjectPlan::Nothing
    } else {
        match mode {
            InjectionMode::Paste => InjectPlan::Paste,
            InjectionMode::Typing => InjectPlan::Type,
            InjectionMode::Auto => if chars > PASTE_THRESHOLD {
                InjectPlan::Paste
            } else {
                InjectPlan::Type
            },
        }
    }
}

/// How `text` is to be injected.
pub fn inject(text: &str, mode: InjectionMode) -> (r: InjectPlan)
    ensures
        r == plan_for(text@.len(), mode),
{
    if text.is_empty() {
        return InjectPlan::Nothing;
    }
    let use_paste = match mode {
        InjectionMode::Paste => true,
        InjectionMode::Typing => false,
        InjectionMode::Auto => text.unicode_len() > PASTE_THRESHOLD,
    };
    if use_paste {
        InjectPlan::Paste
    } else {
        InjectPlan::Type
    }
}

impl InjectPlan {
    /// Goes on with the plan where the system lets the application control
    /// others. Where it does not, nothing is typed or pasted, and that is an
    /// error; an empty text needs no permission.
    pub fn permitted(self, granted: bool) -> (r: Result<InjectPlan, InjectError>)
        ensures
            match r {
                Ok(plan) => plan == self && (granted || self == InjectPlan::Nothing),
                Err(err) => {
                    &&& !granted && self != InjectPlan::Nothing
                    &&& err@ == InjectErrorModel::Permission
                },
            },
    {
        if granted || self == InjectPlan::Nothing {
            Ok(self)
        } else {
            Err(InjectError::Permission)
        }
    }
}

/// Why a text was not injected. The texts are the system's.
#[derive(Debug)]
pub enum InjectError {
    /// The system does not let the application control others.
    Permission,
    /// There is no clipboard.
    Clipboard(String),
    /// The clipboard does not take the text.
    ClipboardWrite(String),
    /// There is no keyboard to simulate.
    Keyboard(String),
    /// A key could not be struck.
    Key(String),
    /// The text could not be typed.
    Typing(String),
}

/// The mathematical counterpart of [`InjectError`].
pub ghost enum InjectErrorModel {
    Permission,
    Clipboard(Seq<char>),
    ClipboardWrite(Seq<char>),
    Keyboard(Seq<char>),
    Key(Seq<char>),
    Typing(Seq<char>),
}

impl View for InjectError {
    type V = InjectErrorModel;

    open spec fn view(&self) -> InjectErrorModel {
        match self {
            InjectError::Permission => InjectErrorModel::Permission,
            InjectError::Clipboard(e) => InjectErrorModel::Clipboard(e@),
            InjectError::ClipboardWrite(e) => InjectErrorModel::ClipboardWrite(e@),
            InjectError::Keyboard(e) => InjectErrorModel::Keyboard(e@),
            InjectError::Key(e) => InjectErrorModel::Key(e@),
            InjectError::Typing(e) => InjectErrorModel::Typing(e@),
        }
    }
}

impl InjectErrorModel {
    /// The message for the user.
    pub open spec fn message(self) -> Seq<char> {
        match self {
            InjectErrorModel::Permission =>
                "macOS Accessibility izni gerekli. System Settings → Privacy & Security → Accessibility → 8voice'u etkinleştirin."@,
            InjectErrorModel::Clipboard(e) => "Pano erişilemedi: "@ + e,
            InjectErrorModel::ClipboardWrite(e) => "Panoya yazılamadı: "@ + e,
            InjectErrorModel::Keyboard(e) => "Enigo başlatılamadı: "@ + e,
            InjectErrorModel::Key(e) => e,
            InjectErrorModel::Typing(e) => "Yazma hatası: "@ + e,
        }
    }
}

impl InjectError {
    /// The message for the user.
    pub fn message(&self) -> (r: String)
        ensures
            r@ == self@.message(),
    {
        match self {
            InjectError::Permission =>
                "macOS Accessibility izni gerekli. System Settings → Privacy & Security → Accessibility → 8voice'u etkinleştirin.".to_owned(),
            InjectError::Clipboard(e) => {
                let mut r = "Pano erişilemedi: ".to_owned();
                r.append(e.as_str());
                r
            },
            InjectError::ClipboardWrite(e) => {
                let mut r = "Panoya yazılamadı: ".to_owned();
                r.append(e.as_str());
                r
            },
            InjectError::Keyboard(e) => {
                let mut r = "Enigo başlatılamadı: ".to_owned();
                r.append(e.as_str());
                r
            },
            InjectError::Key(e) => e.clone(),
            InjectError::Typing(e) => {
                let mut r = "Yazma hatası: ".to_owned();
                r.append(e.as_str());
                r
            },
        }
    }
}

/// A text that is to be written to the clipboard.
#[derive(Debug)]
pub struct PasteWrite {
    pub text: String,
    /// The text that the clipboard held before, if it was text.
    pub old: Option<String>,
}

/// The clipboard holds the text; the keys that paste it are to be struck.
#[derive(Debug)]
pub struct PasteKeys {
    pub old: Option<String>,
}

/// Where striking the keys went wrong.
#[derive(Debug)]
pub enum KeyFailure {
    /// There is no keyboard to simulate.
    NoKeyboard(String),
    /// A key could not be struck.
    Stroke(String),
}

/// The key that is held down while pasting.
#[derive(Debug, Clone, Copy, PartialEq, Eq, Structural)]
pub enum Modifier {
    Super,
    Control,
}

/// A stroke of those that paste.
#[derive(Debug, Clone, Copy, PartialEq, Eq, Structural)]
pub enum KeyStroke {
    Press(Modifier),
    ClickV,
    Release(Modifier),
}

/// The key that is held down while pasting, which macOS has of its own.
pub open spec fn modifier_for(macos: bool) -> Modifier {
    if macos {
        Modifier::Super
    } else {
        Modifier::Control
    }
}

/// The strokes that paste, in order.
pub fn paste_strokes(macos: bool) -> (r: Vec<KeyStroke>)
    ensures
        r@ == seq![
            KeyStroke::Press(modifier_for(macos)),
            KeyStroke::ClickV,
            KeyStroke::Release(modifier_for(macos)),
        ],
{
    let modifier = if macos {
        Modifier::Super
    } else {
        Modifier::Control
    };
    let r = vec![KeyStroke::Press(modifier), KeyStroke::ClickV, KeyStroke::Release(modifier)];
    assert(r@ =~= seq![
        KeyStroke::Press(modifier_for(macos)),
        KeyStroke::ClickV,
        KeyStroke::Release(modifier_for(macos)),
    ]);
    r
}

/// Where typing went wrong.
#[derive(Debug)]
pub enum TypingFailure {
    /// There is no keyboard to simulate.
    NoKeyboard(String),
    /// The text could not be typed.
    Text(String),
}

/// What follows typing.
#[derive(Debug)]
pub enum TypingEnd {
    /// Nothing: the text was typed.
    Done,
    /// The text is to be pasted instead.
    Paste,
    /// Nothing: the text was not injected.
    Failed(InjectError),
}

/// Ends typing. Where it failed under Wayland, the text is pasted instead;
/// where it failed elsewhere, that is an error.
pub fn typed(wayland: bool, result: Result<(), TypingFailure>) -> (r: TypingEnd)
    ensures
        r is Done <==> result is Ok,
        r is Paste <==> wayland && result is Err,
        match (result, r) {
            (Err(TypingFailure::NoKeyboard(e)), TypingEnd::Failed(err)) => err@
                == InjectErrorModel::Keyboard(e@),
            (Err(TypingFailure::Text(e)), TypingEnd::Failed(err)) => err@
                == InjectErrorModel::Typing(e@),
            _ => true,
        },
{
    match result {
        Ok(_) => TypingEnd::Done,
        Err(failure) => {
            if wayland {
                TypingEnd::Paste
            } else {
                match failure {
                    TypingFailure::NoKeyboard(e) => TypingEnd::Failed(InjectError::Keyboard(e)),
                    TypingFailure::Text(e) => TypingEnd::Failed(InjectError::Typing(e)),
                }
            }
        },
    }
}

impl PasteWrite {
    /// Begins to paste. The clipboard was opened and held that text, or it
    /// could not be opened.
    pub fn begin(text: &str, opened: Result<Option<String>, String>) -> (r: Result<
        Self,
        InjectError,
    >)
        ensures
            match (opened, r) {
                (Ok(old), Ok(write)) => write.text@ == text@ && text_of(write.old) == text_of(old),
                (Err(e), Err(err)) => err@ == InjectErrorModel::Clipboard(e@),
                _ => false,
            },
    {
        match opened {
            Ok(old) => Ok(PasteWrite { text: text.to_owned(), old }),
            Err(e) => Err(InjectError::Clipboard(e)),
        }
    }

    /// Goes on with the text written, or with the reason why it was not.
    pub fn written(self, wrote: Result<(), String>) -> (r: Result<PasteKeys, InjectError>)
        ensures
            match (wrote, r) {
                (Ok(_), Ok(keys)) => text_of(keys.old) == text_of(self.old),
                (Err(e), Err(err)) => err@ == InjectErrorModel::ClipboardWrite(e@),
                _ => false,
            },
    {
        match wrote {
            Ok(_) => Ok(PasteKeys { old: self.old }),
            Err(e) => Err(InjectError::ClipboardWrite(e)),
        }
    }
}

/// What follows the keys that paste.
#[derive(Debug)]
pub struct PasteEnd {
    /// The text to put back into the clipboard: what it held before, if it was
    /// text.
    pub restore: Option<String>,
    /// Whether the text was pasted.
    pub result: Result<(), InjectError>,
}

impl PasteKeys {
    /// Ends with the keys struck, or with the reason why they were not. Either
    /// way the clipboard gets back what it held.
    pub fn struck(self, keys: Result<(), KeyFailure>) -> (r: PasteEnd)
        ensures
            text_of(r.restore) == text_of(self.old),
            match (keys, r.result) {
                (Ok(_), Ok(_)) => true,
                (Err(KeyFailure::NoKeyboard(e)), Err(err)) => err@ == InjectErrorModel::Keyboard(
                    e@,
                ),
                (Err(KeyFailure::Stroke(e)), Err(err)) => err@ == InjectErrorModel::Key(e@),
                _ => false,
            },
    {
        let result = match keys {
            Ok(_) => Ok(()),
            Err(KeyFailure::NoKeyboard(e)) => Err(InjectError::Keyboard(e)),
            Err(KeyFailure::Stroke(e)) => Err(InjectError::Key(e)),
        };
        PasteEnd { restore: self.old, result }
    }
}

/// What the clipboard holds after `text` was written to it and `restore`, if
/// there is one, was put back.
pub open spec fn clipboard_after(text: Seq<char>, restore: Option<Seq<char>>) -> Seq<char> {
    match restore {
        Some(old) => old,
        None => text,
    }
}

/// Pasting leaves the clipboard as it was: where it held text, it holds the
/// same text again, whether the keys were struck or not. The three steps are a
/// paste for which the clipboard took the text.
pub proof fn law_paste_restores_the_clipboard(
    old: Option<String>,
    write: PasteWrite,
    keys: PasteKeys,
    end: PasteEnd,
)
    requires
        old is Some,
        text_of(write.old) == text_of(old),
        text_of(keys.old) == text_of(write.old),
        text_of(end.restore) == text_of(keys.old),
    ensures
        clipboard_after(write.text@, text_of(end.restore)) == old->0@,
{
}

/// A text is typed or pasted unless it is empty, and where the mode leaves
/// the choice it is pasted exactly when it is long.
pub proof fn law_long_text_is_pasted(chars: nat)
    ensures
        forall|mode: InjectionMode|
            plan_for(chars, mode) == InjectPlan::Nothing <==> chars == 0,
        plan_for(chars, InjectionMode::Auto) == InjectPlan::Paste <==> chars > 200,
{
}

/// The user's choice is followed: whatever its length, a text that is not
/// empty is typed in the mode for typing and pasted in the mode for pasting.
/// Where the choice is left, up to 200 characters are typed and more are
/// pasted. An empty text is left alone.
pub proof fn law_the_chosen_mode_is_followed(chars: nat)
    ensures
        chars > 0 ==> plan_for(chars, InjectionMode::Typing) == InjectPlan::Type,
        chars > 0 ==> plan_for(chars, InjectionMode::Paste) == InjectPlan::Paste,
        0 < chars <= 200 ==> plan_for(chars, InjectionMode::Auto) == InjectPlan::Type,
        chars > 200 ==> plan_for(chars, InjectionMode::Auto) == InjectPlan::Paste,
        forall|mode: InjectionMode| plan_for(0, mode) == InjectPlan::Nothing,
{
}

/// Pasting is Command and V on macOS, and Control and V elsewhere.
pub proof fn law_modifier_is_that_of_the_system()
    ensures
        modifier_for(true) == Modifier::Super,
        modifier_for(false) == Modifier::Control,
{
}

/// How long a paste waits, in milliseconds.
pub proof fn law_paste_waits()
    ensures
        PASTE_SETTLE_MS == 50,
        PASTE_RESTORE_MS == 150,
{
}

/// A message ends with what the system said, whatever that is.
pub proof fn law_messages_end_with_the_reason(e: Seq<char>)
    ensures
        InjectErrorModel::Key(e).message() == e,
        InjectErrorModel::Clipboard(e).message() == InjectErrorModel::Clipboard(seq![]).message()
            + e,
        InjectErrorModel::ClipboardWrite(e).message() == InjectErrorModel::ClipboardWrite(
            seq![],
        ).message() + e,
        InjectErrorModel::Keyboard(e).message() == InjectErrorModel::Keyboard(seq![]).message() + e,
        InjectErrorModel::Typing(e).message() == InjectErrorModel::Typing(seq![]).message() + e,
{
    let none = Seq::<char>::empty();
    assert(InjectErrorModel::Clipboard(none).message() + e =~= InjectErrorModel::Clipboard(
        e,
    ).message());
    assert(InjectErrorModel::ClipboardWrite(none).message() + e
        =~= InjectErrorModel::ClipboardWrite(e).message());
    assert(InjectErrorModel::Keyboard(none).message() + e =~= InjectErrorModel::Keyboard(
        e,
    ).message());
    assert(InjectErrorModel::Typing(none).message() + e =~= InjectErrorModel::Typing(
        e,
    ).message());
}

} // verus!
