//! Input events of the client, turned into what the session injects.
//!
//! Key codes and pointer positions go through the translators of the session, so an
//! event is handled in two parts: what to ask the translator, and what to inject once
//! it answered. Events are collected and flushed in short intervals.

use vstd::arithmetic::power2::is_pow2;
use vstd::prelude::*;

verus! {

/// The left shift key.
pub const KEY_LEFTSHIFT: i32 = 42;

/// Milliseconds between two flushes.
pub const FLUSH_INTERVAL_MS: u64 = 10;

/// The character that a key of the US layout types, with or without shift.
pub open spec fn typed(code: int, shift: bool) -> Option<char> {
    if 2 <= code <= 13 {
        Some(if shift {
            "!@#$%^&*()_+"@[code - 2]
        } else {
            "1234567890-="@[code - 2]
        })
    } else if 16 <= code <= 27 {
        Some(if shift {
            "QWERTYUIOP{}"@[code - 16]
        } else {
            "qwertyuiop[]"@[code - 16]
        })
    } else if 30 <= code <= 41 {
        Some(if shift {
            "ASDFGHJKL:\"~"@[code - 30]
        } else {
            "asdfghjkl;'`"@[code - 30]
        })
    } else if 43 <= code <= 53 {
        Some(if shift {
            "|ZXCVBNM<>?"@[code - 43]
        } else {
            "\\zxcvbnm,./"@[code - 43]
        })
    } else if code == 57 && !shift {
        Some(' ')
    } else if code == 15 && !shift {
        Some('\t')
    } else {
        None
    }
}

/// The key that types a character on the US layout, and whether it needs shift. Both line
/// ends are typed by the enter key.
pub fn unicode_to_evdev(cp: u16) -> (r: Option<(u32, bool)>)
    ensures
        r is Some <==> cp == 0x09 || cp == 0x0A || cp == 0x0D || 0x20 <= cp <= 0x7E,
        r matches Some((code, shift)) ==> if cp == 0x0A || cp == 0x0D {
            code == 28 && !shift
        } else {
            typed(code as int, shift) matches Some(c) && c as int == cp
        },
{
    proof {
        reveal_strlit("1234567890-=");
        reveal_strlit("!@#$%^&*()_+");
        reveal_strlit("qwertyuiop[]");
        reveal_strlit("QWERTYUIOP{}");
        reveal_strlit("asdfghjkl;'`");
        reveal_strlit("ASDFGHJKL:\"~");
        reveal_strlit("\\zxcvbnm,./");
        reveal_strlit("|ZXCVBNM<>?");
    }
    match cp {
        0x09 => Some((15, false)),
        0x0A => Some((28, false)),
        0x0D => Some((28, false)),
        0x20 => Some((57, false)),
        0x21 => Some((2, true)),
        0x22 => Some((40, true)),
        0x23 => Some((4, true)),
        0x24 => Some((5, true)),
        0x25 => Some((6, true)),
        0x26 => Some((8, true)),
        0x27 => Some((40, false)),
        0x28 => Some((10, true)),
        0x29 => Some((11, true)),
        0x2A => Some((9, true)),
        0x2B => Some((13, true)),
        0x2C => Some((51, false)),
        0x2D => Some((12, false)),
        0x2E => Some((52, false)),
        0x2F => Some((53, false)),
        0x30 => Some((11, false)),
        0x31 => Some((2, false)),
        0x32 => Some((3, false)),
        0x33 => Some((4, false)),
        0x34 => Some((5, false)),
        0x35 => Some((6, false)),
        0x36 => Some((7, false)),
        0x37 => Some((8, false)),
        0x38 => Some((9, false)),
        0x39 => Some((10, false)),
        0x3A => Some((39, true)),
        0x3B => Some((39, false)),
        0x3C => Some((51, true)),
        0x3D => Some((13, false)),
        0x3E => Some((52, true)),
        0x3F => Some((53, true)),
        0x40 => Some((3, true)),
        0x41 => Some((30, true)),
        0x42 => Some((48, true)),
        0x43 => Some((46, true)),
        0x44 => Some((32, true)),
        0x45 => Some((18, true)),
        0x46 => Some((33, true)),
        0x47 => Some((34, true)),
        0x48 => Some((35, true)),
        0x49 => Some((23, true)),
        0x4A => Some((36, true)),
        0x4B => Some((37, true)),
        0x4C => Some((38, true)),
        0x4D => Some((50, true)),
        0x4E => Some((49, true)),
        0x4F => Some((24, true)),
        0x50 => Some((25, true)),
        0x51 => Some((16, true)),
        0x52 => Some((19, true)),
        0x53 => Some((31, true)),
        0x54 => Some((20, true)),
        0x55 => Some((22, true)),
        0x56 => Some((47, true)),
        0x57 => Some((17, true)),
        0x58 => Some((45, true)),
        0x59 => Some((21, true)),
        0x5A => Some((44, true)),
        0x5B => Some((26, false)),
        0x5C => Some((43, false)),
        0x5D => Some((27, false)),
        0x5E => Some((7, true)),
        0x5F => Some((12, true)),
        0x60 => Some((41, false)),
        0x61 => Some((30, false)),
        0x62 => Some((48, false)),
        0x63 => Some((46, false)),
        0x64 => Some((32, false)),
        0x65 => Some((18, false)),
        0x66 => Some((33, false)),
        0x67 => Some((34, false)),
        0x68 => Some((35, false)),
        0x69 => Some((23, false)),
        0x6A => Some((36, false)),
        0x6B => Some((37, false)),
        0x6C => Some((38, false)),
        0x6D => Some((50, false)),
        0x6E => Some((49, false)),
        0x6F => Some((24, false)),
        0x70 => Some((25, false)),
        0x71 => Some((16, false)),
        0x72 => Some((19, false)),
        0x73 => Some((31, false)),
        0x74 => Some((20, false)),
        0x75 => Some((22, false)),
        0x76 => Some((47, false)),
        0x77 => Some((17, false)),
        0x78 => Some((45, false)),
        0x79 => Some((21, false)),
        0x7A => Some((44, false)),
        0x7B => Some((26, true)),
        0x7C => Some((43, true)),
        0x7D => Some((27, true)),
        0x7E => Some((41, true)),
        _ => None,
    }
}

/// The XKB keysym of a UTF-16 code unit: Latin-1 characters are their own keysym, others
/// get the Unicode offset. Control characters and halves of surrogate pairs have none.
pub open spec fn keysym_of(cp: u16) -> Option<int> {
    if 0xD800 <= cp <= 0xDFFF || cp <= 0x1F || 0x7F <= cp <= 0x9F {
        None
    } else if cp <= 0xFF {
        Some(cp as int)
    } else {
        Some(0x0100_0000 + cp)
    }
}

/// The XKB keysym of a UTF-16 code unit.
pub fn unicode_to_keysym(cp: u16) -> (r: Option<i32>)
    ensures
        match r {
            Some(k) => keysym_of(cp) == Some(k as int),
            None => keysym_of(cp) is None,
        },
{
    if 0xD800 <= cp && cp <= 0xDFFF {
        None
    } else if cp <= 0x1F || (0x7F <= cp && cp <= 0x9F) {
        None
    } else if cp <= 0xFF {
        Some(cp as i32)
    } else {
        Some(0x0100_0000 + cp as i32)
    }
}

/// No two characters share a keysym.
pub proof fn keysyms_are_distinct(a: u16, b: u16)
    ensures
        keysym_of(a) is Some && keysym_of(a) == keysym_of(b) ==> a == b,
{
}

/// Why an event could not be injected.
#[derive(Debug)]
pub enum InputError {
    /// The session refused to inject.
    PortalError(String),
    /// The translator answered a key event with something else.
    InvalidKeyEvent(String),
    /// The translator answered a pointer event with something else.
    InvalidMouseEvent(String),
    /// The translator refused the event.
    Untranslatable(String),
}

/// The session's refusal as an error.
pub fn portal_err(e: String) -> (r: InputError)
    ensures
        r == InputError::PortalError(e),
{
    InputError::PortalError(e)
}

/// A keyboard event of the client.
#[derive(Debug, Clone, Copy, PartialEq, Eq, Structural)]
pub enum KeyboardEvent {
    Pressed { code: u8, extended: bool },
    Released { code: u8, extended: bool },
    UnicodePressed(u16),
    UnicodeReleased(u16),
    /// The state of the lock keys.
    Synchronize(u8),
}

/// A mouse button.
#[derive(Debug, Clone, Copy, PartialEq, Eq, Structural)]
pub enum MouseButton {
    Left,
    Right,
    Middle,
    Extra1,
    Extra2,
}

/// A mouse event of the client. Scroll amounts are in 120ths of a notch.
#[derive(Debug, Clone, Copy, PartialEq, Eq, Structural)]
pub enum MouseEvent {
    Move { x: u16, y: u16 },
    RelMove { x: i32, y: i32 },
    LeftPressed,
    LeftReleased,
    RightPressed,
    RightReleased,
    MiddlePressed,
    MiddleReleased,
    Button4Pressed,
    Button4Released,
    Button5Pressed,
    Button5Released,
    VerticalScroll { value: i16 },
    Scroll { x: i32, y: i32 },
}

/// An input event of the client.
#[derive(Debug, Clone, Copy, PartialEq, Eq, Structural)]
pub enum InputEvent {
    Keyboard(KeyboardEvent),
    Mouse(MouseEvent),
}

/// A key to inject.
#[derive(Debug, Clone, Copy, PartialEq, Eq, Structural)]
pub enum KeyInjection {
    Keycode { code: i32, pressed: bool },
    Keysym { sym: i32, pressed: bool },
}

/// What a keyboard event asks for.
#[derive(Debug)]
pub enum KeyboardStep {
    /// Ask the translator for the key of a scan code.
    Translate { code: u16, extended: bool, pressed: bool },
    /// Inject these keys one after the other, up to the first refusal.
    Inject(Vec<KeyInjection>),
}

/// The keys that a character is typed with: its key with shift held round it, or else its
/// keysym, or else none.
pub open spec fn character_keys(cp: u16, pressed: bool, keys: Seq<KeyInjection>) -> bool {
    let shift = KeyInjection::Keycode { code: KEY_LEFTSHIFT, pressed };
    if cp == 0x09 || cp == 0x0A || cp == 0x0D || 0x20 <= cp <= 0x7E {
        exists|code: i32, needs_shift: bool|
            {
                &&& #[trigger] key_types(cp, code as int, needs_shift)
                &&& keys == (if !needs_shift {
                    seq![KeyInjection::Keycode { code, pressed }]
                } else if pressed {
                    seq![shift, KeyInjection::Keycode { code, pressed }]
                } else {
                    seq![KeyInjection::Keycode { code, pressed }, shift]
                })
            }
    } else {
        match keysym_of(cp) {
            Some(sym) => keys == seq![KeyInjection::Keysym { sym: sym as i32, pressed }],
            None => keys.len() == 0,
        }
    }
}

/// The key types the character.
pub open spec fn key_types(cp: u16, code: int, shift: bool) -> bool {
    if cp == 0x0A || cp == 0x0D {
        code == 28 && !shift
    } else {
        typed(code, shift) matches Some(c) && c as int == cp
    }
}

fn keys_for_character(cp: u16, pressed: bool) -> (keys: Vec<KeyInjection>)
    ensures
        character_keys(cp, pressed, keys@),
{
    let shift = KeyInjection::Keycode { code: KEY_LEFTSHIFT, pressed };
    let mut keys: Vec<KeyInjection> = Vec::new();
    if let Some((keycode, needs_shift)) = unicode_to_evdev(cp) {
        assert(keycode <= 57);
        let code = keycode as i32;
        let key = KeyInjection::Keycode { code, pressed };
        if needs_shift && pressed {
            keys.push(shift);
        }
        keys.push(key);
        if needs_shift && !pressed {
            keys.push(shift);
        }
        assert(key_types(cp, code as int, needs_shift));
        assert(keys@ =~= (if !needs_shift {
            seq![key]
        } else if pressed {
            seq![shift, key]
        } else {
            seq![key, shift]
        }));
    } else if let Some(sym) = unicode_to_keysym(cp) {
        keys.push(KeyInjection::Keysym { sym, pressed });
        assert(keys@ =~= seq![KeyInjection::Keysym { sym, pressed }]);
    }
    keys
}

/// No two characters are typed by the same key, but for the two line ends.
pub proof fn keys_are_distinct(a: u16, b: u16, code: int, shift: bool)
    requires
        key_types(a, code, shift),
        key_types(b, code, shift),
        a != 0x0A && a != 0x0D && b != 0x0A && b != 0x0D,
    ensures
        a == b,
{
}

/// A keyboard event asks for a step: scan codes go to the translator, characters are typed, and
/// the lock keys need nothing.
pub open spec fn asks(event: KeyboardEvent, r: KeyboardStep) -> bool {
    match event {
        KeyboardEvent::Pressed { code, extended } => r == (KeyboardStep::Translate {
            code: code as u16,
            extended,
            pressed: true,
        }),
        KeyboardEvent::Released { code, extended } => r == (KeyboardStep::Translate {
            code: code as u16,
            extended,
            pressed: false,
        }),
        KeyboardEvent::UnicodePressed(cp) => r matches KeyboardStep::Inject(keys)
            && character_keys(cp, true, keys@),
        KeyboardEvent::UnicodeReleased(cp) => r matches KeyboardStep::Inject(keys)
            && character_keys(cp, false, keys@),
        KeyboardEvent::Synchronize(_) => r matches KeyboardStep::Inject(keys) && keys@.len() == 0,
    }
}

/// What a keyboard event asks for: scan codes go to the translator, characters are typed,
/// and the lock keys need nothing.
pub fn handle_keyboard_event(event: KeyboardEvent) -> (r: KeyboardStep)
    ensures
        asks(event, r),
{
    match event {
        KeyboardEvent::Pressed { code, extended } => KeyboardStep::Translate {
            code: code as u16,
            extended,
            pressed: true,
        },
        KeyboardEvent::Released { code, extended } => KeyboardStep::Translate {
            code: code as u16,
            extended,
            pressed: false,
        },
        KeyboardEvent::UnicodePressed(cp) => KeyboardStep::Inject(keys_for_character(cp, true)),
        KeyboardEvent::UnicodeReleased(cp) => KeyboardStep::Inject(keys_for_character(cp, false)),
        KeyboardEvent::Synchronize(_) => KeyboardStep::Inject(Vec::new()),
    }
}

/// What the translator made of a scan code.
#[derive(Debug, Clone, Copy, PartialEq, Eq, Structural)]
pub enum TranslatedKey {
    KeyDown { keycode: u32 },
    KeyRepeat { keycode: u32 },
    KeyUp { keycode: u32 },
}

/// The translator's answer gives a key to inject. A press takes whatever key it names; a release
/// must be answered with a release.
pub open spec fn injects(
    pressed: bool,
    answer: Result<TranslatedKey, InputError>,
    r: Result<KeyInjection, InputError>,
) -> bool {
    match answer {
        Err(e) => r == Err::<KeyInjection, InputError>(e),
        Ok(TranslatedKey::KeyUp { keycode }) => r == Ok::<KeyInjection, InputError>(
            KeyInjection::Keycode { code: keycode as i32, pressed },
        ),
        Ok(TranslatedKey::KeyDown { keycode }) | Ok(TranslatedKey::KeyRepeat { keycode }) =>
            if pressed {
                r == Ok::<KeyInjection, InputError>(
                    KeyInjection::Keycode { code: keycode as i32, pressed },
                )
            } else {
                r matches Err(InputError::InvalidKeyEvent(t)) && t@ == "Unexpected event type"@
            },
    }
}

/// The key to inject once the translator answered. A press takes whatever key it names; a
/// release must be answered with a release.
pub fn key_translated(pressed: bool, answer: Result<TranslatedKey, InputError>) -> (r: Result<
    KeyInjection,
    InputError,
>)
    ensures
        injects(pressed, answer, r),
{
    match answer {
        Err(e) => Err(e),
        Ok(TranslatedKey::KeyUp { keycode }) => Ok(
            KeyInjection::Keycode { code: #[verifier::truncate] (keycode as i32), pressed },
        ),
        Ok(TranslatedKey::KeyDown { keycode }) | Ok(TranslatedKey::KeyRepeat { keycode }) => {
            if pressed {
                Ok(KeyInjection::Keycode { code: #[verifier::truncate] (keycode as i32), pressed })
            } else {
                Err(InputError::InvalidKeyEvent("Unexpected event type".to_owned()))
            }
        },
    }
}

/// What a mouse event asks for.
#[derive(Debug, Clone, Copy, PartialEq, Eq, Structural)]
pub enum MouseStep {
    /// Ask the translator where an absolute position is on the stream.
    Locate { x: u32, y: u32 },
    /// Ask the translator where a relative movement leads to on the stream.
    Displace { dx: i32, dy: i32 },
    /// Tell the translator about a button, then inject it.
    Button { button: MouseButton, code: i32, pressed: bool },
    /// Tell the translator about scrolling, then inject it: 120 units make a notch.
    Scroll { x: i32, y: i32 },
}

impl MouseButton {
    /// The button's code in the input subsystem.
    pub open spec fn code(self) -> i32 {
        match self {
            MouseButton::Left => 272,
            MouseButton::Right => 273,
            MouseButton::Middle => 274,
            MouseButton::Extra1 => 275,
            MouseButton::Extra2 => 276,
        }
    }

    fn press(self, pressed: bool) -> (r: MouseStep)
        ensures
            r == (MouseStep::Button { button: self, code: self.code(), pressed }),
    {
        let code: i32 = match self {
            MouseButton::Left => 272,
            MouseButton::Right => 273,
            MouseButton::Middle => 274,
            MouseButton::Extra1 => 275,
            MouseButton::Extra2 => 276,
        };
        MouseStep::Button { button: self, code, pressed }
    }
}

/// The button that an event is about, and whether it is pressed.
pub open spec fn button_of(event: MouseEvent) -> Option<(MouseButton, bool)> {
    match event {
        MouseEvent::LeftPressed => Some((MouseButton::Left, true)),
        MouseEvent::LeftReleased => Some((MouseButton::Left, false)),
        MouseEvent::RightPressed => Some((MouseButton::Right, true)),
        MouseEvent::RightReleased => Some((MouseButton::Right, false)),
        MouseEvent::MiddlePressed => Some((MouseButton::Middle, true)),
        MouseEvent::MiddleReleased => Some((MouseButton::Middle, false)),
        MouseEvent::Button4Pressed => Some((MouseButton::Extra1, true)),
        MouseEvent::Button4Released => Some((MouseButton::Extra1, false)),
        MouseEvent::Button5Pressed => Some((MouseButton::Extra2, true)),
        MouseEvent::Button5Released => Some((MouseButton::Extra2, false)),
        _ => None,
    }
}

/// What a mouse event asks for.
pub open spec fn mouse_step(event: MouseEvent) -> MouseStep {
    if let Some((button, pressed)) = button_of(event) {
        MouseStep::Button { button, code: button.code(), pressed }
    } else if let MouseEvent::Move { x, y } = event {
        MouseStep::Locate { x: x as u32, y: y as u32 }
    } else if let MouseEvent::RelMove { x, y } = event {
        MouseStep::Displace { dx: x, dy: y }
    } else if let MouseEvent::VerticalScroll { value } = event {
        MouseStep::Scroll { x: 0, y: value as i32 }
    } else {
        MouseStep::Scroll { x: event->Scroll_x, y: event->Scroll_y }
    }
}

/// What a mouse event asks for.
pub fn handle_mouse_event(event: MouseEvent) -> (r: MouseStep)
    ensures
        r == mouse_step(event),
{
    match event {
        MouseEvent::Move { x, y } => MouseStep::Locate { x: x as u32, y: y as u32 },
        MouseEvent::RelMove { x, y } => MouseStep::Displace { dx: x, dy: y },
        MouseEvent::LeftPressed => MouseButton::Left.press(true),
        MouseEvent::LeftReleased => MouseButton::Left.press(false),
        MouseEvent::RightPressed => MouseButton::Right.press(true),
        MouseEvent::RightReleased => MouseButton::Right.press(false),
        MouseEvent::MiddlePressed => MouseButton::Middle.press(true),
        MouseEvent::MiddleReleased => MouseButton::Middle.press(false),
        MouseEvent::Button4Pressed => MouseButton::Extra1.press(true),
        MouseEvent::Button4Released => MouseButton::Extra1.press(false),
        MouseEvent::Button5Pressed => MouseButton::Extra2.press(true),
        MouseEvent::Button5Released => MouseButton::Extra2.press(false),
        MouseEvent::VerticalScroll { value } => MouseStep::Scroll { x: 0, y: value as i32 },
        MouseEvent::Scroll { x, y } => MouseStep::Scroll { x, y },
    }
}

/// A double precision number, kept by its bit pattern.
#[derive(Debug, Clone, Copy, PartialEq, Eq, Structural)]
pub struct Float64 {
    pub bits: u64,
}

/// What the translator made of a movement.
#[derive(Debug, Clone, Copy, PartialEq, Eq, Structural)]
pub enum TranslatedMove {
    /// A position on the stream.
    Move { x: Float64, y: Float64 },
    /// Anything else.
    Other,
}

/// Where an answer of the translator leads.
pub open spec fn leads_to(
    answer: Result<TranslatedMove, InputError>,
    r: Result<(Float64, Float64), InputError>,
) -> bool {
    match answer {
        Err(e) => r == Err::<(Float64, Float64), InputError>(e),
        Ok(TranslatedMove::Move { x, y }) => r == Ok::<(Float64, Float64), InputError>((x, y)),
        Ok(TranslatedMove::Other) => r matches Err(InputError::InvalidMouseEvent(t)) && t@
            == "Unexpected event type"@,
    }
}

/// Where to move the pointer once the translator answered.
pub fn move_translated(answer: Result<TranslatedMove, InputError>) -> (r: Result<
    (Float64, Float64),
    InputError,
>)
    ensures
        leads_to(answer, r),
{
    match answer {
        Err(e) => Err(e),
        Ok(TranslatedMove::Move { x, y }) => Ok((x, y)),
        Ok(TranslatedMove::Other) => Err(
            InputError::InvalidMouseEvent("Unexpected event type".to_owned()),
        ),
    }
}

/// What to log about an injection.
#[derive(Debug, Clone, Copy, PartialEq, Eq, Structural)]
pub enum InjectionNotice {
    Silent,
    /// The first failure.
    Failed,
    /// One of many failures in a row.
    StillFailing(u64),
    /// The first success after so many failures.
    Recovered(u64),
}

/// Failures in a row.
#[derive(Debug, Clone, Copy, PartialEq, Eq, Structural)]
pub struct FailureRun {
    pub count: u64,
}

/// Whether a number is a power of two.
pub fn is_power_of_two(n: u64) -> (r: bool)
    ensures
        r == is_pow2(n as int),
{
    reveal(is_pow2);
    if n == 0 {
        return false;
    }
    let mut m: u64 = n;
    while m > 1 && m % 2 == 0
        invariant
            m >= 1,
            is_pow2(m as int) == is_pow2(n as int),
        decreases m,
    {
        reveal(is_pow2);
        m = m / 2;
    }
    m == 1
}

impl FailureRun {
    /// What to log after another injection: the first failure, then only every time their
    /// number doubled; and the first success after more than one.
    pub open spec fn notice(self, ok: bool) -> InjectionNotice {
        if ok {
            if self.count > 1 {
                InjectionNotice::Recovered(self.count)
            } else {
                InjectionNotice::Silent
            }
        } else if self.count == 0 {
            InjectionNotice::Failed
        } else if is_pow2(self.count + 1) {
            InjectionNotice::StillFailing((self.count + 1) as u64)
        } else {
            InjectionNotice::Silent
        }
    }

    /// The failures in a row after another injection.
    pub open spec fn after(self, ok: bool) -> FailureRun {
        if ok {
            FailureRun { count: 0 }
        } else {
            FailureRun { count: (self.count + 1) as u64 }
        }
    }

    /// Counts another injection and says what to log about it.
    pub fn note(&mut self, ok: bool) -> (r: InjectionNotice)
        requires
            !ok ==> old(self).count < u64::MAX,
        ensures
            r == old(self).notice(ok),
            *final(self) == old(self).after(ok),
    {
        let before: u64 = self.count;
        if ok {
            self.count = 0;
            if before > 1 {
                InjectionNotice::Recovered(before)
            } else {
                InjectionNotice::Silent
            }
        } else {
            self.count = before + 1;
            if before == 0 {
                InjectionNotice::Failed
            } else if is_power_of_two(before + 1) {
                InjectionNotice::StillFailing(before + 1)
            } else {
                InjectionNotice::Silent
            }
        }
    }
}

/// Input events on their way to the session.
#[derive(Debug, Clone)]
pub struct LamcoInputHandler {
    pub keyboard_batch: Vec<KeyboardEvent>,
    pub mouse_batch: Vec<MouseEvent>,
    pub last_flush_ms: u64,
    pub keyboard_failures: FailureRun,
    pub mouse_failures: FailureRun,
    /// The stream that absolute positions are on.
    pub primary_stream_id: u32,
}

impl LamcoInputHandler {
    /// A handler without events.
    pub fn new(primary_stream_id: u32, now_ms: u64) -> (r: Self)
        ensures
            r.keyboard_batch@.len() == 0,
            r.mouse_batch@.len() == 0,
            r.last_flush_ms == now_ms,
            r.keyboard_failures.count == 0,
            r.mouse_failures.count == 0,
            r.primary_stream_id == primary_stream_id,
    {
        LamcoInputHandler {
            keyboard_batch: Vec::new(),
            mouse_batch: Vec::new(),
            last_flush_ms: now_ms,
            keyboard_failures: FailureRun { count: 0 },
            mouse_failures: FailureRun { count: 0 },
            primary_stream_id,
        }
    }

    /// `after` is this handler with one more event.
    pub open spec fn takes_in(self, event: InputEvent, after: Self) -> bool {
        &&& after.keyboard_batch@ == (match event {
            InputEvent::Keyboard(k) => self.keyboard_batch@.push(k),
            InputEvent::Mouse(_) => self.keyboard_batch@,
        })
        &&& after.mouse_batch@ == (match event {
            InputEvent::Keyboard(_) => self.mouse_batch@,
            InputEvent::Mouse(m) => self.mouse_batch@.push(m),
        })
        &&& after == LamcoInputHandler {
            keyboard_batch: after.keyboard_batch,
            mouse_batch: after.mouse_batch,
            ..self
        }
    }

    /// Takes an event in.
    pub fn receive(&mut self, event: InputEvent)
        ensures
            old(self).takes_in(event, *final(self)),
    {
        match event {
            InputEvent::Keyboard(k) => self.keyboard_batch.push(k),
            InputEvent::Mouse(m) => self.mouse_batch.push(m),
        }
    }

    /// When the next flush is due.
    pub fn flush_due_at(&self) -> (r: u64)
        requires
            self.last_flush_ms + FLUSH_INTERVAL_MS <= u64::MAX,
        ensures
            r == self.last_flush_ms + FLUSH_INTERVAL_MS,
    {
        self.last_flush_ms + FLUSH_INTERVAL_MS
    }

    /// Hands out the events: all keyboard events in their order, then all mouse events in
    /// theirs.
    pub fn flush(&mut self, now_ms: u64) -> (r: Vec<InputEvent>)
        ensures
            r@ == flushed(old(self).keyboard_batch@, old(self).mouse_batch@),
            final(self).keyboard_batch@.len() == 0,
            final(self).mouse_batch@.len() == 0,
            *final(self) == (LamcoInputHandler {
                keyboard_batch: final(self).keyboard_batch,
                mouse_batch: final(self).mouse_batch,
                last_flush_ms: now_ms,
                ..*old(self)
            }),
    {
        let mut r: Vec<InputEvent> = Vec::new();
        let mut i: usize = 0;
        let ghost keys = self.keyboard_batch@;
        let ghost moves = self.mouse_batch@;
        while i < self.keyboard_batch.len()
            invariant
                i <= keys.len(),
                keys == self.keyboard_batch@,
                r@ =~= Seq::new(i as nat, |k: int| InputEvent::Keyboard(keys[k])),
            decreases keys.len() - i,
        {
            r.push(InputEvent::Keyboard(self.keyboard_batch[i]));
            i += 1;
        }
        let mut j: usize = 0;
        while j < self.mouse_batch.len()
            invariant
                j <= moves.len(),
                moves == self.mouse_batch@,
                r@ =~= Seq::new(keys.len(), |k: int| InputEvent::Keyboard(keys[k])) + Seq::new(
                    j as nat,
                    |k: int| InputEvent::Mouse(moves[k]),
                ),
            decreases moves.len() - j,
        {
            r.push(InputEvent::Mouse(self.mouse_batch[j]));
            j += 1;
        }
        self.keyboard_batch = Vec::new();
        self.mouse_batch = Vec::new();
        self.last_flush_ms = now_ms;
        r
    }

    /// Notes how an injection went and says what to log about it.
    pub fn injected(&mut self, event: InputEvent, ok: bool) -> (r: InjectionNotice)
        requires
            !ok ==> match event {
                InputEvent::Keyboard(_) => old(self).keyboard_failures.count < u64::MAX,
                InputEvent::Mouse(_) => old(self).mouse_failures.count < u64::MAX,
            },
        ensures
            match event {
                InputEvent::Keyboard(_) => {
                    &&& r == old(self).keyboard_failures.notice(ok)
                    &&& *final(self) == (LamcoInputHandler {
                        keyboard_failures: old(self).keyboard_failures.after(ok),
                        ..*old(self)
                    })
                },
                InputEvent::Mouse(_) => {
                    &&& r == old(self).mouse_failures.notice(ok)
                    &&& *final(self) == (LamcoInputHandler {
                        mouse_failures: old(self).mouse_failures.after(ok),
                        ..*old(self)
                    })
                },
            },
    {
        match event {
            InputEvent::Keyboard(_) => self.keyboard_failures.note(ok),
            InputEvent::Mouse(_) => self.mouse_failures.note(ok),
        }
    }
}

/// The events in the order in which they are injected.
pub open spec fn flushed(keys: Seq<KeyboardEvent>, moves: Seq<MouseEvent>) -> Seq<InputEvent> {
    Seq::new(keys.len(), |k: int| InputEvent::Keyboard(keys[k])) + Seq::new(
        moves.len(),
        |k: int| InputEvent::Mouse(moves[k]),
    )
}

/// Releasing a character undoes pressing it: the same keys, released in the reverse of the
/// order in which they were pressed.
pub proof fn release_mirrors_press(
    cp: u16,
    pressed: Seq<KeyInjection>,
    released: Seq<KeyInjection>,
)
    requires
        character_keys(cp, true, pressed),
        character_keys(cp, false, released),
    ensures
        pressed.len() == released.len(),
        forall|i: int|
            0 <= i < pressed.len() ==> match #[trigger] pressed[i] {
                KeyInjection::Keycode { code, .. } => released[pressed.len() - 1 - i]
                    == (KeyInjection::Keycode { code, pressed: false }),
                KeyInjection::Keysym { sym, .. } => released[pressed.len() - 1 - i]
                    == (KeyInjection::Keysym { sym, pressed: false }),
            },
{
    if cp == 0x09 || cp == 0x0A || cp == 0x0D || 0x20 <= cp <= 0x7E {
        let (a, s) = choose|code: i32, needs_shift: bool|
            {
                &&& #[trigger] key_types(cp, code as int, needs_shift)
                &&& pressed == (if !needs_shift {
                    seq![KeyInjection::Keycode { code, pressed: true }]
                } else {
                    seq![
                        KeyInjection::Keycode { code: KEY_LEFTSHIFT, pressed: true },
                        KeyInjection::Keycode { code, pressed: true },
                    ]
                })
            };
        let (b, t) = choose|code: i32, needs_shift: bool|
            {
                &&& #[trigger] key_types(cp, code as int, needs_shift)
                &&& released == (if !needs_shift {
                    seq![KeyInjection::Keycode { code, pressed: false }]
                } else {
                    seq![
                        KeyInjection::Keycode { code, pressed: false },
                        KeyInjection::Keycode { code: KEY_LEFTSHIFT, pressed: false },
                    ]
                })
            };
        lemma_key_is_unique(cp, a as int, s, b as int, t);
    }
}

/// The position of a printable character on the US layout, counting through its rows.
spec fn place(c: char) -> (int, bool) {
    if c == ' ' {
        (57, false)
    } else if c == '!' {
        (2, true)
    } else if c == '"' {
        (40, true)
    } else if c == '#' {
        (4, true)
    } else if c == '$' {
        (5, true)
    } else if c == '%' {
        (6, true)
    } else if c == '&' {
        (8, true)
    } else if c == '\'' {
        (40, false)
    } else if c == '(' {
        (10, true)
    } else if c == ')' {
        (11, true)
    } else if c == '*' {
        (9, true)
    } else if c == '+' {
        (13, true)
    } else if c == ',' {
        (51, false)
    } else if c == '-' {
        (12, false)
    } else if c == '.' {
        (52, false)
    } else if c == '/' {
        (53, false)
    } else if c == '0' {
        (11, false)
    } else if c == '1' {
        (2, false)
    } else if c == '2' {
        (3, false)
    } else if c == '3' {
        (4, false)
    } else if c == '4' {
        (5, false)
    } else if c == '5' {
        (6, false)
    } else if c == '6' {
        (7, false)
    } else if c == '7' {
        (8, false)
    } else if c == '8' {
        (9, false)
    } else if c == '9' {
        (10, false)
    } else if c == ':' {
        (39, true)
    } else if c == ';' {
        (39, false)
    } else if c == '<' {
        (51, true)
    } else if c == '=' {
        (13, false)
    } else if c == '>' {
        (52, true)
    } else if c == '?' {
        (53, true)
    } else if c == '@' {
        (3, true)
    } else if c == 'A' {
        (30, true)
    } else if c == 'B' {
        (48, true)
    } else if c == 'C' {
        (46, true)
    } else if c == 'D' {
        (32, true)
    } else if c == 'E' {
        (18, true)
    } else if c == 'F' {
        (33, true)
    } else if c == 'G' {
        (34, true)
    } else if c == 'H' {
        (35, true)
    } else if c == 'I' {
        (23, true)
    } else if c == 'J' {
        (36, true)
    } else if c == 'K' {
        (37, true)
    } else if c == 'L' {
        (38, true)
    } else if c == 'M' {
        (50, true)
    } else if c == 'N' {
        (49, true)
    } else if c == 'O' {
        (24, true)
    } else if c == 'P' {
        (25, true)
    } else if c == 'Q' {
        (16, true)
    } else if c == 'R' {
        (19, true)
    } else if c == 'S' {
        (31, true)
    } else if c == 'T' {
        (20, true)
    } else if c == 'U' {
        (22, true)
    } else if c == 'V' {
        (47, true)
    } else if c == 'W' {
        (17, true)
    } else if c == 'X' {
        (45, true)
    } else if c == 'Y' {
        (21, true)
    } else if c == 'Z' {
        (44, true)
    } else if c == '[' {
        (26, false)
    } else if c == '\\' {
        (43, false)
    } else if c == ']' {
        (27, false)
    } else if c == '^' {
        (7, true)
    } else if c == '_' {
        (12, true)
    } else if c == '`' {
        (41, false)
    } else if c == 'a' {
        (30, false)
    } else if c == 'b' {
        (48, false)
    } else if c == 'c' {
        (46, false)
    } else if c == 'd' {
        (32, false)
    } else if c == 'e' {
        (18, false)
    } else if c == 'f' {
        (33, false)
    } else if c == 'g' {
        (34, false)
    } else if c == 'h' {
        (35, false)
    } else if c == 'i' {
        (23, false)
    } else if c == 'j' {
        (36, false)
    } else if c == 'k' {
        (37, false)
    } else if c == 'l' {
        (38, false)
    } else if c == 'm' {
        (50, false)
    } else if c == 'n' {
        (49, false)
    } else if c == 'o' {
        (24, false)
    } else if c == 'p' {
        (25, false)
    } else if c == 'q' {
        (16, false)
    } else if c == 'r' {
        (19, false)
    } else if c == 's' {
        (31, false)
    } else if c == 't' {
        (20, false)
    } else if c == 'u' {
        (22, false)
    } else if c == 'v' {
        (47, false)
    } else if c == 'w' {
        (17, false)
    } else if c == 'x' {
        (45, false)
    } else if c == 'y' {
        (21, false)
    } else if c == 'z' {
        (44, false)
    } else if c == '{' {
        (26, true)
    } else if c == '|' {
        (43, true)
    } else if c == '}' {
        (27, true)
    } else if c == '~' {
        (41, true)
    } else {
        (0, false)
    }
}

/// A key stands where its character's position says.
proof fn lemma_place(code: int, shift: bool)
    ensures
        typed(code, shift) matches Some(c) ==> place(c) == (code, shift) || code == 15,
        typed(code, shift) == Some('\t') <==> code == 15 && !shift,
{
        reveal_strlit("1234567890-=");
        reveal_strlit("!@#$%^&*()_+");
        reveal_strlit("qwertyuiop[]");
        reveal_strlit("QWERTYUIOP{}");
        reveal_strlit("asdfghjkl;'`");
        reveal_strlit("ASDFGHJKL:\"~");
        reveal_strlit("\\zxcvbnm,./");
        reveal_strlit("|ZXCVBNM<>?");
}

/// A character is typed by one key only.
proof fn lemma_key_is_unique(cp: u16, a: int, s: bool, b: int, t: bool)
    requires
        key_types(cp, a, s),
        key_types(cp, b, t),
    ensures
        a == b,
        s == t,
{
        reveal_strlit("1234567890-=");
        reveal_strlit("!@#$%^&*()_+");
        reveal_strlit("qwertyuiop[]");
        reveal_strlit("QWERTYUIOP{}");
        reveal_strlit("asdfghjkl;'`");
        reveal_strlit("ASDFGHJKL:\"~");
        reveal_strlit("\\zxcvbnm,./");
        reveal_strlit("|ZXCVBNM<>?");
    lemma_place(a, s);
    lemma_place(b, t);
}

/// Every button is injected with its code of the Linux input subsystem, pressed when the client
/// presses it and released when the client releases it.
pub proof fn buttons_keep_their_meaning()
    ensures
        mouse_step(MouseEvent::LeftPressed) == (MouseStep::Button {
            button: MouseButton::Left,
            code: 272,
            pressed: true,
        }),
        mouse_step(MouseEvent::LeftReleased) == (MouseStep::Button {
            button: MouseButton::Left,
            code: 272,
            pressed: false,
        }),
        mouse_step(MouseEvent::RightPressed) == (MouseStep::Button {
            button: MouseButton::Right,
            code: 273,
            pressed: true,
        }),
        mouse_step(MouseEvent::RightReleased) == (MouseStep::Button {
            button: MouseButton::Right,
            code: 273,
            pressed: false,
        }),
        mouse_step(MouseEvent::MiddlePressed) == (MouseStep::Button {
            button: MouseButton::Middle,
            code: 274,
            pressed: true,
        }),
        mouse_step(MouseEvent::MiddleReleased) == (MouseStep::Button {
            button: MouseButton::Middle,
            code: 274,
            pressed: false,
        }),
        mouse_step(MouseEvent::Button4Pressed) == (MouseStep::Button {
            button: MouseButton::Extra1,
            code: 275,
            pressed: true,
        }),
        mouse_step(MouseEvent::Button4Released) == (MouseStep::Button {
            button: MouseButton::Extra1,
            code: 275,
            pressed: false,
        }),
        mouse_step(MouseEvent::Button5Pressed) == (MouseStep::Button {
            button: MouseButton::Extra2,
            code: 276,
            pressed: true,
        }),
        mouse_step(MouseEvent::Button5Released) == (MouseStep::Button {
            button: MouseButton::Extra2,
            code: 276,
            pressed: false,
        }),
        MouseButton::Left.code() == 272,
        MouseButton::Right.code() == 273,
        MouseButton::Middle.code() == 274,
        MouseButton::Extra1.code() == 275,
        MouseButton::Extra2.code() == 276,
{
}

/// A movement goes to the translator with the client's own numbers, absolute or relative as it
/// came, and scrolling keeps its direction and amount: a vertical wheel moves nothing sideways.
pub proof fn movements_keep_their_numbers(x: u16, y: u16, dx: i32, dy: i32, value: i16)
    ensures
        mouse_step(MouseEvent::Move { x, y }) matches MouseStep::Locate { x: lx, y: ly } && lx == x
            && ly == y,
        mouse_step(MouseEvent::RelMove { x: dx, y: dy }) matches MouseStep::Displace {
            dx: ex,
            dy: ey,
        } && ex == dx && ey == dy,
        mouse_step(MouseEvent::Scroll { x: dx, y: dy }) matches MouseStep::Scroll { x: sx, y: sy }
            && sx == dx && sy == dy,
        mouse_step(MouseEvent::VerticalScroll { value }) matches MouseStep::Scroll { x: sx, y: sy }
            && sx == 0 && sy == value,
{
}

/// Only button events press or release anything.
pub proof fn movements_press_nothing(event: MouseEvent)
    ensures
        mouse_step(event) is Button <==> !(event is Move || event is RelMove || event is Scroll
            || event is VerticalScroll),
{
}

/// Scan codes go to the translator as they came, pressed or released as they came, and the lock
/// keys need nothing.
pub proof fn scan_codes_go_to_the_translator(code: u8, extended: bool, flags: u8, r: KeyboardStep)
    ensures
        asks(KeyboardEvent::Pressed { code, extended }, r) ==> (r matches KeyboardStep::Translate {
            code: c,
            extended: e,
            pressed,
        } && c == code && e == extended && pressed),
        asks(KeyboardEvent::Released { code, extended }, r) ==> (r matches KeyboardStep::Translate {
            code: c,
            extended: e,
            pressed,
        } && c == code && e == extended && !pressed),
        asks(KeyboardEvent::Synchronize(flags), r) ==> (r matches KeyboardStep::Inject(keys)
            && keys@.len() == 0),
{
}

/// Where the translator names a key for a press, that key is pressed; where it names a released
/// key for a release, that key is released. A release that is answered with a press is refused,
/// and so is what the translator refuses.
pub proof fn named_keys_are_injected(
    keycode: u32,
    e: InputError,
    r: Result<KeyInjection, InputError>,
)
    requires
        keycode <= i32::MAX,
    ensures
        injects(true, Ok(TranslatedKey::KeyDown { keycode }), r) ==> (r matches Ok(
            KeyInjection::Keycode { code, pressed },
        ) && code == keycode && pressed),
        injects(true, Ok(TranslatedKey::KeyRepeat { keycode }), r) ==> (r matches Ok(
            KeyInjection::Keycode { code, pressed },
        ) && code == keycode && pressed),
        injects(false, Ok(TranslatedKey::KeyUp { keycode }), r) ==> (r matches Ok(
            KeyInjection::Keycode { code, pressed },
        ) && code == keycode && !pressed),
        injects(false, Ok(TranslatedKey::KeyDown { keycode }), r) ==> r is Err,
        injects(false, Ok(TranslatedKey::KeyRepeat { keycode }), r) ==> r is Err,
        injects(true, Err(e), r) ==> r == Err::<KeyInjection, InputError>(e),
        injects(false, Err(e), r) ==> r == Err::<KeyInjection, InputError>(e),
{
}

/// The keys of the letters are those of the US layout, row by row: their codes follow one
/// another from left to right.
pub proof fn letters_are_on_the_us_layout()
    ensures
        typed(16, false) == Some('q') && typed(17, false) == Some('w'),
        typed(18, false) == Some('e') && typed(19, false) == Some('r'),
        typed(20, false) == Some('t') && typed(21, false) == Some('y'),
        typed(22, false) == Some('u') && typed(23, false) == Some('i'),
        typed(24, false) == Some('o') && typed(25, false) == Some('p'),
        typed(30, false) == Some('a') && typed(31, false) == Some('s'),
        typed(32, false) == Some('d') && typed(33, false) == Some('f'),
        typed(34, false) == Some('g') && typed(35, false) == Some('h'),
        typed(36, false) == Some('j') && typed(37, false) == Some('k'),
        typed(38, false) == Some('l') && typed(44, false) == Some('z'),
        typed(45, false) == Some('x') && typed(46, false) == Some('c'),
        typed(47, false) == Some('v') && typed(48, false) == Some('b'),
        typed(49, false) == Some('n') && typed(50, false) == Some('m'),
{
    reveal_strlit("qwertyuiop[]");
    reveal_strlit("asdfghjkl;'`");
    reveal_strlit("\\zxcvbnm,./");
}

/// The keys of the digits follow one another from one to nine, with zero after nine. Shift
/// makes of them, and of the other signs, what the US layout prints on their keys.
pub proof fn signs_are_on_the_us_layout(d: int)
    ensures
        1 <= d <= 9 ==> (typed(d + 1, false) matches Some(c) && c as int == 48 + d),
        typed(11, false) == Some('0'),
        typed(2, true) == Some('!') && typed(3, true) == Some('@') && typed(4, true) == Some('#'),
        typed(5, true) == Some('$') && typed(6, true) == Some('%') && typed(7, true) == Some('^'),
        typed(8, true) == Some('&') && typed(9, true) == Some('*') && typed(10, true) == Some('('),
        typed(11, true) == Some(')'),
        typed(12, false) == Some('-') && typed(12, true) == Some('_'),
        typed(13, false) == Some('=') && typed(13, true) == Some('+'),
        typed(26, false) == Some('[') && typed(26, true) == Some('{'),
        typed(27, false) == Some(']') && typed(27, true) == Some('}'),
        typed(39, false) == Some(';') && typed(39, true) == Some(':'),
        typed(40, false) == Some('\'') && typed(40, true) == Some('"'),
        typed(41, false) == Some('`') && typed(41, true) == Some('~'),
        typed(43, false) == Some('\\') && typed(43, true) == Some('|'),
        typed(51, false) == Some(',') && typed(51, true) == Some('<'),
        typed(52, false) == Some('.') && typed(52, true) == Some('>'),
        typed(53, false) == Some('/') && typed(53, true) == Some('?'),
        typed(57, false) == Some(' '),
        typed(15, false) == Some('\t'),
{
    reveal_strlit("1234567890-=");
    reveal_strlit("!@#$%^&*()_+");
    reveal_strlit("qwertyuiop[]");
    reveal_strlit("QWERTYUIOP{}");
    reveal_strlit("asdfghjkl;'`");
    reveal_strlit("ASDFGHJKL:\"~");
    reveal_strlit("\\zxcvbnm,./");
    reveal_strlit("|ZXCVBNM<>?");
}

/// Shift makes a capital letter of a letter, on the same key.
pub proof fn shift_makes_capitals(code: int)
    ensures
        16 <= code <= 25 || 30 <= code <= 38 || 44 <= code <= 50 ==> (typed(
            code,
            true,
        ) matches Some(upper) && (typed(code, false) matches Some(lower) && lower as int
            == upper as int + 32)),
{
    reveal_strlit("qwertyuiop[]");
    reveal_strlit("QWERTYUIOP{}");
    reveal_strlit("asdfghjkl;'`");
    reveal_strlit("ASDFGHJKL:\"~");
    reveal_strlit("\\zxcvbnm,./");
    reveal_strlit("|ZXCVBNM<>?");
}

/// A capital letter is typed like the small one, with the left shift key pressed before it and
/// released after it. Both line ends are typed by the enter key.
pub proof fn capitals_are_typed_with_shift(
    cp: u16,
    code: i32,
    pressed: Seq<KeyInjection>,
    released: Seq<KeyInjection>,
)
    requires
        character_keys(cp, true, pressed),
        character_keys(cp, false, released),
    ensures
        (cp == 0x0A || cp == 0x0D) ==> pressed == seq![
            KeyInjection::Keycode { code: 28, pressed: true },
        ],
        (cp == 0x09 || 0x20 <= cp <= 0x7E) && key_types(cp, code as int, true) ==> pressed == seq![
            KeyInjection::Keycode { code: 42, pressed: true },
            KeyInjection::Keycode { code, pressed: true },
        ] && released == seq![
            KeyInjection::Keycode { code, pressed: false },
            KeyInjection::Keycode { code: 42, pressed: false },
        ],
        (cp == 0x09 || 0x20 <= cp <= 0x7E) && key_types(cp, code as int, false) ==> pressed
            == seq![KeyInjection::Keycode { code, pressed: true }] && released == seq![
            KeyInjection::Keycode { code, pressed: false },
        ],
{
    if cp == 0x09 || cp == 0x0A || cp == 0x0D || 0x20 <= cp <= 0x7E {
        let (a, s) = choose|code: i32, needs_shift: bool|
            {
                &&& #[trigger] key_types(cp, code as int, needs_shift)
                &&& pressed == (if !needs_shift {
                    seq![KeyInjection::Keycode { code, pressed: true }]
                } else {
                    seq![
                        KeyInjection::Keycode { code: KEY_LEFTSHIFT, pressed: true },
                        KeyInjection::Keycode { code, pressed: true },
                    ]
                })
            };
        let (b, t) = choose|code: i32, needs_shift: bool|
            {
                &&& #[trigger] key_types(cp, code as int, needs_shift)
                &&& released == (if !needs_shift {
                    seq![KeyInjection::Keycode { code, pressed: false }]
                } else {
                    seq![
                        KeyInjection::Keycode { code, pressed: false },
                        KeyInjection::Keycode { code: KEY_LEFTSHIFT, pressed: false },
                    ]
                })
            };
        if key_types(cp, code as int, true) {
            lemma_key_is_unique(cp, a as int, s, code as int, true);
            lemma_key_is_unique(cp, b as int, t, code as int, true);
        }
        if key_types(cp, code as int, false) {
            lemma_key_is_unique(cp, a as int, s, code as int, false);
            lemma_key_is_unique(cp, b as int, t, code as int, false);
        }
    }
}

/// A character that no key types is injected by its keysym: that of a Latin-1 character is its
/// own number, that of any other is its number beyond the Unicode offset. Control characters
/// and halves of surrogate pairs inject nothing.
pub proof fn other_characters_are_typed_by_keysym(cp: u16, pressed: bool, keys: Seq<KeyInjection>)
    requires
        character_keys(cp, pressed, keys),
        cp > 0x7E || cp < 0x20 && cp != 0x09 && cp != 0x0A && cp != 0x0D,
    ensures
        0xA0 <= cp <= 0xFF ==> keys == seq![KeyInjection::Keysym { sym: cp as i32, pressed }],
        0x100 <= cp < 0xD800 || cp >= 0xE000 ==> keys.len() == 1 && (
        keys[0] matches KeyInjection::Keysym { sym, pressed: p } && sym == 0x0100_0000 + cp && p
            == pressed),
        cp < 0xA0 ==> keys.len() == 0,
        0xD800 <= cp <= 0xDFFF ==> keys.len() == 0,
{
}

/// The first failure in a row is logged, then only those that make their number a power of two.
/// The first success after more than one is logged with their number, and starts the count
/// again.
pub proof fn failures_are_logged_when_they_double(run: FailureRun)
    requires
        run.count < u64::MAX,
    ensures
        run.count == 0 ==> run.notice(false) == InjectionNotice::Failed,
        run.count > 0 && is_pow2(run.count + 1) ==> run.notice(false)
            == InjectionNotice::StillFailing((run.count + 1) as u64),
        run.count > 0 && !is_pow2(run.count + 1) ==> run.notice(false) == InjectionNotice::Silent,
        run.count > 1 ==> run.notice(true) == InjectionNotice::Recovered(run.count),
        run.count <= 1 ==> run.notice(true) == InjectionNotice::Silent,
        run.after(true).count == 0,
        run.after(false).count == run.count + 1,
{
}

/// No event is lost or comes twice: all keys come first in the order in which they were
/// pressed, then all movements in theirs.
pub proof fn events_keep_their_order(
    keys: Seq<KeyboardEvent>,
    moves: Seq<MouseEvent>,
    i: int,
    j: int,
)
    ensures
        flushed(keys, moves).len() == keys.len() + moves.len(),
        0 <= i < keys.len() ==> flushed(keys, moves)[i] == InputEvent::Keyboard(keys[i]),
        0 <= j < moves.len() ==> flushed(keys, moves)[keys.len() + j] == InputEvent::Mouse(
            moves[j],
        ),
{
}

/// The pointer moves to where the translator says, x first. Any other answer is an error: the
/// translator's own, or that it answered with something else.
pub proof fn translated_moves_are_made(
    answer: Result<TranslatedMove, InputError>,
    r: Result<(Float64, Float64), InputError>,
)
    requires
        leads_to(answer, r),
    ensures
        r is Ok <==> answer is Ok && answer->Ok_0 is Move,
        r is Ok ==> (r->Ok_0).0 == answer->Ok_0->x && (r->Ok_0).1 == answer->Ok_0->y,
        answer is Err ==> r is Err && r->Err_0 == answer->Err_0,
        answer is Ok && answer->Ok_0 is Other ==> r is Err && r->Err_0 is InvalidMouseEvent
            && (r->Err_0->InvalidMouseEvent_0)@ == "Unexpected event type"@,
{
}

/// An event that comes in is the last of its kind to go out, and none of the others is lost
/// or moved.
pub proof fn received_events_wait_for_their_turn(
    before: LamcoInputHandler,
    event: InputEvent,
    after: LamcoInputHandler,
)
    requires
        before.takes_in(event, after),
    ensures
        event is Keyboard ==> {
            &&& after.mouse_batch@ == before.mouse_batch@
            &&& after.keyboard_batch@.len() == before.keyboard_batch@.len() + 1
            &&& after.keyboard_batch@.last() == event->Keyboard_0
            &&& after.keyboard_batch@.drop_last() == before.keyboard_batch@
        },
        event is Mouse ==> {
            &&& after.keyboard_batch@ == before.keyboard_batch@
            &&& after.mouse_batch@.len() == before.mouse_batch@.len() + 1
            &&& after.mouse_batch@.last() == event->Mouse_0
            &&& after.mouse_batch@.drop_last() == before.mouse_batch@
        },
        after.last_flush_ms == before.last_flush_ms,
{
    if event is Keyboard {
        assert(after.keyboard_batch@.drop_last() =~= before.keyboard_batch@);
    } else {
        assert(after.mouse_batch@.drop_last() =~= before.mouse_batch@);
    }
}

/// A character that is pressed presses keys and releases none; one that is released releases
/// keys and presses none. Both are injected as they are, without the translator, and every
/// character of the keyboard has a key.
pub proof fn characters_are_pressed_and_released(cp: u16, r: KeyboardStep, i: int)
    ensures
        asks(KeyboardEvent::UnicodePressed(cp), r) ==> {
            &&& r is Inject
            &&& 0 <= i < r->Inject_0@.len() ==> match r->Inject_0@[i] {
                KeyInjection::Keycode { pressed, .. } => pressed,
                KeyInjection::Keysym { pressed, .. } => pressed,
            }
            &&& 0x20 <= cp <= 0x7e ==> r->Inject_0@.len() > 0 && r->Inject_0@.last() is Keycode
        },
        asks(KeyboardEvent::UnicodeReleased(cp), r) ==> {
            &&& r is Inject
            &&& 0 <= i < r->Inject_0@.len() ==> match r->Inject_0@[i] {
                KeyInjection::Keycode { pressed, .. } => !pressed,
                KeyInjection::Keysym { pressed, .. } => !pressed,
            }
            &&& 0x20 <= cp <= 0x7e ==> r->Inject_0@.len() > 0 && r->Inject_0@[0] is Keycode
        },
{
}

} // verus!
