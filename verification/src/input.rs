//! Keyboard and mouse input: key codes and the decoding of the native
//! layer's NUL-terminated event buffers.

use vstd::prelude::*;

verus! {

/// A key code object.
///
/// The native layer identifies each key by a small integer constant; a
/// `KeyCode` carries one such constant by value.
#[derive(Debug, Copy, Clone, Eq, Hash, PartialEq, Structural)]
pub struct KeyCode {
    code: u32,
}

impl KeyCode {
    /// The native key constant this code carries.
    pub closed spec fn spec_code(self) -> u32 {
        self.code
    }

    /// Wraps a native key constant.
    pub fn from_code(code: u32) -> (k: KeyCode)
        ensures
            k.spec_code() == code,
    {
        KeyCode { code }
    }

    /// The native integer constant for this key.
    pub fn code(self) -> (c: u32)
        ensures
            c == self.spec_code(),
    {
        self.code
    }
}

impl From<KeyCode> for u32 {
    fn from(key: KeyCode) -> (c: u32)
        ensures
            c == key.spec_code(),
    {
        key.code
    }
}

impl vstd::std_specs::convert::FromSpecImpl<KeyCode> for u32 {
    open spec fn obeys_from_spec() -> bool {
        true
    }

    open spec fn from_spec(key: KeyCode) -> u32 {
        key.spec_code()
    }
}

// The native key constants, numbered as the runtime declares them: in
// declaration order from zero, except that the East Asian input-method
// keys share constants in pairs (Hangul with Kana, Kanji with Hanja),
// as they do natively. Wrap one with `KeyCode::from_code` to query it.
pub const KEY_INVALID: u32 = 0;
pub const KEY_LBUTTON: u32 = 1;
pub const KEY_RBUTTON: u32 = 2;
pub const KEY_CANCEL: u32 = 3;
pub const KEY_MBUTTON: u32 = 4;
pub const KEY_XBUTTON1: u32 = 5;
pub const KEY_XBUTTON2: u32 = 6;
pub const KEY_BACK: u32 = 7;
pub const KEY_TAB: u32 = 8;
pub const KEY_CLEAR: u32 = 9;
pub const KEY_RETURN: u32 = 10;
pub const KEY_SHIFT: u32 = 11;
pub const KEY_CONTROL: u32 = 12;
pub const KEY_MENU: u32 = 13;
pub const KEY_PAUSE: u32 = 14;
pub const KEY_CAPITAL: u32 = 15;
pub const KEY_KANA: u32 = 16;
pub const KEY_HANGUL: u32 = 16;
pub const KEY_JUNJA: u32 = 17;
pub const KEY_FINAL: u32 = 18;
pub const KEY_HANJA: u32 = 19;
pub const KEY_KANJI: u32 = 19;
pub const KEY_ESCAPE: u32 = 20;
pub const KEY_CONVERT: u32 = 21;
pub const KEY_NONCONVERT: u32 = 22;
pub const KEY_ACCEPT: u32 = 23;
pub const KEY_MODECHANGE: u32 = 24;
pub const KEY_SPACE: u32 = 25;
pub const KEY_PRIOR: u32 = 26;
pub const KEY_NEXT: u32 = 27;
pub const KEY_END: u32 = 28;
pub const KEY_HOME: u32 = 29;
pub const KEY_LEFT: u32 = 30;
pub const KEY_UP: u32 = 31;
pub const KEY_RIGHT: u32 = 32;
pub const KEY_DOWN: u32 = 33;
pub const KEY_SELECT: u32 = 34;
pub const KEY_PRINT: u32 = 35;
pub const KEY_EXEC: u32 = 36;
pub const KEY_SNAPSHOT: u32 = 37;
pub const KEY_INSERT: u32 = 38;
pub const KEY_DELETE: u32 = 39;
pub const KEY_HELP: u32 = 40;
pub const KEY_0: u32 = 41;
pub const KEY_1: u32 = 42;
pub const KEY_2: u32 = 43;
pub const KEY_3: u32 = 44;
pub const KEY_4: u32 = 45;
pub const KEY_5: u32 = 46;
pub const KEY_6: u32 = 47;
pub const KEY_7: u32 = 48;
pub const KEY_8: u32 = 49;
pub const KEY_9: u32 = 50;
pub const KEY_A: u32 = 51;
pub const KEY_B: u32 = 52;
pub const KEY_C: u32 = 53;
pub const KEY_D: u32 = 54;
pub const KEY_E: u32 = 55;
pub const KEY_F: u32 = 56;
pub const KEY_G: u32 = 57;
pub const KEY_H: u32 = 58;
pub const KEY_I: u32 = 59;
pub const KEY_J: u32 = 60;
pub const KEY_K: u32 = 61;
pub const KEY_L: u32 = 62;
pub const KEY_M: u32 = 63;
pub const KEY_N: u32 = 64;
pub const KEY_O: u32 = 65;
pub const KEY_P: u32 = 66;
pub const KEY_Q: u32 = 67;
pub const KEY_R: u32 = 68;
pub const KEY_S: u32 = 69;
pub const KEY_T: u32 = 70;
pub const KEY_U: u32 = 71;
pub const KEY_V: u32 = 72;
pub const KEY_W: u32 = 73;
pub const KEY_X: u32 = 74;
pub const KEY_Y: u32 = 75;
pub const KEY_Z: u32 = 76;
pub const KEY_LWIN: u32 = 77;
pub const KEY_RWIN: u32 = 78;
pub const KEY_APPS: u32 = 79;
pub const KEY_SLEEP: u32 = 80;
pub const KEY_NUMPAD0: u32 = 81;
pub const KEY_NUMPAD1: u32 = 82;
pub const KEY_NUMPAD2: u32 = 83;
pub const KEY_NUMPAD3: u32 = 84;
pub const KEY_NUMPAD4: u32 = 85;
pub const KEY_NUMPAD5: u32 = 86;
pub const KEY_NUMPAD6: u32 = 87;
pub const KEY_NUMPAD7: u32 = 88;
pub const KEY_NUMPAD8: u32 = 89;
pub const KEY_NUMPAD9: u32 = 90;
pub const KEY_MULTIPLY: u32 = 91;
pub const KEY_ADD: u32 = 92;
pub const KEY_SEPARATOR: u32 = 93;
pub const KEY_SUBTRACT: u32 = 94;
pub const KEY_DECIMAL: u32 = 95;
pub const KEY_DIVIDE: u32 = 96;
pub const KEY_F1: u32 = 97;
pub const KEY_F2: u32 = 98;
pub const KEY_F3: u32 = 99;
pub const KEY_F4: u32 = 100;
pub const KEY_F5: u32 = 101;
pub const KEY_F6: u32 = 102;
pub const KEY_F7: u32 = 103;
pub const KEY_F8: u32 = 104;
pub const KEY_F9: u32 = 105;
pub const KEY_F10: u32 = 106;
pub const KEY_F11: u32 = 107;
pub const KEY_F12: u32 = 108;
pub const KEY_F13: u32 = 109;
pub const KEY_F14: u32 = 110;
pub const KEY_F15: u32 = 111;
pub const KEY_F16: u32 = 112;
pub const KEY_F17: u32 = 113;
pub const KEY_F18: u32 = 114;
pub const KEY_F19: u32 = 115;
pub const KEY_F20: u32 = 116;
pub const KEY_F21: u32 = 117;
pub const KEY_F22: u32 = 118;
pub const KEY_F23: u32 = 119;
pub const KEY_F24: u32 = 120;
pub const KEY_NUMLOCK: u32 = 121;
pub const KEY_SCROLL: u32 = 122;
pub const KEY_LSHIFT: u32 = 123;
pub const KEY_RSHIFT: u32 = 124;
pub const KEY_LCONTROL: u32 = 125;
pub const KEY_RCONTROL: u32 = 126;
pub const KEY_LMENU: u32 = 127;
pub const KEY_RMENU: u32 = 128;
pub const KEY_BROWSER_BACK: u32 = 129;
pub const KEY_BROWSER_FORWARD: u32 = 130;
pub const KEY_BROWSER_REFRESH: u32 = 131;
pub const KEY_BROWSER_STOP: u32 = 132;
pub const KEY_BROWSER_SEARCH: u32 = 133;
pub const KEY_BROWSER_FAVORITES: u32 = 134;
pub const KEY_BROWSER_HOME: u32 = 135;
pub const KEY_VOLUME_MUTE: u32 = 136;
pub const KEY_VOLUME_DOWN: u32 = 137;
pub const KEY_VOLUME_UP: u32 = 138;
pub const KEY_MEDIA_NEXT_TRACK: u32 = 139;
pub const KEY_MEDIA_PREV_TRACK: u32 = 140;
pub const KEY_MEDIA_STOP: u32 = 141;
pub const KEY_MEDIA_PLAY_PAUSE: u32 = 142;
pub const KEY_LAUNCH_MAIL: u32 = 143;
pub const KEY_LAUNCH_MEDIA_SELECT: u32 = 144;
pub const KEY_LAUNCH_APP1: u32 = 145;
pub const KEY_LAUNCH_APP2: u32 = 146;
pub const KEY_OEM_1: u32 = 147;
pub const KEY_OEM_PLUS: u32 = 148;
pub const KEY_OEM_COMMA: u32 = 149;
pub const KEY_OEM_MINUS: u32 = 150;
pub const KEY_OEM_PERIOD: u32 = 151;
pub const KEY_OEM_2: u32 = 152;
pub const KEY_OEM_3: u32 = 153;
pub const KEY_OEM_4: u32 = 154;
pub const KEY_OEM_5: u32 = 155;
pub const KEY_OEM_6: u32 = 156;
pub const KEY_OEM_7: u32 = 157;
pub const KEY_OEM_8: u32 = 158;
pub const KEY_OEM_102: u32 = 159;
pub const KEY_PROCESSKEY: u32 = 160;
pub const KEY_ATTN: u32 = 161;
pub const KEY_CRSEL: u32 = 162;
pub const KEY_EXSEL: u32 = 163;
pub const KEY_EREOF: u32 = 164;
pub const KEY_PLAY: u32 = 165;
pub const KEY_ZOOM: u32 = 166;
pub const KEY_NONAME: u32 = 167;
pub const KEY_PA1: u32 = 168;
pub const KEY_OEM_CLEAR: u32 = 169;
pub const KEYCOUNT: u32 = 170;

/// Copies the key press events out of a snapshot of the native event
/// buffer, which ends at its first zero entry.
///
/// The result holds exactly the entries before the first zero: nothing
/// is dropped, reordered or invented, and where no zero occurs the whole
/// snapshot is taken.
pub fn collect_keys(raw: &[u32]) -> (keys: Vec<KeyCode>)
    ensures
        keys@.len() <= raw@.len(),
        forall|i: int|
            0 <= i < keys@.len() ==> keys@[i].spec_code() == raw@[i] && raw@[i] != 0,
        keys@.len() < raw@.len() ==> raw@[keys@.len() as int] == 0,
{
    let mut keys: Vec<KeyCode> = Vec::new();
    let n = raw.len();
    let mut i: usize = 0;
    while i < n
        invariant
            n == raw@.len(),
            i <= n,
            keys@.len() == i,
            forall|j: int| 0 <= j < i ==> keys@[j].spec_code() == raw@[j] && raw@[j] != 0,
        decreases n - i,
    {
        let c = raw[i];
        if c == 0 {
            return keys;
        }
        keys.push(KeyCode { code: c });
        i += 1;
    }
    keys
}

/// Copies the character input events out of a snapshot of the native
/// character buffer, which ends at its first zero byte.
///
/// The result holds exactly the bytes before the first zero, in order.
pub fn collect_chars(raw: &[u8]) -> (chars: Vec<u8>)
    ensures
        chars@.len() <= raw@.len(),
        forall|i: int| 0 <= i < chars@.len() ==> chars@[i] == raw@[i] && raw@[i] != 0,
        chars@.len() < raw@.len() ==> raw@[chars@.len() as int] == 0,
{
    let mut chars: Vec<u8> = Vec::new();
    let n = raw.len();
    let mut i: usize = 0;
    while i < n
        invariant
            n == raw@.len(),
            i <= n,
            chars@.len() == i,
            forall|j: int| 0 <= j < i ==> chars@[j] == raw@[j] && raw@[j] != 0,
        decreases n - i,
    {
        let c = raw[i];
        if c == 0 {
            return chars;
        }
        chars.push(c);
        i += 1;
    }
    chars
}

} // verus!
