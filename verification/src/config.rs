use vstd::prelude::*;
use crate::joypad::Button;

verus! {

/// The keyboard keys a configuration can name.
#[derive(Debug, Clone, Copy, PartialEq, Eq, Structural)]
pub enum KeyCode {
    KeyA,
    KeyB,
    KeyC,
    KeyD,
    KeyE,
    KeyF,
    KeyG,
    KeyH,
    KeyI,
    KeyJ,
    KeyK,
    KeyL,
    KeyM,
    KeyN,
    KeyO,
    KeyP,
    KeyQ,
    KeyR,
    KeyS,
    KeyT,
    KeyU,
    KeyV,
    KeyW,
    KeyX,
    KeyY,
    KeyZ,
    Digit1,
    Digit2,
    Digit3,
    Digit4,
    Digit5,
    Digit6,
    Digit7,
    Digit8,
    Digit9,
    Digit0,
    ArrowUp,
    ArrowDown,
    ArrowLeft,
    ArrowRight,
    Enter,
    Space,
    Escape,
    ShiftLeft,
    ShiftRight,
    Tab,
    Numpad0,
    Numpad1,
    Numpad2,
    Numpad3,
    Numpad4,
    Numpad5,
    Numpad6,
    Numpad7,
    Numpad8,
    Numpad9,
}

/// Whether two strings hold the same characters.
fn str_eq(a: &str, b: &str) -> (r: bool)
    ensures
        r == (a@ == b@),
{
    let n = a.unicode_len();
    if n != b.unicode_len() {
        return false;
    }
    let mut i: usize = 0;
    while i < n
        invariant
            n == a@.len(),
            n == b@.len(),
            i <= n,
            forall|j: int| 0 <= j < i ==> a@[j] == b@[j],
        decreases n - i,
    {
        if a.get_char(i) != b.get_char(i) {
            return false;
        }
        i = i + 1;
    }
    assert(a@ =~= b@);
    true
}

/// The key a configuration name stands for: letters "A"-"Z", digits "0"-"9", "Up",
/// "Down", "Left", "Right", "Enter", "Space", "Escape", "LShift", "RShift", "Tab" and
/// "Numpad0"-"Numpad9".
pub open spec fn key_for_name(n: Seq<char>) -> Option<KeyCode> {
    if n == "A"@ {
        Some(KeyCode::KeyA)
    } else if n == "B"@ {
        Some(KeyCode::KeyB)
    } else if n == "C"@ {
        Some(KeyCode::KeyC)
    } else if n == "D"@ {
        Some(KeyCode::KeyD)
    } else if n == "E"@ {
        Some(KeyCode::KeyE)
    } else if n == "F"@ {
        Some(KeyCode::KeyF)
    } else if n == "G"@ {
        Some(KeyCode::KeyG)
    } else if n == "H"@ {
        Some(KeyCode::KeyH)
    } else if n == "I"@ {
        Some(KeyCode::KeyI)
    } else if n == "J"@ {
        Some(KeyCode::KeyJ)
    } else if n == "K"@ {
        Some(KeyCode::KeyK)
    } else if n == "L"@ {
        Some(KeyCode::KeyL)
    } else if n == "M"@ {
        Some(KeyCode::KeyM)
    } else if n == "N"@ {
        Some(KeyCode::KeyN)
    } else if n == "O"@ {
        Some(KeyCode::KeyO)
    } else if n == "P"@ {
        Some(KeyCode::KeyP)
    } else if n == "Q"@ {
        Some(KeyCode::KeyQ)
    } else if n == "R"@ {
        Some(KeyCode::KeyR)
    } else if n == "S"@ {
        Some(KeyCode::KeyS)
    } else if n == "T"@ {
        Some(KeyCode::KeyT)
    } else if n == "U"@ {
        Some(KeyCode::KeyU)
    } else if n == "V"@ {
        Some(KeyCode::KeyV)
    } else if n == "W"@ {
        Some(KeyCode::KeyW)
    } else if n == "X"@ {
        Some(KeyCode::KeyX)
    } else if n == "Y"@ {
        Some(KeyCode::KeyY)
    } else if n == "Z"@ {
        Some(KeyCode::KeyZ)
    } else if n == "1"@ {
        Some(KeyCode::Digit1)
    } else if n == "2"@ {
        Some(KeyCode::Digit2)
    } else if n == "3"@ {
        Some(KeyCode::Digit3)
    } else if n == "4"@ {
        Some(KeyCode::Digit4)
    } else if n == "5"@ {
        Some(KeyCode::Digit5)
    } else if n == "6"@ {
        Some(KeyCode::Digit6)
    } else if n == "7"@ {
        Some(KeyCode::Digit7)
    } else if n == "8"@ {
        Some(KeyCode::Digit8)
    } else if n == "9"@ {
        Some(KeyCode::Digit9)
    } else if n == "0"@ {
        Some(KeyCode::Digit0)
    } else if n == "Up"@ {
        Some(KeyCode::ArrowUp)
    } else if n == "Down"@ {
        Some(KeyCode::ArrowDown)
    } else if n == "Left"@ {
        Some(KeyCode::ArrowLeft)
    } else if n == "Right"@ {
        Some(KeyCode::ArrowRight)
    } else if n == "Enter"@ {
        Some(KeyCode::Enter)
    } else if n == "Space"@ {
        Some(KeyCode::Space)
    } else if n == "Escape"@ {
        Some(KeyCode::Escape)
    } else if n == "LShift"@ {
        Some(KeyCode::ShiftLeft)
    } else if n == "RShift"@ {
        Some(KeyCode::ShiftRight)
    } else if n == "Tab"@ {
        Some(KeyCode::Tab)
    } else if n == "Numpad0"@ {
        Some(KeyCode::Numpad0)
    } else if n == "Numpad1"@ {
        Some(KeyCode::Numpad1)
    } else if n == "Numpad2"@ {
        Some(KeyCode::Numpad2)
    } else if n == "Numpad3"@ {
        Some(KeyCode::Numpad3)
    } else if n == "Numpad4"@ {
        Some(KeyCode::Numpad4)
    } else if n == "Numpad5"@ {
        Some(KeyCode::Numpad5)
    } else if n == "Numpad6"@ {
        Some(KeyCode::Numpad6)
    } else if n == "Numpad7"@ {
        Some(KeyCode::Numpad7)
    } else if n == "Numpad8"@ {
        Some(KeyCode::Numpad8)
    } else if n == "Numpad9"@ {
        Some(KeyCode::Numpad9)
    } else {
        None
    }
}

/// Looks up a key by its configuration name.
pub fn key_name_to_keycode(name: &str) -> (r: Option<KeyCode>)
    ensures
        r == key_for_name(name@),
{
    if str_eq(name, "A") {
        Some(KeyCode::KeyA)
    } else if str_eq(name, "B") {
        Some(KeyCode::KeyB)
    } else if str_eq(name, "C") {
        Some(KeyCode::KeyC)
    } else if str_eq(name, "D") {
        Some(KeyCode::KeyD)
    } else if str_eq(name, "E") {
        Some(KeyCode::KeyE)
    } else if str_eq(name, "F") {
        Some(KeyCode::KeyF)
    } else if str_eq(name, "G") {
        Some(KeyCode::KeyG)
    } else if str_eq(name, "H") {
        Some(KeyCode::KeyH)
    } else if str_eq(name, "I") {
        Some(KeyCode::KeyI)
    } else if str_eq(name, "J") {
        Some(KeyCode::KeyJ)
    } else if str_eq(name, "K") {
        Some(KeyCode::KeyK)
    } else if str_eq(name, "L") {
        Some(KeyCode::KeyL)
    } else if str_eq(name, "M") {
        Some(KeyCode::KeyM)
    } else if str_eq(name, "N") {
        Some(KeyCode::KeyN)
    } else if str_eq(name, "O") {
        Some(KeyCode::KeyO)
    } else if str_eq(name, "P") {
        Some(KeyCode::KeyP)
    } else if str_eq(name, "Q") {
        Some(KeyCode::KeyQ)
    } else if str_eq(name, "R") {
        Some(KeyCode::KeyR)
    } else if str_eq(name, "S") {
        Some(KeyCode::KeyS)
    } else if str_eq(name, "T") {
        Some(KeyCode::KeyT)
    } else if str_eq(name, "U") {
        Some(KeyCode::KeyU)
    } else if str_eq(name, "V") {
        Some(KeyCode::KeyV)
    } else if str_eq(name, "W") {
        Some(KeyCode::KeyW)
    } else if str_eq(name, "X") {
        Some(KeyCode::KeyX)
    } else if str_eq(name, "Y") {
        Some(KeyCode::KeyY)
    } else if str_eq(name, "Z") {
        Some(KeyCode::KeyZ)
    } else if str_eq(name, "1") {
        Some(KeyCode::Digit1)
    } else if str_eq(name, "2") {
        Some(KeyCode::Digit2)
    } else if str_eq(name, "3") {
        Some(KeyCode::Digit3)
    } else if str_eq(name, "4") {
        Some(KeyCode::Digit4)
    } else if str_eq(name, "5") {
        Some(KeyCode::Digit5)
    } else if str_eq(name, "6") {
        Some(KeyCode::Digit6)
    } else if str_eq(name, "7") {
        Some(KeyCode::Digit7)
    } else if str_eq(name, "8") {
        Some(KeyCode::Digit8)
    } else if str_eq(name, "9") {
        Some(KeyCode::Digit9)
    } else if str_eq(name, "0") {
        Some(KeyCode::Digit0)
    } else if str_eq(name, "Up") {
        Some(KeyCode::ArrowUp)
    } else if str_eq(name, "Down") {
        Some(KeyCode::ArrowDown)
    } else if str_eq(name, "Left") {
        Some(KeyCode::ArrowLeft)
    } else if str_eq(name, "Right") {
        Some(KeyCode::ArrowRight)
    } else if str_eq(name, "Enter") {
        Some(KeyCode::Enter)
    } else if str_eq(name, "Space") {
        Some(KeyCode::Space)
    } else if str_eq(name, "Escape") {
        Some(KeyCode::Escape)
    } else if str_eq(name, "LShift") {
        Some(KeyCode::ShiftLeft)
    } else if str_eq(name, "RShift") {
        Some(KeyCode::ShiftRight)
    } else if str_eq(name, "Tab") {
        Some(KeyCode::Tab)
    } else if str_eq(name, "Numpad0") {
        Some(KeyCode::Numpad0)
    } else if str_eq(name, "Numpad1") {
        Some(KeyCode::Numpad1)
    } else if str_eq(name, "Numpad2") {
        Some(KeyCode::Numpad2)
    } else if str_eq(name, "Numpad3") {
        Some(KeyCode::Numpad3)
    } else if str_eq(name, "Numpad4") {
        Some(KeyCode::Numpad4)
    } else if str_eq(name, "Numpad5") {
        Some(KeyCode::Numpad5)
    } else if str_eq(name, "Numpad6") {
        Some(KeyCode::Numpad6)
    } else if str_eq(name, "Numpad7") {
        Some(KeyCode::Numpad7)
    } else if str_eq(name, "Numpad8") {
        Some(KeyCode::Numpad8)
    } else if str_eq(name, "Numpad9") {
        Some(KeyCode::Numpad9)
    } else {
        None
    }
}

/// Whether `c` has the Unicode White_Space property (what `str::trim` strips).
pub open spec fn is_white_space(c: char) -> bool {
    let u = c as u32;
    ||| 0x09 <= u <= 0x0D
    ||| u == 0x20
    ||| u == 0x85
    ||| u == 0xA0
    ||| u == 0x1680
    ||| 0x2000 <= u <= 0x200A
    ||| u == 0x2028
    ||| u == 0x2029
    ||| u == 0x202F
    ||| u == 0x205F
    ||| u == 0x3000
}

/// `s` without its leading white space.
pub open spec fn trim_start(s: Seq<char>) -> Seq<char>
    decreases s.len(),
{
    if s.len() > 0 && is_white_space(s[0]) {
        trim_start(s.drop_first())
    } else {
        s
    }
}

/// `s` without its trailing white space.
pub open spec fn trim_end(s: Seq<char>) -> Seq<char>
    decreases s.len(),
{
    if s.len() > 0 && is_white_space(s.last()) {
        trim_end(s.drop_last())
    } else {
        s
    }
}

/// `s` without leading or trailing white space.
pub open spec fn trim(s: Seq<char>) -> Seq<char> {
    trim_end(trim_start(s))
}

/// Splitting `s` at each '+': the finished pieces and the piece still open.
pub open spec fn split_plus_state(s: Seq<char>) -> (Seq<Seq<char>>, Seq<char>)
    decreases s.len(),
{
    if s.len() == 0 {
        (Seq::empty(), Seq::empty())
    } else {
        let (done, cur) = split_plus_state(s.drop_last());
        if s.last() == '+' {
            (done.push(cur), Seq::empty())
        } else {
            (done, cur.push(s.last()))
        }
    }
}

/// The pieces of `s` between its '+' signs, in order (one more piece than there are signs).
pub open spec fn split_plus(s: Seq<char>) -> Seq<Seq<char>> {
    split_plus_state(s).0.push(split_plus_state(s).1)
}

/// A key together with the modifiers that must be held with it.
#[derive(Debug, Clone, Copy, PartialEq, Eq, Structural)]
pub struct Hotkey {
    pub key: KeyCode,
    pub ctrl: bool,
    pub super_key: bool,
    pub shift: bool,
    pub alt: bool,
}

/// The modifier keys held at the moment of a key press.
#[derive(Debug, Clone, Copy, PartialEq, Eq, Structural)]
pub struct Modifiers {
    pub control: bool,
    pub super_key: bool,
    pub shift: bool,
    pub alt: bool,
}

/// What has been read of a hotkey so far: the modifiers seen and the last key name's key.
#[derive(Clone, Copy)]
pub struct HotkeyParts {
    pub ctrl: bool,
    pub super_key: bool,
    pub shift: bool,
    pub alt: bool,
    pub key: Option<KeyCode>,
}

/// Reading one (trimmed) piece of a hotkey: a modifier name sets its flag; anything
/// else replaces the key with the key it names, or with none.
pub open spec fn apply_part(st: HotkeyParts, t: Seq<char>) -> HotkeyParts {
    if t == "Ctrl"@ {
        HotkeyParts { ctrl: true, ..st }
    } else if t == "Super"@ || t == "Cmd"@ {
        HotkeyParts { super_key: true, ..st }
    } else if t == "Shift"@ {
        HotkeyParts { shift: true, ..st }
    } else if t == "Alt"@ || t == "Option"@ {
        HotkeyParts { alt: true, ..st }
    } else {
        HotkeyParts { key: key_for_name(t), ..st }
    }
}

/// Nothing read yet.
pub open spec fn no_parts() -> HotkeyParts {
    HotkeyParts { ctrl: false, super_key: false, shift: false, alt: false, key: None }
}

/// Reading the pieces in order, each trimmed.
pub open spec fn read_parts(parts: Seq<Seq<char>>) -> HotkeyParts
    decreases parts.len(),
{
    if parts.len() == 0 {
        no_parts()
    } else {
        apply_part(read_parts(parts.drop_last()), trim(parts.last()))
    }
}

/// The hotkey a text such as "Ctrl+Super+R" describes, if its pieces end with a key.
pub open spec fn parse_hotkey(s: Seq<char>) -> Option<Hotkey> {
    let st = read_parts(split_plus(s));
    match st.key {
        Some(k) => Some(
            Hotkey { key: k, ctrl: st.ctrl, super_key: st.super_key, shift: st.shift, alt: st.alt },
        ),
        None => None,
    }
}

fn white_space(c: char) -> (r: bool)
    ensures
        r == is_white_space(c),
{
    let u = c as u32;
    (0x09 <= u && u <= 0x0D) || u == 0x20 || u == 0x85 || u == 0xA0 || u == 0x1680 || (0x2000
        <= u && u <= 0x200A) || u == 0x2028 || u == 0x2029 || u == 0x202F || u == 0x205F || u
        == 0x3000
}

proof fn lemma_trim_start_step(s: Seq<char>, lo: int, hi: int)
    requires
        0 <= lo < hi <= s.len(),
        is_white_space(s[lo]),
    ensures
        trim_start(s.subrange(lo, hi)) == trim_start(s.subrange(lo + 1, hi)),
{
    assert(s.subrange(lo, hi).drop_first() =~= s.subrange(lo + 1, hi));
}

proof fn lemma_trim_end_step(s: Seq<char>, lo: int, hi: int)
    requires
        0 <= lo < hi <= s.len(),
        is_white_space(s[hi - 1]),
    ensures
        trim_end(s.subrange(lo, hi)) == trim_end(s.subrange(lo, hi - 1)),
{
    assert(s.subrange(lo, hi).drop_last() =~= s.subrange(lo, hi - 1));
}

/// The bounds of `s[from..to]` with white space trimmed from both ends.
fn trim_bounds(s: &str, from: usize, to: usize) -> (r: (usize, usize))
    requires
        from <= to <= s@.len(),
    ensures
        from <= r.0 <= r.1 <= to,
        s@.subrange(r.0 as int, r.1 as int) == trim(s@.subrange(from as int, to as int)),
{
    let mut lo = from;
    while lo < to && white_space(s.get_char(lo))
        invariant
            from <= lo <= to <= s@.len(),
            trim_start(s@.subrange(from as int, to as int)) == trim_start(
                s@.subrange(lo as int, to as int),
            ),
        decreases to - lo,
    {
        proof {
            lemma_trim_start_step(s@, lo as int, to as int);
        }
        lo = lo + 1;
    }
    assert(trim_start(s@.subrange(lo as int, to as int)) == s@.subrange(lo as int, to as int));
    let mut hi = to;
    while hi > lo && white_space(s.get_char(hi - 1))
        invariant
            from <= lo <= hi <= to <= s@.len(),
            trim_end(s@.subrange(lo as int, to as int)) == trim_end(
                s@.subrange(lo as int, hi as int),
            ),
        decreases hi - lo,
    {
        proof {
            lemma_trim_end_step(s@, lo as int, hi as int);
        }
        hi = hi - 1;
    }
    assert(trim_end(s@.subrange(lo as int, hi as int)) == s@.subrange(lo as int, hi as int));
    (lo, hi)
}

/// Reads the piece `s[from..to]` of a hotkey text.
fn read_part(s: &str, from: usize, to: usize, st: HotkeyParts) -> (r: HotkeyParts)
    requires
        from <= to <= s@.len(),
    ensures
        r == apply_part(st, trim(s@.subrange(from as int, to as int))),
{
    let (lo, hi) = trim_bounds(s, from, to);
    let t = s.substring_char(lo, hi);
    if str_eq(t, "Ctrl") {
        HotkeyParts { ctrl: true, ..st }
    } else if str_eq(t, "Super") || str_eq(t, "Cmd") {
        HotkeyParts { super_key: true, ..st }
    } else if str_eq(t, "Shift") {
        HotkeyParts { shift: true, ..st }
    } else if str_eq(t, "Alt") || str_eq(t, "Option") {
        HotkeyParts { alt: true, ..st }
    } else {
        HotkeyParts { key: key_name_to_keycode(t), ..st }
    }
}

impl Hotkey {
    /// Reads a hotkey such as "Ctrl+Super+R": pieces between '+' signs, trimmed, are
    /// modifier names ("Ctrl", "Super" or "Cmd", "Shift", "Alt" or "Option") or a key
    /// name; the last other piece decides the key, and without a key there is no hotkey.
    pub fn parse(s: &str) -> (r: Option<Hotkey>)
        ensures
            r == parse_hotkey(s@),
    {
        let n = s.unicode_len();
        let mut st = HotkeyParts { ctrl: false, super_key: false, shift: false, alt: false, key: None };
        let mut start: usize = 0;
        let mut i: usize = 0;
        let ghost mut done: Seq<Seq<char>> = Seq::empty();
        while i < n
            invariant
                n == s@.len(),
                start <= i <= n,
                split_plus_state(s@.take(i as int)) == (done, s@.subrange(start as int, i as int)),
                st == read_parts(done),
            decreases n - i,
        {
            let c = s.get_char(i);
            proof {
                assert(s@.take(i + 1).drop_last() =~= s@.take(i as int));
            }
            if c == '+' {
                st = read_part(s, start, i, st);
                proof {
                    assert(done.push(s@.subrange(start as int, i as int)).drop_last() =~= done);
                    done = done.push(s@.subrange(start as int, i as int));
                    assert(s@.subrange(i + 1, i + 1) =~= Seq::<char>::empty());
                }
                start = i + 1;
            } else {
                proof {
                    assert(s@.subrange(start as int, i as int).push(c) =~= s@.subrange(
                        start as int,
                        i + 1,
                    ));
                }
            }
            i = i + 1;
        }
        st = read_part(s, start, n, st);
        proof {
            assert(s@.take(n as int) =~= s@);
            let parts = done.push(s@.subrange(start as int, n as int));
            assert(parts.drop_last() =~= done);
        }
        match st.key {
            Some(k) => Some(
                Hotkey { key: k, ctrl: st.ctrl, super_key: st.super_key, shift: st.shift, alt: st.alt },
            ),
            None => None,
        }
    }

    /// Whether a key press with these modifiers is this hotkey: the key and every
    /// modifier must agree.
    pub fn matches(&self, key_code: KeyCode, modifiers: &Modifiers) -> (r: bool)
        ensures
            r == (self.key == key_code && self.ctrl == modifiers.control && self.super_key
                == modifiers.super_key && self.shift == modifiers.shift && self.alt
                == modifiers.alt),
    {
        self.key == key_code && self.ctrl == modifiers.control && self.super_key
            == modifiers.super_key && self.shift == modifiers.shift && self.alt == modifiers.alt
    }
}

/// The hotkeys as written in the configuration.
#[derive(Clone)]
pub struct HotkeyConfig {
    pub scale_1: String,
    pub scale_2: String,
    pub scale_3: String,
    pub reset: String,
}

impl Default for HotkeyConfig {
    fn default() -> (r: Self)
        ensures
            r.scale_1@ == "Super+1"@,
            r.scale_2@ == "Super+2"@,
            r.scale_3@ == "Super+3"@,
            r.reset@ == "Ctrl+Super+R"@,
    {
        HotkeyConfig {
            scale_1: "Super+1".to_owned(),
            scale_2: "Super+2".to_owned(),
            scale_3: "Super+3".to_owned(),
            reset: "Ctrl+Super+R".to_owned(),
        }
    }
}

/// The hotkeys read from their configuration; one that does not name a key is absent.
pub struct HotkeyMap {
    pub scale_1: Option<Hotkey>,
    pub scale_2: Option<Hotkey>,
    pub scale_3: Option<Hotkey>,
    pub reset: Option<Hotkey>,
}

impl HotkeyMap {
    /// Reads each configured hotkey.
    pub fn from_config(config: &HotkeyConfig) -> (r: Self)
        ensures
            r.scale_1 == parse_hotkey(config.scale_1@),
            r.scale_2 == parse_hotkey(config.scale_2@),
            r.scale_3 == parse_hotkey(config.scale_3@),
            r.reset == parse_hotkey(config.reset@),
    {
        HotkeyMap {
            scale_1: Hotkey::parse(config.scale_1.as_str()),
            scale_2: Hotkey::parse(config.scale_2.as_str()),
            scale_3: Hotkey::parse(config.scale_3.as_str()),
            reset: Hotkey::parse(config.reset.as_str()),
        }
    }
}

/// The whole configuration.
pub struct Config {
    pub display: DisplayConfig,
    pub rom: RomConfig,
    pub input: InputConfig,
    pub hotkeys: HotkeyConfig,
}

/// Window settings: the scale of the picture and the shader's name.
pub struct DisplayConfig {
    pub scale: u32,
    pub shader: String,
}

/// Where the ROM files are.
pub struct RomConfig {
    pub path: String,
}

/// The key names bound to each player's buttons.
pub struct InputConfig {
    pub player1: PlayerInput,
    pub player2: PlayerInput,
}

/// One player's key names, one per button.
#[derive(Clone)]
pub struct PlayerInput {
    pub up: String,
    pub down: String,
    pub left: String,
    pub right: String,
    pub a: String,
    pub b: String,
    pub select: String,
    pub start: String,
}

/// Player 1's default keys: E, D, S, F for the pad, K for A, J for B, G for Select, H for Start.
pub open spec fn is_default_p1(p: PlayerInput) -> bool {
    &&& p.up@ == "E"@
    &&& p.down@ == "D"@
    &&& p.left@ == "S"@
    &&& p.right@ == "F"@
    &&& p.a@ == "K"@
    &&& p.b@ == "J"@
    &&& p.select@ == "G"@
    &&& p.start@ == "H"@
}

/// Player 2's default keys: the arrows for the pad, Numpad2 for A, Numpad1 for B,
/// Numpad5 for Select, Numpad6 for Start.
pub open spec fn is_default_p2(p: PlayerInput) -> bool {
    &&& p.up@ == "Up"@
    &&& p.down@ == "Down"@
    &&& p.left@ == "Left"@
    &&& p.right@ == "Right"@
    &&& p.a@ == "Numpad2"@
    &&& p.b@ == "Numpad1"@
    &&& p.select@ == "Numpad5"@
    &&& p.start@ == "Numpad6"@
}

impl PlayerInput {
    /// Player 1's default keys.
    pub fn default_p1() -> (r: Self)
        ensures
            is_default_p1(r),
    {
        PlayerInput {
            up: "E".to_owned(),
            down: "D".to_owned(),
            left: "S".to_owned(),
            right: "F".to_owned(),
            a: "K".to_owned(),
            b: "J".to_owned(),
            select: "G".to_owned(),
            start: "H".to_owned(),
        }
    }

    /// Player 2's default keys.
    pub fn default_p2() -> (r: Self)
        ensures
            is_default_p2(r),
    {
        PlayerInput {
            up: "Up".to_owned(),
            down: "Down".to_owned(),
            left: "Left".to_owned(),
            right: "Right".to_owned(),
            a: "Numpad2".to_owned(),
            b: "Numpad1".to_owned(),
            select: "Numpad5".to_owned(),
            start: "Numpad6".to_owned(),
        }
    }
}

impl Default for PlayerInput {
    fn default() -> (r: Self)
        ensures
            is_default_p1(r),
    {
        PlayerInput::default_p1()
    }
}

impl Default for DisplayConfig {
    fn default() -> (r: Self)
        ensures
            r.scale == 3,
            r.shader@ == "none"@,
    {
        DisplayConfig { scale: 3, shader: "none".to_owned() }
    }
}

impl Default for RomConfig {
    fn default() -> (r: Self)
        ensures
            r.path@ == "./roms"@,
    {
        RomConfig { path: "./roms".to_owned() }
    }
}

impl Default for InputConfig {
    fn default() -> (r: Self)
        ensures
            is_default_p1(r.player1),
            is_default_p2(r.player2),
    {
        InputConfig { player1: PlayerInput::default_p1(), player2: PlayerInput::default_p2() }
    }
}

impl Default for Config {
    fn default() -> (r: Self)
        ensures
            r.display.scale == 3,
            r.display.shader@ == "none"@,
            r.rom.path@ == "./roms"@,
            is_default_p1(r.input.player1),
            is_default_p2(r.input.player2),
            r.hotkeys.scale_1@ == "Super+1"@,
            r.hotkeys.scale_2@ == "Super+2"@,
            r.hotkeys.scale_3@ == "Super+3"@,
            r.hotkeys.reset@ == "Ctrl+Super+R"@,
    {
        Config {
            display: DisplayConfig::default(),
            rom: RomConfig::default(),
            input: InputConfig::default(),
            hotkeys: HotkeyConfig::default(),
        }
    }
}

/// A player's key names with their buttons, in the order up, down, left, right, A, B,
/// Select, Start.
pub open spec fn player_names(p: PlayerInput) -> Seq<(Seq<char>, Button)> {
    seq![
        (p.up@, Button::Up),
        (p.down@, Button::Down),
        (p.left@, Button::Left),
        (p.right@, Button::Right),
        (p.a@, Button::A),
        (p.b@, Button::B),
        (p.select@, Button::Select),
        (p.start@, Button::Start),
    ]
}

/// The bindings of a player's names, in order, skipping names that are no key.
pub open spec fn bindings(names: Seq<(Seq<char>, Button)>, player: u8) -> Seq<(KeyCode, Button, u8)>
    decreases names.len(),
{
    if names.len() == 0 {
        Seq::empty()
    } else {
        let prev = bindings(names.drop_last(), player);
        match key_for_name(names.last().0) {
            Some(k) => prev.push((k, names.last().1, player)),
            None => prev,
        }
    }
}

/// All bindings: player 1's, then player 2's.
pub open spec fn key_bindings(config: InputConfig) -> Seq<(KeyCode, Button, u8)> {
    bindings(player_names(config.player1), 1) + bindings(player_names(config.player2), 2)
}

/// Which key presses which button of which player (1 or 2).
pub struct KeyMap {
    pub mappings: Vec<(KeyCode, Button, u8)>,
}

fn player_name(p: &PlayerInput, i: usize) -> (r: (&String, Button))
    requires
        i < 8,
    ensures
        (r.0@, r.1) == player_names(*p)[i as int],
{
    match i {
        0 => (&p.up, Button::Up),
        1 => (&p.down, Button::Down),
        2 => (&p.left, Button::Left),
        3 => (&p.right, Button::Right),
        4 => (&p.a, Button::A),
        5 => (&p.b, Button::B),
        6 => (&p.select, Button::Select),
        _ => (&p.start, Button::Start),
    }
}

fn push_bindings(mappings: &mut Vec<(KeyCode, Button, u8)>, p: &PlayerInput, player: u8)
    ensures
        final(mappings)@ == old(mappings)@ + bindings(player_names(*p), player),
{
    let ghost names = player_names(*p);
    let mut i: usize = 0;
    while i < 8
        invariant
            i <= 8,
            names == player_names(*p),
            mappings@ == old(mappings)@ + bindings(names.take(i as int), player),
        decreases 8 - i,
    {
        let (name, button) = player_name(p, i);
        let key = key_name_to_keycode(name.as_str());
        proof {
            assert(names.take(i + 1).drop_last() =~= names.take(i as int));
        }
        match key {
            Some(k) => {
                mappings.push((k, button, player));
                assert(mappings@ =~= old(mappings)@ + bindings(names.take(i + 1), player));
            },
            None => {},
        }
        i = i + 1;
    }
    assert(names.take(8) =~= names);
}

impl KeyMap {
    /// The bindings of both players' configured key names: player 1's buttons in the
    /// order up, down, left, right, A, B, Select, Start, then player 2's; a name that is
    /// no key binds nothing.
    pub fn from_config(config: &InputConfig) -> (r: Self)
        ensures
            r.mappings@ == key_bindings(*config),
    {
        let mut mappings: Vec<(KeyCode, Button, u8)> = Vec::new();
        push_bindings(&mut mappings, &config.player1, 1);
        push_bindings(&mut mappings, &config.player2, 2);
        assert(mappings@ =~= key_bindings(*config));
        KeyMap { mappings }
    }
}

} // verus!
