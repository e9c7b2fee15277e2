//! The keyboard events that make up a key chord: keys go down in order and
//! come up in reverse order. The application posts them to the system.
use vstd::prelude::*;

verus! {

/// Windows `KEYEVENTF_EXTENDEDKEY`.
pub const KEYEVENTF_EXTENDEDKEY: u32 = 0x0001;

/// Windows `KEYEVENTF_KEYUP`.
pub const KEYEVENTF_KEYUP: u32 = 0x0002;

/// Windows `KEYEVENTF_SCANCODE`.
pub const KEYEVENTF_SCANCODE: u32 = 0x0008;

/// The Windows virtual key `VK_HOME`, an extended key.
pub const VK_HOME: u16 = 0x24;

/// One Windows keyboard input: a virtual key, sent by scan code, with its flags.
#[derive(Debug, Clone, Copy, PartialEq, Eq, Structural)]
pub struct KeyInput {
    pub key: u16,
    pub flags: u32,
}

/// The flags of a key's input: by scan code, extended for Home, and key-up
/// when released.
pub open spec fn key_flags(key: u16, key_up: bool) -> u32 {
    (KEYEVENTF_SCANCODE + (if key == VK_HOME {
        KEYEVENTF_EXTENDEDKEY
    } else {
        0
    }) + (if key_up {
        KEYEVENTF_KEYUP
    } else {
        0
    })) as u32
}

fn input_for(key: u16, key_up: bool) -> (r: KeyInput)
    ensures
        r == (KeyInput { key, flags: key_flags(key, key_up) }),
{
    let mut flags = KEYEVENTF_SCANCODE;
    if key == VK_HOME {
        flags = flags + KEYEVENTF_EXTENDEDKEY;
    }
    if key_up {
        flags = flags + KEYEVENTF_KEYUP;
    }
    KeyInput { key, flags }
}

/// The inputs that press the keys together: each key down in order, then
/// each key up in reverse order.
pub fn key_inputs(keys: &[u16]) -> (r: Vec<KeyInput>)
    ensures
        r@.len() == 2 * keys@.len(),
        forall|i: int|
            0 <= i < keys@.len() ==> r@[i] == (KeyInput {
                key: keys@[i],
                flags: key_flags(keys@[i], false),
            }),
        forall|i: int|
            keys@.len() <= i < 2 * keys@.len() ==> #[trigger] r@[i] == (KeyInput {
                key: keys@[2 * keys@.len() - 1 - i],
                flags: key_flags(keys@[2 * keys@.len() - 1 - i], true),
            }),
{
    let n = keys.len();
    let mut r: Vec<KeyInput> = Vec::new();
    let mut i: usize = 0;
    while i < n
        invariant
            0 <= i <= n,
            n == keys@.len(),
            r@.len() == i,
            forall|k: int|
                0 <= k < i ==> r@[k] == (KeyInput { key: keys@[k], flags: key_flags(keys@[k], false) }),
        decreases n - i,
    {
        r.push(input_for(keys[i], false));
        i = i + 1;
    }
    let mut j: usize = 0;
    while j < n
        invariant
            0 <= j <= n,
            n == keys@.len(),
            r@.len() == n + j,
            forall|k: int|
                0 <= k < n ==> r@[k] == (KeyInput { key: keys@[k], flags: key_flags(keys@[k], false) }),
            forall|k: int|
                n <= k < n + j ==> #[trigger] r@[k] == (KeyInput {
                    key: keys@[2 * n - 1 - k],
                    flags: key_flags(keys@[2 * n - 1 - k], true),
                }),
        decreases n - j,
    {
        r.push(input_for(keys[n - 1 - j], true));
        j = j + 1;
    }
    r
}

/// One macOS keyboard event: a key code, down or up, with the modifier
/// flags in effect.
#[derive(Debug, Clone, Copy, PartialEq, Eq, Structural)]
pub struct KeyEvent {
    pub keycode: u16,
    pub down: bool,
    pub flags: u64,
}

/// The modifier flags after the first `k` modifiers went down.
pub open spec fn flags_pressed(modifiers: Seq<(u16, u64)>, k: int) -> u64
    decreases k,
{
    if k <= 0 {
        0
    } else {
        flags_pressed(modifiers, k - 1) | modifiers[k - 1].1
    }
}

/// The modifier flags after all modifiers went down and those from the last
/// back to index `k` came up again.
pub open spec fn flags_released(modifiers: Seq<(u16, u64)>, k: int) -> u64
    decreases modifiers.len() - k,
{
    if k >= modifiers.len() {
        flags_pressed(modifiers, modifiers.len() as int)
    } else {
        flags_released(modifiers, k + 1) & !modifiers[k].1
    }
}

/// The events of a chord on macOS: each modifier down with the flags so far,
/// the key down and up with all of them, then each modifier up in reverse
/// order with its flag removed.
pub fn chord_events(modifiers: &[(u16, u64)], keycode: u16) -> (r: Vec<KeyEvent>)
    ensures
        r@.len() == 2 * modifiers@.len() + 2,
        forall|i: int|
            0 <= i < modifiers@.len() ==> r@[i] == (KeyEvent {
                keycode: modifiers@[i].0,
                down: true,
                flags: flags_pressed(modifiers@, i + 1),
            }),
        r@[modifiers@.len() as int] == (KeyEvent {
            keycode,
            down: true,
            flags: flags_pressed(modifiers@, modifiers@.len() as int),
        }),
        r@[modifiers@.len() + 1int] == (KeyEvent {
            keycode,
            down: false,
            flags: flags_pressed(modifiers@, modifiers@.len() as int),
        }),
        forall|i: int|
            modifiers@.len() + 2 <= i < 2 * modifiers@.len() + 2 ==> #[trigger] r@[i] == (KeyEvent {
                keycode: modifiers@[2 * modifiers@.len() + 1 - i].0,
                down: false,
                flags: flags_released(modifiers@, 2 * modifiers@.len() + 1 - i),
            }),
{
    let n = modifiers.len();
    let mut r: Vec<KeyEvent> = Vec::new();
    let mut flags: u64 = 0;
    let mut i: usize = 0;
    while i < n
        invariant
            0 <= i <= n,
            n == modifiers@.len(),
            r@.len() == i,
            flags == flags_pressed(modifiers@, i as int),
            forall|k: int|
                0 <= k < i ==> r@[k] == (KeyEvent {
                    keycode: modifiers@[k].0,
                    down: true,
                    flags: flags_pressed(modifiers@, k + 1),
                }),
        decreases n - i,
    {
        let (modifier, flag) = modifiers[i];
        flags = flags | flag;
        r.push(KeyEvent { keycode: modifier, down: true, flags });
        i = i + 1;
    }
    r.push(KeyEvent { keycode, down: true, flags });
    r.push(KeyEvent { keycode, down: false, flags });
    let mut j: usize = 0;
    assert(flags == flags_released(modifiers@, n as int));
    while j < n
        invariant
            0 <= j <= n,
            n == modifiers@.len(),
            r@.len() == n + 2 + j,
            flags == flags_released(modifiers@, n - j),
            forall|k: int|
                0 <= k < n ==> r@[k] == (KeyEvent {
                    keycode: modifiers@[k].0,
                    down: true,
                    flags: flags_pressed(modifiers@, k + 1),
                }),
            r@[n as int] == (KeyEvent { keycode, down: true, flags: flags_pressed(modifiers@, n as int) }),
            r@[n + 1] == (KeyEvent { keycode, down: false, flags: flags_pressed(modifiers@, n as int) }),
            forall|k: int|
                n + 2 <= k < n + 2 + j ==> #[trigger] r@[k] == (KeyEvent {
                    keycode: modifiers@[2 * n + 1 - k].0,
                    down: false,
                    flags: flags_released(modifiers@, 2 * n + 1 - k),
                }),
        decreases n - j,
    {
        let (modifier, flag) = modifiers[n - 1 - j];
        flags = flags & !flag;
        r.push(KeyEvent { keycode: modifier, down: false, flags });
        j = j + 1;
    }
    r
}

} // verus!
