//! Single modifier keys used as push-to-talk hotkeys, and the press/release
//! edge detection of their monitors.
use vstd::prelude::*;

use crate::text::{chars_eq_str, chars_of, lower, lower_char, trim, trimmed};

verus! {

/// A modifier key that can act as a hotkey on its own.
#[derive(Debug, Clone, Copy, PartialEq, Eq, Structural)]
pub enum SingleKey {
    Fn,
    LeftOption,
    RightOption,
    LeftCommand,
    RightCommand,
    LeftControl,
    RightControl,
    LeftShift,
    RightShift,
}

pub const NAME_FN: &'static str = "fn";

pub const NAME_LEFT_OPTION: &'static str = "leftoption";

pub const NAME_RIGHT_OPTION: &'static str = "rightoption";

pub const NAME_LEFT_COMMAND: &'static str = "leftcommand";

pub const NAME_RIGHT_COMMAND: &'static str = "rightcommand";

pub const NAME_LEFT_CONTROL: &'static str = "leftcontrol";

pub const NAME_RIGHT_CONTROL: &'static str = "rightcontrol";

pub const NAME_LEFT_SHIFT: &'static str = "leftshift";

pub const NAME_RIGHT_SHIFT: &'static str = "rightshift";

/// `s` without underscores, hyphens and spaces.
pub open spec fn without_separators(s: Seq<char>) -> Seq<char>
    decreases s.len(),
{
    if s.len() == 0 {
        s
    } else {
        let init = without_separators(s.drop_last());
        let c = s.last();
        if c == '_' || c == '-' || c == ' ' {
            init
        } else {
            init.push(lower(c))
        }
    }
}

/// The normalised form of a key name: trimmed, separators removed, ASCII
/// letters lower-cased. Characters outside ASCII are kept; no key name
/// contains one, and no character outside ASCII lower-cases to a letter of a
/// key name, so this decides as Unicode lower-casing does.
pub open spec fn normalized(raw: Seq<char>) -> Seq<char> {
    without_separators(trim(raw))
}

/// The key a normalised name designates.
pub open spec fn key_named(n: Seq<char>) -> Option<SingleKey> {
    if n == NAME_FN@ {
        Some(SingleKey::Fn)
    } else if n == NAME_LEFT_OPTION@ {
        Some(SingleKey::LeftOption)
    } else if n == NAME_RIGHT_OPTION@ {
        Some(SingleKey::RightOption)
    } else if n == NAME_LEFT_COMMAND@ {
        Some(SingleKey::LeftCommand)
    } else if n == NAME_RIGHT_COMMAND@ {
        Some(SingleKey::RightCommand)
    } else if n == NAME_LEFT_CONTROL@ {
        Some(SingleKey::LeftControl)
    } else if n == NAME_RIGHT_CONTROL@ {
        Some(SingleKey::RightControl)
    } else if n == NAME_LEFT_SHIFT@ {
        Some(SingleKey::LeftShift)
    } else if n == NAME_RIGHT_SHIFT@ {
        Some(SingleKey::RightShift)
    } else {
        None
    }
}

/// The macOS virtual key code of a key.
pub open spec fn key_code_of(k: SingleKey) -> i64 {
    match k {
        SingleKey::Fn => 63,
        SingleKey::LeftOption => 58,
        SingleKey::RightOption => 61,
        SingleKey::LeftCommand => 55,
        SingleKey::RightCommand => 54,
        SingleKey::LeftControl => 59,
        SingleKey::RightControl => 62,
        SingleKey::LeftShift => 56,
        SingleKey::RightShift => 60,
    }
}

/// The event-flag bit that is set while the key is held.
pub open spec fn device_mask_of(k: SingleKey) -> u64 {
    match k {
        SingleKey::Fn => 0x80_0000,
        SingleKey::LeftControl => 0x0000_0001,
        SingleKey::LeftShift => 0x0000_0002,
        SingleKey::RightShift => 0x0000_0004,
        SingleKey::LeftCommand => 0x0000_0008,
        SingleKey::RightCommand => 0x0000_0010,
        SingleKey::LeftOption => 0x0000_0020,
        SingleKey::RightOption => 0x0000_0040,
        SingleKey::RightControl => 0x0000_2000,
    }
}

impl SingleKey {
    /// Parses a configured key name: `"Fn"`, `"RightOption"`, `"left_shift"`,
    /// `"right-control"`, in any letter case, with surrounding whitespace.
    pub fn from_raw(raw: &str) -> (k: Option<SingleKey>)
        ensures
            k == key_named(normalized(raw@)),
    {
        let t = trimmed(&chars_of(raw));
        let mut n: Vec<char> = Vec::new();
        let mut i: usize = 0;
        while i < t.len()
            invariant
                i <= t.len(),
                n@ == without_separators(t@.take(i as int)),
            decreases t.len() - i,
        {
            let c = t[i];
            proof {
                assert(t@.take(i + 1).drop_last() =~= t@.take(i as int));
                assert(t@.take(i + 1).last() == c);
            }
            if !(c == '_' || c == '-' || c == ' ') {
                n.push(lower_char(c));
            }
            i += 1;
        }
        assert(t@.take(t.len() as int) =~= t@);
        if chars_eq_str(&n, NAME_FN) {
            Some(SingleKey::Fn)
        } else if chars_eq_str(&n, NAME_LEFT_OPTION) {
            Some(SingleKey::LeftOption)
        } else if chars_eq_str(&n, NAME_RIGHT_OPTION) {
            Some(SingleKey::RightOption)
        } else if chars_eq_str(&n, NAME_LEFT_COMMAND) {
            Some(SingleKey::LeftCommand)
        } else if chars_eq_str(&n, NAME_RIGHT_COMMAND) {
            Some(SingleKey::RightCommand)
        } else if chars_eq_str(&n, NAME_LEFT_CONTROL) {
            Some(SingleKey::LeftControl)
        } else if chars_eq_str(&n, NAME_RIGHT_CONTROL) {
            Some(SingleKey::RightControl)
        } else if chars_eq_str(&n, NAME_LEFT_SHIFT) {
            Some(SingleKey::LeftShift)
        } else if chars_eq_str(&n, NAME_RIGHT_SHIFT) {
            Some(SingleKey::RightShift)
        } else {
            None
        }
    }

    /// The macOS virtual key code emitted by the key.
    pub fn key_code(self) -> (c: i64)
        ensures
            c == key_code_of(self),
    {
        match self {
            SingleKey::Fn => 63,
            SingleKey::LeftOption => 58,
            SingleKey::RightOption => 61,
            SingleKey::LeftCommand => 55,
            SingleKey::RightCommand => 54,
            SingleKey::LeftControl => 59,
            SingleKey::RightControl => 62,
            SingleKey::LeftShift => 56,
            SingleKey::RightShift => 60,
        }
    }

    /// The bit of the event flags that indicates the key is held.
    pub fn device_mask(self) -> (m: u64)
        ensures
            m == device_mask_of(self),
    {
        match self {
            SingleKey::Fn => 0x80_0000,
            SingleKey::LeftControl => 0x0000_0001,
            SingleKey::LeftShift => 0x0000_0002,
            SingleKey::RightShift => 0x0000_0004,
            SingleKey::LeftCommand => 0x0000_0008,
            SingleKey::RightCommand => 0x0000_0010,
            SingleKey::LeftOption => 0x0000_0020,
            SingleKey::RightOption => 0x0000_0040,
            SingleKey::RightControl => 0x0000_2000,
        }
    }
}

/// Different keys emit different key codes, so a key event identifies its key.
pub proof fn law_key_codes_distinct(a: SingleKey, b: SingleKey)
    requires
        a != b,
    ensures
        key_code_of(a) != key_code_of(b),
{
}

/// Different keys are told apart by different flag bits.
pub proof fn law_device_masks_distinct(a: SingleKey, b: SingleKey)
    requires
        a != b,
    ensures
        device_mask_of(a) != device_mask_of(b),
{
}

/// What a flags-changed event means for a key monitor that last saw the key
/// as `was_pressed`: the new pressed state, and the edge to report (`None`
/// when the state did not change).
pub open spec fn key_edge(was_pressed: bool, now_pressed: bool) -> (bool, Option<bool>) {
    if was_pressed == now_pressed {
        (now_pressed, None)
    } else {
        (now_pressed, Some(now_pressed))
    }
}

/// Handles a flags-changed event of the monitored key: `flags` are the
/// event's modifier flags. Returns the new pressed state and the edge to
/// report, if any.
pub fn key_event(key: SingleKey, was_pressed: bool, flags: u64) -> (r: (bool, Option<bool>))
    ensures
        r == key_edge(was_pressed, flags & device_mask_of(key) != 0),
{
    let now = flags & key.device_mask() != 0;
    if now == was_pressed {
        (now, None)
    } else {
        (now, Some(now))
    }
}

/// Two identical events in a row report at most one edge: the second one
/// never reports.
pub proof fn law_repeated_event_reports_once(was_pressed: bool, now_pressed: bool)
    ensures
        key_edge(key_edge(was_pressed, now_pressed).0, now_pressed).1 is None,
{
}


/// Event type of a change of the modifier flags.
pub const EVENT_FLAGS_CHANGED: u32 = 12;

/// Event type sent when the system disabled the tap for being slow.
pub const EVENT_TAP_DISABLED_BY_TIMEOUT: u32 = 0xFFFF_FFFE;

/// Event type sent when the system disabled the tap on user input.
pub const EVENT_TAP_DISABLED_BY_USER_INPUT: u32 = 0xFFFF_FFFF;

/// What the key monitor's event tap does with an event.
#[derive(Debug, Clone, Copy, PartialEq, Eq, Structural)]
pub enum TapOutcome {
    /// The system disabled the tap: enable it again and let the event pass.
    ReEnable,
    /// Another key, or the monitored key with its state unchanged: let the
    /// event pass untouched.
    Pass,
    /// The monitored key changed state to `pressed`: record it, report the
    /// edge, and consume the event.
    Swallow { pressed: bool },
}

/// The tap's decision for an event of type `event_type` with key code
/// `key_code` and modifier flags `flags`, while the monitored key was last
/// seen as `was_pressed`: only a flip of the monitored key's state is
/// consumed; every other event passes through.
pub open spec fn tap_outcome(
    key: SingleKey,
    event_type: u32,
    key_code: i64,
    flags: u64,
    was_pressed: bool,
) -> TapOutcome {
    if event_type == EVENT_TAP_DISABLED_BY_TIMEOUT || event_type == EVENT_TAP_DISABLED_BY_USER_INPUT {
        TapOutcome::ReEnable
    } else if event_type != EVENT_FLAGS_CHANGED || key_code != key_code_of(key) {
        TapOutcome::Pass
    } else {
        match key_edge(was_pressed, flags & device_mask_of(key) != 0).1 {
            Some(pressed) => TapOutcome::Swallow { pressed },
            None => TapOutcome::Pass,
        }
    }
}

/// See `tap_outcome`.
pub fn tap_decision(
    key: SingleKey,
    event_type: u32,
    key_code: i64,
    flags: u64,
    was_pressed: bool,
) -> (r: TapOutcome)
    ensures
        r == tap_outcome(key, event_type, key_code, flags, was_pressed),
{
    if event_type == EVENT_TAP_DISABLED_BY_TIMEOUT || event_type == EVENT_TAP_DISABLED_BY_USER_INPUT {
        TapOutcome::ReEnable
    } else if event_type != EVENT_FLAGS_CHANGED || key_code != key.key_code() {
        TapOutcome::Pass
    } else {
        let (_pressed, edge) = key_event(key, was_pressed, flags);
        match edge {
            Some(pressed) => TapOutcome::Swallow { pressed },
            None => TapOutcome::Pass,
        }
    }
}

/// An event of the monitored key that leaves its state as it was passes
/// through, and reports nothing.
pub proof fn law_unchanged_key_passes(key: SingleKey, flags: u64, was_pressed: bool)
    requires
        (flags & device_mask_of(key) != 0) == was_pressed,
    ensures
        tap_outcome(key, EVENT_FLAGS_CHANGED, key_code_of(key), flags, was_pressed)
            == TapOutcome::Pass,
{
}

/// An event of the monitored key that flips its state is consumed, and
/// reports the new state.
pub proof fn law_flipped_key_swallowed(key: SingleKey, flags: u64, was_pressed: bool)
    requires
        (flags & device_mask_of(key) != 0) != was_pressed,
    ensures
        tap_outcome(key, EVENT_FLAGS_CHANGED, key_code_of(key), flags, was_pressed)
            == (TapOutcome::Swallow { pressed: !was_pressed }),
{
}

/// Other keys never move the monitor: their events pass and the pressed
/// state is untouched.
pub proof fn law_other_keys_pass(key: SingleKey, other: SingleKey, flags: u64, was_pressed: bool)
    requires
        key != other,
    ensures
        tap_outcome(key, EVENT_FLAGS_CHANGED, key_code_of(other), flags, was_pressed)
            == TapOutcome::Pass,
{
}

/// A name with no separator, surrounded by no whitespace, normalises to its
/// ASCII lower-casing.
proof fn lemma_plain_name(s: Seq<char>)
    requires
        s.len() > 0,
        !crate::text::is_ws(s[0]),
        !crate::text::is_ws(s.last()),
    ensures
        normalized(s) == without_separators(s),
{
    assert(crate::text::trim_start_in(s, crate::text::CharSet::Whitespace) == s);
    assert(crate::text::trim_end_in(s, crate::text::CharSet::Whitespace) == s);
}

proof fn lemma_name_fn()
    ensures
        key_named(normalized("Fn"@)) == Some(SingleKey::Fn),
{
    reveal_with_fuel(without_separators, 13);
    reveal_strlit("Fn");
    reveal_strlit("fn");
    reveal_strlit("leftoption");
    reveal_strlit("rightoption");
    reveal_strlit("leftcommand");
    reveal_strlit("rightcommand");
    reveal_strlit("leftcontrol");
    reveal_strlit("rightcontrol");
    reveal_strlit("leftshift");
    reveal_strlit("rightshift");
    lemma_plain_name("Fn"@);
    assert(without_separators("Fn"@) =~= "fn"@);
}

proof fn lemma_name_left_option()
    ensures
        key_named(normalized("LeftOption"@)) == Some(SingleKey::LeftOption),
{
    reveal_with_fuel(without_separators, 13);
    reveal_strlit("LeftOption");
    reveal_strlit("fn");
    reveal_strlit("leftoption");
    reveal_strlit("rightoption");
    reveal_strlit("leftcommand");
    reveal_strlit("rightcommand");
    reveal_strlit("leftcontrol");
    reveal_strlit("rightcontrol");
    reveal_strlit("leftshift");
    reveal_strlit("rightshift");
    lemma_plain_name("LeftOption"@);
    assert(without_separators("LeftOption"@) =~= "leftoption"@);
}

proof fn lemma_name_right_option()
    ensures
        key_named(normalized("RightOption"@)) == Some(SingleKey::RightOption),
{
    reveal_with_fuel(without_separators, 13);
    reveal_strlit("RightOption");
    reveal_strlit("fn");
    reveal_strlit("leftoption");
    reveal_strlit("rightoption");
    reveal_strlit("leftcommand");
    reveal_strlit("rightcommand");
    reveal_strlit("leftcontrol");
    reveal_strlit("rightcontrol");
    reveal_strlit("leftshift");
    reveal_strlit("rightshift");
    lemma_plain_name("RightOption"@);
    assert(without_separators("RightOption"@) =~= "rightoption"@);
}

proof fn lemma_name_left_command()
    ensures
        key_named(normalized("LeftCommand"@)) == Some(SingleKey::LeftCommand),
{
    reveal_with_fuel(without_separators, 13);
    reveal_strlit("LeftCommand");
    reveal_strlit("fn");
    reveal_strlit("leftoption");
    reveal_strlit("rightoption");
    reveal_strlit("leftcommand");
    reveal_strlit("rightcommand");
    reveal_strlit("leftcontrol");
    reveal_strlit("rightcontrol");
    reveal_strlit("leftshift");
    reveal_strlit("rightshift");
    lemma_plain_name("LeftCommand"@);
    assert(without_separators("LeftCommand"@) =~= "leftcommand"@);
    assert("leftcommand"@[0] != "rightoption"@[0]);
}

proof fn lemma_name_right_command()
    ensures
        key_named(normalized("RightCommand"@)) == Some(SingleKey::RightCommand),
{
    reveal_with_fuel(without_separators, 13);
    reveal_strlit("RightCommand");
    reveal_strlit("fn");
    reveal_strlit("leftoption");
    reveal_strlit("rightoption");
    reveal_strlit("leftcommand");
    reveal_strlit("rightcommand");
    reveal_strlit("leftcontrol");
    reveal_strlit("rightcontrol");
    reveal_strlit("leftshift");
    reveal_strlit("rightshift");
    lemma_plain_name("RightCommand"@);
    assert(without_separators("RightCommand"@) =~= "rightcommand"@);
}

proof fn lemma_name_left_control()
    ensures
        key_named(normalized("LeftControl"@)) == Some(SingleKey::LeftControl),
{
    reveal_with_fuel(without_separators, 13);
    reveal_strlit("LeftControl");
    reveal_strlit("fn");
    reveal_strlit("leftoption");
    reveal_strlit("rightoption");
    reveal_strlit("leftcommand");
    reveal_strlit("rightcommand");
    reveal_strlit("leftcontrol");
    reveal_strlit("rightcontrol");
    reveal_strlit("leftshift");
    reveal_strlit("rightshift");
    lemma_plain_name("LeftControl"@);
    assert(without_separators("LeftControl"@) =~= "leftcontrol"@);
    assert("leftcontrol"@[0] != "rightoption"@[0]);
    assert("leftcontrol"@[6] != "leftcommand"@[6]);
}

proof fn lemma_name_right_control()
    ensures
        key_named(normalized("RightControl"@)) == Some(SingleKey::RightControl),
{
    reveal_with_fuel(without_separators, 13);
    reveal_strlit("RightControl");
    reveal_strlit("fn");
    reveal_strlit("leftoption");
    reveal_strlit("rightoption");
    reveal_strlit("leftcommand");
    reveal_strlit("rightcommand");
    reveal_strlit("leftcontrol");
    reveal_strlit("rightcontrol");
    reveal_strlit("leftshift");
    reveal_strlit("rightshift");
    lemma_plain_name("RightControl"@);
    assert(without_separators("RightControl"@) =~= "rightcontrol"@);
    assert("rightcontrol"@[7] != "rightcommand"@[7]);
}

proof fn lemma_name_left_shift()
    ensures
        key_named(normalized("LeftShift"@)) == Some(SingleKey::LeftShift),
{
    reveal_with_fuel(without_separators, 13);
    reveal_strlit("LeftShift");
    reveal_strlit("fn");
    reveal_strlit("leftoption");
    reveal_strlit("rightoption");
    reveal_strlit("leftcommand");
    reveal_strlit("rightcommand");
    reveal_strlit("leftcontrol");
    reveal_strlit("rightcontrol");
    reveal_strlit("leftshift");
    reveal_strlit("rightshift");
    lemma_plain_name("LeftShift"@);
    assert(without_separators("LeftShift"@) =~= "leftshift"@);
}

proof fn lemma_name_right_shift()
    ensures
        key_named(normalized("RightShift"@)) == Some(SingleKey::RightShift),
{
    reveal_with_fuel(without_separators, 13);
    reveal_strlit("RightShift");
    reveal_strlit("fn");
    reveal_strlit("leftoption");
    reveal_strlit("rightoption");
    reveal_strlit("leftcommand");
    reveal_strlit("rightcommand");
    reveal_strlit("leftcontrol");
    reveal_strlit("rightcontrol");
    reveal_strlit("leftshift");
    reveal_strlit("rightshift");
    lemma_plain_name("RightShift"@);
    assert(without_separators("RightShift"@) =~= "rightshift"@);
    assert("rightshift"@[0] != "leftoption"@[0]);
}

/// Each key is accepted under the name of its variant (`"Fn"`,
/// `"RightOption"`, ...).
pub proof fn law_variant_names_accepted()
    ensures
        key_named(normalized("Fn"@)) == Some(SingleKey::Fn),
        key_named(normalized("LeftOption"@)) == Some(SingleKey::LeftOption),
        key_named(normalized("RightOption"@)) == Some(SingleKey::RightOption),
        key_named(normalized("LeftCommand"@)) == Some(SingleKey::LeftCommand),
        key_named(normalized("RightCommand"@)) == Some(SingleKey::RightCommand),
        key_named(normalized("LeftControl"@)) == Some(SingleKey::LeftControl),
        key_named(normalized("RightControl"@)) == Some(SingleKey::RightControl),
        key_named(normalized("LeftShift"@)) == Some(SingleKey::LeftShift),
        key_named(normalized("RightShift"@)) == Some(SingleKey::RightShift),
{
    lemma_name_fn();
    lemma_name_left_option();
    lemma_name_right_option();
    lemma_name_left_command();
    lemma_name_right_command();
    lemma_name_left_control();
    lemma_name_right_control();
    lemma_name_left_shift();
    lemma_name_right_shift();
}

} // verus!
