//! Parsing of configured hotkey strings such as `"Option+Space"`, and their
//! rewriting in the accelerator syntax of the global-shortcut service.
use vstd::prelude::*;

use crate::errors::AppError;
use crate::text::{
    chars_of, eq_ic, eq_ic_exec, join, push_str, split_char, split_exec, string_of, trim, trimmed,
    vec_views, views, lemma_split_nonempty,
};

verus! {

pub const MOD_CONTROL: &'static str = "Control";

pub const MOD_OPTION: &'static str = "Option";

pub const MOD_ALT: &'static str = "Alt";

pub const MOD_SHIFT: &'static str = "Shift";

pub const MOD_COMMAND: &'static str = "Command";

pub const MOD_CMD: &'static str = "Cmd";

pub const MOD_SUPER: &'static str = "Super";

pub const KEY_SEPARATOR: &'static str = "+";

pub const INVALID_MODIFIER_PREFIX: &'static str = "Invalid modifier: ";

pub const EMPTY_KEY: &'static str = "Empty key in hotkey";

/// The `+`-separated pieces of a hotkey string.
pub open spec fn hotkey_pieces(raw: Seq<char>) -> Seq<Seq<char>> {
    split_char(raw, '+')
}

/// The modifiers of a hotkey string: every piece but the last, trimmed.
pub open spec fn hotkey_modifiers(raw: Seq<char>) -> Seq<Seq<char>> {
    hotkey_pieces(raw).drop_last().map_values(|p: Seq<char>| trim(p))
}

/// The key of a hotkey string: its last piece, trimmed.
pub open spec fn hotkey_key(raw: Seq<char>) -> Seq<char> {
    trim(hotkey_pieces(raw).last())
}

/// A modifier name accepted in a hotkey, in any ASCII letter case.
pub open spec fn valid_modifier(m: Seq<char>) -> bool {
    ||| eq_ic(m, MOD_CONTROL@)
    ||| eq_ic(m, MOD_OPTION@)
    ||| eq_ic(m, MOD_ALT@)
    ||| eq_ic(m, MOD_SHIFT@)
    ||| eq_ic(m, MOD_COMMAND@)
    ||| eq_ic(m, MOD_CMD@)
    ||| eq_ic(m, MOD_SUPER@)
}

/// `i` is the position of the first invalid modifier of `mods`.
pub open spec fn first_invalid_at(mods: Seq<Seq<char>>, i: int) -> bool {
    &&& 0 <= i < mods.len()
    &&& !valid_modifier(mods[i])
    &&& forall|j: int| 0 <= j < i ==> valid_modifier(#[trigger] mods[j])
}

pub open spec fn all_modifiers_valid(mods: Seq<Seq<char>>) -> bool {
    forall|j: int| 0 <= j < mods.len() ==> valid_modifier(#[trigger] mods[j])
}

/// What `parse_hotkey` answers for `raw`: the modifiers and the key, or the
/// message of the input error.
pub open spec fn hotkey_parse_ok(raw: Seq<char>) -> bool {
    all_modifiers_valid(hotkey_modifiers(raw)) && hotkey_key(raw).len() > 0
}

/// The error message of a hotkey that does not parse.
pub open spec fn hotkey_error_text(raw: Seq<char>, e: Seq<char>) -> bool {
    let mods = hotkey_modifiers(raw);
    ||| exists|i: int| first_invalid_at(mods, i) && e == INVALID_MODIFIER_PREFIX@ + mods[i]
    ||| all_modifiers_valid(mods) && hotkey_key(raw).len() == 0 && e == EMPTY_KEY@
}

/// The accelerator name of a valid modifier.
pub open spec fn accelerator_modifier(m: Seq<char>) -> Seq<char> {
    if eq_ic(m, MOD_OPTION@) || eq_ic(m, MOD_ALT@) {
        MOD_ALT@
    } else if eq_ic(m, MOD_COMMAND@) || eq_ic(m, MOD_CMD@) {
        MOD_COMMAND@
    } else if eq_ic(m, MOD_CONTROL@) {
        MOD_CONTROL@
    } else if eq_ic(m, MOD_SHIFT@) {
        MOD_SHIFT@
    } else {
        MOD_SUPER@
    }
}

/// The accelerator string of a hotkey that parses.
pub open spec fn accelerator(raw: Seq<char>) -> Seq<char> {
    let mods = hotkey_modifiers(raw);
    if mods.len() == 0 {
        hotkey_key(raw)
    } else {
        join(mods.map_values(|m: Seq<char>| accelerator_modifier(m)), KEY_SEPARATOR@)
            + KEY_SEPARATOR@ + hotkey_key(raw)
    }
}

fn is_valid_modifier(m: &Vec<char>) -> (b: bool)
    ensures
        b == valid_modifier(m@),
{
    eq_ic_exec(m, &chars_of(MOD_CONTROL)) || eq_ic_exec(m, &chars_of(MOD_OPTION)) || eq_ic_exec(
        m,
        &chars_of(MOD_ALT),
    ) || eq_ic_exec(m, &chars_of(MOD_SHIFT)) || eq_ic_exec(m, &chars_of(MOD_COMMAND))
        || eq_ic_exec(m, &chars_of(MOD_CMD)) || eq_ic_exec(m, &chars_of(MOD_SUPER))
}

/// The trimmed pieces of `raw` before the last one, and the trimmed last one.
fn hotkey_split(raw: &str) -> (r: (Vec<Vec<char>>, Vec<char>))
    ensures
        vec_views(r.0@) == hotkey_modifiers(raw@),
        r.1@ == hotkey_key(raw@),
{
    let pieces = split_exec(&chars_of(raw), '+');
    proof {
        lemma_split_nonempty(raw@, '+');
    }
    let last = pieces.len() - 1;
    let ghost all = hotkey_pieces(raw@);
    let mut mods: Vec<Vec<char>> = Vec::new();
    let mut i: usize = 0;
    while i < last
        invariant
            last + 1 == pieces.len(),
            i <= last,
            vec_views(pieces@) == all,
            vec_views(mods@) == all.drop_last().take(i as int).map_values(
                |p: Seq<char>| trim(p),
            ),
        decreases last - i,
    {
        let t = trimmed(&pieces[i]);
        let ghost before = mods@;
        mods.push(t);
        proof {
            assert(all[i as int] == pieces@[i as int]@);
            assert(vec_views(mods@) =~= vec_views(before).push(t@));
            assert(all.drop_last().take(i + 1).map_values(|p: Seq<char>| trim(p))
                =~= all.drop_last().take(i as int).map_values(|p: Seq<char>| trim(p)).push(
                trim(all[i as int]),
            ));
        }
        i += 1;
    }
    proof {
        assert(all.drop_last().take(last as int) =~= all.drop_last());
        assert(all.last() == pieces@[last as int]@);
    }
    let key = trimmed(&pieces[last]);
    (mods, key)
}

/// The index of the first invalid modifier, if any.
fn first_invalid(mods: &Vec<Vec<char>>) -> (r: Option<usize>)
    ensures
        match r {
            Some(i) => first_invalid_at(vec_views(mods@), i as int),
            None => all_modifiers_valid(vec_views(mods@)),
        },
{
    let ghost ms = vec_views(mods@);
    let mut i: usize = 0;
    while i < mods.len()
        invariant
            i <= mods.len(),
            ms == vec_views(mods@),
            forall|j: int| 0 <= j < i ==> valid_modifier(#[trigger] ms[j]),
        decreases mods.len() - i,
    {
        if !is_valid_modifier(&mods[i]) {
            return Some(i);
        }
        i += 1;
    }
    None
}

/// Splits a hotkey string such as `"Command+Shift+R"` into its modifiers and
/// its key. Each modifier must be one of Control, Option, Alt, Shift,
/// Command, Cmd or Super (in any letter case); the first one that is not
/// gives `Invalid modifier: <name>`; an empty key gives `Empty key in hotkey`.
pub fn parse_hotkey(hotkey: &str) -> (r: Result<(Vec<String>, String), AppError>)
    ensures
        r is Ok <==> hotkey_parse_ok(hotkey@),
        match r {
            Ok((mods, key)) => views(mods@) == hotkey_modifiers(hotkey@) && key@ == hotkey_key(
                hotkey@,
            ),
            Err(e) => e is Input && hotkey_error_text(hotkey@, e.text()),
        },
{
    let (mods, key) = hotkey_split(hotkey);
    let ghost ms = vec_views(mods@);
    match first_invalid(&mods) {
        Some(i) => {
            let mut msg = chars_of(INVALID_MODIFIER_PREFIX);
            crate::text::push_chars(&mut msg, &mods[i]);
            proof {
                assert(ms[i as int] == mods@[i as int]@);
                assert(!all_modifiers_valid(ms));
            }
            return Err(AppError::Input(string_of(&msg)));
        },
        None => {},
    }
    if key.len() == 0 {
        return Err(AppError::Input(string_of(&chars_of(EMPTY_KEY))));
    }
    let mut out: Vec<String> = Vec::new();
    let mut i: usize = 0;
    while i < mods.len()
        invariant
            i <= mods.len(),
            ms == vec_views(mods@),
            views(out@) == ms.take(i as int),
        decreases mods.len() - i,
    {
        let s = string_of(&mods[i]);
        let ghost before = out@;
        out.push(s);
        proof {
            assert(views(out@) =~= views(before).push(s@));
            assert(ms.take(i + 1) =~= ms.take(i as int).push(ms[i as int]));
        }
        i += 1;
    }
    assert(ms.take(mods.len() as int) =~= ms);
    Ok((out, string_of(&key)))
}

fn accelerator_modifier_exec(m: &Vec<char>) -> (r: &'static str)
    ensures
        r@ == accelerator_modifier(m@),
{
    if eq_ic_exec(m, &chars_of(MOD_OPTION)) || eq_ic_exec(m, &chars_of(MOD_ALT)) {
        MOD_ALT
    } else if eq_ic_exec(m, &chars_of(MOD_COMMAND)) || eq_ic_exec(m, &chars_of(MOD_CMD)) {
        MOD_COMMAND
    } else if eq_ic_exec(m, &chars_of(MOD_CONTROL)) {
        MOD_CONTROL
    } else if eq_ic_exec(m, &chars_of(MOD_SHIFT)) {
        MOD_SHIFT
    } else {
        MOD_SUPER
    }
}

/// Rewrites a hotkey string in the accelerator syntax of the global
/// shortcut service: `"Option+Space"` becomes `"Alt+Space"`, `"Cmd+K"`
/// becomes `"Command+K"`. Fails exactly as `parse_hotkey` does.
pub fn to_tauri_shortcut(hotkey: &str) -> (r: Result<String, AppError>)
    ensures
        r is Ok <==> hotkey_parse_ok(hotkey@),
        match r {
            Ok(s) => s@ == accelerator(hotkey@),
            Err(e) => e is Input && hotkey_error_text(hotkey@, e.text()),
        },
{
    match parse_hotkey(hotkey) {
        Err(e) => Err(e),
        Ok((mods, key)) => {
            let ghost ms = views(mods@);
            let ghost names = ms.map_values(|m: Seq<char>| accelerator_modifier(m));
            if mods.len() == 0 {
                return Ok(key);
            }
            let mut out: Vec<char> = Vec::new();
            let mut i: usize = 0;
            while i < mods.len()
                invariant
                    0 < mods.len(),
                    i <= mods.len(),
                    ms == views(mods@),
                    names == ms.map_values(|m: Seq<char>| accelerator_modifier(m)),
                    out@ == join(names.take(i as int), KEY_SEPARATOR@),
                decreases mods.len() - i,
            {
                let name = accelerator_modifier_exec(&chars_of(mods[i].as_str()));
                proof {
                    assert(names.take(i + 1).drop_last() =~= names.take(i as int));
                    assert(names.take(i + 1).last() == name@);
                    if i == 0 {
                        assert(names.take(0) =~= Seq::<Seq<char>>::empty());
                    }
                }
                if i > 0 {
                    push_str(&mut out, KEY_SEPARATOR);
                }
                push_str(&mut out, name);
                proof {
                    if i == 0 {
                        assert(join(names.take(1), KEY_SEPARATOR@) == names.take(1)[0]);
                        assert(out@ =~= join(names.take(1), KEY_SEPARATOR@));
                    } else {
                        assert(out@ =~= join(names.take(i + 1), KEY_SEPARATOR@));
                    }
                }
                i += 1;
            }
            assert(names.take(mods.len() as int) =~= names);
            push_str(&mut out, KEY_SEPARATOR);
            push_str(&mut out, key.as_str());
            Ok(string_of(&out))
        },
    }
}

/// Whether the hotkey string names a single modifier key held on its own
/// (such as `"Fn"` or `"RightOption"`) rather than a key combination.
pub fn is_single_key(raw: &str) -> (b: bool)
    ensures
        b == crate::input::single_key::key_named(crate::input::single_key::normalized(raw@))
            is Some,
{
    crate::input::single_key::SingleKey::from_raw(raw).is_some()
}

} // verus!
