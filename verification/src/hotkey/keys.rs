//! Names of virtual key codes.
//!
//! Modifier keys, function keys and Escape have fixed names; a letter or digit key is named by
//! its character. Every other code is shown as `VK0x` and the code in hexadecimal, a form that
//! does not name a key.

use crate::text;
use vstd::prelude::*;

verus! {

/// The names of the keys that have a fixed one.
pub open spec fn fixed_name(vk: u32) -> Option<Seq<char>> {
    match vk {
        0x1B => Some("Escape"@),
        0x70 => Some("F1"@),
        0x71 => Some("F2"@),
        0x72 => Some("F3"@),
        0x73 => Some("F4"@),
        0x74 => Some("F5"@),
        0x75 => Some("F6"@),
        0x76 => Some("F7"@),
        0x77 => Some("F8"@),
        0x78 => Some("F9"@),
        0x79 => Some("F10"@),
        0x7A => Some("F11"@),
        0x7B => Some("F12"@),
        0xA0 => Some("LeftShift"@),
        0xA1 => Some("RightShift"@),
        0xA2 => Some("LeftCtrl"@),
        0xA3 => Some("RightCtrl"@),
        0xA4 => Some("LeftAlt"@),
        0xA5 => Some("RightAlt"@),
        _ => None,
    }
}

/// Whether the code is that of a letter or digit key.
pub open spec fn character_key(vk: u32) -> bool {
    0x30 <= vk <= 0x39 || 0x41 <= vk <= 0x5A
}

/// The codes that have a name.
pub open spec fn resolvable(vk: u32) -> bool {
    fixed_name(vk) is Some || character_key(vk)
}

/// The digit of `d` in base sixteen.
pub open spec fn hex_digit(d: nat) -> char {
    if d < 10 {
        text::digit(d)
    } else {
        ('A' as nat + (d - 10)) as char
    }
}

/// `n` in base sixteen, without leading zeros.
pub open spec fn hexadecimal(n: nat) -> Seq<char>
    decreases n,
{
    if n < 16 {
        seq![hex_digit(n)]
    } else {
        hexadecimal(n / 16).push(hex_digit(n % 16))
    }
}

/// How a key code is shown.
pub open spec fn shown_name(vk: u32) -> Seq<char> {
    if let Some(name) = fixed_name(vk) {
        name
    } else if character_key(vk) {
        seq![vk as char]
    } else {
        "VK0x"@ + hexadecimal(vk as nat)
    }
}

/// The code that a key name stands for: names are compared without regard to ASCII case, and the
/// modifier keys and Escape also have a short form.
pub open spec fn named_code(name: Seq<char>) -> Option<u32> {
    let n = text::lowered(name);
    if n == "escape"@ || n == "esc"@ {
        Some(0x1Bu32)
    } else if n == "leftshift"@ || n == "lshift"@ {
        Some(0xA0u32)
    } else if n == "rightshift"@ || n == "rshift"@ {
        Some(0xA1u32)
    } else if n == "leftctrl"@ || n == "lctrl"@ {
        Some(0xA2u32)
    } else if n == "rightctrl"@ || n == "rctrl"@ {
        Some(0xA3u32)
    } else if n == "leftalt"@ || n == "lalt"@ {
        Some(0xA4u32)
    } else if n == "rightalt"@ || n == "ralt"@ {
        Some(0xA5u32)
    } else if n.len() == 2 && n[0] == 'f' && '1' <= n[1] <= '9' {
        Some((0x70 + (n[1] as int - '1' as int)) as u32)
    } else if n.len() == 3 && n[0] == 'f' && n[1] == '1' && '0' <= n[2] <= '2' {
        Some((0x79 + (n[2] as int - '0' as int)) as u32)
    } else if n.len() == 1 && '0' <= n[0] <= '9' {
        Some(n[0] as u32)
    } else if n.len() == 1 && 'a' <= n[0] <= 'z' {
        Some((n[0] as int - 32) as u32)
    } else {
        None
    }
}

/// The code of the key with this name, if there is one.
pub fn from_key_name(name: &str) -> (vk: Option<u32>)
    ensures
        vk == named_code(name@),
{
    let n = text::ascii_lowered(name);
    let c = text::chars_of(n.as_str());
    if text::same_text(n.as_str(), "escape") || text::same_text(n.as_str(), "esc") {
        Some(0x1B)
    } else if text::same_text(n.as_str(), "leftshift") || text::same_text(n.as_str(), "lshift") {
        Some(0xA0)
    } else if text::same_text(n.as_str(), "rightshift") || text::same_text(n.as_str(), "rshift") {
        Some(0xA1)
    } else if text::same_text(n.as_str(), "leftctrl") || text::same_text(n.as_str(), "lctrl") {
        Some(0xA2)
    } else if text::same_text(n.as_str(), "rightctrl") || text::same_text(n.as_str(), "rctrl") {
        Some(0xA3)
    } else if text::same_text(n.as_str(), "leftalt") || text::same_text(n.as_str(), "lalt") {
        Some(0xA4)
    } else if text::same_text(n.as_str(), "rightalt") || text::same_text(n.as_str(), "ralt") {
        Some(0xA5)
    } else if c.len() == 2 && c[0] == 'f' && '1' <= c[1] && c[1] <= '9' {
        Some(0x70 + (c[1] as u32 - '1' as u32))
    } else if c.len() == 3 && c[0] == 'f' && c[1] == '1' && '0' <= c[2] && c[2] <= '2' {
        Some(0x79 + (c[2] as u32 - '0' as u32))
    } else if c.len() == 1 && '0' <= c[0] && c[0] <= '9' {
        Some(c[0] as u32)
    } else if c.len() == 1 && 'a' <= c[0] && c[0] <= 'z' {
        Some(c[0] as u32 - 32)
    } else {
        None
    }
}

/// Parse a key name string to a virtual key code.
pub fn parse_key_code(key: &str) -> (vk: Option<u32>)
    ensures
        vk == named_code(key@),
{
    from_key_name(key)
}

fn hex_text(n: u32) -> (s: String)
    ensures
        s@ == hexadecimal(n as nat),
    decreases n,
{
    let mut s = if n < 16 {
        String::new()
    } else {
        hex_text(n / 16)
    };
    let d: u32 = n % 16;
    if d < 10 {
        s.push(text::digit_char(d as u64));
    } else {
        s.push((55u8 + d as u8) as char);
    }
    s
}

/// How a key code is shown: its name, or `VK0x` and the code where it has none.
pub fn vk_to_key_name(vk: u32) -> (s: String)
    ensures
        s@ == shown_name(vk),
{
    match vk {
        0x1B => "Escape".to_owned(),
        0x70 => "F1".to_owned(),
        0x71 => "F2".to_owned(),
        0x72 => "F3".to_owned(),
        0x73 => "F4".to_owned(),
        0x74 => "F5".to_owned(),
        0x75 => "F6".to_owned(),
        0x76 => "F7".to_owned(),
        0x77 => "F8".to_owned(),
        0x78 => "F9".to_owned(),
        0x79 => "F10".to_owned(),
        0x7A => "F11".to_owned(),
        0x7B => "F12".to_owned(),
        0xA0 => "LeftShift".to_owned(),
        0xA1 => "RightShift".to_owned(),
        0xA2 => "LeftCtrl".to_owned(),
        0xA3 => "RightCtrl".to_owned(),
        0xA4 => "LeftAlt".to_owned(),
        0xA5 => "RightAlt".to_owned(),
        _ => {
            if (0x30 <= vk && vk <= 0x39) || (0x41 <= vk && vk <= 0x5A) {
                let mut s = String::new();
                s.push((vk as u8) as char);
                s
            } else {
                "VK0x".to_owned().concat(hex_text(vk).as_str())
            }
        },
    }
}

/// Whether a key code has a name that resolves back to it.
pub fn is_resolvable_vk(vk: u32) -> (r: bool)
    ensures
        r == resolvable(vk),
{
    proof {
        shown_names_resolve_back(vk);
    }
    from_key_name(vk_to_key_name(vk).as_str()).is_some()
}

/// Key names round-trip: a code is shown by a name that resolves back to that code where it has
/// one, and by a form that resolves to nothing where it has none.
pub proof fn shown_names_resolve_back(vk: u32)
    ensures
        named_code(shown_name(vk)) == (if resolvable(vk) {
            Some(vk)
        } else {
            None::<u32>
        }),
{
    reveal_strlit("escape");
    reveal_strlit("esc");
    reveal_strlit("leftshift");
    reveal_strlit("lshift");
    reveal_strlit("rightshift");
    reveal_strlit("rshift");
    reveal_strlit("leftctrl");
    reveal_strlit("lctrl");
    reveal_strlit("rightctrl");
    reveal_strlit("rctrl");
    reveal_strlit("leftalt");
    reveal_strlit("lalt");
    reveal_strlit("rightalt");
    reveal_strlit("ralt");
    reveal_strlit("Escape");
    reveal_strlit("F1");
    reveal_strlit("F2");
    reveal_strlit("F3");
    reveal_strlit("F4");
    reveal_strlit("F5");
    reveal_strlit("F6");
    reveal_strlit("F7");
    reveal_strlit("F8");
    reveal_strlit("F9");
    reveal_strlit("F10");
    reveal_strlit("F11");
    reveal_strlit("F12");
    reveal_strlit("LeftShift");
    reveal_strlit("RightShift");
    reveal_strlit("LeftCtrl");
    reveal_strlit("RightCtrl");
    reveal_strlit("LeftAlt");
    reveal_strlit("RightAlt");
    reveal_strlit("VK0x");
    assert(text::lowered("Escape"@) =~= "escape"@);
    assert(text::lowered("LeftShift"@) =~= "leftshift"@);
    assert(text::lowered("RightShift"@) =~= "rightshift"@);
    assert(text::lowered("LeftCtrl"@) =~= "leftctrl"@);
    assert(text::lowered("RightCtrl"@) =~= "rightctrl"@);
    assert(text::lowered("LeftAlt"@) =~= "leftalt"@);
    assert(text::lowered("RightAlt"@) =~= "rightalt"@);
    let name = shown_name(vk);
    let n = text::lowered(name);
    if fixed_name(vk) is None && !character_key(vk) {
        assert(name.len() >= 5 && name[0] == 'V') by {
            assert(hexadecimal(vk as nat).len() >= 1);
        }
        assert(n[0] == 'v');
        assert(named_code(name) is None);
    } else if character_key(vk) {
        assert(named_code(name) == Some(vk));
    } else if 0x70 <= vk <= 0x7B {
        assert(named_code(name) == Some(vk));
    } else {
        assert(vk == 0x1B || 0xA0 <= vk <= 0xA5);
        assert(vk == 0x1B ==> named_code(name) == Some(vk));
        assert(named_code(name) == Some(vk));
    }
}

/// Every key that has a name is found by it, and the form in which another code is shown is the name
/// of no key.
pub proof fn keys_are_found_by_their_name(
    vk: u32,
    shown: String,
    name: &str,
    code: Option<u32>,
    parsed: Option<u32>,
    has_name: bool,
)
    requires
        call_ensures(vk_to_key_name, (vk,), shown),
        name@ == shown@,
        call_ensures(from_key_name, (name,), code),
        call_ensures(parse_key_code, (name,), parsed),
        call_ensures(is_resolvable_vk, (vk,), has_name),
    ensures
        code == (if has_name {
            Some(vk)
        } else {
            None
        }),
        parsed == code,
        has_name <==> {
            ||| vk == 0x1B
            ||| 0x30 <= vk <= 0x39
            ||| 0x41 <= vk <= 0x5A
            ||| 0x70 <= vk <= 0x7B
            ||| 0xA0 <= vk <= 0xA5
        },
        0x30 <= vk <= 0x39 || 0x41 <= vk <= 0x5A ==> shown@ == seq![vk as char],
        vk == 0x1B ==> shown@ == "Escape"@,
        vk == 0xA3 ==> shown@ == "RightCtrl"@,
        vk == 0xA5 ==> shown@ == "RightAlt"@,
        0x70 <= vk <= 0x7B ==> shown@ == "F"@ + text::decimal((vk - 0x6F) as nat),
        !has_name ==> text::begins_with(shown@, "VK0x"@),
{
    shown_names_resolve_back(vk);
    if 0x70 <= vk <= 0x7B {
        reveal_strlit("F");
        reveal_strlit("F1");
        reveal_strlit("F2");
        reveal_strlit("F3");
        reveal_strlit("F4");
        reveal_strlit("F5");
        reveal_strlit("F6");
        reveal_strlit("F7");
        reveal_strlit("F8");
        reveal_strlit("F9");
        reveal_strlit("F10");
        reveal_strlit("F11");
        reveal_strlit("F12");
        reveal_with_fuel(text::decimal, 2);
        assert(shown@ =~= "F"@ + text::decimal((vk - 0x6F) as nat));
    }
    if !resolvable(vk) {
        assert(shown@.take("VK0x"@.len() as int) =~= "VK0x"@);
    }
}

/// The case of letters does not matter in the name of a key.
pub proof fn key_names_ignore_case(a: &str, b: &str, x: Option<u32>, y: Option<u32>)
    requires
        call_ensures(from_key_name, (a,), x),
        call_ensures(from_key_name, (b,), y),
        a@.len() == b@.len(),
        forall|i: int|
            0 <= i < a@.len() ==> #[trigger] text::lower(a@[i]) == #[trigger] text::lower(b@[i]),
    ensures
        x == y,
{
    let (s, t) = (text::lowered(a@), text::lowered(b@));
    assert forall|i: int| 0 <= i < s.len() implies s[i] == t[i] by {
        assert(s[i] == text::lower(a@[i]));
        assert(t[i] == text::lower(b@[i]));
    }
    assert(s =~= t);
}

/// What a text of hexadecimal digits means as a number.
pub open spec fn hex_meant(s: Seq<char>) -> int
    decreases s.len(),
{
    if s.len() == 0 {
        0
    } else {
        16 * hex_meant(s.drop_last()) + (if '0' <= s.last() <= '9' {
            s.last() as int - '0' as int
        } else {
            s.last() as int - 'A' as int + 10
        })
    }
}

/// A key without a name is shown by its code in hexadecimal.
pub proof fn nameless_keys_show_their_code(vk: u32, shown: String, has_name: bool)
    requires
        call_ensures(vk_to_key_name, (vk,), shown),
        call_ensures(is_resolvable_vk, (vk,), has_name),
    ensures
        !has_name ==> shown@.len() > 4 && hex_meant(shown@.skip(4)) == vk,
{
    if !has_name {
        reveal_strlit("VK0x");
        hexadecimal_means(vk as nat);
        assert(shown@.skip(4) =~= hexadecimal(vk as nat));
    }
}

proof fn hexadecimal_means(n: nat)
    ensures
        hex_meant(hexadecimal(n)) == n,
        hexadecimal(n).len() > 0,
    decreases n,
{
    reveal_with_fuel(hex_meant, 2);
    if n >= 16 {
        hexadecimal_means(n / 16);
        assert(hexadecimal(n).drop_last() =~= hexadecimal(n / 16));
    } else {
        assert(hexadecimal(n).drop_last() =~= Seq::<char>::empty());
    }
}

} // verus!
