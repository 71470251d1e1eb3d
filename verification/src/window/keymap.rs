//! The keys a text entry reacts to, and the text each one types.
use vstd::prelude::*;
use vstd::string::StringExecFns;

verus! {

/// A key of the keyboard as the text logic sees it: the letters, the space
/// bar, the backspace key, and any other key.
#[derive(Copy, Clone, PartialEq, Eq, Debug, Structural)]
pub enum Key {
    A,
    B,
    C,
    D,
    E,
    F,
    G,
    H,
    I,
    J,
    K,
    L,
    M,
    N,
    O,
    P,
    Q,
    R,
    S,
    T,
    U,
    V,
    W,
    X,
    Y,
    Z,
    Space,
    Back,
    Other,
}

/// The text a key types, if it types any: a letter key types its lower-case
/// letter and the space bar a space.
pub open spec fn key_text(key: Key) -> Option<Seq<char>> {
    match key {
        Key::A => Some("a"@),
        Key::B => Some("b"@),
        Key::C => Some("c"@),
        Key::D => Some("d"@),
        Key::E => Some("e"@),
        Key::F => Some("f"@),
        Key::G => Some("g"@),
        Key::H => Some("h"@),
        Key::I => Some("i"@),
        Key::J => Some("j"@),
        Key::K => Some("k"@),
        Key::L => Some("l"@),
        Key::M => Some("m"@),
        Key::N => Some("n"@),
        Key::O => Some("o"@),
        Key::P => Some("p"@),
        Key::Q => Some("q"@),
        Key::R => Some("r"@),
        Key::S => Some("s"@),
        Key::T => Some("t"@),
        Key::U => Some("u"@),
        Key::V => Some("v"@),
        Key::W => Some("w"@),
        Key::X => Some("x"@),
        Key::Y => Some("y"@),
        Key::Z => Some("z"@),
        Key::Space => Some(" "@),
        _ => None,
    }
}

pub fn code_to_string(keycode: Key) -> (text: Option<String>)
    ensures
        match text {
            Some(s) => key_text(keycode) == Some(s@),
            None => key_text(keycode) is None,
        },
{
    match keycode {
        Key::A => Some(String::from_str("a")),
        Key::B => Some(String::from_str("b")),
        Key::C => Some(String::from_str("c")),
        Key::D => Some(String::from_str("d")),
        Key::E => Some(String::from_str("e")),
        Key::F => Some(String::from_str("f")),
        Key::G => Some(String::from_str("g")),
        Key::H => Some(String::from_str("h")),
        Key::I => Some(String::from_str("i")),
        Key::J => Some(String::from_str("j")),
        Key::K => Some(String::from_str("k")),
        Key::L => Some(String::from_str("l")),
        Key::M => Some(String::from_str("m")),
        Key::N => Some(String::from_str("n")),
        Key::O => Some(String::from_str("o")),
        Key::P => Some(String::from_str("p")),
        Key::Q => Some(String::from_str("q")),
        Key::R => Some(String::from_str("r")),
        Key::S => Some(String::from_str("s")),
        Key::T => Some(String::from_str("t")),
        Key::U => Some(String::from_str("u")),
        Key::V => Some(String::from_str("v")),
        Key::W => Some(String::from_str("w")),
        Key::X => Some(String::from_str("x")),
        Key::Y => Some(String::from_str("y")),
        Key::Z => Some(String::from_str("z")),
        Key::Space => Some(String::from_str(" ")),
        _ => None,
    }
}

/// Every key that types text types exactly one character; a letter key
/// types a lower-case letter.
pub proof fn lemma_keys_type_one_char(key: Key)
    ensures
        key_text(key) matches Some(text) ==> text.len() == 1,
        key_text(key) matches Some(text) ==> (key != Key::Space ==> 'a' <= text[0] <= 'z'),
        key_text(key) matches Some(text) ==> (key == Key::Space ==> text[0] == ' '),
        key_text(key) is None <==> (key == Key::Back || key == Key::Other),
{
    reveal_strlit("a");
    reveal_strlit("b");
    reveal_strlit("c");
    reveal_strlit("d");
    reveal_strlit("e");
    reveal_strlit("f");
    reveal_strlit("g");
    reveal_strlit("h");
    reveal_strlit("i");
    reveal_strlit("j");
    reveal_strlit("k");
    reveal_strlit("l");
    reveal_strlit("m");
    reveal_strlit("n");
    reveal_strlit("o");
    reveal_strlit("p");
    reveal_strlit("q");
    reveal_strlit("r");
    reveal_strlit("s");
    reveal_strlit("t");
    reveal_strlit("u");
    reveal_strlit("v");
    reveal_strlit("w");
    reveal_strlit("x");
    reveal_strlit("y");
    reveal_strlit("z");
    reveal_strlit(" ");
}

/// Each letter key types its own lower-case letter, the space bar a space,
/// and the backspace key and every other key no text.
pub proof fn lemma_each_key_types_its_letter()
    ensures
        key_text(Key::A) == Some(seq!['a']),
        key_text(Key::B) == Some(seq!['b']),
        key_text(Key::C) == Some(seq!['c']),
        key_text(Key::D) == Some(seq!['d']),
        key_text(Key::E) == Some(seq!['e']),
        key_text(Key::F) == Some(seq!['f']),
        key_text(Key::G) == Some(seq!['g']),
        key_text(Key::H) == Some(seq!['h']),
        key_text(Key::I) == Some(seq!['i']),
        key_text(Key::J) == Some(seq!['j']),
        key_text(Key::K) == Some(seq!['k']),
        key_text(Key::L) == Some(seq!['l']),
        key_text(Key::M) == Some(seq!['m']),
        key_text(Key::N) == Some(seq!['n']),
        key_text(Key::O) == Some(seq!['o']),
        key_text(Key::P) == Some(seq!['p']),
        key_text(Key::Q) == Some(seq!['q']),
        key_text(Key::R) == Some(seq!['r']),
        key_text(Key::S) == Some(seq!['s']),
        key_text(Key::T) == Some(seq!['t']),
        key_text(Key::U) == Some(seq!['u']),
        key_text(Key::V) == Some(seq!['v']),
        key_text(Key::W) == Some(seq!['w']),
        key_text(Key::X) == Some(seq!['x']),
        key_text(Key::Y) == Some(seq!['y']),
        key_text(Key::Z) == Some(seq!['z']),
        key_text(Key::Space) == Some(seq![' ']),
        key_text(Key::Back) is None,
        key_text(Key::Other) is None,
{
    reveal_strlit("a");
    reveal_strlit("b");
    reveal_strlit("c");
    reveal_strlit("d");
    reveal_strlit("e");
    reveal_strlit("f");
    reveal_strlit("g");
    reveal_strlit("h");
    reveal_strlit("i");
    reveal_strlit("j");
    reveal_strlit("k");
    reveal_strlit("l");
    reveal_strlit("m");
    reveal_strlit("n");
    reveal_strlit("o");
    reveal_strlit("p");
    reveal_strlit("q");
    reveal_strlit("r");
    reveal_strlit("s");
    reveal_strlit("t");
    reveal_strlit("u");
    reveal_strlit("v");
    reveal_strlit("w");
    reveal_strlit("x");
    reveal_strlit("y");
    reveal_strlit("z");
    reveal_strlit(" ");
    assert("a"@ =~= seq!['a']);
    assert("b"@ =~= seq!['b']);
    assert("c"@ =~= seq!['c']);
    assert("d"@ =~= seq!['d']);
    assert("e"@ =~= seq!['e']);
    assert("f"@ =~= seq!['f']);
    assert("g"@ =~= seq!['g']);
    assert("h"@ =~= seq!['h']);
    assert("i"@ =~= seq!['i']);
    assert("j"@ =~= seq!['j']);
    assert("k"@ =~= seq!['k']);
    assert("l"@ =~= seq!['l']);
    assert("m"@ =~= seq!['m']);
    assert("n"@ =~= seq!['n']);
    assert("o"@ =~= seq!['o']);
    assert("p"@ =~= seq!['p']);
    assert("q"@ =~= seq!['q']);
    assert("r"@ =~= seq!['r']);
    assert("s"@ =~= seq!['s']);
    assert("t"@ =~= seq!['t']);
    assert("u"@ =~= seq!['u']);
    assert("v"@ =~= seq!['v']);
    assert("w"@ =~= seq!['w']);
    assert("x"@ =~= seq!['x']);
    assert("y"@ =~= seq!['y']);
    assert("z"@ =~= seq!['z']);
    assert(" "@ =~= seq![' ']);
}

/// Two keys that type the same text are the same key.
pub proof fn lemma_keys_type_distinct_text(a: Key, b: Key)
    requires
        key_text(a) is Some,
        key_text(a) == key_text(b),
    ensures
        a == b,
{
    lemma_each_key_types_its_letter();
    let ta = key_text(a)->0;
    let tb = key_text(b)->0;
    assert(ta[0] == tb[0]);
}

} // verus!
