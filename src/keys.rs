use vstd::prelude::*;

verus! {

/// The keys that the workflow presses.
#[derive(Debug, Clone, Copy, PartialEq, Eq, Structural)]
pub enum KeyKind {
    Backspace,
    Esc,
    Zero,
    One,
    Two,
    Three,
    Four,
    Five,
    Six,
    Seven,
    Eight,
    Nine,
}

/// The key that types the decimal digit `d`.
pub open spec fn digit_key(d: int) -> KeyKind {
    if d == 0 {
        KeyKind::Zero
    } else if d == 1 {
        KeyKind::One
    } else if d == 2 {
        KeyKind::Two
    } else if d == 3 {
        KeyKind::Three
    } else if d == 4 {
        KeyKind::Four
    } else if d == 5 {
        KeyKind::Five
    } else if d == 6 {
        KeyKind::Six
    } else if d == 7 {
        KeyKind::Seven
    } else if d == 8 {
        KeyKind::Eight
    } else {
        KeyKind::Nine
    }
}

/// The digit that `key` types, if it is a digit key.
pub open spec fn key_digit(key: KeyKind) -> Option<int> {
    match key {
        KeyKind::Zero => Some(0),
        KeyKind::One => Some(1),
        KeyKind::Two => Some(2),
        KeyKind::Three => Some(3),
        KeyKind::Four => Some(4),
        KeyKind::Five => Some(5),
        KeyKind::Six => Some(6),
        KeyKind::Seven => Some(7),
        KeyKind::Eight => Some(8),
        KeyKind::Nine => Some(9),
        _ => None,
    }
}

/// The key for the decimal digit `d`.
pub fn digit_to_key(d: u32) -> (r: KeyKind)
    requires
        d < 10,
    ensures
        r == digit_key(d as int),
        key_digit(r) == Some(d as int),
{
    match d {
        0 => KeyKind::Zero,
        1 => KeyKind::One,
        2 => KeyKind::Two,
        3 => KeyKind::Three,
        4 => KeyKind::Four,
        5 => KeyKind::Five,
        6 => KeyKind::Six,
        7 => KeyKind::Seven,
        8 => KeyKind::Eight,
        _ => KeyKind::Nine,
    }
}

} // verus!
