//! The twelve keypad symbols.

use vstd::prelude::*;

verus! {

/// One of the twelve symbols on a phone keypad: the digits `0` through
/// `9`, the asterisk and the pound sign.
#[derive(Copy, Clone, Debug, PartialEq, Eq, Hash, Structural)]
pub enum Key {
    Zero,
    One,
    Two,
    Three,
    Four,
    Five,
    Six,
    Seven,
    Eight,
    Nine,
    Asterisk,
    Pound,
}

impl Key {
    /// The fixed single-character glyph of the key's label.
    pub open spec fn glyph(self) -> char {
        match self {
            Key::Zero => '0',
            Key::One => '1',
            Key::Two => '2',
            Key::Three => '3',
            Key::Four => '4',
            Key::Five => '5',
            Key::Six => '6',
            Key::Seven => '7',
            Key::Eight => '8',
            Key::Nine => '9',
            Key::Asterisk => '*',
            Key::Pound => '#',
        }
    }

    /// Returns the key's glyph as a character.
    pub fn glyph_char(self) -> (c: char)
        ensures
            c == self.glyph(),
    {
        match self {
            Key::Zero => '0',
            Key::One => '1',
            Key::Two => '2',
            Key::Three => '3',
            Key::Four => '4',
            Key::Five => '5',
            Key::Six => '6',
            Key::Seven => '7',
            Key::Eight => '8',
            Key::Nine => '9',
            Key::Asterisk => '*',
            Key::Pound => '#',
        }
    }

    /// Returns the fixed single-character label for the key.
    ///
    /// Total over all twelve variants; every label is exactly one
    /// character long, the key's glyph.
    pub fn as_str(self) -> (r: &'static str)
        ensures
            r@ == seq![self.glyph()],
    {
        match self {
            Key::Zero => {
                proof {
                    reveal_strlit("0");
                    assert("0"@ =~= seq!['0']);
                }
                "0"
            },
            Key::One => {
                proof {
                    reveal_strlit("1");
                    assert("1"@ =~= seq!['1']);
                }
                "1"
            },
            Key::Two => {
                proof {
                    reveal_strlit("2");
                    assert("2"@ =~= seq!['2']);
                }
                "2"
            },
            Key::Three => {
                proof {
                    reveal_strlit("3");
                    assert("3"@ =~= seq!['3']);
                }
                "3"
            },
            Key::Four => {
                proof {
                    reveal_strlit("4");
                    assert("4"@ =~= seq!['4']);
                }
                "4"
            },
            Key::Five => {
                proof {
                    reveal_strlit("5");
                    assert("5"@ =~= seq!['5']);
                }
                "5"
            },
            Key::Six => {
                proof {
                    reveal_strlit("6");
                    assert("6"@ =~= seq!['6']);
                }
                "6"
            },
            Key::Seven => {
                proof {
                    reveal_strlit("7");
                    assert("7"@ =~= seq!['7']);
                }
                "7"
            },
            Key::Eight => {
                proof {
                    reveal_strlit("8");
                    assert("8"@ =~= seq!['8']);
                }
                "8"
            },
            Key::Nine => {
                proof {
                    reveal_strlit("9");
                    assert("9"@ =~= seq!['9']);
                }
                "9"
            },
            Key::Asterisk => {
                proof {
                    reveal_strlit("*");
                    assert("*"@ =~= seq!['*']);
                }
                "*"
            },
            Key::Pound => {
                proof {
                    reveal_strlit("#");
                    assert("#"@ =~= seq!['#']);
                }
                "#"
            },
        }
    }
}

} // verus!
