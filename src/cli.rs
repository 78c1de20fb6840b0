//! Splitting a command-line argument into its flag prefix and the rest.

use vstd::prelude::*;

use crate::ascii;
use vstd::string::StringSliceAdditionalSpecFns;
use vstd::utf8::{encode_utf8_valid_utf8, is_char_boundary, valid_utf8};

verus! {

/// How a command-line argument introduces a flag.
#[derive(Clone, Copy, Debug, Hash, PartialEq, Eq, Structural)]
pub enum FlagPrefix {
    /// No prefix: a plain argument.
    Empty,
    /// `-`
    Dash,
    /// `--`
    DashDash,
    /// `/`
    Slash,
}

impl FlagPrefix {
    pub const MASK: u8 = 0b0000_0011;

    pub const EMPTY_LEN: u8 = 0;
    pub const DASH_LEN: u8 = 1;
    pub const DASHDASH_LEN: u8 = 2;
    pub const SLASH_LEN: u8 = 1;

    /// `'-'`
    pub const DASH_ASCII: ascii = 0x2d;
    /// `'/'`
    pub const SLASH_ASCII: ascii = 0x2f;

    pub open spec fn spec_len(self) -> u8 {
        match self {
            Self::Empty => Self::EMPTY_LEN,
            Self::Dash => Self::DASH_LEN,
            Self::DashDash => Self::DASHDASH_LEN,
            Self::Slash => Self::SLASH_LEN,
        }
    }

    /// The number of bytes the prefix takes.
    #[verifier::when_used_as_spec(spec_len)]
    pub fn len(self) -> (r: u8)
        ensures
            r == self.spec_len(),
    {
        match self {
            Self::Empty => Self::EMPTY_LEN,
            Self::Dash => Self::DASH_LEN,
            Self::DashDash => Self::DASHDASH_LEN,
            Self::Slash => Self::SLASH_LEN,
        }
    }
}

impl FlagPrefix {
    /// The prefix's text.
    pub open spec fn text(self) -> Seq<char> {
        match self {
            Self::Empty => seq![],
            Self::Dash => seq!['-'],
            Self::DashDash => seq!['-', '-'],
            Self::Slash => seq!['/'],
        }
    }

    /// The prefix as it is written.
    pub fn as_str(self) -> (r: &'static str)
        ensures
            r@ == self.text(),
    {
        match self {
            Self::Empty => {
                proof {
                    reveal_strlit("");
                }
                ""
            },
            Self::Dash => {
                proof {
                    reveal_strlit("-");
                }
                "-"
            },
            Self::DashDash => {
                proof {
                    reveal_strlit("--");
                }
                "--"
            },
            Self::Slash => {
                proof {
                    reveal_strlit("/");
                }
                "/"
            },
        }
    }
}

/// The prefix that the argument with UTF-8 bytes `b` starts with: `/`, `--`,
/// `-`, or none.
pub open spec fn prefix_of(b: Seq<u8>) -> FlagPrefix {
    if b.len() >= 1 && b[0] == FlagPrefix::SLASH_ASCII {
        FlagPrefix::Slash
    } else if b.len() >= 2 && b[0] == FlagPrefix::DASH_ASCII && b[1] == FlagPrefix::DASH_ASCII {
        FlagPrefix::DashDash
    } else if b.len() >= 1 && b[0] == FlagPrefix::DASH_ASCII {
        FlagPrefix::Dash
    } else {
        FlagPrefix::Empty
    }
}

/// The byte of `array` at `index`, if there is one.
fn get_byte(array: &str, index: usize) -> (r: Option<ascii>)
    ensures
        index < array.spec_bytes().len() ==> r == Some(array.spec_bytes()[index as int]),
        index >= array.spec_bytes().len() ==> r is None,
{
    let bytes = array.as_bytes();
    if index >= bytes.len() {
        return None;
    }
    Some(bytes[index])
}

/// Splits `arg` into its flag prefix and what follows it.
pub fn split_prefix(arg: &str) -> (r: (FlagPrefix, &str))
    ensures
        r.0 == prefix_of(arg.spec_bytes()),
        r.1.spec_bytes() == arg.spec_bytes().subrange(
            r.0.len() as int,
            arg.spec_bytes().len() as int,
        ),
{
    let prefix = match get_byte(arg, 0) {
        Some(first) if first == FlagPrefix::SLASH_ASCII => FlagPrefix::Slash,
        Some(first) if first == FlagPrefix::DASH_ASCII => match get_byte(arg, 1) {
            Some(second) if second == FlagPrefix::DASH_ASCII => FlagPrefix::DashDash,
            _ => FlagPrefix::Dash,
        },
        _ => FlagPrefix::Empty,
    };
    let prefix_len = prefix.len() as usize;
    proof {
        let b = arg.spec_bytes();
        encode_utf8_valid_utf8(arg@);
        assert(valid_utf8(b));
        reveal_with_fuel(is_char_boundary, 3);
        reveal_with_fuel(valid_utf8, 3);
        assert(is_char_boundary(b, prefix_len as int));
    }
    let (_, rest) = arg.split_at(prefix_len);
    (prefix, rest)
}

} // verus!
