use vstd::prelude::*;
use vstd::string::StringExecFns;

verus! {

/// The hexadecimal digit for a number below 16, in upper case.
pub open spec fn hex_digit(nibble: int) -> char {
    if nibble == 0 {
        '0'
    } else if nibble == 1 {
        '1'
    } else if nibble == 2 {
        '2'
    } else if nibble == 3 {
        '3'
    } else if nibble == 4 {
        '4'
    } else if nibble == 5 {
        '5'
    } else if nibble == 6 {
        '6'
    } else if nibble == 7 {
        '7'
    } else if nibble == 8 {
        '8'
    } else if nibble == 9 {
        '9'
    } else if nibble == 10 {
        'A'
    } else if nibble == 11 {
        'B'
    } else if nibble == 12 {
        'C'
    } else if nibble == 13 {
        'D'
    } else if nibble == 14 {
        'E'
    } else {
        'F'
    }
}

/// A byte as two hexadecimal digits.
pub open spec fn hex_byte(byte: u8) -> Seq<char> {
    seq![hex_digit(byte as int / 16), hex_digit(byte as int % 16)]
}

/// A word as four hexadecimal digits.
pub open spec fn hex_word(word: u16) -> Seq<char> {
    hex_byte((word / 256) as u8) + hex_byte((word % 256) as u8)
}

/// Appends `yes` to `text` if `which` holds and `no` if not.
pub fn append_either(text: &mut String, which: bool, yes: &str, no: &str)
    ensures
        final(text)@ == old(text)@ + (if which {
            yes@
        } else {
            no@
        }),
{
    if which {
        text.append(yes);
    } else {
        text.append(no);
    }
}

/// The hexadecimal digit for a number below 16 as a string.
pub fn hex_digit_str(nibble: u8) -> (digit: &'static str)
    requires
        nibble < 16,
    ensures
        digit@ == seq![hex_digit(nibble as int)],
{
    proof {
        reveal_strlit("0");
        reveal_strlit("1");
        reveal_strlit("2");
        reveal_strlit("3");
        reveal_strlit("4");
        reveal_strlit("5");
        reveal_strlit("6");
        reveal_strlit("7");
        reveal_strlit("8");
        reveal_strlit("9");
        reveal_strlit("A");
        reveal_strlit("B");
        reveal_strlit("C");
        reveal_strlit("D");
        reveal_strlit("E");
        reveal_strlit("F");
    }
    match nibble {
        0 => "0",
        1 => "1",
        2 => "2",
        3 => "3",
        4 => "4",
        5 => "5",
        6 => "6",
        7 => "7",
        8 => "8",
        9 => "9",
        10 => "A",
        11 => "B",
        12 => "C",
        13 => "D",
        14 => "E",
        _ => "F",
    }
}

/// Appends a byte to `text` as two hexadecimal digits.
pub fn append_hex_byte(text: &mut String, byte: u8)
    ensures
        final(text)@ == old(text)@ + hex_byte(byte),
{
    text.append(hex_digit_str(byte / 16));
    text.append(hex_digit_str(byte % 16));
    proof {
        assert(text@ =~= old(text)@ + hex_byte(byte));
    }
}

/// Appends a word to `text` as four hexadecimal digits.
pub fn append_hex_word(text: &mut String, word: u16)
    ensures
        final(text)@ == old(text)@ + hex_word(word),
{
    append_hex_byte(text, (word / 256) as u8);
    append_hex_byte(text, (word % 256) as u8);
    proof {
        assert(text@ =~= old(text)@ + hex_word(word));
    }
}

} // verus!
