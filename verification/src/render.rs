//! Rendering unsigned integers in the styles the language records:
//! binary, decimal, hexadecimal, and four-character ASCII codes.

use vstd::prelude::*;
use vstd::string::StringExecFns;

use crate::syntax::UIntStyle;

verus! {

/// The character of one digit value below sixteen: `0`–`9`, then
/// `a`–`f`.
pub open spec fn digit_char_spec(d: u64) -> char {
    if d < 10 {
        (0x30 + d) as char
    } else {
        (0x57 + d) as char
    }
}

/// The binary digits of a value, most significant first.
pub open spec fn digits2_spec(v: u64) -> Seq<char>
    decreases v,
{
    if v < 2 {
        seq![digit_char_spec(v)]
    } else {
        digits2_spec(v / 2) + seq![digit_char_spec(v % 2)]
    }
}

/// The decimal digits of a value, most significant first.
pub open spec fn digits10_spec(v: u64) -> Seq<char>
    decreases v,
{
    if v < 10 {
        seq![digit_char_spec(v)]
    } else {
        digits10_spec(v / 10) + seq![digit_char_spec(v % 10)]
    }
}

/// The hexadecimal digits of a value, most significant first.
pub open spec fn digits16_spec(v: u64) -> Seq<char>
    decreases v,
{
    if v < 16 {
        seq![digit_char_spec(v)]
    } else {
        digits16_spec(v / 16) + seq![digit_char_spec(v % 16)]
    }
}

/// The big-endian bytes of a value stored in `size` bytes.
pub open spec fn be_bytes_spec(v: u64, size: u64) -> Seq<u8> {
    if size == 1 {
        seq![v as u8]
    } else if size == 2 {
        seq![(v >> 8) as u8, v as u8]
    } else if size == 4 {
        seq![(v >> 24) as u8, (v >> 16) as u8, (v >> 8) as u8, v as u8]
    } else {
        seq![
            (v >> 56) as u8,
            (v >> 48) as u8,
            (v >> 40) as u8,
            (v >> 32) as u8,
            (v >> 24) as u8,
            (v >> 16) as u8,
            (v >> 8) as u8,
            v as u8,
        ]
    }
}

/// Whether a byte is printable ASCII: ASCII and not a control character.
pub open spec fn printable_spec(b: u8) -> bool {
    0x20 <= b < 0x7f
}

/// Whether every byte from position `i` on is printable ASCII.
pub open spec fn all_printable_from_spec(bs: Seq<u8>, i: nat) -> bool
    decreases bs.len() - i,
{
    if i < bs.len() {
        printable_spec(bs[i as int]) && all_printable_from_spec(bs, i + 1)
    } else {
        true
    }
}

/// The characters of the bytes from position `i` on.
pub open spec fn chars_from_spec(bs: Seq<u8>, i: nat) -> Seq<char>
    decreases bs.len() - i,
{
    if i < bs.len() {
        seq![bs[i as int] as char] + chars_from_spec(bs, i + 1)
    } else {
        Seq::empty()
    }
}

/// What formatting an unsigned value of `size` bytes in a style yields:
/// `0b` and binary digits, plain decimal digits, `0x` and hexadecimal
/// digits, or — for the ASCII style — the quoted characters of the
/// value's big-endian bytes when they are all printable, and the
/// hexadecimal form otherwise.
pub open spec fn format_spec(style: UIntStyle, v: u64, size: u64) -> Seq<char> {
    match style {
        UIntStyle::Binary => seq!['0', 'b'] + digits2_spec(v),
        UIntStyle::Decimal => digits10_spec(v),
        UIntStyle::Hexadecimal => seq!['0', 'x'] + digits16_spec(v),
        UIntStyle::Ascii => {
            let bs = be_bytes_spec(v, size);
            if all_printable_from_spec(bs, 0) {
                seq!['"'] + chars_from_spec(bs, 0) + seq!['"']
            } else {
                seq!['0', 'x'] + digits16_spec(v)
            }
        },
    }
}

/// The digit string of one digit value below sixteen.
fn digit_str(d: u64) -> (r: &'static str)
    requires
        d < 16,
    ensures
        r@ == seq![digit_char_spec(d)],
{
    match d {
        0u64 => {
            proof {
                reveal_strlit("0");
            }
            "0"
        },
        1u64 => {
            proof {
                reveal_strlit("1");
            }
            "1"
        },
        2u64 => {
            proof {
                reveal_strlit("2");
            }
            "2"
        },
        3u64 => {
            proof {
                reveal_strlit("3");
            }
            "3"
        },
        4u64 => {
            proof {
                reveal_strlit("4");
            }
            "4"
        },
        5u64 => {
            proof {
                reveal_strlit("5");
            }
            "5"
        },
        6u64 => {
            proof {
                reveal_strlit("6");
            }
            "6"
        },
        7u64 => {
            proof {
                reveal_strlit("7");
            }
            "7"
        },
        8u64 => {
            proof {
                reveal_strlit("8");
            }
            "8"
        },
        9u64 => {
            proof {
                reveal_strlit("9");
            }
            "9"
        },
        10u64 => {
            proof {
                reveal_strlit("a");
            }
            "a"
        },
        11u64 => {
            proof {
                reveal_strlit("b");
            }
            "b"
        },
        12u64 => {
            proof {
                reveal_strlit("c");
            }
            "c"
        },
        13u64 => {
            proof {
                reveal_strlit("d");
            }
            "d"
        },
        14u64 => {
            proof {
                reveal_strlit("e");
            }
            "e"
        },
        _ => {
            proof {
                reveal_strlit("f");
            }
            "f"
        },
    }
}

/// The binary digits of a value, as a string.
fn digits2(v: u64) -> (r: String)
    ensures
        r@ == digits2_spec(v),
    decreases v,
{
    if v < 2 {
        digit_str(v).to_owned()
    } else {
        let mut s = digits2(v / 2);
        s.append(digit_str(v % 2));
        s
    }
}

/// The decimal digits of a value, as a string.
fn digits10(v: u64) -> (r: String)
    ensures
        r@ == digits10_spec(v),
    decreases v,
{
    if v < 10 {
        digit_str(v).to_owned()
    } else {
        let mut s = digits10(v / 10);
        s.append(digit_str(v % 10));
        s
    }
}

/// The hexadecimal digits of a value, as a string.
fn digits16(v: u64) -> (r: String)
    ensures
        r@ == digits16_spec(v),
    decreases v,
{
    if v < 16 {
        digit_str(v).to_owned()
    } else {
        let mut s = digits16(v / 16);
        s.append(digit_str(v % 16));
        s
    }
}

/// The string of one printable ASCII byte.
fn ascii_byte_str(b: u8) -> (r: &'static str)
    requires
        printable_spec(b),
    ensures
        r@ == seq![b as char],
{
    match b {
        32u8 => {
            proof {
                reveal_strlit(" ");
            }
            " "
        },
        33u8 => {
            proof {
                reveal_strlit("!");
            }
            "!"
        },
        34u8 => {
            proof {
                reveal_strlit("\"");
            }
            "\""
        },
        35u8 => {
            proof {
                reveal_strlit("#");
            }
            "#"
        },
        36u8 => {
            proof {
                reveal_strlit("$");
            }
            "$"
        },
        37u8 => {
            proof {
                reveal_strlit("%");
            }
            "%"
        },
        38u8 => {
            proof {
                reveal_strlit("&");
            }
            "&"
        },
        39u8 => {
            proof {
                reveal_strlit("'");
            }
            "'"
        },
        40u8 => {
            proof {
                reveal_strlit("(");
            }
            "("
        },
        41u8 => {
            proof {
                reveal_strlit(")");
            }
            ")"
        },
        42u8 => {
            proof {
                reveal_strlit("*");
            }
            "*"
        },
        43u8 => {
            proof {
                reveal_strlit("+");
            }
            "+"
        },
        44u8 => {
            proof {
                reveal_strlit(",");
            }
            ","
        },
        45u8 => {
            proof {
                reveal_strlit("-");
            }
            "-"
        },
        46u8 => {
            proof {
                reveal_strlit(".");
            }
            "."
        },
        47u8 => {
            proof {
                reveal_strlit("/");
            }
            "/"
        },
        48u8 => {
            proof {
                reveal_strlit("0");
            }
            "0"
        },
        49u8 => {
            proof {
                reveal_strlit("1");
            }
            "1"
        },
        50u8 => {
            proof {
                reveal_strlit("2");
            }
            "2"
        },
        51u8 => {
            proof {
                reveal_strlit("3");
            }
            "3"
        },
        52u8 => {
            proof {
                reveal_strlit("4");
            }
            "4"
        },
        53u8 => {
            proof {
                reveal_strlit("5");
            }
            "5"
        },
        54u8 => {
            proof {
                reveal_strlit("6");
            }
            "6"
        },
        55u8 => {
            proof {
                reveal_strlit("7");
            }
            "7"
        },
        56u8 => {
            proof {
                reveal_strlit("8");
            }
            "8"
        },
        57u8 => {
            proof {
                reveal_strlit("9");
            }
            "9"
        },
        58u8 => {
            proof {
                reveal_strlit(":");
            }
            ":"
        },
        59u8 => {
            proof {
                reveal_strlit(";");
            }
            ";"
        },
        60u8 => {
            proof {
                reveal_strlit("<");
            }
            "<"
        },
        61u8 => {
            proof {
                reveal_strlit("=");
            }
            "="
        },
        62u8 => {
            proof {
                reveal_strlit(">");
            }
            ">"
        },
        63u8 => {
            proof {
                reveal_strlit("?");
            }
            "?"
        },
        64u8 => {
            proof {
                reveal_strlit("@");
            }
            "@"
        },
        65u8 => {
            proof {
                reveal_strlit("A");
            }
            "A"
        },
        66u8 => {
            proof {
                reveal_strlit("B");
            }
            "B"
        },
        67u8 => {
            proof {
                reveal_strlit("C");
            }
            "C"
        },
        68u8 => {
            proof {
                reveal_strlit("D");
            }
            "D"
        },
        69u8 => {
            proof {
                reveal_strlit("E");
            }
            "E"
        },
        70u8 => {
            proof {
                reveal_strlit("F");
            }
            "F"
        },
        71u8 => {
            proof {
                reveal_strlit("G");
            }
            "G"
        },
        72u8 => {
            proof {
                reveal_strlit("H");
            }
            "H"
        },
        73u8 => {
            proof {
                reveal_strlit("I");
            }
            "I"
        },
        74u8 => {
            proof {
                reveal_strlit("J");
            }
            "J"
        },
        75u8 => {
            proof {
                reveal_strlit("K");
            }
            "K"
        },
        76u8 => {
            proof {
                reveal_strlit("L");
            }
            "L"
        },
        77u8 => {
            proof {
                reveal_strlit("M");
            }
            "M"
        },
        78u8 => {
            proof {
                reveal_strlit("N");
            }
            "N"
        },
        79u8 => {
            proof {
                reveal_strlit("O");
            }
            "O"
        },
        80u8 => {
            proof {
                reveal_strlit("P");
            }
            "P"
        },
        81u8 => {
            proof {
                reveal_strlit("Q");
            }
            "Q"
        },
        82u8 => {
            proof {
                reveal_strlit("R");
            }
            "R"
        },
        83u8 => {
            proof {
                reveal_strlit("S");
            }
            "S"
        },
        84u8 => {
            proof {
                reveal_strlit("T");
            }
            "T"
        },
        85u8 => {
            proof {
                reveal_strlit("U");
            }
            "U"
        },
        86u8 => {
            proof {
                reveal_strlit("V");
            }
            "V"
        },
        87u8 => {
            proof {
                reveal_strlit("W");
            }
            "W"
        },
        88u8 => {
            proof {
                reveal_strlit("X");
            }
            "X"
        },
        89u8 => {
            proof {
                reveal_strlit("Y");
            }
            "Y"
        },
        90u8 => {
            proof {
                reveal_strlit("Z");
            }
            "Z"
        },
        91u8 => {
            proof {
                reveal_strlit("[");
            }
            "["
        },
        92u8 => {
            proof {
                reveal_strlit("\\");
            }
            "\\"
        },
        93u8 => {
            proof {
                reveal_strlit("]");
            }
            "]"
        },
        94u8 => {
            proof {
                reveal_strlit("^");
            }
            "^"
        },
        95u8 => {
            proof {
                reveal_strlit("_");
            }
            "_"
        },
        96u8 => {
            proof {
                reveal_strlit("`");
            }
            "`"
        },
        97u8 => {
            proof {
                reveal_strlit("a");
            }
            "a"
        },
        98u8 => {
            proof {
                reveal_strlit("b");
            }
            "b"
        },
        99u8 => {
            proof {
                reveal_strlit("c");
            }
            "c"
        },
        100u8 => {
            proof {
                reveal_strlit("d");
            }
            "d"
        },
        101u8 => {
            proof {
                reveal_strlit("e");
            }
            "e"
        },
        102u8 => {
            proof {
                reveal_strlit("f");
            }
            "f"
        },
        103u8 => {
            proof {
                reveal_strlit("g");
            }
            "g"
        },
        104u8 => {
            proof {
                reveal_strlit("h");
            }
            "h"
        },
        105u8 => {
            proof {
                reveal_strlit("i");
            }
            "i"
        },
        106u8 => {
            proof {
                reveal_strlit("j");
            }
            "j"
        },
        107u8 => {
            proof {
                reveal_strlit("k");
            }
            "k"
        },
        108u8 => {
            proof {
                reveal_strlit("l");
            }
            "l"
        },
        109u8 => {
            proof {
                reveal_strlit("m");
            }
            "m"
        },
        110u8 => {
            proof {
                reveal_strlit("n");
            }
            "n"
        },
        111u8 => {
            proof {
                reveal_strlit("o");
            }
            "o"
        },
        112u8 => {
            proof {
                reveal_strlit("p");
            }
            "p"
        },
        113u8 => {
            proof {
                reveal_strlit("q");
            }
            "q"
        },
        114u8 => {
            proof {
                reveal_strlit("r");
            }
            "r"
        },
        115u8 => {
            proof {
                reveal_strlit("s");
            }
            "s"
        },
        116u8 => {
            proof {
                reveal_strlit("t");
            }
            "t"
        },
        117u8 => {
            proof {
                reveal_strlit("u");
            }
            "u"
        },
        118u8 => {
            proof {
                reveal_strlit("v");
            }
            "v"
        },
        119u8 => {
            proof {
                reveal_strlit("w");
            }
            "w"
        },
        120u8 => {
            proof {
                reveal_strlit("x");
            }
            "x"
        },
        121u8 => {
            proof {
                reveal_strlit("y");
            }
            "y"
        },
        122u8 => {
            proof {
                reveal_strlit("z");
            }
            "z"
        },
        123u8 => {
            proof {
                reveal_strlit("{");
            }
            "{"
        },
        124u8 => {
            proof {
                reveal_strlit("|");
            }
            "|"
        },
        125u8 => {
            proof {
                reveal_strlit("}");
            }
            "}"
        },
        126u8 => {
            proof {
                reveal_strlit("~");
            }
            "~"
        },
        _ => {
            proof {
                assert(false);
            }
            ""
        },
    }
}

/// The big-endian bytes of a value stored in `size` bytes.
fn be_bytes(v: u64, size: u64) -> (r: Vec<u8>)
    requires
        size == 1 || size == 2 || size == 4 || size == 8,
    ensures
        r@ == be_bytes_spec(v, size),
{
    let mut r: Vec<u8> = Vec::new();
    if size == 1 {
        r.push(v as u8);
        proof {
            assert(r@ =~= be_bytes_spec(v, size));
        }
    } else if size == 2 {
        r.push((v >> 8u64) as u8);
        r.push(v as u8);
        proof {
            assert(r@ =~= be_bytes_spec(v, size));
        }
    } else if size == 4 {
        r.push((v >> 24u64) as u8);
        r.push((v >> 16u64) as u8);
        r.push((v >> 8u64) as u8);
        r.push(v as u8);
        proof {
            assert(r@ =~= be_bytes_spec(v, size));
        }
    } else {
        r.push((v >> 56u64) as u8);
        r.push((v >> 48u64) as u8);
        r.push((v >> 40u64) as u8);
        r.push((v >> 32u64) as u8);
        r.push((v >> 24u64) as u8);
        r.push((v >> 16u64) as u8);
        r.push((v >> 8u64) as u8);
        r.push(v as u8);
        proof {
            assert(r@ =~= be_bytes_spec(v, size));
        }
    }
    r
}

/// Whether every byte from position `i` on is printable ASCII.
fn all_printable_from(bs: &Vec<u8>, i: usize) -> (r: bool)
    requires
        i <= bs.len(),
    ensures
        r == all_printable_from_spec(bs@, i as nat),
    decreases bs.len() - i,
{
    if i < bs.len() {
        let b = bs[i];
        (0x20 <= b && b < 0x7f) && all_printable_from(bs, i + 1)
    } else {
        true
    }
}

/// The characters of the bytes from position `i` on, as a string.
fn chars_from(bs: &Vec<u8>, i: usize) -> (r: String)
    requires
        i <= bs.len(),
        all_printable_from_spec(bs@, i as nat),
    ensures
        r@ == chars_from_spec(bs@, i as nat),
    decreases bs.len() - i,
{
    if i < bs.len() {
        let mut s = ascii_byte_str(bs[i]).to_owned();
        let rest = chars_from(bs, i + 1);
        s.append(rest.as_str());
        s
    } else {
        String::new()
    }
}

impl UIntStyle {
    /// Format an unsigned value that is stored in `size` bytes, in this
    /// style: binary as `0b…`, decimal as plain digits, hexadecimal as
    /// `0x…`, and the ASCII style as the quoted characters of the
    /// value's bytes when they are all printable (a four-character
    /// code), falling back to hexadecimal otherwise.
    pub fn format(&self, number: u64, size: u64) -> (r: String)
        requires
            size == 1 || size == 2 || size == 4 || size == 8,
        ensures
            r@ == format_spec(*self, number, size),
    {
        match self {
            UIntStyle::Binary => {
                proof {
                    reveal_strlit("0b");
                }
                let mut s = "0b".to_owned();
                let ds = digits2(number);
                s.append(ds.as_str());
                proof {
                    assert(s@ =~= format_spec(UIntStyle::Binary, number, size));
                }
                s
            },
            UIntStyle::Decimal => digits10(number),
            UIntStyle::Hexadecimal => {
                proof {
                    reveal_strlit("0x");
                }
                let mut s = "0x".to_owned();
                let ds = digits16(number);
                s.append(ds.as_str());
                proof {
                    assert(s@ =~= format_spec(UIntStyle::Hexadecimal, number, size));
                }
                s
            },
            UIntStyle::Ascii => {
                let bs = be_bytes(number, size);
                if all_printable_from(&bs, 0) {
                    proof {
                        reveal_strlit("\"");
                    }
                    let mut s = "\"".to_owned();
                    let cs = chars_from(&bs, 0);
                    s.append(cs.as_str());
                    s.append("\"");
                    proof {
                        assert(s@ =~= format_spec(UIntStyle::Ascii, number, size));
                    }
                    s
                } else {
                    proof {
                        reveal_strlit("0x");
                    }
                    let mut s = "0x".to_owned();
                    let ds = digits16(number);
                    s.append(ds.as_str());
                    proof {
                        assert(s@ =~= format_spec(UIntStyle::Ascii, number, size));
                    }
                    s
                }
            },
        }
    }
}

} // verus!
