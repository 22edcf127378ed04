use vstd::prelude::*;
use vstd::string::StringExecFns;

verus! {

/// The lower-case hex digit of a value below sixteen.
pub open spec fn hex_digit(n: int) -> char {
    if n == 0 {
        '0'
    } else if n == 1 {
        '1'
    } else if n == 2 {
        '2'
    } else if n == 3 {
        '3'
    } else if n == 4 {
        '4'
    } else if n == 5 {
        '5'
    } else if n == 6 {
        '6'
    } else if n == 7 {
        '7'
    } else if n == 8 {
        '8'
    } else if n == 9 {
        '9'
    } else if n == 10 {
        'a'
    } else if n == 11 {
        'b'
    } else if n == 12 {
        'c'
    } else if n == 13 {
        'd'
    } else if n == 14 {
        'e'
    } else {
        'f'
    }
}

/// A byte as two lower-case hex digits.
pub open spec fn hex2(b: u8) -> Seq<char> {
    seq![hex_digit(b as int / 16), hex_digit(b as int % 16)]
}

/// The version-4 UUID text laid over the first sixteen bytes of `b`: five
/// hyphen-separated hex groups of 8, 4, 4, 4 and 12 digits, with the version
/// nibble forced to 4 and the variant bits forced to 10.
pub open spec fn uuid_chars(b: Seq<u8>) -> Seq<char>
    recommends
        b.len() >= 16,
{
    hex2(b[0]) + hex2(b[1]) + hex2(b[2]) + hex2(b[3]) + seq!['-'] + hex2(b[4]) + hex2(b[5])
        + seq!['-'] + seq!['4'] + seq![hex_digit((b[6] & 0x0f) as int)] + hex2(b[7]) + seq!['-']
        + hex2((b[8] & 0x3f) | 0x80) + hex2(b[9]) + seq!['-'] + hex2(b[10]) + hex2(b[11]) + hex2(
        b[12],
    ) + hex2(b[13]) + hex2(b[14]) + hex2(b[15])
}

/// The lower-case hex digit of a value below sixteen, as text.
fn hex_str(n: u8) -> (r: &'static str)
    requires
        n < 16,
    ensures
        r@ == seq![hex_digit(n as int)],
{
    if n == 0 {
        proof {
            reveal_strlit("0");
            assert("0"@ =~= seq![hex_digit(0)]);
        }
        "0"
    } else if n == 1 {
        proof {
            reveal_strlit("1");
            assert("1"@ =~= seq![hex_digit(1)]);
        }
        "1"
    } else if n == 2 {
        proof {
            reveal_strlit("2");
            assert("2"@ =~= seq![hex_digit(2)]);
        }
        "2"
    } else if n == 3 {
        proof {
            reveal_strlit("3");
            assert("3"@ =~= seq![hex_digit(3)]);
        }
        "3"
    } else if n == 4 {
        proof {
            reveal_strlit("4");
            assert("4"@ =~= seq![hex_digit(4)]);
        }
        "4"
    } else if n == 5 {
        proof {
            reveal_strlit("5");
            assert("5"@ =~= seq![hex_digit(5)]);
        }
        "5"
    } else if n == 6 {
        proof {
            reveal_strlit("6");
            assert("6"@ =~= seq![hex_digit(6)]);
        }
        "6"
    } else if n == 7 {
        proof {
            reveal_strlit("7");
            assert("7"@ =~= seq![hex_digit(7)]);
        }
        "7"
    } else if n == 8 {
        proof {
            reveal_strlit("8");
            assert("8"@ =~= seq![hex_digit(8)]);
        }
        "8"
    } else if n == 9 {
        proof {
            reveal_strlit("9");
            assert("9"@ =~= seq![hex_digit(9)]);
        }
        "9"
    } else if n == 10 {
        proof {
            reveal_strlit("a");
            assert("a"@ =~= seq![hex_digit(10)]);
        }
        "a"
    } else if n == 11 {
        proof {
            reveal_strlit("b");
            assert("b"@ =~= seq![hex_digit(11)]);
        }
        "b"
    } else if n == 12 {
        proof {
            reveal_strlit("c");
            assert("c"@ =~= seq![hex_digit(12)]);
        }
        "c"
    } else if n == 13 {
        proof {
            reveal_strlit("d");
            assert("d"@ =~= seq![hex_digit(13)]);
        }
        "d"
    } else if n == 14 {
        proof {
            reveal_strlit("e");
            assert("e"@ =~= seq![hex_digit(14)]);
        }
        "e"
    } else {
        proof {
            reveal_strlit("f");
            assert("f"@ =~= seq![hex_digit(15)]);
        }
        "f"
    }
}

/// Append a byte as two hex digits.
fn push_hex2(s: &mut String, b: u8)
    ensures
        final(s)@ == old(s)@ + hex2(b),
{
    s.append(hex_str(b / 16));
    s.append(hex_str(b % 16));
    proof {
        assert(s@ =~= old(s)@ + hex2(b));
    }
}

/// Append a hyphen.
fn push_dash(s: &mut String)
    ensures
        final(s)@ == old(s)@ + seq!['-'],
{
    proof {
        reveal_strlit("-");
        assert("-"@ =~= seq!['-']);
    }
    s.append("-");
}

/// Lay sixteen bytes of entropy out as a version-4 UUID string. The caller
/// owns the entropy; the text is a pure function of the bytes given.
pub fn uuid_from_bytes(bytes: &Vec<u8>) -> (r: String)
    requires
        bytes@.len() >= 16,
    ensures
        r@ == uuid_chars(bytes@),
{
    let mut s = "".to_owned();
    proof {
        reveal_strlit("");
        assert(s@ =~= Seq::<char>::empty());
    }
    push_hex2(&mut s, bytes[0]);
    push_hex2(&mut s, bytes[1]);
    push_hex2(&mut s, bytes[2]);
    push_hex2(&mut s, bytes[3]);
    push_dash(&mut s);
    push_hex2(&mut s, bytes[4]);
    push_hex2(&mut s, bytes[5]);
    push_dash(&mut s);
    proof {
        reveal_strlit("4");
        assert("4"@ =~= seq!['4']);
    }
    s.append("4");
    let b6 = bytes[6];
    let low6 = b6 & 0x0f;
    proof {
        assert(b6 & 0x0f < 16) by (bit_vector);
    }
    s.append(hex_str(low6));
    push_hex2(&mut s, bytes[7]);
    push_dash(&mut s);
    push_hex2(&mut s, (bytes[8] & 0x3f) | 0x80);
    push_hex2(&mut s, bytes[9]);
    push_dash(&mut s);
    push_hex2(&mut s, bytes[10]);
    push_hex2(&mut s, bytes[11]);
    push_hex2(&mut s, bytes[12]);
    push_hex2(&mut s, bytes[13]);
    push_hex2(&mut s, bytes[14]);
    push_hex2(&mut s, bytes[15]);
    proof {
        assert(s@ =~= uuid_chars(bytes@));
    }
    s
}

} // verus!
