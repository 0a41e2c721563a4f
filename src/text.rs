use vstd::prelude::*;
use vstd::string::*;

verus! {

/// The lowercase hexadecimal digit of `n`, for `n` below 16.
pub open spec fn hex_char(n: int) -> char {
    "0123456789abcdef"@[n]
}

/// The two hexadecimal digits of a byte.
pub open spec fn byte_text(b: u8) -> Seq<char> {
    seq![hex_char(b as int / 16), hex_char(b as int % 16)]
}

/// The digits of `s`, two for each byte, with a space after every fourth
/// byte that is not the last.
pub open spec fn bytes_text(s: Seq<u8>) -> Seq<char>
    decreases s.len(),
{
    if s.len() == 0 {
        Seq::empty()
    } else {
        let prev = s.drop_last();
        let sep = if prev.len() > 0 && prev.len() % 4 == 0 {
            seq![' ']
        } else {
            Seq::empty()
        };
        bytes_text(prev) + sep + byte_text(s.last())
    }
}

/// The description of an object that holds bytes: their digits in angle
/// brackets.
pub open spec fn data_description(s: Seq<u8>) -> Seq<char> {
    seq!['<'] + bytes_text(s) + seq!['>']
}

fn hex_digit(n: u8) -> (r: &'static str)
    requires
        n < 16,
    ensures
        r@ == seq![hex_char(n as int)],
{
    proof {
        reveal_strlit("0123456789abcdef");
    }
    let r = match n {
        0 => "0",
        1 => "1",
        2 => "2",
        3 => "3",
        4 => "4",
        5 => "5",
        6 => "6",
        7 => "7",
        8 => "8",
        9 => "9",
        10 => "a",
        11 => "b",
        12 => "c",
        13 => "d",
        14 => "e",
        _ => "f",
    };
    proof {
        reveal_strlit("0");
        reveal_strlit("1");
        reveal_strlit("2");
        reveal_strlit("3");
        reveal_strlit("4");
        reveal_strlit("5");
        reveal_strlit("6");
        reveal_strlit("7");
        reveal_strlit("8");
        reveal_strlit("9");
        reveal_strlit("a");
        reveal_strlit("b");
        reveal_strlit("c");
        reveal_strlit("d");
        reveal_strlit("e");
        reveal_strlit("f");
        assert(r@ =~= seq![hex_char(n as int)]);
    }
    r
}

/// The description of the bytes `b`.
pub fn describe_bytes(b: &[u8]) -> (r: String)
    ensures
        r@ == data_description(b@),
{
    let mut out = String::from_str("<");
    proof {
        reveal_strlit("<");
        assert(b@.take(0) =~= Seq::<u8>::empty());
    }
    let mut i: usize = 0;
    while i < b.len()
        invariant
            i <= b@.len(),
            out@ == seq!['<'] + bytes_text(b@.take(i as int)),
        decreases b@.len() - i,
    {
        let ghost before = out@;
        let ghost t = b@.take(i + 1);
        if i > 0 && i % 4 == 0 {
            out.append(" ");
        }
        let ghost mid = out@;
        out.append(hex_digit(b[i] / 16));
        out.append(hex_digit(b[i] % 16));
        proof {
            reveal_strlit(" ");
            assert(t.drop_last() =~= b@.take(i as int));
            assert(t.last() == b@[i as int]);
            let sep = if i > 0 && i % 4 == 0 {
                seq![' ']
            } else {
                Seq::<char>::empty()
            };
            assert(mid =~= before + sep);
            assert(out@ =~= mid + byte_text(b@[i as int]));
            assert(bytes_text(t) == bytes_text(b@.take(i as int)) + sep + byte_text(b@[i as int]));
            assert(out@ =~= seq!['<'] + bytes_text(t));
        }
        i = i + 1;
    }
    out.append(">");
    proof {
        reveal_strlit(">");
        assert(b@.take(i as int) =~= b@);
        assert(out@ =~= data_description(b@));
    }
    out
}

} // verus!
