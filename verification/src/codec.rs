//! Wire encoding of outcome records: decimal rendering of identifiers,
//! JSON string escaping, and the JSON form of a `DownloadResult`.
use vstd::prelude::*;

verus! {

use vstd::utf8::encode_utf8;
use crate::model::DownloadResult;
use crate::model::ProcessingResult;

/// The decimal digit character for `d` (meaningful for `d < 10`).
pub open spec fn digit_char(d: nat) -> char {
    if d == 0 {
        '0'
    } else if d == 1 {
        '1'
    } else if d == 2 {
        '2'
    } else if d == 3 {
        '3'
    } else if d == 4 {
        '4'
    } else if d == 5 {
        '5'
    } else if d == 6 {
        '6'
    } else if d == 7 {
        '7'
    } else if d == 8 {
        '8'
    } else {
        '9'
    }
}

/// The decimal representation of `n`, most significant digit first,
/// with no leading zeros (a single `'0'` for zero).
pub open spec fn dec_chars(n: nat) -> Seq<char>
    decreases n,
{
    if n < 10 {
        seq![digit_char(n)]
    } else {
        dec_chars(n / 10) + seq![digit_char(n % 10)]
    }
}

fn digit_str(d: usize) -> (r: &'static str)
    requires
        d < 10,
    ensures
        r@ == seq![digit_char(d as nat)],
{
    if d == 0 {
        proof {
            reveal_strlit("0");
            assert("0"@ =~= seq![digit_char(d as nat)]);
        }
        "0"
    } else if d == 1 {
        proof {
            reveal_strlit("1");
            assert("1"@ =~= seq![digit_char(d as nat)]);
        }
        "1"
    } else if d == 2 {
        proof {
            reveal_strlit("2");
            assert("2"@ =~= seq![digit_char(d as nat)]);
        }
        "2"
    } else if d == 3 {
        proof {
            reveal_strlit("3");
            assert("3"@ =~= seq![digit_char(d as nat)]);
        }
        "3"
    } else if d == 4 {
        proof {
            reveal_strlit("4");
            assert("4"@ =~= seq![digit_char(d as nat)]);
        }
        "4"
    } else if d == 5 {
        proof {
            reveal_strlit("5");
            assert("5"@ =~= seq![digit_char(d as nat)]);
        }
        "5"
    } else if d == 6 {
        proof {
            reveal_strlit("6");
            assert("6"@ =~= seq![digit_char(d as nat)]);
        }
        "6"
    } else if d == 7 {
        proof {
            reveal_strlit("7");
            assert("7"@ =~= seq![digit_char(d as nat)]);
        }
        "7"
    } else if d == 8 {
        proof {
            reveal_strlit("8");
            assert("8"@ =~= seq![digit_char(d as nat)]);
        }
        "8"
    } else {
        proof {
            reveal_strlit("9");
            assert("9"@ =~= seq![digit_char(d as nat)]);
        }
        "9"
    }
}

/// Renders `n` in decimal.
pub fn decimal_string(n: usize) -> (r: String)
    ensures
        r@ == dec_chars(n as nat),
{
    let mut rem: usize = n;
    let mut acc: String = String::new();
    proof {
        assert(dec_chars(n as nat) =~= dec_chars(rem as nat) + acc@);
    }
    while rem >= 10
        invariant
            dec_chars(n as nat) == dec_chars(rem as nat) + acc@,
        decreases rem,
    {
        let d: usize = rem % 10;
        let next: usize = rem / 10;
        let prefix: String = digit_str(d).to_owned();
        acc = prefix.concat(acc.as_str());
        proof {
            assert(dec_chars(n as nat) =~= dec_chars(next as nat) + acc@);
        }
        rem = next;
    }
    let first: String = digit_str(rem).to_owned();
    let r = first.concat(acc.as_str());
    proof {
        assert(r@ =~= dec_chars(n as nat));
    }
    r
}

/// The lower-case hexadecimal digit byte for `d` (meaningful for `d < 16`).
pub open spec fn hex_byte(d: nat) -> u8 {
    if d < 10 {
        (0x30 + d) as u8
    } else {
        (0x61 + (d - 10)) as u8
    }
}

/// The JSON string escape of one byte of UTF-8 text: `"` and `\` take a
/// backslash, control bytes become `\u00XX`, every other byte stands as is.
/// Escaping valid UTF-8 byte-wise equals escaping it character-wise, since
/// the bytes of a multi-byte character are all above `0x7f`.
pub open spec fn esc_byte(b: u8) -> Seq<u8> {
    if b == 0x22 {
        seq![0x5cu8, 0x22u8]
    } else if b == 0x5c {
        seq![0x5cu8, 0x5cu8]
    } else if b < 0x20 {
        seq![0x5cu8, 0x75u8, 0x30u8, 0x30u8, hex_byte((b / 16) as nat), hex_byte((b % 16) as nat)]
    } else {
        seq![b]
    }
}

/// The JSON string escape of a whole byte sequence.
pub open spec fn esc_bytes(s: Seq<u8>) -> Seq<u8>
    decreases s.len(),
{
    if s.len() == 0 {
        seq![]
    } else {
        esc_bytes(s.drop_last()) + esc_byte(s.last())
    }
}

fn hex_byte_of(d: u8) -> (r: u8)
    requires
        d < 16,
    ensures
        r == hex_byte(d as nat),
{
    if d < 10 {
        0x30 + d
    } else {
        0x61 + (d - 10)
    }
}

/// Appends the JSON string escape of `b` to `out`.
fn push_escaped(out: &mut Vec<u8>, b: u8)
    ensures
        final(out)@ == old(out)@ + esc_byte(b),
{
    if b == 0x22 {
        out.push(0x5c);
        out.push(0x22);
    } else if b == 0x5c {
        out.push(0x5c);
        out.push(0x5c);
    } else if b < 0x20 {
        out.push(0x5c);
        out.push(0x75);
        out.push(0x30);
        out.push(0x30);
        out.push(hex_byte_of(b / 16));
        out.push(hex_byte_of(b % 16));
    } else {
        out.push(b);
    }
    proof {
        assert(out@ =~= old(out)@ + esc_byte(b));
    }
}

/// Escapes a byte string for inclusion in a JSON string literal.
pub fn escape_json_bytes(s: &[u8]) -> (r: Vec<u8>)
    ensures
        r@ == esc_bytes(s@),
{
    let mut out: Vec<u8> = Vec::new();
    let mut i: usize = 0;
    proof {
        assert(out@ =~= esc_bytes(s@.take(0)));
    }
    while i < s.len()
        invariant
            0 <= i <= s@.len(),
            out@ == esc_bytes(s@.take(i as int)),
        decreases s@.len() - i,
    {
        push_escaped(&mut out, s[i]);
        proof {
            assert(s@.take(i + 1).drop_last() =~= s@.take(i as int));
            assert(s@.take(i + 1).last() == s@[i as int]);
        }
        i = i + 1;
    }
    proof {
        assert(s@.take(s@.len() as int) =~= s@);
    }
    out
}

/// Appends a byte slice to `out`.
fn append_bytes(out: &mut Vec<u8>, src: &[u8])
    ensures
        final(out)@ == old(out)@ + src@,
{
    let mut i: usize = 0;
    proof {
        assert(out@ =~= old(out)@ + src@.take(0));
    }
    while i < src.len()
        invariant
            0 <= i <= src@.len(),
            out@ == old(out)@ + src@.take(i as int),
        decreases src@.len() - i,
    {
        out.push(src[i]);
        proof {
            assert(old(out)@ + src@.take(i + 1) =~= (old(out)@ + src@.take(i as int)).push(
                src@[i as int],
            ));
        }
        i = i + 1;
    }
    proof {
        assert(src@.take(src@.len() as int) =~= src@);
    }
}

/// The JSON wire form of an outcome record: an object with the
/// `correlation_id`, the outcome under `res` as `"Ok"` or `"Error"`, and the
/// escaped failure `description` (whose UTF-8 bytes are `desc_bytes`).
pub open spec fn json_of_result(id: u32, ok: bool, desc_bytes: Seq<u8>) -> Seq<u8> {
    encode_utf8("{\"correlation_id\":"@) + encode_utf8(dec_chars(id as nat)) + encode_utf8(
        ",\"res\":\""@,
    ) + (if ok {
        encode_utf8("Ok"@)
    } else {
        encode_utf8("Error"@)
    }) + encode_utf8("\",\"description\":\""@) + esc_bytes(desc_bytes) + encode_utf8("\"}"@)
}

/// Serializes an outcome record to its JSON wire form.
pub fn encode_result(dr: &DownloadResult) -> (r: Vec<u8>)
    ensures
        r@ == json_of_result(
            dr.correlation_id,
            dr.res is Succeeded,
            encode_utf8(dr.description@),
        ),
{
    let mut out: Vec<u8> = Vec::new();
    append_bytes(&mut out, "{\"correlation_id\":".as_bytes());
    let id_str = decimal_string(dr.correlation_id as usize);
    append_bytes(&mut out, id_str.as_str().as_bytes());
    append_bytes(&mut out, ",\"res\":\"".as_bytes());
    match dr.res {
        ProcessingResult::Succeeded => append_bytes(&mut out, "Ok".as_bytes()),
        ProcessingResult::Failed => append_bytes(&mut out, "Error".as_bytes()),
    }
    append_bytes(&mut out, "\",\"description\":\"".as_bytes());
    let esc = escape_json_bytes(dr.description.as_str().as_bytes());
    append_bytes(&mut out, esc.as_slice());
    append_bytes(&mut out, "\"}".as_bytes());
    proof {
        assert(out@ =~= json_of_result(
            dr.correlation_id,
            dr.res is Succeeded,
            encode_utf8(dr.description@),
        ));
    }
    out
}

} // verus!
