//! Pin Client: the pinning service's endpoint and the JSON request body that
//! names the content identifier to pin.

use vstd::prelude::*;
use vstd::string::*;

verus! {

/// A lowercase hexadecimal digit.
pub open spec fn spec_hex_digit(n: int) -> char {
    if n == 0 {
        '0'
    } else if n == 1 {
        '1'
    } else if n == 2 {
        '2'
    } else if n == 3 {
        '3'
    } else if n == 4 {
        '4'
    } else if n == 5 {
        '5'
    } else if n == 6 {
        '6'
    } else if n == 7 {
        '7'
    } else if n == 8 {
        '8'
    } else if n == 9 {
        '9'
    } else if n == 10 {
        'a'
    } else if n == 11 {
        'b'
    } else if n == 12 {
        'c'
    } else if n == 13 {
        'd'
    } else if n == 14 {
        'e'
    } else {
        'f'
    }
}

/// How one character appears inside a JSON string: quote and backslash take a
/// two-character escape, the five control characters with short escapes take
/// theirs, every other control character takes a `\u00` escape with lowercase
/// hexadecimal digits, and all remaining characters stand as themselves.
pub open spec fn spec_json_escaped_char(c: char) -> Seq<char> {
    if c == '"' {
        seq!['\\', '"']
    } else if c == '\\' {
        seq!['\\', '\\']
    } else if c == '\u{8}' {
        seq!['\\', 'b']
    } else if c == '\t' {
        seq!['\\', 't']
    } else if c == '\n' {
        seq!['\\', 'n']
    } else if c == '\u{c}' {
        seq!['\\', 'f']
    } else if c == '\r' {
        seq!['\\', 'r']
    } else if (c as u32) < 32 {
        seq![
            '\\',
            'u',
            '0',
            '0',
            spec_hex_digit((c as u32) as int / 16),
            spec_hex_digit((c as u32) as int % 16),
        ]
    } else {
        seq![c]
    }
}

/// A whole text as it appears inside a JSON string, character by character.
pub open spec fn spec_json_escaped(s: Seq<char>) -> Seq<char>
    decreases s.len(),
{
    if s.len() == 0 {
        Seq::empty()
    } else {
        spec_json_escaped_char(s[0]) + spec_json_escaped(s.drop_first())
    }
}

/// Escaping a text one character longer appends that character's escape.
pub proof fn lemma_json_escaped_snoc(s: Seq<char>)
    requires
        s.len() > 0,
    ensures
        spec_json_escaped(s) == spec_json_escaped(s.drop_last()) + spec_json_escaped_char(
            s.last(),
        ),
    decreases s.len(),
{
    if s.len() == 1 {
        assert(s.drop_first() =~= Seq::<char>::empty());
        assert(s.drop_last() =~= Seq::<char>::empty());
        assert(spec_json_escaped(s) =~= spec_json_escaped(s.drop_last())
            + spec_json_escaped_char(s.last()));
    } else {
        lemma_json_escaped_snoc(s.drop_first());
        assert(s.drop_first().drop_last() =~= s.drop_last().drop_first());
        assert(s.drop_first().last() == s.last());
        assert(s.drop_last()[0] == s[0]);
        assert(spec_json_escaped(s) =~= spec_json_escaped(s.drop_last())
            + spec_json_escaped_char(s.last()));
    }
}

/// The JSON body of a pin request: an object with the content identifier to
/// pin under `hashToPin`, compactly printed.
pub open spec fn spec_pin_request_body(cid: Seq<char>) -> Seq<char> {
    "{\"hashToPin\":\""@ + spec_json_escaped(cid) + "\"}"@
}

/// The fixed address of the pinning service's pin-by-hash endpoint.
pub open spec fn spec_pin_endpoint() -> Seq<char> {
    "https://api.pinata.cloud/pinning/pinByHash"@
}

/// The address a pin request is sent to.
pub fn pin_endpoint() -> (r: &'static str)
    ensures
        r@ == spec_pin_endpoint(),
{
    "https://api.pinata.cloud/pinning/pinByHash"
}

/// Appends the lowercase hexadecimal digit for `n`.
fn append_hex_digit(out: &mut String, n: u32)
    requires
        n < 16,
    ensures
        final(out)@ == old(out)@ + seq![spec_hex_digit(n as int)],
{
    let d: &str = if n == 0 {
        "0"
    } else if n == 1 {
        "1"
    } else if n == 2 {
        "2"
    } else if n == 3 {
        "3"
    } else if n == 4 {
        "4"
    } else if n == 5 {
        "5"
    } else if n == 6 {
        "6"
    } else if n == 7 {
        "7"
    } else if n == 8 {
        "8"
    } else if n == 9 {
        "9"
    } else if n == 10 {
        "a"
    } else if n == 11 {
        "b"
    } else if n == 12 {
        "c"
    } else if n == 13 {
        "d"
    } else if n == 14 {
        "e"
    } else {
        "f"
    };
    proof {
        reveal_strlit("0");
        reveal_strlit("1");
        reveal_strlit("2");
        reveal_strlit("3");
        reveal_strlit("4");
        reveal_strlit("5");
        reveal_strlit("6");
        reveal_strlit("7");
        reveal_strlit("8");
        reveal_strlit("9");
        reveal_strlit("a");
        reveal_strlit("b");
        reveal_strlit("c");
        reveal_strlit("d");
        reveal_strlit("e");
        reveal_strlit("f");
        assert(d@ =~= seq![spec_hex_digit(n as int)]);
    }
    out.append(d);
}

/// Appends the escape of the character at position `i` of `s`.
fn append_json_escaped_char(out: &mut String, s: &str, i: usize)
    requires
        i < s@.len(),
        i < usize::MAX,
    ensures
        final(out)@ == old(out)@ + spec_json_escaped_char(s@[i as int]),
{
    let c = s.get_char(i);
    if c == '"' {
        proof {
            reveal_strlit("\\\"");
            assert(("\\\""@) =~= spec_json_escaped_char(c));
        }
        out.append("\\\"");
    } else if c == '\\' {
        proof {
            reveal_strlit("\\\\");
            assert(("\\\\"@) =~= spec_json_escaped_char(c));
        }
        out.append("\\\\");
    } else if c == '\u{8}' {
        proof {
            reveal_strlit("\\b");
            assert(("\\b"@) =~= spec_json_escaped_char(c));
        }
        out.append("\\b");
    } else if c == '\t' {
        proof {
            reveal_strlit("\\t");
            assert(("\\t"@) =~= spec_json_escaped_char(c));
        }
        out.append("\\t");
    } else if c == '\n' {
        proof {
            reveal_strlit("\\n");
            assert(("\\n"@) =~= spec_json_escaped_char(c));
        }
        out.append("\\n");
    } else if c == '\u{c}' {
        proof {
            reveal_strlit("\\f");
            assert(("\\f"@) =~= spec_json_escaped_char(c));
        }
        out.append("\\f");
    } else if c == '\r' {
        proof {
            reveal_strlit("\\r");
            assert(("\\r"@) =~= spec_json_escaped_char(c));
        }
        out.append("\\r");
    } else {
        let v = c as u32;
        if v < 32 {
            proof {
                reveal_strlit("\\u00");
            }
            out.append("\\u00");
            append_hex_digit(out, v / 16);
            append_hex_digit(out, v % 16);
            proof {
                assert(out@ =~= old(out)@ + spec_json_escaped_char(c));
            }
        } else {
            let one = s.substring_char(i, i + 1);
            proof {
                assert(one@ =~= seq![s@[i as int]]);
            }
            out.append(one);
        }
    }
}

/// Builds the JSON body of a pin request for the given content identifier.
pub fn pin_request_body(cid: &str) -> (r: String)
    ensures
        r@ == spec_pin_request_body(cid@),
{
    let mut out = "{\"hashToPin\":\"".to_owned();
    let n = cid.unicode_len();
    let mut i: usize = 0;
    while i < n
        invariant
            n == cid@.len(),
            i <= n,
            out@ == "{\"hashToPin\":\""@ + spec_json_escaped(cid@.subrange(0, i as int)),
        decreases n - i,
    {
        append_json_escaped_char(&mut out, cid, i);
        proof {
            let pre = cid@.subrange(0, i as int);
            let post = cid@.subrange(0, i + 1int);
            assert(post.drop_last() =~= pre);
            assert(post.last() == cid@[i as int]);
            lemma_json_escaped_snoc(post);
        }
        i = i + 1;
    }
    out.append("\"}");
    proof {
        assert(cid@.subrange(0, n as int) =~= cid@);
        assert(out@ =~= spec_pin_request_body(cid@));
    }
    out
}

} // verus!
