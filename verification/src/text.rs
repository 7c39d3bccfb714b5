//! Verified text building blocks: string equality, decimal and hexadecimal
//! rendering, and per-character escaping used by the encoders.
//!
//! Every rendering helper is specified against a spec-level sequence of
//! characters, so that the bytes an encoder emits are a function of its
//! input alone.

use vstd::prelude::*;
use vstd::string::*;

verus! {

/// Character-wise equality of two string slices.
pub fn str_eq(a: &str, b: &str) -> (r: bool)
    ensures
        r == (a@ == b@),
{
    let alen = a.unicode_len();
    let blen = b.unicode_len();
    if alen != blen {
        proof {
            assert(a@ != b@);
        }
        return false;
    }
    let mut i: usize = 0;
    while i < alen
        invariant
            i <= alen,
            alen == a@.len(),
            alen == b@.len(),
            forall|j: int| 0 <= j < i ==> a@[j] == b@[j],
        decreases alen - i,
    {
        if a.get_char(i) != b.get_char(i) {
            proof {
                assert(a@ != b@);
            }
            return false;
        }
        i += 1;
    }
    proof {
        assert(a@ =~= b@);
    }
    true
}

/// The character for one decimal digit.
pub open spec fn spec_digit(d: int) -> char {
    if d == 0 {
        '0'
    } else if d == 1 {
        '1'
    } else if d == 2 {
        '2'
    } else if d == 3 {
        '3'
    } else if d == 4 {
        '4'
    } else if d == 5 {
        '5'
    } else if d == 6 {
        '6'
    } else if d == 7 {
        '7'
    } else if d == 8 {
        '8'
    } else {
        '9'
    }
}

fn digit_str(d: u64) -> (s: &'static str)
    requires
        d < 10,
    ensures
        s@ == seq![spec_digit(d as int)],
{
    let s: &'static str = match d {
        0 => "0",
        1 => "1",
        2 => "2",
        3 => "3",
        4 => "4",
        5 => "5",
        6 => "6",
        7 => "7",
        8 => "8",
        _ => "9",
    };
    proof {
        reveal_strlit("0");
        reveal_strlit("1");
        reveal_strlit("2");
        reveal_strlit("3");
        reveal_strlit("4");
        reveal_strlit("5");
        reveal_strlit("6");
        reveal_strlit("7");
        reveal_strlit("8");
        reveal_strlit("9");
        assert(s@ =~= seq![spec_digit(d as int)]);
    }
    s
}

/// Decimal rendering of a natural number, most significant digit first.
pub open spec fn spec_dec(n: nat) -> Seq<char>
    decreases n,
{
    if n < 10 {
        seq![spec_digit(n as int)]
    } else {
        spec_dec(n / 10) + seq![spec_digit((n % 10) as int)]
    }
}

/// Renders `n` in decimal.
pub fn dec_u64(n: u64) -> (s: String)
    ensures
        s@ == spec_dec(n as nat),
    decreases n,
{
    if n < 10 {
        digit_str(n).to_owned()
    } else {
        let mut s = dec_u64(n / 10);
        s.append(digit_str(n % 10));
        proof {
            assert(s@ =~= spec_dec(n as nat));
        }
        s
    }
}

/// Two-digit zero-padded decimal rendering.
pub open spec fn spec_dec2(n: nat) -> Seq<char> {
    seq![spec_digit(((n / 10) % 10) as int), spec_digit((n % 10) as int)]
}

/// Renders `n` as exactly two decimal digits.
pub fn dec2(n: u64) -> (s: String)
    requires
        n < 100,
    ensures
        s@ == spec_dec2(n as nat),
{
    let mut s = digit_str(n / 10).to_owned();
    s.append(digit_str(n % 10));
    proof {
        assert(s@ =~= spec_dec2(n as nat));
    }
    s
}

/// Four-digit zero-padded decimal rendering.
pub open spec fn spec_dec4(n: nat) -> Seq<char> {
    seq![
        spec_digit(((n / 1000) % 10) as int),
        spec_digit(((n / 100) % 10) as int),
        spec_digit(((n / 10) % 10) as int),
        spec_digit((n % 10) as int),
    ]
}

/// Renders `n` as exactly four decimal digits.
pub fn dec4(n: u64) -> (s: String)
    requires
        n < 10000,
    ensures
        s@ == spec_dec4(n as nat),
{
    let mut s = digit_str(n / 1000).to_owned();
    s.append(digit_str((n / 100) % 10));
    s.append(digit_str((n / 10) % 10));
    s.append(digit_str(n % 10));
    proof {
        assert(s@ =~= spec_dec4(n as nat));
    }
    s
}

/// The character for one lowercase hexadecimal digit.
pub open spec fn spec_hex_digit(d: int) -> char {
    if d < 10 {
        spec_digit(d)
    } else if d == 10 {
        'a'
    } else if d == 11 {
        'b'
    } else if d == 12 {
        'c'
    } else if d == 13 {
        'd'
    } else if d == 14 {
        'e'
    } else {
        'f'
    }
}

fn hex_digit_str(d: u64) -> (s: &'static str)
    requires
        d < 16,
    ensures
        s@ == seq![spec_hex_digit(d as int)],
{
    if d < 10 {
        digit_str(d)
    } else {
        let s: &'static str = match d {
            10 => "a",
            11 => "b",
            12 => "c",
            13 => "d",
            14 => "e",
            _ => "f",
        };
        proof {
            reveal_strlit("a");
            reveal_strlit("b");
            reveal_strlit("c");
            reveal_strlit("d");
            reveal_strlit("e");
            reveal_strlit("f");
            assert(s@ =~= seq![spec_hex_digit(d as int)]);
        }
        s
    }
}

/// The lowest `digits` hexadecimal digits of `n`, most significant first.
pub open spec fn spec_hex(n: nat, digits: nat) -> Seq<char>
    decreases digits,
{
    if digits == 0 {
        Seq::empty()
    } else {
        spec_hex(n / 16, (digits - 1) as nat) + seq![spec_hex_digit((n % 16) as int)]
    }
}

/// Renders the lowest `digits` hexadecimal digits of `n`, zero padded.
pub fn hex_pad(n: u128, digits: usize) -> (s: String)
    ensures
        s@ == spec_hex(n as nat, digits as nat),
    decreases digits,
{
    if digits == 0 {
        let s = String::new();
        proof {
            assert(s@ =~= spec_hex(n as nat, digits as nat));
        }
        s
    } else {
        let mut s = hex_pad(n / 16, digits - 1);
        s.append(hex_digit_str((n % 16) as u64));
        proof {
            assert(s@ =~= spec_hex(n as nat, digits as nat));
        }
        s
    }
}

/// The canonical hyphenated rendering of a 128-bit identifier:
/// five groups of 8, 4, 4, 4 and 12 lowercase hexadecimal digits.
pub open spec fn spec_uuid_chars(id: nat) -> Seq<char> {
    spec_hex(id / 0x1000000000000000000000000, 8) + seq!['-'] + spec_hex(
        id / 0x100000000000000000000,
        4,
    ) + seq!['-'] + spec_hex(id / 0x10000000000000000, 4) + seq!['-'] + spec_hex(
        id / 0x1000000000000,
        4,
    ) + seq!['-'] + spec_hex(id, 12)
}

/// Renders a 128-bit work identifier in its canonical hyphenated form.
pub fn uuid_hyphenated(id: u128) -> (s: String)
    ensures
        s@ == spec_uuid_chars(id as nat),
{
    let mut s = hex_pad(id >> 96, 8);
    s.append("-");
    let g2 = hex_pad(id >> 80, 4);
    s.append(g2.as_str());
    s.append("-");
    let g3 = hex_pad(id >> 64, 4);
    s.append(g3.as_str());
    s.append("-");
    let g4 = hex_pad(id >> 48, 4);
    s.append(g4.as_str());
    s.append("-");
    let g5 = hex_pad(id, 12);
    s.append(g5.as_str());
    proof {
        reveal_strlit("-");
        assert(id >> 96 == id / 0x1000000000000000000000000) by (bit_vector);
        assert(id >> 80 == id / 0x100000000000000000000) by (bit_vector);
        assert(id >> 64 == id / 0x10000000000000000) by (bit_vector);
        assert(id >> 48 == id / 0x1000000000000) by (bit_vector);
        assert(("-")@ =~= seq!['-']);
        assert(s@ =~= spec_uuid_chars(id as nat));
    }
    s
}

/// How one character is rendered inside a quoted CSV field.
pub open spec fn csv_esc_char(c: char) -> Seq<char> {
    if c == '"' {
        seq!['"', '"']
    } else {
        seq![c]
    }
}

/// The body of a quoted CSV field: every character escaped in turn.
pub open spec fn spec_csv_escaped(s: Seq<char>) -> Seq<char>
    decreases s.len(),
{
    if s.len() == 0 {
        Seq::empty()
    } else {
        csv_esc_char(s[0]) + spec_csv_escaped(s.drop_first())
    }
}

proof fn lemma_csv_escaped_app(s1: Seq<char>, s2: Seq<char>)
    ensures
        spec_csv_escaped(s1 + s2) == spec_csv_escaped(s1) + spec_csv_escaped(s2),
    decreases s1.len(),
{
    if s1.len() == 0 {
        assert(s1 + s2 =~= s2);
        assert(spec_csv_escaped(s1) + spec_csv_escaped(s2) =~= spec_csv_escaped(s2));
    } else {
        lemma_csv_escaped_app(s1.drop_first(), s2);
        assert((s1 + s2).drop_first() =~= s1.drop_first() + s2);
        assert(spec_csv_escaped(s1 + s2) =~= spec_csv_escaped(s1) + spec_csv_escaped(s2));
    }
}

proof fn lemma_csv_escaped_snoc(s: Seq<char>, i: int)
    requires
        0 <= i < s.len(),
    ensures
        spec_csv_escaped(s.take(i + 1)) == spec_csv_escaped(s.take(i)) + csv_esc_char(s[i]),
{
    let single = seq![s[i]];
    assert(s.take(i + 1) =~= s.take(i) + single);
    lemma_csv_escaped_app(s.take(i), single);
    assert(single.drop_first() =~= Seq::<char>::empty());
    assert(spec_csv_escaped(single) == csv_esc_char(s[i]) + spec_csv_escaped(single.drop_first()));
    assert(spec_csv_escaped(single.drop_first()) == Seq::<char>::empty());
    assert(csv_esc_char(s[i]) + Seq::<char>::empty() =~= csv_esc_char(s[i]));
}

/// Whether a CSV field must be wrapped in quotes.
pub open spec fn csv_needs_quote(s: Seq<char>) -> bool {
    exists|i: int|
        0 <= i < s.len() && (s[i] == ',' || s[i] == '"' || s[i] == '\n' || s[i] == '\r')
}

/// The rendering of one CSV field: quoted with doubled quotes when it
/// holds a delimiter, a quote or a line break, and verbatim otherwise.
pub open spec fn spec_csv_field(s: Seq<char>) -> Seq<char> {
    if csv_needs_quote(s) {
        seq!['"'] + spec_csv_escaped(s) + seq!['"']
    } else {
        s
    }
}

/// Appends one CSV field to `out`.
pub fn append_csv_field(out: &mut String, field: &str)
    ensures
        final(out)@ == old(out)@ + spec_csv_field(field@),
{
    let len = field.unicode_len();
    let mut needs: bool = false;
    let mut i: usize = 0;
    while i < len
        invariant
            i <= len,
            len == field@.len(),
            needs == exists|j: int|
                0 <= j < i && (field@[j] == ',' || field@[j] == '"' || field@[j] == '\n'
                    || field@[j] == '\r'),
        decreases len - i,
    {
        let c = field.get_char(i);
        if c == ',' || c == '"' || c == '\n' || c == '\r' {
            needs = true;
        }
        i += 1;
    }
    if !needs {
        assert(!csv_needs_quote(field@));
        out.append(field);
        return ;
    }
    assert(csv_needs_quote(field@));
    let ghost init = out@;
    out.append("\"");
    proof {
        reveal_strlit("\"");
        assert(("\"")@ =~= seq!['"']);
    }
    let mut i: usize = 0;
    while i < len
        invariant
            i <= len,
            len == field@.len(),
            out@ == init + seq!['"'] + spec_csv_escaped(field@.take(i as int)),
        decreases len - i,
    {
        let c = field.get_char(i);
        if c == '"' {
            out.append("\"\"");
            proof {
                reveal_strlit("\"\"");
                assert(("\"\"")@ =~= seq!['"', '"']);
            }
        } else {
            let piece = field.substring_char(i, i + 1);
            out.append(piece);
            proof {
                assert(piece@ =~= seq![field@[i as int]]);
            }
        }
        proof {
            lemma_csv_escaped_snoc(field@, i as int);
            assert(out@ =~= init + seq!['"'] + spec_csv_escaped(field@.take(i as int + 1)));
        }
        i += 1;
    }
    out.append("\"");
    proof {
        reveal_strlit("\"");
        assert(field@.take(len as int) =~= field@);
        assert(out@ =~= old(out)@ + spec_csv_field(field@));
    }
}

/// How one character is rendered inside XML text or attribute content.
pub open spec fn xml_esc_char(c: char) -> Seq<char> {
    if c == '&' {
        seq!['&', 'a', 'm', 'p', ';']
    } else if c == '<' {
        seq!['&', 'l', 't', ';']
    } else if c == '>' {
        seq!['&', 'g', 't', ';']
    } else if c == '"' {
        seq!['&', 'q', 'u', 'o', 't', ';']
    } else {
        seq![c]
    }
}

/// The XML escaping of a whole character sequence.
pub open spec fn spec_xml_escaped(s: Seq<char>) -> Seq<char>
    decreases s.len(),
{
    if s.len() == 0 {
        Seq::empty()
    } else {
        xml_esc_char(s[0]) + spec_xml_escaped(s.drop_first())
    }
}

proof fn lemma_xml_escaped_app(s1: Seq<char>, s2: Seq<char>)
    ensures
        spec_xml_escaped(s1 + s2) == spec_xml_escaped(s1) + spec_xml_escaped(s2),
    decreases s1.len(),
{
    if s1.len() == 0 {
        assert(s1 + s2 =~= s2);
        assert(spec_xml_escaped(s1) + spec_xml_escaped(s2) =~= spec_xml_escaped(s2));
    } else {
        lemma_xml_escaped_app(s1.drop_first(), s2);
        assert((s1 + s2).drop_first() =~= s1.drop_first() + s2);
        assert(spec_xml_escaped(s1 + s2) =~= spec_xml_escaped(s1) + spec_xml_escaped(s2));
    }
}

proof fn lemma_xml_escaped_snoc(s: Seq<char>, i: int)
    requires
        0 <= i < s.len(),
    ensures
        spec_xml_escaped(s.take(i + 1)) == spec_xml_escaped(s.take(i)) + xml_esc_char(s[i]),
{
    let single = seq![s[i]];
    assert(s.take(i + 1) =~= s.take(i) + single);
    lemma_xml_escaped_app(s.take(i), single);
    assert(single.drop_first() =~= Seq::<char>::empty());
    assert(spec_xml_escaped(single) == xml_esc_char(s[i]) + spec_xml_escaped(single.drop_first()));
    assert(spec_xml_escaped(single.drop_first()) == Seq::<char>::empty());
    assert(xml_esc_char(s[i]) + Seq::<char>::empty() =~= xml_esc_char(s[i]));
}

/// Appends `s` to `out`, escaping XML metacharacters.
pub fn append_xml_escaped(out: &mut String, s: &str)
    ensures
        final(out)@ == old(out)@ + spec_xml_escaped(s@),
{
    let len = s.unicode_len();
    let ghost init = out@;
    let mut i: usize = 0;
    while i < len
        invariant
            i <= len,
            len == s@.len(),
            out@ == init + spec_xml_escaped(s@.take(i as int)),
        decreases len - i,
    {
        let c = s.get_char(i);
        if c == '&' {
            out.append("&amp;");
            proof {
                reveal_strlit("&amp;");
                assert(("&amp;")@ =~= seq!['&', 'a', 'm', 'p', ';']);
            }
        } else if c == '<' {
            out.append("&lt;");
            proof {
                reveal_strlit("&lt;");
                assert(("&lt;")@ =~= seq!['&', 'l', 't', ';']);
            }
        } else if c == '>' {
            out.append("&gt;");
            proof {
                reveal_strlit("&gt;");
                assert(("&gt;")@ =~= seq!['&', 'g', 't', ';']);
            }
        } else if c == '"' {
            out.append("&quot;");
            proof {
                reveal_strlit("&quot;");
                assert(("&quot;")@ =~= seq!['&', 'q', 'u', 'o', 't', ';']);
            }
        } else {
            let piece = s.substring_char(i, i + 1);
            out.append(piece);
            proof {
                assert(piece@ =~= seq![s@[i as int]]);
            }
        }
        proof {
            lemma_xml_escaped_snoc(s@, i as int);
            assert(out@ =~= init + spec_xml_escaped(s@.take(i as int + 1)));
        }
        i += 1;
    }
    proof {
        assert(s@.take(len as int) =~= s@);
        assert(out@ =~= old(out)@ + spec_xml_escaped(s@));
    }
}

/// How one character is rendered inside a JSON string literal.
pub open spec fn json_esc_char(c: char) -> Seq<char> {
    if c == '"' {
        seq!['\\', '"']
    } else if c == '\\' {
        seq!['\\', '\\']
    } else if c == '\n' {
        seq!['\\', 'n']
    } else if c == '\r' {
        seq!['\\', 'r']
    } else if c == '\t' {
        seq!['\\', 't']
    } else if (c as int) < 32 {
        seq!['\\', 'u', '0', '0', spec_hex_digit((c as int) / 16), spec_hex_digit((c as int) % 16)]
    } else {
        seq![c]
    }
}

/// The JSON string escaping of a whole character sequence.
pub open spec fn spec_json_escaped(s: Seq<char>) -> Seq<char>
    decreases s.len(),
{
    if s.len() == 0 {
        Seq::empty()
    } else {
        json_esc_char(s[0]) + spec_json_escaped(s.drop_first())
    }
}

proof fn lemma_json_escaped_app(s1: Seq<char>, s2: Seq<char>)
    ensures
        spec_json_escaped(s1 + s2) == spec_json_escaped(s1) + spec_json_escaped(s2),
    decreases s1.len(),
{
    if s1.len() == 0 {
        assert(s1 + s2 =~= s2);
        assert(spec_json_escaped(s1) + spec_json_escaped(s2) =~= spec_json_escaped(s2));
    } else {
        lemma_json_escaped_app(s1.drop_first(), s2);
        assert((s1 + s2).drop_first() =~= s1.drop_first() + s2);
        assert(spec_json_escaped(s1 + s2) =~= spec_json_escaped(s1) + spec_json_escaped(s2));
    }
}

proof fn lemma_json_escaped_snoc(s: Seq<char>, i: int)
    requires
        0 <= i < s.len(),
    ensures
        spec_json_escaped(s.take(i + 1)) == spec_json_escaped(s.take(i)) + json_esc_char(s[i]),
{
    let single = seq![s[i]];
    assert(s.take(i + 1) =~= s.take(i) + single);
    lemma_json_escaped_app(s.take(i), single);
    assert(single.drop_first() =~= Seq::<char>::empty());
    assert(spec_json_escaped(single) == json_esc_char(s[i]) + spec_json_escaped(single.drop_first()));
    assert(spec_json_escaped(single.drop_first()) == Seq::<char>::empty());
    assert(json_esc_char(s[i]) + Seq::<char>::empty() =~= json_esc_char(s[i]));
}

/// Appends `s` to `out`, escaping it as JSON string content.
pub fn append_json_escaped(out: &mut String, s: &str)
    ensures
        final(out)@ == old(out)@ + spec_json_escaped(s@),
{
    let len = s.unicode_len();
    let ghost init = out@;
    let mut i: usize = 0;
    while i < len
        invariant
            i <= len,
            len == s@.len(),
            out@ == init + spec_json_escaped(s@.take(i as int)),
        decreases len - i,
    {
        let c = s.get_char(i);
        if c == '"' {
            out.append("\\\"");
            proof {
                reveal_strlit("\\\"");
                assert(("\\\"")@ =~= seq!['\\', '"']);
            }
        } else if c == '\\' {
            out.append("\\\\");
            proof {
                reveal_strlit("\\\\");
                assert(("\\\\")@ =~= seq!['\\', '\\']);
            }
        } else if c == '\n' {
            out.append("\\n");
            proof {
                reveal_strlit("\\n");
                assert(("\\n")@ =~= seq!['\\', 'n']);
            }
        } else if c == '\r' {
            out.append("\\r");
            proof {
                reveal_strlit("\\r");
                assert(("\\r")@ =~= seq!['\\', 'r']);
            }
        } else if c == '\t' {
            out.append("\\t");
            proof {
                reveal_strlit("\\t");
                assert(("\\t")@ =~= seq!['\\', 't']);
            }
        } else if (c as u32) < 32 {
            out.append("\\u00");
            let code = (c as u32) as u64;
            let hi = hex_digit_str(code / 16);
            out.append(hi);
            let lo = hex_digit_str(code % 16);
            out.append(lo);
            proof {
                reveal_strlit("\\u00");
                assert(("\\u00")@ =~= seq!['\\', 'u', '0', '0']);
                assert(out@ =~= init + spec_json_escaped(s@.take(i as int)) + json_esc_char(
                    s@[i as int],
                ));
            }
        } else {
            let piece = s.substring_char(i, i + 1);
            out.append(piece);
            proof {
                assert(piece@ =~= seq![s@[i as int]]);
            }
        }
        proof {
            lemma_json_escaped_snoc(s@, i as int);
            assert(out@ =~= init + spec_json_escaped(s@.take(i as int + 1)));
        }
        i += 1;
    }
    proof {
        assert(s@.take(len as int) =~= s@);
        assert(out@ =~= old(out)@ + spec_json_escaped(s@));
    }
}

} // verus!
