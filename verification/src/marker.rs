//! The startup-migration marker: a small structured text file whose presence
//! records that the one-time migration completed.  The renderer is proved to
//! produce exactly the text `marker_text_spec` describes, with the source and
//! destination paths escaped as JSON string contents.

use vstd::prelude::*;
use vstd::string::*;

verus! {

/// The lower-case hexadecimal digit for a value below sixteen.
pub open spec fn hex_digit(n: int) -> char {
    if n == 0 {
        '0'
    } else if n == 1 {
        '1'
    } else if n == 2 {
        '2'
    } else if n == 3 {
        '3'
    } else if n == 4 {
        '4'
    } else if n == 5 {
        '5'
    } else if n == 6 {
        '6'
    } else if n == 7 {
        '7'
    } else if n == 8 {
        '8'
    } else if n == 9 {
        '9'
    } else if n == 10 {
        'a'
    } else if n == 11 {
        'b'
    } else if n == 12 {
        'c'
    } else if n == 13 {
        'd'
    } else if n == 14 {
        'e'
    } else {
        'f'
    }
}

fn hex_digit_str(n: u8) -> (r: &'static str)
    requires
        n < 16,
    ensures
        r@ =~= seq![hex_digit(n as int)],
{
    proof {
        reveal_strlit("0");
        reveal_strlit("1");
        reveal_strlit("2");
        reveal_strlit("3");
        reveal_strlit("4");
        reveal_strlit("5");
        reveal_strlit("6");
        reveal_strlit("7");
        reveal_strlit("8");
        reveal_strlit("9");
        reveal_strlit("a");
        reveal_strlit("b");
        reveal_strlit("c");
        reveal_strlit("d");
        reveal_strlit("e");
        reveal_strlit("f");
    }
    match n {
        0 => "0",
        1 => "1",
        2 => "2",
        3 => "3",
        4 => "4",
        5 => "5",
        6 => "6",
        7 => "7",
        8 => "8",
        9 => "9",
        10 => "a",
        11 => "b",
        12 => "c",
        13 => "d",
        14 => "e",
        _ => "f",
    }
}

/// How one character appears inside a JSON string literal.
pub open spec fn escaped_char(c: char) -> Seq<char> {
    let u = c as u32;
    if c == '"' {
        seq!['\\', '"']
    } else if c == '\\' {
        seq!['\\', '\\']
    } else if c == '\n' {
        seq!['\\', 'n']
    } else if c == '\r' {
        seq!['\\', 'r']
    } else if c == '\t' {
        seq!['\\', 't']
    } else if u < 0x20 {
        seq!['\\', 'u', '0', '0', hex_digit((u / 16) as int), hex_digit((u % 16) as int)]
    } else {
        seq![c]
    }
}

/// A whole text escaped character by character.
pub open spec fn escaped_text(s: Seq<char>) -> Seq<char>
    decreases s.len(),
{
    if s.len() == 0 {
        Seq::empty()
    } else {
        escaped_char(s[0]) + escaped_text(s.drop_first())
    }
}

proof fn lemma_escaped_text_concat(a: Seq<char>, b: Seq<char>)
    ensures
        escaped_text(a + b) == escaped_text(a) + escaped_text(b),
    decreases a.len(),
{
    if a.len() == 0 {
        assert(a + b =~= b);
        assert(escaped_text(a) + escaped_text(b) =~= escaped_text(b));
    } else {
        assert((a + b).drop_first() =~= a.drop_first() + b);
        assert((a + b)[0] == a[0]);
        lemma_escaped_text_concat(a.drop_first(), b);
        assert(escaped_char(a[0]) + (escaped_text(a.drop_first()) + escaped_text(b)) =~= (
        escaped_char(a[0]) + escaped_text(a.drop_first())) + escaped_text(b));
    }
}

proof fn lemma_escaped_text_single(c: char)
    ensures
        escaped_text(seq![c]) == escaped_char(c),
{
    let s = seq![c];
    assert(s.len() == 1);
    assert(s[0] == c);
    assert(s.drop_first() =~= Seq::<char>::empty());
    assert(escaped_text(s) == escaped_char(c) + escaped_text(s.drop_first()));
    assert(escaped_text(Seq::<char>::empty()) =~= Seq::<char>::empty());
    assert(escaped_char(c) + Seq::<char>::empty() =~= escaped_char(c));
}

/// Escapes a text for use as JSON string contents.
pub fn escape_json_text(s: &str) -> (r: String)
    ensures
        r@ == escaped_text(s@),
{
    let n = s.unicode_len();
    let mut out = String::new();
    let mut i: usize = 0;
    while i < n
        invariant
            n == s@.len(),
            i <= n,
            out@ == escaped_text(s@.subrange(0, i as int)),
        decreases n - i,
    {
        let c = s.get_char(i);
        let u = c as u32;
        if c == '"' {
            out.append("\\\"");
            proof {
                reveal_strlit("\\\"");
                assert("\\\""@ =~= escaped_char(c));
            }
        } else if c == '\\' {
            out.append("\\\\");
            proof {
                reveal_strlit("\\\\");
                assert("\\\\"@ =~= escaped_char(c));
            }
        } else if c == '\n' {
            out.append("\\n");
            proof {
                reveal_strlit("\\n");
                assert("\\n"@ =~= escaped_char(c));
            }
        } else if c == '\r' {
            out.append("\\r");
            proof {
                reveal_strlit("\\r");
                assert("\\r"@ =~= escaped_char(c));
            }
        } else if c == '\t' {
            out.append("\\t");
            proof {
                reveal_strlit("\\t");
                assert("\\t"@ =~= escaped_char(c));
            }
        } else if u < 0x20 {
            out.append("\\u00");
            let hi = hex_digit_str((u / 16) as u8);
            out.append(hi);
            let lo = hex_digit_str((u % 16) as u8);
            out.append(lo);
            proof {
                reveal_strlit("\\u00");
                assert("\\u00"@ + hi@ + lo@ =~= escaped_char(c));
            }
        } else {
            let piece = s.substring_char(i, i + 1);
            out.append(piece);
            proof {
                assert(piece@ =~= seq![c]);
                assert(seq![c] =~= escaped_char(c));
            }
        }
        proof {
            assert(s@.subrange(0, i + 1) =~= s@.subrange(0, i as int) + seq![s@[i as int]]);
            lemma_escaped_text_concat(s@.subrange(0, i as int), seq![s@[i as int]]);
            lemma_escaped_text_single(s@[i as int]);
        }
        i = i + 1;
    }
    proof {
        assert(s@.subrange(0, n as int) =~= s@);
    }
    out
}

/// The marker file's whole text: version 1 and the resolved source and
/// destination database paths.
pub open spec fn marker_text_spec(source: Seq<char>, destination: Seq<char>) -> Seq<char> {
    "{\"version\":1,\"source_db_path\":\""@ + escaped_text(source)
        + "\",\"destination_db_path\":\""@ + escaped_text(destination) + "\"}"@
}

/// Renders the startup-migration marker for the given database paths.
pub fn render_migration_marker(source_db_path: &str, destination_db_path: &str) -> (r: String)
    ensures
        r@ == marker_text_spec(source_db_path@, destination_db_path@),
{
    let mut out = String::from_str("{\"version\":1,\"source_db_path\":\"");
    let escaped_source = escape_json_text(source_db_path);
    out.append(escaped_source.as_str());
    out.append("\",\"destination_db_path\":\"");
    let escaped_destination = escape_json_text(destination_db_path);
    out.append(escaped_destination.as_str());
    out.append("\"}");
    out
}

} // verus!
