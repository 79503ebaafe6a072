//! Rendering a query body as the backend's JSON wire form.
//!
//! The backend takes its query bodies as JSON text.  This module writes that
//! text directly, character for character against a spec-level grammar:
//! string contents are escaped as JSON demands, field lists become string
//! arrays, and the two query shapes become the exact objects the backend
//! expects.  The transport layer only moves the rendered bytes.

use vstd::prelude::*;

use crate::namer::{dec_rep, digit_char, u64_to_dec};
use crate::query::{QueryBody, QueryClause};

verus! {

/// The character of the hexadecimal digit `d`, lower case.
pub open spec fn hex_digit_char(d: nat) -> char {
    if d < 10 {
        digit_char(d)
    } else if d == 10 {
        'a'
    } else if d == 11 {
        'b'
    } else if d == 12 {
        'c'
    } else if d == 13 {
        'd'
    } else if d == 14 {
        'e'
    } else {
        'f'
    }
}

/// The JSON escape of one character: the two-character escapes for quote,
/// backslash and the common control characters, `\u00..` for the remaining
/// control characters, and the character itself otherwise.
pub open spec fn esc_char(c: char) -> Seq<char> {
    if c == '"' {
        seq!['\\', '"']
    } else if c == '\\' {
        seq!['\\', '\\']
    } else if c == '\n' {
        seq!['\\', 'n']
    } else if c == '\r' {
        seq!['\\', 'r']
    } else if c == '\t' {
        seq!['\\', 't']
    } else if (c as u32) < 32 {
        seq!['\\', 'u', '0', '0', hex_digit_char((c as u32 / 16) as nat), hex_digit_char(
            (c as u32 % 16) as nat,
        )]
    } else {
        seq![c]
    }
}

/// The JSON escape of a whole string's contents.
pub open spec fn esc_string(s: Seq<char>) -> Seq<char>
    decreases s.len(),
{
    if s.len() == 0 {
        Seq::empty()
    } else {
        esc_string(s.drop_last()) + esc_char(s.last())
    }
}

/// A JSON string literal: quoted, escaped contents.
pub open spec fn json_string(s: Seq<char>) -> Seq<char> {
    seq!['"'] + esc_string(s) + seq!['"']
}

/// The comma-joined JSON string literals of a list.
pub open spec fn joined_strings(items: Seq<Seq<char>>) -> Seq<char>
    decreases items.len(),
{
    if items.len() == 0 {
        Seq::empty()
    } else if items.len() == 1 {
        json_string(items[0])
    } else {
        joined_strings(items.drop_last()) + seq![','] + json_string(items.last())
    }
}

/// A JSON array of string literals.
pub open spec fn json_string_array(items: Seq<Seq<char>>) -> Seq<char> {
    seq!['['] + joined_strings(items) + seq![']']
}

/// The match-everything query body over the given return fields.
pub open spec fn match_all_json(return_fields: Seq<Seq<char>>) -> Seq<char> {
    "{\"_source\":{\"includes\":"@ + json_string_array(return_fields)
        + "},\"query\":{\"match_all\":{}}}"@
}

/// The cross-field query body: term, searched fields, threshold, return
/// fields.
pub open spec fn cross_fields_json(
    term: Seq<char>,
    fields: Seq<Seq<char>>,
    min_percent: nat,
    return_fields: Seq<Seq<char>>,
) -> Seq<char> {
    "{\"_source\":{\"includes\":"@ + json_string_array(return_fields)
        + "},\"query\":{\"query_string\":{\"query\":"@ + json_string(term)
        + ",\"type\":\"cross_fields\",\"fields\":"@ + json_string_array(fields)
        + ",\"minimum_should_match\":\""@ + dec_rep(min_percent) + "%\"}}}"@
}

/// The one-character string of the hexadecimal digit `d`.
fn hex_digit_str(d: u32) -> (r: &'static str)
    requires
        d < 16,
    ensures
        r@ == seq![hex_digit_char(d as nat)],
{
    proof {
        reveal_strlit("0");
        reveal_strlit("1");
        reveal_strlit("2");
        reveal_strlit("3");
        reveal_strlit("4");
        reveal_strlit("5");
        reveal_strlit("6");
        reveal_strlit("7");
        reveal_strlit("8");
        reveal_strlit("9");
        reveal_strlit("a");
        reveal_strlit("b");
        reveal_strlit("c");
        reveal_strlit("d");
        reveal_strlit("e");
        reveal_strlit("f");
    }
    let r: &'static str = if d == 0 {
        "0"
    } else if d == 1 {
        "1"
    } else if d == 2 {
        "2"
    } else if d == 3 {
        "3"
    } else if d == 4 {
        "4"
    } else if d == 5 {
        "5"
    } else if d == 6 {
        "6"
    } else if d == 7 {
        "7"
    } else if d == 8 {
        "8"
    } else if d == 9 {
        "9"
    } else if d == 10 {
        "a"
    } else if d == 11 {
        "b"
    } else if d == 12 {
        "c"
    } else if d == 13 {
        "d"
    } else if d == 14 {
        "e"
    } else {
        "f"
    };
    proof {
        assert(r@ =~= seq![hex_digit_char(d as nat)]);
    }
    r
}

/// Appends the JSON escape of `s` to `out`.
fn push_escaped(out: &mut String, s: &str)
    ensures
        final(out)@ == old(out)@ + esc_string(s@),
{
    proof {
        reveal_strlit("\\\"");
        reveal_strlit("\\\\");
        reveal_strlit("\\n");
        reveal_strlit("\\r");
        reveal_strlit("\\t");
        reveal_strlit("\\u00");
    }
    let n = s.unicode_len();
    let mut i: usize = 0;
    proof {
        assert(out@ =~= old(out)@ + esc_string(s@.subrange(0, 0)));
    }
    while i < n
        invariant
            n == s@.len(),
            i <= n,
            out@ == old(out)@ + esc_string(s@.subrange(0, i as int)),
        decreases n - i,
    {
        proof {
            reveal_strlit("\\\"");
            reveal_strlit("\\\\");
            reveal_strlit("\\n");
            reveal_strlit("\\r");
            reveal_strlit("\\t");
            reveal_strlit("\\u00");
        }
        let c = s.get_char(i);
        let u = c as u32;
        if c == '"' {
            out.append("\\\"");
            proof {
                assert("\\\""@ =~= esc_char(c));
            }
        } else if c == '\\' {
            out.append("\\\\");
            proof {
                assert("\\\\"@ =~= esc_char(c));
            }
        } else if c == '\n' {
            out.append("\\n");
            proof {
                assert("\\n"@ =~= esc_char(c));
            }
        } else if c == '\r' {
            out.append("\\r");
            proof {
                assert("\\r"@ =~= esc_char(c));
            }
        } else if c == '\t' {
            out.append("\\t");
            proof {
                assert("\\t"@ =~= esc_char(c));
            }
        } else if u < 32 {
            out.append("\\u00");
            out.append(hex_digit_str(u / 16));
            out.append(hex_digit_str(u % 16));
            proof {
                assert("\\u00"@ + seq![hex_digit_char((u / 16) as nat)] + seq![
                    hex_digit_char((u % 16) as nat),
                ] =~= esc_char(c));
            }
        } else {
            let mut one = String::new();
            one.append(s.substring_char(i, i + 1));
            proof {
                assert(s@.subrange(i as int, i + 1) =~= seq![c]);
                assert(one@ =~= esc_char(c));
            }
            out.append(one.as_str());
        }
        i = i + 1;
        proof {
            let prefix = s@.subrange(0, i as int);
            assert(prefix.drop_last() =~= s@.subrange(0, i - 1));
            assert(prefix.last() == c);
            assert(out@ =~= old(out)@ + esc_string(prefix));
        }
    }
    proof {
        assert(s@.subrange(0, n as int) =~= s@);
    }
}

/// Appends the JSON string literal of `s` to `out`.
fn push_json_string(out: &mut String, s: &str)
    ensures
        final(out)@ == old(out)@ + json_string(s@),
{
    proof {
        reveal_strlit("\"");
    }
    out.append("\"");
    push_escaped(out, s);
    out.append("\"");
    proof {
        assert(out@ =~= old(out)@ + json_string(s@));
    }
}

/// Appends the JSON array of string literals of `items` to `out`.
fn push_string_array(out: &mut String, items: &Vec<String>)
    ensures
        final(out)@ == old(out)@ + json_string_array(items.deep_view()),
{
    proof {
        reveal_strlit("[");
        reveal_strlit("]");
        reveal_strlit(",");
    }
    out.append("[");
    let mut i: usize = 0;
    while i < items.len()
        invariant
            i <= items@.len(),
            out@ == old(out)@ + seq!['['] + joined_strings(items.deep_view().subrange(
                0,
                i as int,
            )),
        decreases items@.len() - i,
    {
        proof {
            reveal_strlit("[");
            reveal_strlit(",");
        }
        if i > 0 {
            out.append(",");
        }
        push_json_string(out, items[i].as_str());
        i = i + 1;
        proof {
            let prefix = items.deep_view().subrange(0, i as int);
            assert(prefix.last() == items.deep_view()[i - 1]);
            assert(items.deep_view()[i - 1] == items@[i - 1]@);
            if i == 1 {
                assert(joined_strings(prefix) == json_string(prefix[0]));
            } else {
                assert(prefix.drop_last() =~= items.deep_view().subrange(0, i - 1));
            }
            assert(out@ =~= old(out)@ + seq!['['] + joined_strings(prefix));
        }
    }
    out.append("]");
    proof {
        assert(items.deep_view().subrange(0, items.deep_view().len() as int)
            =~= items.deep_view());
        assert(out@ =~= old(out)@ + json_string_array(items.deep_view()));
    }
}

/// Renders a query body as the backend's JSON text, exactly as the grammar
/// above states it.
pub fn render_query_json(q: &QueryBody) -> (r: String)
    ensures
        q.clause is MatchAll ==> r@ == match_all_json(q.return_fields.deep_view()),
        q.clause matches QueryClause::CrossFields { term, fields, min_should_match_percent }
            ==> r@ == cross_fields_json(
            term@,
            fields.deep_view(),
            min_should_match_percent as nat,
            q.return_fields.deep_view(),
        ),
{
    let mut out = String::new();
    out.append("{\"_source\":{\"includes\":");
    push_string_array(&mut out, &q.return_fields);
    match &q.clause {
        QueryClause::MatchAll => {
            out.append("},\"query\":{\"match_all\":{}}}");
            proof {
                assert(out@ =~= match_all_json(q.return_fields.deep_view()));
            }
        },
        QueryClause::CrossFields { term, fields, min_should_match_percent } => {
            out.append("},\"query\":{\"query_string\":{\"query\":");
            push_json_string(&mut out, term.as_str());
            out.append(",\"type\":\"cross_fields\",\"fields\":");
            push_string_array(&mut out, fields);
            out.append(",\"minimum_should_match\":\"");
            let dec = u64_to_dec(*min_should_match_percent as u64);
            out.append(dec.as_str());
            out.append("%\"}}}");
            proof {
                assert(out@ =~= cross_fields_json(
                    term@,
                    fields.deep_view(),
                    *min_should_match_percent as nat,
                    q.return_fields.deep_view(),
                ));
            }
        },
    }
    out
}

} // verus!
