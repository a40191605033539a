//! Rendering of the JSON response bodies.
//!
//! Every body the endpoint returns is a one- or two-field JSON object whose
//! values are either a JSON string or a decimal integer. The decimal
//! rendering is verified here; the string escaping is delegated to
//! serde_json behind a trusted wrapper whose result is named by
//! [`json_string_of`].

use vstd::prelude::*;

verus! {

/// The JSON string literal (opening quote, escaped characters, closing
/// quote) that renders the given text.
pub uninterp spec fn json_string_of(s: Seq<char>) -> Seq<char>;

/// Relies on serde_json::to_string on a string slice: it renders the JSON
/// string literal for the text, and it depends on the characters alone.
/// Serializing a string slice cannot fail (only writer errors can arise,
/// and the writer is a Vec), so the unwrap never panics.
#[verifier::external_body]
fn json_string(s: &str) -> (r: String)
    ensures
        r@ == json_string_of(s@),
{
    serde_json::to_string(s).unwrap()
}

/// The decimal digit character for a value below ten.
pub open spec fn dec_char(d: nat) -> char {
    if d == 0 {
        '0'
    } else if d == 1 {
        '1'
    } else if d == 2 {
        '2'
    } else if d == 3 {
        '3'
    } else if d == 4 {
        '4'
    } else if d == 5 {
        '5'
    } else if d == 6 {
        '6'
    } else if d == 7 {
        '7'
    } else if d == 8 {
        '8'
    } else {
        '9'
    }
}

/// The decimal rendering of a natural number, most significant digit first,
/// with no leading zeros (a lone zero for zero itself).
pub open spec fn dec_str_of(n: nat) -> Seq<char>
    decreases n,
{
    if n < 10 {
        seq![dec_char(n)]
    } else {
        dec_str_of(n / 10) + seq![dec_char(n % 10)]
    }
}

fn digit_str(d: u64) -> (r: &'static str)
    requires
        d < 10,
    ensures
        r@ == seq![dec_char(d as nat)],
{
    if d == 0 {
        proof {
            reveal_strlit("0");
            assert("0"@ =~= seq![dec_char(d as nat)]);
        }
        "0"
    } else if d == 1 {
        proof {
            reveal_strlit("1");
            assert("1"@ =~= seq![dec_char(d as nat)]);
        }
        "1"
    } else if d == 2 {
        proof {
            reveal_strlit("2");
            assert("2"@ =~= seq![dec_char(d as nat)]);
        }
        "2"
    } else if d == 3 {
        proof {
            reveal_strlit("3");
            assert("3"@ =~= seq![dec_char(d as nat)]);
        }
        "3"
    } else if d == 4 {
        proof {
            reveal_strlit("4");
            assert("4"@ =~= seq![dec_char(d as nat)]);
        }
        "4"
    } else if d == 5 {
        proof {
            reveal_strlit("5");
            assert("5"@ =~= seq![dec_char(d as nat)]);
        }
        "5"
    } else if d == 6 {
        proof {
            reveal_strlit("6");
            assert("6"@ =~= seq![dec_char(d as nat)]);
        }
        "6"
    } else if d == 7 {
        proof {
            reveal_strlit("7");
            assert("7"@ =~= seq![dec_char(d as nat)]);
        }
        "7"
    } else if d == 8 {
        proof {
            reveal_strlit("8");
            assert("8"@ =~= seq![dec_char(d as nat)]);
        }
        "8"
    } else {
        proof {
            reveal_strlit("9");
            assert("9"@ =~= seq![dec_char(d as nat)]);
        }
        "9"
    }
}

fn push_decimal(out: &mut String, n: u64)
    ensures
        final(out)@ == old(out)@ + dec_str_of(n as nat),
    decreases n,
{
    if n < 10 {
        out.append(digit_str(n));
    } else {
        push_decimal(out, n / 10);
        out.append(digit_str(n % 10));
        proof {
            assert(out@ =~= old(out)@ + dec_str_of(n as nat));
        }
    }
}

/// The body `{"message": <text>}` carried by every failure response.
pub open spec fn fail_body_of(message: Seq<char>) -> Seq<char> {
    "{\"message\":"@ + json_string_of(message) + "}"@
}

/// Renders `{"message": <text>}`.
pub fn fail_body(message: &str) -> (r: String)
    ensures
        r@ == fail_body_of(message@),
{
    let mut b = String::from_str("{\"message\":");
    let js = json_string(message);
    b.append(js.as_str());
    b.append("}");
    proof {
        assert(b@ =~= fail_body_of(message@));
    }
    b
}

/// The body `{"id": <id>, "message": <text>}` that renders a stored
/// message record.
pub open spec fn resource_body_of(id: Seq<char>, message: Seq<char>) -> Seq<char> {
    "{\"id\":"@ + json_string_of(id) + ",\"message\":"@ + json_string_of(message) + "}"@
}

/// Renders `{"id": <id>, "message": <text>}`.
pub fn resource_body(id: &str, message: &str) -> (r: String)
    ensures
        r@ == resource_body_of(id@, message@),
{
    let mut b = String::from_str("{\"id\":");
    let jid = json_string(id);
    b.append(jid.as_str());
    b.append(",\"message\":");
    let jmsg = json_string(message);
    b.append(jmsg.as_str());
    b.append("}");
    proof {
        assert(b@ =~= resource_body_of(id@, message@));
    }
    b
}

/// The body `{"message_count": <n>}` returned by the count operation.
pub open spec fn count_body_of(n: nat) -> Seq<char> {
    "{\"message_count\":"@ + dec_str_of(n) + "}"@
}

/// Renders `{"message_count": <n>}`.
pub fn count_body(n: u64) -> (r: String)
    ensures
        r@ == count_body_of(n as nat),
{
    let mut b = String::from_str("{\"message_count\":");
    push_decimal(&mut b, n);
    b.append("}");
    proof {
        assert(b@ =~= count_body_of(n as nat));
    }
    b
}

} // verus!
