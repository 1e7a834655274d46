//! The control forwarder: turns an administrative "control engine" intent
//! into the request made against the separately running gateway, and maps
//! the gateway's answer — or its unreachability — back into the
//! administrative response.
//!
//! The network call itself is the shell's: the library frames the exact
//! endpoint and JSON body beforehand and classifies the outcome afterwards,
//! so every decision on the path is verified while the transport stays
//! outside.

use vstd::prelude::*;
use vstd::string::*;
use crate::crypto::hex_digit_char;
use crate::numfmt::dec_of;

verus! {

/// How one character is written inside a JSON string literal: the two-byte
/// short escapes, `\u00XX` for the remaining control characters, and the
/// character itself otherwise.
pub open spec fn json_escaped_char(c: char) -> Seq<char> {
    if c == '"' {
        seq!['\\', '"']
    } else if c == '\\' {
        seq!['\\', '\\']
    } else if c == '\n' {
        seq!['\\', 'n']
    } else if c == '\r' {
        seq!['\\', 'r']
    } else if c == '\t' {
        seq!['\\', 't']
    } else if (c as u32) < 32 {
        seq!['\\', 'u', '0', '0', hex_digit_char((c as u8) / 16), hex_digit_char((c as u8) % 16)]
    } else {
        seq![c]
    }
}

/// A whole string escaped for inclusion in a JSON string literal.
pub open spec fn json_escape(s: Seq<char>) -> Seq<char>
    decreases s.len(),
{
    if s.len() == 0 {
        Seq::<char>::empty()
    } else {
        json_escaped_char(s[0]) + json_escape(s.drop_first())
    }
}

proof fn lemma_json_escape_push(s: Seq<char>, c: char)
    ensures
        json_escape(s.push(c)) == json_escape(s) + json_escaped_char(c),
    decreases s.len(),
{
    if s.len() == 0 {
        assert(s.push(c)[0] == c);
        assert(s.push(c).drop_first() =~= Seq::<char>::empty());
        assert(json_escape(s.push(c)) == json_escaped_char(c) + json_escape(
            Seq::<char>::empty(),
        ));
        assert(json_escape(s.push(c)) =~= json_escape(s) + json_escaped_char(c));
    } else {
        assert(s.push(c)[0] == s[0]);
        assert(s.push(c).drop_first() =~= s.drop_first().push(c));
        lemma_json_escape_push(s.drop_first(), c);
        assert(json_escape(s.push(c)) == json_escaped_char(s[0]) + json_escape(
            s.drop_first().push(c),
        ));
        assert(json_escape(s.push(c)) == json_escaped_char(s[0]) + (json_escape(s.drop_first())
            + json_escaped_char(c)));
        assert(json_escape(s) == json_escaped_char(s[0]) + json_escape(s.drop_first()));
        assert(json_escape(s.push(c)) =~= json_escape(s) + json_escaped_char(c));
    }
}

/// One hex digit as a string slice.
fn hex_digit_str(v: u8) -> (r: &'static str)
    requires
        v < 16,
    ensures
        r@ == seq![hex_digit_char(v)],
{
    proof {
        reveal_strlit("0");
        reveal_strlit("1");
        reveal_strlit("2");
        reveal_strlit("3");
        reveal_strlit("4");
        reveal_strlit("5");
        reveal_strlit("6");
        reveal_strlit("7");
        reveal_strlit("8");
        reveal_strlit("9");
        reveal_strlit("a");
        reveal_strlit("b");
        reveal_strlit("c");
        reveal_strlit("d");
        reveal_strlit("e");
        reveal_strlit("f");
    }
    let r = match v {
        0 => "0",
        1 => "1",
        2 => "2",
        3 => "3",
        4 => "4",
        5 => "5",
        6 => "6",
        7 => "7",
        8 => "8",
        9 => "9",
        10 => "a",
        11 => "b",
        12 => "c",
        13 => "d",
        14 => "e",
        _ => "f",
    };
    proof {
        assert(r@ =~= seq![hex_digit_char(v)]);
    }
    r
}

/// Escapes a string for inclusion in a JSON string literal.
pub fn json_escape_str(s: &str) -> (r: String)
    ensures
        r@ == json_escape(s@),
{
    let n = s.unicode_len();
    let mut out = String::new();
    proof {
        assert(s@.subrange(0, 0) =~= Seq::<char>::empty());
    }
    let mut i: usize = 0;
    while i < n
        invariant
            0 <= i <= n,
            n == s@.len(),
            out@ == json_escape(s@.subrange(0, i as int)),
        decreases n - i,
    {
        let c = s.get_char(i);
        if c == '"' {
            proof {
                reveal_strlit("\\\"");
            }
            out.append("\\\"");
            proof {
                assert("\\\""@ =~= json_escaped_char(c));
            }
        } else if c == '\\' {
            proof {
                reveal_strlit("\\\\");
            }
            out.append("\\\\");
            proof {
                assert("\\\\"@ =~= json_escaped_char(c));
            }
        } else if c == '\n' {
            proof {
                reveal_strlit("\\n");
            }
            out.append("\\n");
            proof {
                assert("\\n"@ =~= json_escaped_char(c));
            }
        } else if c == '\r' {
            proof {
                reveal_strlit("\\r");
            }
            out.append("\\r");
            proof {
                assert("\\r"@ =~= json_escaped_char(c));
            }
        } else if c == '\t' {
            proof {
                reveal_strlit("\\t");
            }
            out.append("\\t");
            proof {
                assert("\\t"@ =~= json_escaped_char(c));
            }
        } else if (c as u32) < 32 {
            proof {
                reveal_strlit("\\u00");
            }
            let ghost before = out@;
            out.append("\\u00");
            out.append(hex_digit_str((c as u8) / 16));
            out.append(hex_digit_str((c as u8) % 16));
            proof {
                assert(out@ =~= before + json_escaped_char(c));
            }
        } else {
            crate::strutil::push_char(&mut out, c);
            proof {
                assert(seq![c] =~= json_escaped_char(c));
                assert(out@ =~= json_escape(s@.subrange(0, i as int)) + json_escaped_char(c));
            }
        }
        proof {
            assert(s@.subrange(0, i + 1) =~= s@.subrange(0, i as int).push(s@[i as int]));
            lemma_json_escape_push(s@.subrange(0, i as int), s@[i as int]);
        }
        i = i + 1;
    }
    proof {
        assert(s@.subrange(0, n as int) =~= s@);
    }
    out
}

/// The gateway endpoint a control intent is posted to.
pub open spec fn control_endpoint_spec(base: Seq<char>, action: Seq<char>) -> Seq<char> {
    base + "/engine/"@ + action
}

/// Builds `{base}/engine/{action}`.
pub fn build_control_endpoint(base: &str, action: &str) -> (r: String)
    ensures
        r@ == control_endpoint_spec(base@, action@),
{
    let mut s = base.to_owned();
    s.append("/engine/");
    s.append(action);
    s
}

/// The JSON body of a control request: empty, or carrying the model path.
pub open spec fn control_body_spec(model_path: Option<Seq<char>>) -> Seq<char> {
    match model_path {
        None => "{}"@,
        Some(p) => "{\"model_path\":\""@ + json_escape(p) + "\"}"@,
    }
}

/// Frames the JSON body posted to the gateway.
pub fn build_control_body(model_path: Option<&str>) -> (r: String)
    ensures
        r@ == control_body_spec(match model_path {
            Some(p) => Some(p@),
            None => None,
        }),
{
    match model_path {
        None => String::from_str("{}"),
        Some(p) => {
            let mut s = String::from_str("{\"model_path\":\"");
            let escaped = json_escape_str(p);
            s.append(escaped.as_str());
            s.append("\"}");
            s
        },
    }
}

/// What the shell observed of the gateway call.
#[derive(Debug, PartialEq, Eq)]
pub enum GatewayReply {
    /// The request never got an HTTP answer: connection refused, timeout,
    /// unresolvable address.
    TransportFailed(String),
    /// An HTTP answer: status code and raw body.
    Http(u16, String),
}

/// How the forwarding failed.  Both kinds answer 502.
#[derive(Debug, PartialEq, Eq)]
pub enum ForwardError {
    /// The gateway was unreachable; carries the transport error's text.
    Unavailable(String),
    /// The gateway answered with a non-success status.
    GatewayError(u16),
}

/// A status code in the HTTP success class.
pub open spec fn is_success_status(status: u16) -> bool {
    200 <= status < 300
}

/// Maps the outcome of the gateway call: a transport failure becomes
/// `Unavailable`, a non-success answer becomes `GatewayError`, and a
/// success passes the body through unchanged.
pub fn classify_gateway_reply(reply: GatewayReply) -> (r: Result<String, ForwardError>)
    ensures
        match reply {
            GatewayReply::TransportFailed(e) => r == Err::<String, ForwardError>(
                ForwardError::Unavailable(e),
            ),
            GatewayReply::Http(status, body) => if is_success_status(status) {
                r == Ok::<String, ForwardError>(body)
            } else {
                r == Err::<String, ForwardError>(ForwardError::GatewayError(status))
            },
        },
{
    match reply {
        GatewayReply::TransportFailed(e) => Err(ForwardError::Unavailable(e)),
        GatewayReply::Http(status, body) => {
            if 200 <= status && status < 300 {
                Ok(body)
            } else {
                Err(ForwardError::GatewayError(status))
            }
        },
    }
}

impl ForwardError {
    /// The descriptive message placed in the error envelope.
    pub fn message(&self) -> (r: String)
        ensures
            match self {
                ForwardError::Unavailable(e) => r@ == "gateway request failed: "@ + e@,
                ForwardError::GatewayError(status) => r@ == "gateway error: "@ + dec_of(
                    *status as nat,
                ),
            },
    {
        match self {
            ForwardError::Unavailable(e) => {
                let mut s = String::from_str("gateway request failed: ");
                s.append(e.as_str());
                s
            },
            ForwardError::GatewayError(status) => {
                let mut s = String::from_str("gateway error: ");
                let code = crate::numfmt::u64_to_dec(*status as u64);
                s.append(code.as_str());
                s
            },
        }
    }

    /// Every forwarding failure is answered as a bad gateway.
    pub fn status_code(&self) -> (r: u16)
        ensures
            r == 502,
    {
        502
    }
}

} // verus!
