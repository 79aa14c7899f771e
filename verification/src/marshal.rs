//! Request marshalling: the structured request descriptor handed to the
//! script engine, and its JSON text form injected into the handler-call
//! script.

use vstd::prelude::*;

verus! {

/// The structured, engine-injectable description of one inbound HTTP
/// request: method, absolute URL, header pairs, body, and query string.
/// Built fresh per request and immutable once constructed.
pub struct RequestDescriptor {
    pub method: String,
    pub url: String,
    pub headers: Vec<(String, String)>,
    pub body: String,
    pub query: String,
}

/// The fixed origin prepended to the request path when forming the
/// absolute URL handed to the script.
pub open spec fn origin_text() -> Seq<char> {
    "http://localhost:3000"@
}

/// Builds the descriptor for one request.  Pure: the result is exactly the
/// five inputs, with the URL formed from the fixed origin and the path.
pub fn marshal_request(
    method: String,
    path: String,
    headers: Vec<(String, String)>,
    body: String,
    query: String,
) -> (r: RequestDescriptor)
    ensures
        r.method == method,
        r.url@ == origin_text() + path@,
        r.headers == headers,
        r.body == body,
        r.query == query,
{
    let mut url = String::from_str("http://localhost:3000");
    url.append(path.as_str());
    RequestDescriptor { method, url, headers, body, query }
}

/// Relies on std's `String::push`: appends the given character to the end
/// of the string.
#[verifier::external_body]
fn push_char(s: &mut String, c: char)
    ensures
        final(s)@ == old(s)@ + seq![c],
{
    s.push(c);
}

/// The character for one hexadecimal digit, lower case.
pub open spec fn hex_char(n: int) -> char {
    if n == 0 {
        '0'
    } else if n == 1 {
        '1'
    } else if n == 2 {
        '2'
    } else if n == 3 {
        '3'
    } else if n == 4 {
        '4'
    } else if n == 5 {
        '5'
    } else if n == 6 {
        '6'
    } else if n == 7 {
        '7'
    } else if n == 8 {
        '8'
    } else if n == 9 {
        '9'
    } else if n == 10 {
        'a'
    } else if n == 11 {
        'b'
    } else if n == 12 {
        'c'
    } else if n == 13 {
        'd'
    } else if n == 14 {
        'e'
    } else {
        'f'
    }
}

fn hex_digit(n: u32) -> (c: char)
    requires
        n < 16,
    ensures
        c == hex_char(n as int),
{
    if n == 0 {
        '0'
    } else if n == 1 {
        '1'
    } else if n == 2 {
        '2'
    } else if n == 3 {
        '3'
    } else if n == 4 {
        '4'
    } else if n == 5 {
        '5'
    } else if n == 6 {
        '6'
    } else if n == 7 {
        '7'
    } else if n == 8 {
        '8'
    } else if n == 9 {
        '9'
    } else if n == 10 {
        'a'
    } else if n == 11 {
        'b'
    } else if n == 12 {
        'c'
    } else if n == 13 {
        'd'
    } else if n == 14 {
        'e'
    } else {
        'f'
    }
}

/// How one character is written inside a JSON string literal: quote,
/// backslash and the common control characters get a two-character escape,
/// any other control character a `\u00XX` escape, and everything else
/// stands as itself.
pub open spec fn json_escape_char(c: char) -> Seq<char> {
    if c == '"' {
        "\\\""@
    } else if c == '\\' {
        "\\\\"@
    } else if c == '\n' {
        "\\n"@
    } else if c == '\r' {
        "\\r"@
    } else if c == '\t' {
        "\\t"@
    } else if (c as u32) < 32 {
        "\\u00"@ + seq![hex_char((c as u32) as int / 16)] + seq![hex_char((c as u32) as int % 16)]
    } else {
        seq![c]
    }
}

/// The body of the JSON string literal that writes `s`: each character
/// escaped as `json_escape_char` says.
pub open spec fn json_escaped(s: Seq<char>) -> Seq<char>
    decreases s.len(),
{
    if s.len() == 0 {
        Seq::<char>::empty()
    } else {
        json_escaped(s.drop_last()) + json_escape_char(s.last())
    }
}

/// The complete JSON string literal that writes `s`.
pub open spec fn json_string(s: Seq<char>) -> Seq<char> {
    seq!['"'] + json_escaped(s) + seq!['"']
}

fn append_escaped_char(out: &mut String, c: char)
    ensures
        final(out)@ == old(out)@ + json_escape_char(c),
{
    if c == '"' {
        out.append("\\\"");
        proof {
            reveal_strlit("\\\"");
        }
    } else if c == '\\' {
        out.append("\\\\");
        proof {
            reveal_strlit("\\\\");
        }
    } else if c == '\n' {
        out.append("\\n");
        proof {
            reveal_strlit("\\n");
        }
    } else if c == '\r' {
        out.append("\\r");
        proof {
            reveal_strlit("\\r");
        }
    } else if c == '\t' {
        out.append("\\t");
        proof {
            reveal_strlit("\\t");
        }
    } else if (c as u32) < 32 {
        let d: u32 = c as u32;
        out.append("\\u00");
        push_char(out, hex_digit(d / 16));
        push_char(out, hex_digit(d % 16));
    } else {
        push_char(out, c);
    }
}

/// Appends the JSON string literal for `s` to `out`.
pub fn append_json_string(out: &mut String, s: &str)
    ensures
        final(out)@ == old(out)@ + json_string(s@),
{
    let ghost init: Seq<char> = out@;
    push_char(out, '"');
    let n: usize = s.unicode_len();
    let mut i: usize = 0;
    while i < n
        invariant
            n == s@.len(),
            i <= n,
            out@ == init + seq!['"'] + json_escaped(s@.subrange(0, i as int)),
        decreases n - i,
    {
        let c = s.get_char(i);
        append_escaped_char(out, c);
        proof {
            assert(s@.subrange(0, i + 1 as int).drop_last() =~= s@.subrange(0, i as int));
            assert(s@.subrange(0, i + 1 as int).last() == s@[i as int]);
        }
        i = i + 1;
    }
    proof {
        assert(s@.subrange(0, n as int) =~= s@);
    }
    push_char(out, '"');
    proof {
        assert(out@ =~= init + json_string(s@));
    }
}

/// One `"key":"value"` member of the headers object.
pub open spec fn json_header_entry(k: Seq<char>, v: Seq<char>) -> Seq<char> {
    json_string(k) + seq![':'] + json_string(v)
}

/// The comma-separated members of the headers object, in order.
pub open spec fn json_headers(hs: Seq<(String, String)>) -> Seq<char>
    decreases hs.len(),
{
    if hs.len() == 0 {
        Seq::<char>::empty()
    } else if hs.len() == 1 {
        json_header_entry(hs[0].0@, hs[0].1@)
    } else {
        json_headers(hs.drop_last()) + seq![','] + json_header_entry(hs.last().0@, hs.last().1@)
    }
}

proof fn lemma_json_headers_step(hs: Seq<(String, String)>, i: int)
    requires
        0 <= i < hs.len(),
    ensures
        i == 0 ==> json_headers(hs.subrange(0, 1)) == json_header_entry(hs[0].0@, hs[0].1@),
        i > 0 ==> json_headers(hs.subrange(0, i + 1)) == json_headers(hs.subrange(0, i))
            + seq![','] + json_header_entry(hs[i].0@, hs[i].1@),
{
    let p = hs.subrange(0, i + 1);
    if i == 0 {
        assert(p.len() == 1);
        assert(p[0] == hs[0]);
    } else {
        assert(p.len() >= 2);
        assert(p.drop_last() =~= hs.subrange(0, i));
        assert(p.last() == hs[i]);
    }
}

/// The JSON text injected into the handler-call script for one request:
/// an object with the five request fields, headers as a nested object.
pub open spec fn json_of_request(r: RequestDescriptor) -> Seq<char> {
    "{\"method\":"@ + json_string(r.method@) + ",\"url\":"@ + json_string(r.url@)
        + ",\"headers\":{"@ + json_headers(r.headers@) + "},\"body\":"@ + json_string(r.body@)
        + ",\"query\":"@ + json_string(r.query@) + "}"@
}

/// Writes the descriptor as the exact JSON text the script engine will
/// parse into the handler's `req` argument.
pub fn request_to_json(r: &RequestDescriptor) -> (out: String)
    ensures
        out@ == json_of_request(*r),
{
    let mut out = String::from_str("{\"method\":");
    append_json_string(&mut out, r.method.as_str());
    out.append(",\"url\":");
    append_json_string(&mut out, r.url.as_str());
    out.append(",\"headers\":{");
    let ghost before_headers: Seq<char> = out@;
    let n: usize = r.headers.len();
    let mut i: usize = 0;
    while i < n
        invariant
            n == r.headers@.len(),
            i <= n,
            out@ == before_headers + json_headers(r.headers@.subrange(0, i as int)),
        decreases n - i,
    {
        if i > 0 {
            push_char(&mut out, ',');
        }
        append_json_string(&mut out, r.headers[i].0.as_str());
        push_char(&mut out, ':');
        append_json_string(&mut out, r.headers[i].1.as_str());
        proof {
            lemma_json_headers_step(r.headers@, i as int);
        }
        i = i + 1;
    }
    proof {
        assert(r.headers@.subrange(0, n as int) =~= r.headers@);
    }
    out.append("},\"body\":");
    append_json_string(&mut out, r.body.as_str());
    out.append(",\"query\":");
    append_json_string(&mut out, r.query.as_str());
    out.append("}");
    out
}

} // verus!
