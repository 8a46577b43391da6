use vstd::prelude::*;
use vstd::string::StrSliceExecFns;
use crate::json::{decimal, quoted, push_decimal, push_quoted};
use crate::text::chars_of;

verus! {

/// A request for the host's `http` capability.
#[derive(Debug)]
pub struct HttpRequest {
    pub method: String,
    pub url: String,
    /// Header names and values, in the order they are sent.
    pub headers: Vec<(String, String)>,
    pub body: Option<String>,
    /// Seconds the host may spend on the request.
    pub timeout: u32,
}

/// The entries of a JSON object of string pairs, separated by a comma and a space.
pub open spec fn header_entries(h: Seq<(Seq<char>, Seq<char>)>) -> Seq<char>
    decreases h.len(),
{
    if h.len() == 0 {
        Seq::empty()
    } else {
        let entry = quoted(h.last().0) + ": "@ + quoted(h.last().1);
        if h.len() == 1 {
            entry
        } else {
            header_entries(h.drop_last()) + ", "@ + entry
        }
    }
}

/// The JSON object that describes a request to the host.
pub open spec fn request_json(
    method: Seq<char>,
    url: Seq<char>,
    headers: Seq<(Seq<char>, Seq<char>)>,
    body: Option<Seq<char>>,
    timeout: u32,
) -> Seq<char> {
    "{\"method\": "@ + quoted(method) + ", \"url\": "@ + quoted(url) + ", \"headers\": {"@
        + header_entries(headers) + "}"@ + match body {
        Some(b) => ", \"body\": "@ + quoted(b),
        None => Seq::empty(),
    } + ", \"timeout\": "@ + decimal(timeout as nat) + "}"@
}

fn owned(s: &str) -> (r: String)
    ensures
        r@ == s@,
{
    String::from_str(s)
}

fn header(name: &str, value: &str) -> (r: (String, String))
    ensures
        r.0@ == name@,
        r.1@ == value@,
{
    (owned(name), owned(value))
}

impl HttpRequest {
    /// The headers as pairs of character sequences.
    pub open spec fn header_view(&self) -> Seq<(Seq<char>, Seq<char>)> {
        self.headers@.map_values(|p: (String, String)| (p.0@, p.1@))
    }

    /// The body as a character sequence, if there is one.
    pub open spec fn body_view(&self) -> Option<Seq<char>> {
        match self.body {
            Some(b) => Some(b@),
            None => None,
        }
    }

    /// The JSON text of this request.
    pub open spec fn spec_json(&self) -> Seq<char> {
        request_json(self.method@, self.url@, self.header_view(), self.body_view(), self.timeout)
    }

    /// Encodes the request as one JSON object, strings escaped.
    pub fn to_json(&self) -> (r: String)
        ensures
            r@ == self.spec_json(),
    {
        let mut out = String::new();
        out.append("{\"method\": ");
        push_quoted(&mut out, &chars_of(self.method.as_str()));
        out.append(", \"url\": ");
        push_quoted(&mut out, &chars_of(self.url.as_str()));
        out.append(", \"headers\": {");
        let start = Ghost(out@);
        let mut i: usize = 0;
        while i < self.headers.len()
            invariant
                i <= self.headers@.len(),
                out@ == start@ + header_entries(self.header_view().subrange(0, i as int)),
            decreases self.headers@.len() - i,
        {
            let pre = Ghost(out@);
            if i > 0 {
                out.append(", ");
            }
            push_quoted(&mut out, &chars_of(self.headers[i].0.as_str()));
            out.append(": ");
            push_quoted(&mut out, &chars_of(self.headers[i].1.as_str()));
            let next = Ghost(self.header_view().subrange(0, i + 1));
            assert(next@.drop_last() =~= self.header_view().subrange(0, i as int));
            assert(out@ =~= start@ + header_entries(next@));
            i = i + 1;
        }
        assert(self.header_view().subrange(0, self.headers@.len() as int) =~= self.header_view());
        out.append("}");
        match &self.body {
            Some(b) => {
                out.append(", \"body\": ");
                push_quoted(&mut out, &chars_of(b.as_str()));
            },
            None => {},
        }
        out.append(", \"timeout\": ");
        push_decimal(&mut out, self.timeout as u64);
        out.append("}");
        assert(out@ =~= self.spec_json());
        out
    }

    /// The request as the UTF-8 bytes handed to the host.
    pub fn to_bytes(&self) -> (r: Vec<u8>)
        ensures
            r@ == vstd::utf8::encode_utf8(self.spec_json()),
    {
        let json = self.to_json();
        json.as_str().as_bytes_vec()
    }

    /// A GET of `https://httpbin.org/get`.
    pub fn get_request() -> (r: HttpRequest)
        ensures
            r.method@ == "GET"@,
            r.url@ == "https://httpbin.org/get"@,
            r.headers@.len() == 1,
            r.headers@[0].0@ == "User-Agent"@,
            r.headers@[0].1@ == "WasmVM-TEE/1.0"@,
            r.body is None,
            r.timeout == 30,
    {
        HttpRequest {
            method: owned("GET"),
            url: owned("https://httpbin.org/get"),
            headers: vec![header("User-Agent", "WasmVM-TEE/1.0")],
            body: None,
            timeout: 30,
        }
    }

    /// A POST of a small JSON message to `https://httpbin.org/post`.
    pub fn post_request() -> (r: HttpRequest)
        ensures
            r.method@ == "POST"@,
            r.url@ == "https://httpbin.org/post"@,
            r.headers@.len() == 2,
            r.headers@[0].0@ == "Content-Type"@,
            r.headers@[0].1@ == "application/json"@,
            r.headers@[1].0@ == "User-Agent"@,
            r.headers@[1].1@ == "WasmVM-TEE/1.0"@,
            r.body is Some,
            r.body->0@ == "{\"message\": \"Hello from WASM!\", \"timestamp\": 1234567890}"@,
            r.timeout == 30,
    {
        HttpRequest {
            method: owned("POST"),
            url: owned("https://httpbin.org/post"),
            headers: vec![
                header("Content-Type", "application/json"),
                header("User-Agent", "WasmVM-TEE/1.0"),
            ],
            body: Some(owned("{\"message\": \"Hello from WASM!\", \"timestamp\": 1234567890}")),
            timeout: 30,
        }
    }

    /// A GET of `https://httpbin.org/headers` with several custom headers.
    pub fn headers_request() -> (r: HttpRequest)
        ensures
            r.method@ == "GET"@,
            r.url@ == "https://httpbin.org/headers"@,
            r.headers@.len() == 4,
            r.headers@[0].0@ == "X-Custom-Header"@,
            r.headers@[0].1@ == "test-value"@,
            r.headers@[1].0@ == "Authorization"@,
            r.headers@[1].1@ == "Bearer fake-token"@,
            r.headers@[2].0@ == "Accept"@,
            r.headers@[2].1@ == "application/json"@,
            r.headers@[3].0@ == "User-Agent"@,
            r.headers@[3].1@ == "WasmVM-TEE/1.0"@,
            r.body is None,
            r.timeout == 30,
    {
        HttpRequest {
            method: owned("GET"),
            url: owned("https://httpbin.org/headers"),
            headers: vec![
                header("X-Custom-Header", "test-value"),
                header("Authorization", "Bearer fake-token"),
                header("Accept", "application/json"),
                header("User-Agent", "WasmVM-TEE/1.0"),
            ],
            body: None,
            timeout: 30,
        }
    }
}

} // verus!
