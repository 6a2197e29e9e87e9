use std::str;

use twister::http::{to_lower, which_of, Header, HttpMethod, Request, Response};
use twister::parser::{
    skip_header_separator, skip_newline, skip_whitespace, split_as_first_newline,
    split_at_first_header_separator, split_at_first_whitespace, HeaderParser, HttpObjectParser,
    ParseError, ProtocolParser,
};

const PROXY_CONNECT: &[u8] = b"CONNECT docs.rs:443 HTTP/1.1\r\n\
User-Agent: Mozilla/5.0 (Windows NT 10.0; Win64; x64; rv:59.0) Gecko/20100101 Firefox/59.0\r\n\
Proxy-Connection: keep-alive\r\n\
Connection: keep-alive\r\n\
Host: docs.rs:443\r\n\
\r\n\
Hello, World!\r\n";

fn request_with_headers(count: usize) -> Vec<u8> {
    let mut request = b"GET /index.html HTTP/1.1\r\n".to_vec();
    for i in 0..count {
        request.extend_from_slice(format!("X-Header-{}: value {}\r\n", i, i).as_bytes());
    }
    request.extend_from_slice(b"\r\n");
    request
}

#[test]
fn parse_protocol_header() {
    let proxy_connect = PROXY_CONNECT;
    let mut p = ProtocolParser::new(proxy_connect);
    let (method, url, version, _) = p.parse().unwrap();

    assert_eq!(HttpMethod::Connect, method.into());
    assert_eq!("docs.rs:443", str::from_utf8(url).unwrap());
    assert_eq!("HTTP/1.1", str::from_utf8(version).unwrap());
}

#[test]
fn parse_multiple_headers() {
    let proxy_connect = PROXY_CONNECT;
    let (_, headers) = split_as_first_newline(proxy_connect).unwrap();
    let headers = skip_newline(headers);

    let mut p = HeaderParser::new(headers);
    let (Header(name, val), tail) = p.parse().unwrap();

    assert_eq!("User-Agent", str::from_utf8(name).unwrap());
    assert_eq!(
        "Mozilla/5.0 (Windows NT 10.0; Win64; x64; rv:59.0) \
        Gecko/20100101 Firefox/59.0",
        str::from_utf8(val).unwrap()
    );

    let mut p = HeaderParser::new(tail);
    let (Header(name, val), tail) = p.parse().unwrap();

    assert_eq!("Proxy-Connection", str::from_utf8(name).unwrap());
    assert_eq!("keep-alive", str::from_utf8(val).unwrap());

    let mut p = HeaderParser::new(tail);
    let (Header(name, val), tail) = p.parse().unwrap();

    assert_eq!("Connection", str::from_utf8(name).unwrap());
    assert_eq!("keep-alive", str::from_utf8(val).unwrap());

    let mut p = HeaderParser::new(tail);
    let (Header(name, val), tail) = p.parse().unwrap();

    assert_eq!("Host", str::from_utf8(name).unwrap());
    assert_eq!("docs.rs:443", str::from_utf8(val).unwrap());

    let (Header(_, _), tail) = HeaderParser::new(tail).parse().unwrap();
    assert_eq!("Hello, World!\r\n", str::from_utf8(tail).unwrap());
}

#[test]
fn parse_a_header() {
    let proxy_connect = PROXY_CONNECT;
    let (_, headers) = split_as_first_newline(proxy_connect).unwrap();
    let headers = skip_newline(headers);

    let mut p = HeaderParser::new(headers);
    let (Header(name, val), _) = p.parse().unwrap();

    assert_eq!("User-Agent", str::from_utf8(name).unwrap());
    assert_eq!(
        "Mozilla/5.0 (Windows NT 10.0; Win64; x64; rv:59.0) \
        Gecko/20100101 Firefox/59.0",
        str::from_utf8(val).unwrap()
    );
}

#[test]
fn parse_a_request() {
    let proxy_connect = PROXY_CONNECT;
    let mut header_size = 16;
    loop {
        let mut headers = vec![Header::default(); header_size];
        if let Ok(Some(r)) = HttpObjectParser::new(&mut headers).parse::<Request>(proxy_connect) {
            assert_eq!(HttpMethod::Connect, r.method);
            assert_eq!("docs.rs:443", str::from_utf8(r.path).unwrap());
            assert_eq!(4, r.headers.len());
            assert_eq!("Hello, World!\r\n", str::from_utf8(r.body).unwrap());
            break;
        }

        header_size *= 2;
    }
}

#[test]
fn parse_a_request_grows_the_table_until_it_fits() {
    let request = request_with_headers(5);
    let mut header_size = 1;
    let mut attempts = 0;
    loop {
        attempts += 1;
        let mut headers = vec![Header::default(); header_size];
        if let Ok(Some(r)) = HttpObjectParser::new(&mut headers).parse::<Request>(&request) {
            assert_eq!(5, r.headers.len());
            break;
        }
        header_size *= 2;
    }
    assert_eq!(8, header_size);
    assert_eq!(4, attempts);
}

#[test]
fn lower_cases_ascii_letters_only() {
    assert_eq!(b'a', to_lower(b'A'));
    assert_eq!(b'z', to_lower(b'Z'));
    assert_eq!(b'm', to_lower(b'm'));
    assert_eq!(b'@', to_lower(b'@'));
    assert_eq!(b'[', to_lower(b'['));
    assert_eq!(b'0', to_lower(b'0'));
    assert_eq!(0xc4, to_lower(0xc4));
    for v in 0..=255u8 {
        assert_eq!(v.to_ascii_lowercase(), to_lower(v));
    }
}

#[test]
fn finds_the_first_word_that_matches() {
    let set: [&[u8]; 4] = [b"alpha", b"Beta", b"BETA", b"gamma"];
    assert_eq!(Some(0), which_of(b"ALPHA", &set));
    assert_eq!(Some(1), which_of(b"beta", &set));
    assert_eq!(Some(3), which_of(b"GaMmA", &set));
    assert_eq!(None, which_of(b"delta", &set));
    assert_eq!(None, which_of(b"alph", &set));
    assert_eq!(None, which_of(b"alphas", &set));
    assert_eq!(None, which_of(b"", &set));
    assert_eq!(None, which_of(b"alpha", &[]));
}

#[test]
fn method_matching_ignores_case() {
    assert_eq!(HttpMethod::Connect, HttpMethod::from(&b"connect"[..]));
    assert_eq!(HttpMethod::Connect, HttpMethod::from(&b"Connect"[..]));
    assert_eq!(HttpMethod::Connect, HttpMethod::from(&b"CONNECT"[..]));
    assert_eq!(HttpMethod::Get, HttpMethod::from(&b"gEt"[..]));
    assert_eq!(HttpMethod::Post, HttpMethod::from(&b"POST"[..]));
    assert_eq!(HttpMethod::Put, HttpMethod::from(&b"put"[..]));
    assert_eq!(HttpMethod::Delete, HttpMethod::from(&b"Delete"[..]));
    assert_eq!(HttpMethod::Patch, HttpMethod::from(&b"PATCH"[..]));
    assert_eq!(HttpMethod::Head, HttpMethod::from(&b"head"[..]));
}

#[test]
fn unknown_method_keeps_its_spelling() {
    assert_eq!(HttpMethod::Other(b"Frobnicate"), HttpMethod::from(&b"Frobnicate"[..]));
    assert_ne!(HttpMethod::Other(b"frobnicate"), HttpMethod::from(&b"Frobnicate"[..]));
    assert_eq!(HttpMethod::Other(b"GETS"), HttpMethod::from(&b"GETS"[..]));
    assert_eq!(HttpMethod::Other(b"GE"), HttpMethod::from(&b"GE"[..]));
    assert_eq!(HttpMethod::Other(b""), HttpMethod::from(&b""[..]));
}

#[test]
fn skips_leading_runs() {
    assert_eq!(b"abc\r\n", skip_newline(b"\r\n\n\rabc\r\n"));
    assert_eq!(b"abc", skip_newline(b"abc"));
    assert_eq!(b"", skip_newline(b"\r\n\r\n"));
    assert_eq!(b"", skip_newline(b""));
    assert_eq!(b"a b", skip_whitespace(b" \t a b"));
    assert_eq!(b"\r\n", skip_whitespace(b"\r\n"));
    assert_eq!(b"", skip_whitespace(b"  "));
    assert_eq!(b"value: x", skip_header_separator(b": \t:value: x"));
    assert_eq!(b"", skip_header_separator(b": "));
}

#[test]
fn splits_in_front_of_the_first_hit() {
    assert_eq!(Some((&b"GET"[..], &b" /"[..])), split_at_first_whitespace(b"GET /"));
    assert_eq!(Some((&b""[..], &b"\tx y"[..])), split_at_first_whitespace(b"\tx y"));
    assert_eq!(None, split_at_first_whitespace(b"GET"));
    assert_eq!(None, split_at_first_whitespace(b""));
    assert_eq!(Some((&b"ab"[..], &b"\ncd\r"[..])), split_as_first_newline(b"ab\ncd\r"));
    assert_eq!(Some((&b"ab"[..], &b"\r\ncd"[..])), split_as_first_newline(b"ab\r\ncd"));
    assert_eq!(None, split_as_first_newline(b"ab cd"));
    assert_eq!(Some((&b"Host"[..], &b": a:b"[..])), split_at_first_header_separator(b"Host: a:b"));
    assert_eq!(None, split_at_first_header_separator(b"Host a"));
}

#[test]
fn start_line_is_incomplete_without_a_newline() {
    assert!(ProtocolParser::new(b"").parse().is_none());
    assert!(ProtocolParser::new(b"GET").parse().is_none());
    assert!(ProtocolParser::new(b"GET ").parse().is_none());
    assert!(ProtocolParser::new(b"GET /index.html").parse().is_none());
    assert!(ProtocolParser::new(b"GET /index.html ").parse().is_none());
    assert!(ProtocolParser::new(b"GET /index.html HTTP/1.1").parse().is_none());
    assert!(ProtocolParser::new(b"GET\r\n").parse().is_none());
}

#[test]
fn start_line_ends_at_the_first_newline_byte() {
    let (method, path, version, tail) =
        ProtocolParser::new(b"GET /index.html HTTP/1.1\r").parse().unwrap();
    assert_eq!(b"GET", method);
    assert_eq!(b"/index.html", path);
    assert_eq!(b"HTTP/1.1", version);
    assert_eq!(b"", tail);

    let (_, _, version, tail) =
        ProtocolParser::new(b"GET /index.html HTTP/1.1\nHost: a\r\n").parse().unwrap();
    assert_eq!(b"HTTP/1.1", version);
    assert_eq!(b"Host: a\r\n", tail);
}

#[test]
fn start_line_collapses_runs_of_separators() {
    let (method, path, version, tail) =
        ProtocolParser::new(b"GET \t  /a\t\tHTTP/1.0\r\n\r\n\nrest").parse().unwrap();
    assert_eq!(b"GET", method);
    assert_eq!(b"/a", path);
    assert_eq!(b"HTTP/1.0", version);
    assert_eq!(b"rest", tail);
}

#[test]
fn status_text_may_hold_blanks() {
    let (version, code, text, tail) =
        ProtocolParser::new(b"HTTP/1.1 404 Not Found\r\nServer: x\r\n").parse().unwrap();
    assert_eq!(b"HTTP/1.1", version);
    assert_eq!(b"404", code);
    assert_eq!(b"Not Found", text);
    assert_eq!(b"Server: x\r\n", tail);
}

#[test]
fn start_line_parser_goes_on_from_each_state() {
    let parsed = ProtocolParser::Path(b"GET", b"/a HTTP/1.1\r\nx").parse().unwrap();
    assert_eq!((&b"GET"[..], &b"/a"[..], &b"HTTP/1.1"[..], &b"x"[..]), parsed);
    let parsed = ProtocolParser::Version(b"GET", b"/a", b"HTTP/1.1\r\nx").parse().unwrap();
    assert_eq!((&b"GET"[..], &b"/a"[..], &b"HTTP/1.1"[..], &b"x"[..]), parsed);
    assert!(ProtocolParser::Done.parse().is_none());
}

#[test]
fn start_line_parser_runs_once() {
    let mut parser = ProtocolParser::new(b"GET / HTTP/1.1\r\n");
    assert!(parser.parse().is_some());
    assert!(parser.parse().is_none());
    let mut parser = ProtocolParser::new(b"GET /");
    assert!(parser.parse().is_none());
    assert!(parser.parse().is_none());
}

#[test]
fn header_value_keeps_inner_colons_and_blanks() {
    let (Header(name, value), tail) =
        HeaderParser::new(b"Content-Type: text/xml; charset=utf8\r\n").parse().unwrap();
    assert_eq!(b"Content-Type", name);
    assert_eq!(b"text/xml; charset=utf8", value);
    assert_eq!(0, tail.len());

    let (Header(name, value), tail) =
        HeaderParser::new(b"Host:docs.rs:443\r\nNext: x\r\n").parse().unwrap();
    assert_eq!(b"Host", name);
    assert_eq!(b"docs.rs:443", value);
    assert_eq!(b"Next: x\r\n", tail);

    let (Header(name, value), _) = HeaderParser::new(b"A \t:: \t b \r\n").parse().unwrap();
    assert_eq!(b"A \t", name);
    assert_eq!(b"b ", value);
}

#[test]
fn header_is_incomplete_without_a_newline() {
    assert!(HeaderParser::new(b"Host: docs.rs").parse().is_none());
    assert!(HeaderParser::new(b"Host:").parse().is_none());
    assert!(HeaderParser::Value(b"Host", b"docs.rs").parse().is_none());
}

#[test]
fn blank_line_ends_the_header_section() {
    let (header, tail) = HeaderParser::new(b"\r\nbody").parse().unwrap();
    assert_eq!(Header::default(), header);
    assert_eq!(b"body", tail);

    let (header, tail) = HeaderParser::new(b"\r\nkey: value\r\n").parse().unwrap();
    assert_eq!(Header(b"", b""), header);
    assert_eq!(b"key: value\r\n", tail);

    let (header, tail) = HeaderParser::new(b"\n").parse().unwrap();
    assert_eq!(Header(b"", b""), header);
    assert_eq!(b"", tail);
}

#[test]
fn bytes_without_a_colon_end_the_header_section() {
    let (header, tail) = HeaderParser::new(b"").parse().unwrap();
    assert_eq!(Header(b"", b""), header);
    assert_eq!(b"", tail);

    let (header, tail) = HeaderParser::new(b"Hello, World!\r\n").parse().unwrap();
    assert_eq!(Header(b"", b""), header);
    assert_eq!(b"Hello, World!\r\n", tail);
}

#[test]
fn header_parser_goes_on_from_each_state() {
    let (header, tail) = HeaderParser::Value(b"Host", b"a.b\r\n\r\nx").parse().unwrap();
    assert_eq!(Header(b"Host", b"a.b"), header);
    assert_eq!(b"x", tail);
    assert!(HeaderParser::Done.parse().is_none());
    let mut parser = HeaderParser::new(b"Host: a\r\n");
    assert!(parser.parse().is_some());
    assert!(parser.parse().is_none());
}

#[test]
fn default_header_is_empty() {
    let header = Header::default();
    assert_eq!(0, header.0.len());
    assert_eq!(0, header.1.len());
}

#[test]
fn parses_a_response() {
    let http: &[u8] = b"HTTP/1.1 200 OK\r\n\
        Content-Type: text/plain\r\n\
        Content-Length: 13\r\n\
        \r\n\
        Hello, World!";

    let mut headers = [Header::default(); 16];
    let mut parser = HttpObjectParser::new(&mut headers);
    let http_object = parser.parse::<Response>(http).unwrap().unwrap();

    assert_eq!("HTTP/1.1", str::from_utf8(http_object.version).unwrap());
    assert_eq!("200", str::from_utf8(http_object.status_code).unwrap());
    assert_eq!("OK", str::from_utf8(http_object.status_text).unwrap());
    assert_eq!(2, http_object.headers.len());
    assert_eq!(Header(b"Content-Type", b"text/plain"), http_object.headers[0]);
    assert_eq!(Header(b"Content-Length", b"13"), http_object.headers[1]);
    assert_eq!("Hello, World!", str::from_utf8(http_object.body).unwrap());
}

#[test]
fn parses_a_request_with_a_body() {
    let http: &[u8] = b"POST /api/resource HTTP/1.1\r\n\
        Host: docs.rs\r\n\
        Content-Type: text/plain\r\n\
        Content-Length: 13\r\n\
        \r\n\
        Hello, World!";

    let mut headers = [Header::default(); 16];
    let mut parser = HttpObjectParser::new(&mut headers);
    let http_object = parser.parse::<Request>(http).unwrap().unwrap();

    assert_eq!(HttpMethod::Post, http_object.method);
    assert_eq!("/api/resource", str::from_utf8(http_object.path).unwrap());
    assert_eq!("HTTP/1.1", str::from_utf8(http_object.version).unwrap());
    assert_eq!(3, http_object.headers.len());
    assert_eq!(Header(b"Host", b"docs.rs"), http_object.headers[0]);
    assert_eq!(Header(b"Content-Type", b"text/plain"), http_object.headers[1]);
    assert_eq!(Header(b"Content-Length", b"13"), http_object.headers[2]);
    assert_eq!("Hello, World!", str::from_utf8(http_object.body).unwrap());
}

#[test]
fn request_keeps_an_unknown_method() {
    let mut headers = [Header::default(); 2];
    let request = HttpObjectParser::new(&mut headers)
        .parse::<Request>(b"Frobnicate / HTTP/1.1\r\n\r\n")
        .unwrap()
        .unwrap();
    assert_eq!(HttpMethod::Other(b"Frobnicate"), request.method);
    assert_eq!(0, request.headers.len());
    assert_eq!(0, request.body.len());
}

#[test]
fn object_is_incomplete_until_the_section_ends() {
    let mut headers = [Header::default(); 4];
    assert!(matches!(HttpObjectParser::new(&mut headers).parse::<Request>(b""), Ok(None)));
    let mut headers = [Header::default(); 4];
    assert!(matches!(
        HttpObjectParser::new(&mut headers).parse::<Request>(b"GET / HTTP/1.1"),
        Ok(None)
    ));
    let mut headers = [Header::default(); 4];
    assert!(matches!(
        HttpObjectParser::new(&mut headers).parse::<Request>(b"GET / HTTP/1.1\r\nHost: a"),
        Ok(None)
    ));
    let mut headers = [Header::default(); 4];
    assert!(matches!(
        HttpObjectParser::new(&mut headers).parse::<Request>(b"GET / HTTP/1.1\r\nHost: a\r\nB:"),
        Ok(None)
    ));
}

#[test]
fn object_is_complete_at_the_end_of_the_start_line_when_nothing_follows() {
    let mut headers = [Header::default(); 4];
    let request =
        HttpObjectParser::new(&mut headers).parse::<Request>(b"GET / HTTP/1.1\r").unwrap().unwrap();
    assert_eq!(HttpMethod::Get, request.method);
    assert_eq!(b"/", request.path);
    assert_eq!(0, request.headers.len());
}

#[test]
fn object_parser_runs_once() {
    let mut headers = [Header::default(); 4];
    let mut parser = HttpObjectParser::new(&mut headers);
    assert!(matches!(parser.parse::<Request>(b"GET / HTTP/1.1\r\n\r\n"), Ok(Some(_))));
    assert!(matches!(parser.parse::<Request>(b"GET / HTTP/1.1\r\n\r\n"), Ok(None)));
    assert!(matches!(HttpObjectParser::Done.parse::<Request>(b"GET / HTTP/1.1\r\n\r\n"), Ok(None)));
}

#[test]
fn object_parser_goes_on_from_each_state() {
    let mut headers = [Header::default(); 4];
    let line = ProtocolParser::new(b"PUT /x HTTP/1.1\r\nA: b\r\n\r\n");
    let mut parser = HttpObjectParser::Protocol(&mut headers, line);
    let request = parser.parse::<Request>(b"ignored").unwrap().unwrap();
    assert_eq!(HttpMethod::Put, request.method);
    assert_eq!(b"/x", request.path);
    assert_eq!(&[Header(b"A", b"b")][..], request.headers);

    let mut headers = [Header::default(); 4];
    let mut parser = HttpObjectParser::Headers(
        b"HEAD",
        b"/y",
        b"HTTP/1.0",
        &mut headers,
        HeaderParser::Value(b"First", b"1\r\nSecond: 2\r\n\r\nbody"),
    );
    let request = parser.parse::<Request>(b"ignored").unwrap().unwrap();
    assert_eq!(HttpMethod::Head, request.method);
    assert_eq!(b"/y", request.path);
    assert_eq!(b"HTTP/1.0", request.version);
    assert_eq!(&[Header(b"First", b"1"), Header(b"Second", b"2")][..], request.headers);
    assert_eq!(b"body", request.body);
}

#[test]
fn exactly_as_many_headers_as_slots_fit() {
    for slots in [0usize, 1, 2, 7, 32] {
        let request = request_with_headers(slots);
        let mut headers = vec![Header::default(); slots];
        let parsed = HttpObjectParser::new(&mut headers).parse::<Request>(&request);
        match parsed {
            Ok(Some(r)) => {
                assert_eq!(slots, r.headers.len());
                for (i, header) in r.headers.iter().enumerate() {
                    assert_eq!(format!("X-Header-{}", i).as_bytes(), header.0);
                    assert_eq!(format!("value {}", i).as_bytes(), header.1);
                }
            }
            _ => panic!("{} headers did not fit {} slots", slots, slots),
        }
    }
}

#[test]
fn one_header_more_than_slots_exceeds_the_capacity() {
    for slots in [0usize, 1, 2, 7, 32] {
        let request = request_with_headers(slots + 1);
        let mut headers = vec![Header::default(); slots];
        let parsed = HttpObjectParser::new(&mut headers).parse::<Request>(&request);
        assert!(matches!(parsed, Err(ParseError::CapacityExceeded)));
    }
}

#[test]
fn capacity_is_exceeded_before_the_section_is_complete() {
    let mut headers = [Header::default(); 1];
    let request = b"GET / HTTP/1.1\r\nA: 1\r\nB: 2\r\nC";
    let parsed = HttpObjectParser::new(&mut headers).parse::<Request>(request);
    assert!(matches!(parsed, Err(ParseError::CapacityExceeded)));
}

#[test]
fn a_line_that_begins_with_a_colon_ends_the_section() {
    let mut headers = [Header::default(); 4];
    let request = HttpObjectParser::new(&mut headers)
        .parse::<Request>(b"GET / HTTP/1.1\r\nA: 1\r\n: ignored\r\nrest")
        .unwrap()
        .unwrap();
    assert_eq!(&[Header(b"A", b"1")][..], request.headers);
    assert_eq!(b"rest", request.body);
}

fn lies_in(span: &[u8], buffer: &[u8]) -> bool {
    let start = span.as_ptr() as usize;
    let base = buffer.as_ptr() as usize;
    base <= start && start + span.len() <= base + buffer.len()
}

#[test]
fn spans_lie_in_the_buffer() {
    let buffer = PROXY_CONNECT.to_vec();
    let mut headers = [Header::default(); 8];
    let request = HttpObjectParser::new(&mut headers).parse::<Request>(&buffer).unwrap().unwrap();
    assert!(lies_in(request.path, &buffer));
    assert!(lies_in(request.version, &buffer));
    for header in request.headers {
        assert!(lies_in(header.0, &buffer));
        assert!(lies_in(header.1, &buffer));
    }
    assert!(lies_in(request.body, &buffer));
}

#[test]
fn body_is_the_end_of_the_buffer() {
    let buffers: [&[u8]; 4] = [
        PROXY_CONNECT,
        b"GET / HTTP/1.1\r\n\r\n",
        b"GET / HTTP/1.1\r\nA: b\r\n\r\n\r\nline one\r\nline two",
        b"HTTP/1.1 200 OK\r\nA: b\r\n\r\n\x00\x01\x02",
    ];
    for buffer in buffers {
        let mut headers = [Header::default(); 8];
        let object =
            HttpObjectParser::new(&mut headers).parse::<Response>(buffer).unwrap().unwrap();
        assert!(buffer.ends_with(object.body));
        assert_eq!(
            buffer.as_ptr() as usize + buffer.len(),
            object.body.as_ptr() as usize + object.body.len()
        );
    }
}
