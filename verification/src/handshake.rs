//! The one-shot WebSocket upgrade handshake: building the HTTP Upgrade
//! request and checking the response against the nonce. The nonce-key and
//! accept-key derivations (base64, SHA-1) are done by the `edge_http` crate;
//! everything around them is verified byte-level logic.
use vstd::prelude::*;

use vstd::slice::slice_subrange;
use vstd::slice::slice_to_vec;
use vstd::string::StringSliceAdditionalSpecFns;

verus! {

/// Address of the pattern source's WebSocket endpoint.
pub const WS_HOST: &'static str = "192.168.4.1:81";

/// Origin header sent with the upgrade request.
pub const WS_ORIGIN: &'static str = "http://192.168.4.1";

/// Request path of the WebSocket endpoint.
pub const WS_URI: &'static str = "/";

/// The handshake failed: the upgrade was not accepted, the response was
/// malformed, or the accept key did not match the nonce. Fatal to this
/// connection attempt; the supervisor retries after its backoff.
#[derive(Clone, Copy, Debug, PartialEq, Eq, Structural)]
pub enum HandshakeError {
    Rejected,
}

/// The base64 key derived from a handshake nonce, exactly as the peer will
/// see it in the `Sec-WebSocket-Key` header. A function of the nonce alone.
pub uninterp spec fn ws_key_of(nonce: Seq<u8>) -> Seq<char>;

/// The accept key the protocol demands for a given `Sec-WebSocket-Key`
/// value. A function of that value alone.
pub uninterp spec fn accept_of(key: Seq<char>) -> Seq<u8>;

/// Relies on `edge_http::ws::upgrade_request_headers`: the value it pairs
/// with `Sec-WebSocket-Key` is the base64 form of the nonce, a function of
/// the nonce alone, here named `ws_key_of`.
#[verifier::external_body]
fn ws_nonce_key(nonce: &[u8; 16]) -> (r: String)
    ensures
        r@ == ws_key_of(nonce@),
{
    let mut buf = [0u8; 28];
    let headers = edge_http::ws::upgrade_request_headers(None, None, None, nonce, &mut buf);
    headers[6].1.to_string()
}

/// Relies on `edge_http::ws::sec_key_response`: the protocol-mandated accept
/// derivation (SHA-1 over the key and the WebSocket GUID, then base64), a
/// function of the key alone, here named `accept_of`.
#[verifier::external_body]
fn ws_accept_key(key: &str) -> (r: Vec<u8>)
    ensures
        r@ == accept_of(key@),
{
    let mut buf = [0u8; 33];
    edge_http::ws::sec_key_response(key, &mut buf).as_bytes().to_vec()
}

/// The full HTTP Upgrade request for a given endpoint and nonce key: request
/// line, the fixed upgrade headers, the key, and the empty line.
pub open spec fn upgrade_request_bytes(
    host: Seq<u8>,
    origin: Seq<u8>,
    uri: Seq<u8>,
    key: Seq<u8>,
) -> Seq<u8> {
    "GET ".spec_bytes() + uri + " HTTP/1.1\r\nHost: ".spec_bytes() + host
        + "\r\nOrigin: ".spec_bytes() + origin
        + "\r\nContent-Length: 0\r\nConnection: Upgrade\r\nUpgrade: websocket\r\nSec-WebSocket-Version: 13\r\nSec-WebSocket-Key: ".spec_bytes()
        + key + "\r\n\r\n".spec_bytes()
}

/// Append a byte slice to a buffer.
fn push_bytes(out: &mut Vec<u8>, bytes: &[u8])
    ensures
        final(out)@ == old(out)@ + bytes@,
{
    let ghost start = out@;
    let mut i: usize = 0;
    while i < bytes.len()
        invariant
            i <= bytes@.len(),
            out@ =~= start + bytes@.take(i as int),
        decreases bytes@.len() - i,
    {
        out.push(bytes[i]);
        i = i + 1;
    }
    assert(out@ =~= start + bytes@);
}

/// The upgrade request for a fresh nonce: the key derived from the nonce,
/// and the request bytes carrying it. The caller sends the bytes and later
/// verifies the response against the returned key.
pub fn handshake_request(nonce: &[u8; 16]) -> (r: (Vec<u8>, String))
    ensures
        r.1@ == ws_key_of(nonce@),
        r.0@ == upgrade_request_bytes(
            WS_HOST.spec_bytes(),
            WS_ORIGIN.spec_bytes(),
            WS_URI.spec_bytes(),
            vstd::utf8::encode_utf8(r.1@),
        ),
{
    let key = ws_nonce_key(nonce);
    let request = build_upgrade_request(WS_HOST, WS_ORIGIN, WS_URI, key.as_str());
    (request, key)
}

/// Build the HTTP Upgrade request to send, byte for byte.
pub fn build_upgrade_request(host: &str, origin: &str, uri: &str, key: &str) -> (r: Vec<u8>)
    ensures
        r@ == upgrade_request_bytes(
            host.spec_bytes(),
            origin.spec_bytes(),
            uri.spec_bytes(),
            key.spec_bytes(),
        ),
{
    let mut out: Vec<u8> = Vec::new();
    push_bytes(&mut out, "GET ".as_bytes());
    push_bytes(&mut out, uri.as_bytes());
    push_bytes(&mut out, " HTTP/1.1\r\nHost: ".as_bytes());
    push_bytes(&mut out, host.as_bytes());
    push_bytes(&mut out, "\r\nOrigin: ".as_bytes());
    push_bytes(&mut out, origin.as_bytes());
    push_bytes(
        &mut out,
        "\r\nContent-Length: 0\r\nConnection: Upgrade\r\nUpgrade: websocket\r\nSec-WebSocket-Version: 13\r\nSec-WebSocket-Key: ".as_bytes(),
    );
    push_bytes(&mut out, key.as_bytes());
    push_bytes(&mut out, "\r\n\r\n".as_bytes());
    assert(out@ =~= upgrade_request_bytes(
        host.spec_bytes(),
        origin.spec_bytes(),
        uri.spec_bytes(),
        key.spec_bytes(),
    ));
    out
}

/// Index of the first CRLF at or after `i`, or -1 when there is none.
pub open spec fn find_crlf(s: Seq<u8>, i: int) -> int
    decreases s.len() - i when 0 <= i
{
    if i + 2 > s.len() {
        -1
    } else if s[i] == 13 && s[i + 1] == 10 {
        i
    } else {
        find_crlf(s, i + 1)
    }
}

/// The buffer split at every CRLF: always at least one segment, none of them
/// containing a CRLF.
pub open spec fn split_crlf(s: Seq<u8>) -> Seq<Seq<u8>>
    decreases s.len() via split_crlf_decreases
{
    let k = find_crlf(s, 0);
    if k < 0 {
        seq![s]
    } else {
        seq![s.take(k)] + split_crlf(s.skip(k + 2))
    }
}

#[via_fn]
proof fn split_crlf_decreases(s: Seq<u8>) {
    lemma_find_crlf_bounds(s, 0);
}

/// A found CRLF lies within the buffer, at or after where the search began.
pub proof fn lemma_find_crlf_bounds(s: Seq<u8>, i: int)
    requires
        0 <= i,
    ensures
        find_crlf(s, i) == -1 || (i <= find_crlf(s, i) && find_crlf(s, i) + 2 <= s.len()),
    decreases s.len() - i,
{
    if i + 2 > s.len() {
    } else if s[i] == 13 && s[i + 1] == 10 {
    } else {
        lemma_find_crlf_bounds(s, i + 1);
    }
}

/// Runtime search mirroring `find_crlf` from position `from`.
fn scan_crlf(s: &[u8], from: usize) -> (r: Option<usize>)
    requires
        from as int <= s@.len(),
    ensures
        r matches Some(k) ==> find_crlf(s@, from as int) == k as int,
        r is None ==> find_crlf(s@, from as int) == -1,
{
    let mut i: usize = from;
    loop
        invariant
            from <= i <= s@.len(),
            find_crlf(s@, from as int) == find_crlf(s@, i as int),
        decreases s@.len() - i,
    {
        if i >= s.len() || i + 1 >= s.len() {
            assert(find_crlf(s@, i as int) == -1);
            return None;
        }
        if s[i] == 13 && s[i + 1] == 10 {
            return Some(i);
        }
        i = i + 1;
    }
}

/// Split the response head into its lines.
pub fn split_head_lines(head: &[u8]) -> (r: Vec<Vec<u8>>)
    ensures
        r@.map_values(|l: Vec<u8>| l@) == split_crlf(head@),
{
    let mut lines: Vec<Vec<u8>> = Vec::new();
    let mut pos: usize = 0;
    proof {
        assert(head@.skip(0) =~= head@);
    }
    loop
        invariant_except_break
            pos <= head@.len(),
            split_crlf(head@) =~= lines@.map_values(|l: Vec<u8>| l@) + split_crlf(
                head@.skip(pos as int),
            ),
        ensures
            lines@.map_values(|l: Vec<u8>| l@) =~= split_crlf(head@),
        decreases head@.len() - pos,
    {
        let ghost prev = lines@.map_values(|l: Vec<u8>| l@);
        match scan_crlf(head, pos) {
            None => {
                let last = slice_to_vec(slice_subrange(head, pos, head.len()));
                proof {
                    lemma_scan_from_skip(head@, pos as int);
                    assert(find_crlf(head@.skip(pos as int), 0) == -1);
                    assert(split_crlf(head@.skip(pos as int)) =~= seq![head@.skip(pos as int)]);
                }
                lines.push(last);
                assert(lines@.map_values(|l: Vec<u8>| l@) =~= prev + seq![head@.skip(pos as int)]);
                assert(lines@.map_values(|l: Vec<u8>| l@) =~= split_crlf(head@));
                break;
            },
            Some(k) => {
                let hlen: usize = head.len();
                proof {
                    lemma_find_crlf_bounds(head@, pos as int);
                }
                let line = slice_to_vec(slice_subrange(head, pos, k));
                proof {
                    lemma_scan_from_skip(head@, pos as int);
                    assert(find_crlf(head@.skip(pos as int), 0) == k - pos);
                    assert(head@.skip(pos as int).take((k - pos) as int) =~= head@.subrange(
                        pos as int,
                        k as int,
                    ));
                    assert(head@.skip(pos as int).skip((k - pos) as int + 2) =~= head@.skip(
                        k as int + 2,
                    ));
                }
                lines.push(line);
                assert(lines@.map_values(|l: Vec<u8>| l@) =~= prev + seq![
                    head@.subrange(pos as int, k as int),
                ]);
                assert(k as int + 2 <= head@.len());
                pos = k + 2;
                assert(split_crlf(head@) =~= lines@.map_values(|l: Vec<u8>| l@) + split_crlf(
                    head@.skip(pos as int),
                ));
            },
        }
    }
    lines
}

/// Index of the first CRLFCRLF (the end of a response head) at or after `i`,
/// or -1 when there is none.
pub open spec fn find_head_end(s: Seq<u8>, i: int) -> int
    decreases s.len() - i when 0 <= i
{
    if i + 4 > s.len() {
        -1
    } else if s[i] == 13 && s[i + 1] == 10 && s[i + 2] == 13 && s[i + 3] == 10 {
        i
    } else {
        find_head_end(s, i + 1)
    }
}

/// Where the response head ends: the index of the first byte of the first
/// CRLFCRLF, if the buffer holds one. A reader grows its buffer until it
/// does.
pub fn scan_head_end(s: &[u8]) -> (r: Option<usize>)
    ensures
        r matches Some(k) ==> find_head_end(s@, 0) == k as int,
        r is None ==> find_head_end(s@, 0) == -1,
{
    let mut i: usize = 0;
    loop
        invariant
            i <= s@.len(),
            find_head_end(s@, 0) == find_head_end(s@, i as int),
        decreases s@.len() - i,
    {
        if i >= s.len() || s.len() - i < 4 {
            assert(find_head_end(s@, i as int) == -1);
            return None;
        }
        if s[i] == 13 && s[i + 1] == 10 && s[i + 2] == 13 && s[i + 3] == 10 {
            return Some(i);
        }
        i = i + 1;
    }
}

/// ASCII lowercase of one byte; other bytes are left as they are.
pub open spec fn lower_byte(b: u8) -> u8 {
    if 65 <= b && b <= 90 {
        (b + 32) as u8
    } else {
        b
    }
}

/// Case-insensitive ASCII equality of two byte strings.
pub open spec fn ci_eq(a: Seq<u8>, b: Seq<u8>) -> bool {
    a.len() == b.len() && (forall|i: int| 0 <= i < a.len() ==> lower_byte(a[i]) == lower_byte(b[i]))
}

/// Runtime check mirroring `ci_eq`.
fn bytes_ci_eq(a: &[u8], b: &[u8]) -> (r: bool)
    ensures
        r == ci_eq(a@, b@),
{
    if a.len() != b.len() {
        return false;
    }
    let mut i: usize = 0;
    while i < a.len()
        invariant
            a@.len() == b@.len(),
            i <= a@.len(),
            forall|j: int| 0 <= j < i ==> lower_byte(a@[j]) == lower_byte(b@[j]),
        decreases a@.len() - i,
    {
        let x = a[i];
        let y = b[i];
        let lx = if 65 <= x && x <= 90 {
            x + 32
        } else {
            x
        };
        let ly = if 65 <= y && y <= 90 {
            y + 32
        } else {
            y
        };
        if lx != ly {
            return false;
        }
        i = i + 1;
    }
    true
}

/// Exact equality of two byte strings.
fn bytes_eq(a: &[u8], b: &[u8]) -> (r: bool)
    ensures
        r == (a@ == b@),
{
    if a.len() != b.len() {
        proof {
            assert(a@.len() != b@.len());
        }
        return false;
    }
    let mut i: usize = 0;
    while i < a.len()
        invariant
            a@.len() == b@.len(),
            i <= a@.len(),
            forall|j: int| 0 <= j < i ==> a@[j] == b@[j],
        decreases a@.len() - i,
    {
        if a[i] != b[i] {
            return false;
        }
        i = i + 1;
    }
    proof {
        assert(a@ =~= b@);
    }
    true
}

/// Index of the first occurrence of `b` in `s` at or after `i`, or -1.
pub open spec fn find_byte(s: Seq<u8>, b: u8, i: int) -> int
    decreases s.len() - i when 0 <= i
{
    if i >= s.len() {
        -1
    } else if s[i] == b {
        i
    } else {
        find_byte(s, b, i + 1)
    }
}

/// Runtime search mirroring `find_byte` from the start of the slice.
fn scan_byte(s: &[u8], b: u8) -> (r: Option<usize>)
    ensures
        r matches Some(k) ==> find_byte(s@, b, 0) == k as int && k < s@.len(),
        r is None ==> find_byte(s@, b, 0) == -1,
{
    let mut i: usize = 0;
    loop
        invariant
            i <= s@.len(),
            find_byte(s@, b, 0) == find_byte(s@, b, i as int),
        decreases s@.len() - i,
    {
        if i >= s.len() {
            return None;
        }
        if s[i] == b {
            return Some(i);
        }
        i = i + 1;
    }
}

/// Index of the first byte at or after `i` that is not a space or tab.
pub open spec fn skip_blanks(s: Seq<u8>, i: int) -> int
    decreases s.len() - i when 0 <= i
{
    if i < s.len() && (s[i] == 32 || s[i] == 9) {
        skip_blanks(s, i + 1)
    } else {
        i
    }
}

/// Skipping blanks never runs past the end of the buffer.
proof fn lemma_skip_blanks_bounds(s: Seq<u8>, i: int)
    requires
        0 <= i <= s.len(),
    ensures
        i <= skip_blanks(s, i) <= s.len(),
    decreases s.len() - i,
{
    if i < s.len() && (s[i] == 32 || s[i] == 9) {
        lemma_skip_blanks_bounds(s, i + 1);
    }
}

/// The value a header line assigns to `name`: when the text before the
/// line's first colon equals `name` up to ASCII case, the bytes after the
/// colon with leading blanks removed; otherwise nothing. A line without a
/// colon assigns no value.
pub open spec fn line_header_value(line: Seq<u8>, name: Seq<u8>) -> Option<Seq<u8>> {
    let c = find_byte(line, 58, 0);
    if c < 0 {
        None
    } else if !ci_eq(line.take(c), name) {
        None
    } else {
        Some(line.skip(skip_blanks(line, c + 1)))
    }
}

/// Runtime extraction mirroring `line_header_value`.
fn header_line_value(line: &[u8], name: &[u8]) -> (r: Option<Vec<u8>>)
    ensures
        r matches Some(v) ==> line_header_value(line@, name@) == Some(v@),
        r is None ==> line_header_value(line@, name@) is None,
{
    let c = match scan_byte(line, 58) {
        Some(c) => c,
        None => {
            return None;
        },
    };
    if !bytes_ci_eq(slice_subrange(line, 0, c), name) {
        return None;
    }
    let n: usize = line.len();
    let mut i: usize = c + 1;
    loop
        invariant
            c < n,
            n == line@.len(),
            c + 1 <= i <= n,
            skip_blanks(line@, c + 1 as int) == skip_blanks(line@, i as int),
        ensures
            c + 1 <= i <= line@.len(),
            skip_blanks(line@, c + 1 as int) == i as int,
        decreases line@.len() - i,
    {
        if i >= n {
            assert(skip_blanks(line@, i as int) == i as int);
            break;
        }
        let x = line[i];
        if x != 32 && x != 9 {
            assert(skip_blanks(line@, i as int) == i as int);
            break;
        }
        i = i + 1;
    }
    assert(line@.subrange(i as int, line@.len() as int) =~= line@.skip(
        skip_blanks(line@, c + 1 as int),
    ));
    Some(slice_to_vec(slice_subrange(line, i, line.len())))
}

/// The value of the last line that assigns `name`: a later header of the
/// same name overrides an earlier one.
pub open spec fn last_header_value(lines: Seq<Seq<u8>>, name: Seq<u8>) -> Option<Seq<u8>>
    decreases lines.len(),
{
    if lines.len() == 0 {
        None
    } else {
        match line_header_value(lines.last(), name) {
            Some(v) => Some(v),
            None => last_header_value(lines.drop_last(), name),
        }
    }
}

/// Runtime search mirroring `last_header_value`, scanning from the end.
fn find_last_header(lines: &Vec<Vec<u8>>, name: &[u8]) -> (r: Option<Vec<u8>>)
    ensures
        r matches Some(v) ==> last_header_value(lines@.map_values(|l: Vec<u8>| l@), name@)
            == Some(v@),
        r is None ==> last_header_value(lines@.map_values(|l: Vec<u8>| l@), name@) is None,
{
    let ghost lv = lines@.map_values(|l: Vec<u8>| l@);
    let mut j: usize = lines.len();
    proof {
        assert(lv.take(lines@.len() as int) =~= lv);
    }
    loop
        invariant
            j <= lines@.len(),
            last_header_value(lv, name@) == last_header_value(lv.take(j as int), name@),
            lv == lines@.map_values(|l: Vec<u8>| l@),
        decreases j,
    {
        if j == 0 {
            return None;
        }
        let line = &lines[j - 1];
        proof {
            assert(lv.take(j as int).last() == lv[j - 1]);
        }
        match header_line_value(line.as_slice(), name) {
            Some(v) => {
                return Some(v);
            },
            None => {
                proof {
                    assert(lv.take(j as int).drop_last() =~= lv.take(j - 1));
                }
                j = j - 1;
            },
        }
    }
}

/// Whether a byte is an ASCII digit.
pub open spec fn is_digit(b: u8) -> bool {
    48 <= b <= 57
}

/// The status code of a response line: present when the line begins with the
/// HTTP/1.1 version and a space followed by three digits. Whatever follows
/// the digits is the reason phrase and is not inspected.
pub open spec fn spec_status_code(line: Seq<u8>) -> Option<int> {
    if line.len() >= 12 && line.take(9) == "HTTP/1.1 ".spec_bytes() && is_digit(line[9])
        && is_digit(line[10]) && is_digit(line[11]) {
        Some(100 * (line[9] as int - 48) + 10 * (line[10] as int - 48) + (line[11] as int - 48))
    } else {
        None
    }
}

/// Runtime extraction mirroring `spec_status_code`.
fn parse_status_code(line: &[u8]) -> (r: Option<u16>)
    ensures
        r matches Some(c) ==> spec_status_code(line@) == Some(c as int),
        r is None ==> spec_status_code(line@) is None,
{
    if line.len() < 12 {
        return None;
    }
    let version = "HTTP/1.1 ".as_bytes();
    if version.len() != 9 {
        assert(line@.take(9).len() != "HTTP/1.1 ".spec_bytes().len());
        return None;
    }
    if !bytes_eq(slice_subrange(line, 0, 9), version) {
        return None;
    }
    let d0 = line[9];
    let d1 = line[10];
    let d2 = line[11];
    if d0 < 48 || d0 > 57 || d1 < 48 || d1 > 57 || d2 < 48 || d2 > 57 {
        return None;
    }
    Some(100 * ((d0 - 48) as u16) + 10 * ((d1 - 48) as u16) + ((d2 - 48) as u16))
}

/// Whether a response head accepts the WebSocket upgrade for the given
/// accept-key bytes: status 101, a `Connection` header naming `Upgrade` and
/// an `Upgrade` header naming `websocket` (both up to ASCII case), and a
/// `Sec-WebSocket-Accept` header equal to the expected key, byte for byte.
/// For each header only its last occurrence counts.
pub open spec fn spec_upgrade_accepted(head: Seq<u8>, expected: Seq<u8>) -> bool {
    let lines = split_crlf(head);
    &&& spec_status_code(lines[0]) == Some(101int)
    &&& match last_header_value(lines, "connection".spec_bytes()) {
        Some(v) => ci_eq(v, "upgrade".spec_bytes()),
        None => false,
    }
    &&& match last_header_value(lines, "upgrade".spec_bytes()) {
        Some(v) => ci_eq(v, "websocket".spec_bytes()),
        None => false,
    }
    &&& last_header_value(lines, "sec-websocket-accept".spec_bytes()) == Some(expected)
}

/// Check a response head against expected accept-key bytes, as
/// `spec_upgrade_accepted` states. Anything else than a well-formed
/// accepting response is a rejected handshake.
pub fn check_upgrade_response(head: &[u8], expected: &[u8]) -> (r: Result<(), HandshakeError>)
    ensures
        r is Ok <==> spec_upgrade_accepted(head@, expected@),
        r matches Err(e) ==> e == HandshakeError::Rejected,
{
    let lines = split_head_lines(head);
    let ghost lv = lines@.map_values(|l: Vec<u8>| l@);
    proof {
        assert(split_crlf(head@).len() >= 1);
        assert(lv[0] == lines@[0]@);
    }
    assert(lines@.len() >= 1);
    let accepted_code = match parse_status_code(lines[0].as_slice()) {
        Some(code) => code == 101,
        None => false,
    };
    if !accepted_code {
        return Err(HandshakeError::Rejected);
    }
    let connection_ok = match find_last_header(&lines, "connection".as_bytes()) {
        Some(v) => bytes_ci_eq(v.as_slice(), "upgrade".as_bytes()),
        None => false,
    };
    if !connection_ok {
        return Err(HandshakeError::Rejected);
    }
    let upgrade_ok = match find_last_header(&lines, "upgrade".as_bytes()) {
        Some(v) => bytes_ci_eq(v.as_slice(), "websocket".as_bytes()),
        None => false,
    };
    if !upgrade_ok {
        return Err(HandshakeError::Rejected);
    }
    let accept_ok = match find_last_header(&lines, "sec-websocket-accept".as_bytes()) {
        Some(v) => bytes_eq(v.as_slice(), expected),
        None => false,
    };
    if !accept_ok {
        return Err(HandshakeError::Rejected);
    }
    Ok(())
}

/// Verify the upgrade response against the nonce key this client sent:
/// accepted exactly when the head is a well-formed accepting response whose
/// accept key is the protocol-mandated derivation of the sent key.
pub fn verify_upgrade_response(head: &[u8], nonce_key: &str) -> (r: Result<(), HandshakeError>)
    ensures
        r is Ok <==> spec_upgrade_accepted(head@, accept_of(nonce_key@)),
        r matches Err(e) ==> e == HandshakeError::Rejected,
{
    let expected = ws_accept_key(nonce_key);
    check_upgrade_response(head, expected.as_slice())
}

/// Searching from an absolute position is the same as searching the suffix.
proof fn lemma_scan_from_skip(s: Seq<u8>, pos: int)
    requires
        0 <= pos <= s.len(),
    ensures
        find_crlf(s, pos) == -1 ==> find_crlf(s.skip(pos), 0) == -1,
        find_crlf(s, pos) >= 0 ==> find_crlf(s.skip(pos), 0) == find_crlf(s, pos) - pos,
{
    lemma_scan_shift(s, pos, pos);
}

/// Shifting a CRLF search by a common prefix shifts its result.
proof fn lemma_scan_shift(s: Seq<u8>, pos: int, i: int)
    requires
        0 <= pos <= i,
        pos <= s.len(),
    ensures
        find_crlf(s, i) == -1 ==> find_crlf(s.skip(pos), i - pos) == -1,
        find_crlf(s, i) >= 0 ==> find_crlf(s.skip(pos), i - pos) == find_crlf(s, i) - pos,
    decreases s.len() - i,
{
    assert(s.skip(pos).len() == s.len() - pos);
    if i + 2 > s.len() {
        assert(find_crlf(s.skip(pos), i - pos) == -1);
    } else if s[i] == 13 && s[i + 1] == 10 {
        assert(s.skip(pos)[i - pos] == s[i]);
        assert(s.skip(pos)[i - pos + 1] == s[i + 1]);
    } else {
        assert(s.skip(pos)[i - pos] == s[i]);
        assert(s.skip(pos)[i - pos + 1] == s[i + 1]);
        lemma_scan_shift(s, pos, i + 1);
    }
}

} // verus!
