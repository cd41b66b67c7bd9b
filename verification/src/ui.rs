//! What the admin UI reads from the proxy's API, and the pure helpers the UI
//! renders it with.
use vstd::prelude::*;
use vstd::string::StringSliceAdditionalSpecFns;
use std::collections::{BTreeMap, HashMap};
use base64::Engine;
use crate::text::{all_digits, digit_char, digit_value, digits_value, is_digit};
use crate::text::{ascii_char, ascii_lower, ascii_lower_exec, decimal_chars, push_char, push_decimal, push_signed_decimal, signed_decimal_chars, trim_str, trim_spec};

verus! {

#[derive(Debug, Clone, PartialEq)]
pub struct CurrentConfigurationModel {
    pub ports: Vec<PortConfigurationModel>,
    pub users: BTreeMap<String, Vec<String>>,
    pub ip_lists: BTreeMap<String, Vec<String>>,
    pub errors: BTreeMap<String, String>,
    pub remote_connections: HashMap<String, usize>,
    pub gateway_server: Option<GatewayServerStatusModel>,
    pub gateway_clients: Vec<GatewayClientStatusModel>,
    pub ssl_certs: Vec<SslCertificateInfoModel>,
}

#[derive(Debug, Clone, PartialEq)]
pub struct SslCertificateInfoModel {
    pub id: String,
    pub expires_at: String,
    pub days_left: i64,
}

#[derive(Debug, Clone, PartialEq)]
pub struct PortConfigurationModel {
    pub port: u16,
    /// Set for unix-socket listeners; `port` is 0 then.
    pub unix_socket: Option<String>,
    pub kind: String,
    pub endpoints: Vec<HttpEndpointInfoModel>,
    pub inbound_connections: i64,
}

#[derive(Debug, Clone, PartialEq)]
pub struct HttpEndpointInfoModel {
    pub host: String,
    pub kind: String,
    pub locations: Vec<HttpProxyPassLocationModel>,
    pub debug: bool,
    pub inbound_connections: i64,
    pub resolved_ip: Option<String>,
    pub ip_list: Option<String>,
    pub allowed_user_list_id: Option<String>,
    pub ssl_cert_id: Option<String>,
    pub client_cert_id: Option<String>,
    pub g_auth: Option<String>,
}

#[derive(Debug, Clone, PartialEq)]
pub struct HttpProxyPassLocationModel {
    pub path: String,
    pub to: String,
    pub kind: String,
    pub remote_kind: Option<String>,
    pub location_id: i64,
    pub id_string: String,
    pub debug: bool,
    pub pool_alive: Option<usize>,
    pub pool_total: Option<usize>,
    /// 0 = unknown, 1 = ok, 2 = error.
    pub last_status: Option<i64>,
}

#[derive(Debug, Clone, PartialEq)]
pub struct GatewayServerStatusModel {
    pub connections: Vec<GatewayConnectionModel>,
}

#[derive(Debug, Clone, PartialEq)]
pub struct GatewayClientStatusModel {
    pub name: String,
    pub connections: Vec<GatewayConnectionModel>,
}

#[derive(Debug, Clone, PartialEq)]
pub struct GatewayConnectionModel {
    pub name: String,
    pub forward_connections: usize,
    pub proxy_connections: usize,
    pub forward_routes: HashMap<String, usize>,
    pub proxy_routes: HashMap<String, usize>,
    pub ping_time: String,
    pub is_incoming_forward_connection_allowed: bool,
    pub in_history: Vec<usize>,
    pub out_history: Vec<usize>,
    pub timestamp: String,
}

/// The in-memory log lines of one scope, newest first.
#[derive(Debug, Clone, PartialEq)]
pub struct ProxyLogsModel {
    pub items: Vec<ProxyLogLineModel>,
}

#[derive(Debug, Clone, PartialEq)]
pub struct ProxyLogLineModel {
    /// Unix microseconds.
    pub moment: i64,
    pub ip: Option<String>,
    pub message: String,
}

/// Body of the certificate upload request; `cert` and `private_key` carry
/// the base64 of the PEM text.
#[derive(Debug, Clone, PartialEq)]
pub struct InitSslCertificateRequestModel {
    pub cert_id: String,
    pub cert: String,
    pub private_key: String,
}

#[derive(Debug, Clone, PartialEq)]
pub struct InitSslCertificateResultModel {
    pub cert_id: String,
    pub cn: String,
    pub expires: String,
    pub covered_domains: Vec<String>,
    pub validated_sni: Vec<String>,
}

/// Which in-memory log buffer to show.
#[derive(Debug, Clone, PartialEq)]
pub enum LogScope {
    Port(String),
    Endpoint(String),
    Location(i64),
}

/// What the dashboard asks the logs dialog to display.
#[derive(Debug, Clone, PartialEq)]
pub struct LogsDialogRequest {
    pub title: String,
    pub scope: LogScope,
}

pub open spec fn is_unreserved(b: u8) -> bool {
    (65 <= b && b <= 90) || (97 <= b && b <= 122) || (48 <= b && b <= 57) || b == 45 || b == 95 || b == 46 || b == 126
}

pub open spec fn hex_upper(d: int) -> char {
    if d < 10 { ((d + 48) as u32) as char } else { ((d + 55) as u32) as char }
}

/// Percent-encoding of query values: unreserved bytes stay, every other
/// byte becomes `%XX` in upper-case hex.
pub open spec fn urlencode_spec(bytes: Seq<u8>) -> Seq<char>
    decreases bytes.len(),
{
    if bytes.len() == 0 {
        Seq::empty()
    } else {
        let b = bytes.last();
        urlencode_spec(bytes.drop_last()) + if is_unreserved(b) {
            seq![b as char]
        } else {
            seq!['%', hex_upper(b as int / 16), hex_upper(b as int % 16)]
        }
    }
}

fn hex_digit(d: u8) -> (r: char)
    requires
        d < 16,
    ensures
        r == hex_upper(d as int),
{
    if d < 10 { ascii_char(d + 48) } else { ascii_char(d + 55) }
}

/// Minimal percent-encoding of a query value (host strings, unix paths),
/// over its UTF-8 bytes.
pub fn urlencode(value: &str) -> (r: String)
    ensures
        r@ == urlencode_spec(value.spec_bytes()),
{
    let bytes = value.as_bytes();
    let mut result = String::new();
    let mut i: usize = 0;
    while i < bytes.len()
        invariant
            0 <= i <= bytes@.len(),
            result@ == urlencode_spec(bytes@.subrange(0, i as int)),
        decreases bytes@.len() - i,
    {
        let b = bytes[i];
        assert(bytes@.subrange(0, i + 1).drop_last() == bytes@.subrange(0, i as int));
        if (65 <= b && b <= 90) || (97 <= b && b <= 122) || (48 <= b && b <= 57) || b == 45 || b == 95 || b == 46 || b == 126 {
            push_char(&mut result, ascii_char(b));
        } else {
            push_char(&mut result, '%');
            push_char(&mut result, hex_digit(b / 16));
            push_char(&mut result, hex_digit(b % 16));
        }
        i = i + 1;
    }
    assert(bytes@.subrange(0, bytes@.len() as int) == bytes@);
    result
}

pub const CURRENT_CONFIG_PATH: &'static str = "/api/configuration/Current";
pub const INIT_FROM_PEM_PATH: &'static str = "/api/SslCertificates/InitFromPem";

/// An API path anchored at the page's origin (the admin UI is served from
/// the same origin as the API).
pub fn build_url(origin: &str, path_and_query: &str) -> (r: String)
    ensures
        r@ == origin@ + path_and_query@,
{
    let mut r = String::from_str(origin);
    r.append(path_and_query);
    r
}

/// How an API call of the admin UI failed.
#[derive(Clone, Copy, Debug, PartialEq, Eq)]
pub enum ApiFailure {
    /// The request could not be sent.
    Send,
    /// The server answered with a non-success status.
    Status,
    /// The answer could not be decoded.
    Decode,
}

pub open spec fn api_error_spec(kind: ApiFailure, method: Seq<char>, url: Seq<char>, detail: Seq<char>) -> Seq<char> {
    match kind {
        ApiFailure::Send => method + " "@ + url + " failed: "@ + detail,
        ApiFailure::Status => method + " "@ + url + " returned "@ + detail,
        ApiFailure::Decode => "decoding "@ + url + " response failed: "@ + detail,
    }
}

/// The error text of a failed API call (`detail`: the transport error, the
/// status, or the decoding error).
pub fn api_error(kind: ApiFailure, method: &str, url: &str, detail: &str) -> (r: String)
    ensures
        r@ == api_error_spec(kind, method@, url@, detail@),
{
    match kind {
        ApiFailure::Send => {
            let mut r = String::from_str(method);
            r.append(" ");
            r.append(url);
            r.append(" failed: ");
            r.append(detail);
            r
        },
        ApiFailure::Status => {
            let mut r = String::from_str(method);
            r.append(" ");
            r.append(url);
            r.append(" returned ");
            r.append(detail);
            r
        },
        ApiFailure::Decode => {
            let mut r = String::from_str("decoding ");
            r.append(url);
            r.append(" response failed: ");
            r.append(detail);
            r
        },
    }
}

/// The API path of a listener's logs.
pub fn port_logs_path(id: &str) -> (r: String)
    ensures
        r@ == "/api/logs/port?id="@ + urlencode_spec(id.spec_bytes()),
{
    let mut r = String::from_str("/api/logs/port?id=");
    let q = urlencode(id);
    r.append(q.as_str());
    r
}

/// The API path of an endpoint's logs.
pub fn endpoint_logs_path(id: &str) -> (r: String)
    ensures
        r@ == "/api/logs/endpoint?id="@ + urlencode_spec(id.spec_bytes()),
{
    let mut r = String::from_str("/api/logs/endpoint?id=");
    let q = urlencode(id);
    r.append(q.as_str());
    r
}

/// The API path of a location's logs.
pub fn location_logs_path(id: i64) -> (r: String)
    ensures
        r@ == "/api/logs/location?id="@ + signed_decimal_chars(id as int),
{
    let mut r = String::from_str("/api/logs/location?id=");
    push_signed_decimal(&mut r, id);
    r
}

/// A CSS-class friendly slug: `+` becomes `-`, ASCII letters are lowered.
pub open spec fn normalize_type_spec(t: Seq<char>) -> Seq<char> {
    t.map_values(|c: char| if c == '+' { '-' } else { ascii_lower(c) })
}

pub fn normalize_type(t: &str) -> (r: String)
    ensures
        r@ == normalize_type_spec(t@),
{
    let n = t.unicode_len();
    let mut result = String::new();
    let mut i: usize = 0;
    while i < n
        invariant
            n == t@.len(),
            0 <= i <= n,
            result@ == t@.subrange(0, i as int).map_values(|c: char| if c == '+' { '-' } else { ascii_lower(c) }),
        decreases n - i,
    {
        let c = t.get_char(i);
        let mapped = if c == '+' { '-' } else { ascii_lower_exec(c) };
        push_char(&mut result, mapped);
        assert(t@.subrange(0, i + 1) == t@.subrange(0, i as int).push(c));
        i = i + 1;
    }
    assert(t@.subrange(0, n as int) == t@);
    result
}

/// Two decimal digits, zero-padded.
pub open spec fn pad2(n: nat) -> Seq<char> {
    if n < 10 { seq!['0'] + decimal_chars(n) } else { decimal_chars(n) }
}

/// Three decimal digits, zero-padded.
pub open spec fn pad3(n: nat) -> Seq<char> {
    if n < 10 { seq!['0', '0'] + decimal_chars(n) } else if n < 100 { seq!['0'] + decimal_chars(n) } else { decimal_chars(n) }
}

/// Unix microseconds as a `HH:MM:SS.mmm` UTC time of day; `—` for
/// non-positive moments.
pub open spec fn fmt_time_spec(micros: i64) -> Seq<char> {
    if micros <= 0 {
        seq!['\u{2014}']
    } else {
        let total_millis = micros as int / 1000;
        let millis = total_millis % 1000;
        let secs_of_day = (total_millis / 1000) % 86_400;
        pad2((secs_of_day / 3600) as nat) + seq![':'] + pad2(((secs_of_day % 3600) / 60) as nat) + seq![':']
            + pad2((secs_of_day % 60) as nat) + seq!['.'] + pad3(millis as nat)
    }
}

proof fn lemma_digit_char(d: nat)
    requires
        d < 10,
    ensures
        is_digit(digit_char(d)),
        digit_value(digit_char(d)) == d,
{
}

proof fn lemma_pad2(n: nat)
    requires
        n < 100,
    ensures
        pad2(n).len() == 2,
        all_digits(pad2(n)),
        digits_value(pad2(n)) == n,
{
    if n < 10 {
        lemma_digit_char(n);
        assert(decimal_chars(n) == seq![digit_char(n)]);
        let p = pad2(n);
        assert(p =~= seq!['0', digit_char(n)]);
        assert(p.drop_last() =~= seq!['0']);
        assert(seq!['0'].drop_last() =~= Seq::<char>::empty());
        assert(digit_value('0') == 0);
        assert(digits_value(seq!['0']) == digits_value(Seq::<char>::empty()) * 10 + digit_value('0'));
        assert(digits_value(p) == digits_value(p.drop_last()) * 10 + digit_value(p.last()));
    } else {
        lemma_digit_char(n / 10);
        lemma_digit_char(n % 10);
        assert(decimal_chars(n / 10) == seq![digit_char(n / 10)]);
        let p = pad2(n);
        assert(p =~= seq![digit_char(n / 10), digit_char(n % 10)]);
        assert(p.drop_last() =~= seq![digit_char(n / 10)]);
        assert(seq![digit_char(n / 10)].drop_last() =~= Seq::<char>::empty());
        let q = seq![digit_char(n / 10)];
        assert(digits_value(q) == digits_value(q.drop_last()) * 10 + digit_value(q.last()));
        assert(digits_value(p) == digits_value(p.drop_last()) * 10 + digit_value(p.last()));
    }
}

proof fn lemma_pad3(n: nat)
    requires
        n < 1000,
    ensures
        pad3(n).len() == 3,
        all_digits(pad3(n)),
        digits_value(pad3(n)) == n,
{
    let p = pad3(n);
    let a = n / 100;
    let b = (n / 10) % 10;
    let c = n % 10;
    lemma_digit_char(a);
    lemma_digit_char(b);
    lemma_digit_char(c);
    assert(digit_value('0') == 0);
    if n < 10 {
        assert(decimal_chars(n) == seq![digit_char(n)]);
        assert(p =~= seq![digit_char(a), digit_char(b), digit_char(c)]);
    } else if n < 100 {
        assert(decimal_chars(n / 10) == seq![digit_char(n / 10)]);
        assert(p =~= seq![digit_char(a), digit_char(b), digit_char(c)]);
    } else {
        assert(decimal_chars(n / 100) == seq![digit_char(n / 100)]);
        assert(decimal_chars(n / 10) == seq![digit_char(n / 100)].push(digit_char((n / 10) % 10)));
        assert(p =~= seq![digit_char(a), digit_char(b), digit_char(c)]);
    }
    assert(p.drop_last() =~= seq![digit_char(a), digit_char(b)]);
    assert(p.drop_last().drop_last() =~= seq![digit_char(a)]);
    assert(p.drop_last().drop_last().drop_last() =~= Seq::<char>::empty());
    let q1 = p.drop_last();
    let q2 = q1.drop_last();
    assert(digits_value(q2) == digits_value(q2.drop_last()) * 10 + digit_value(q2.last()));
    assert(digits_value(q1) == digits_value(q2) * 10 + digit_value(q1.last()));
    assert(digits_value(p) == digits_value(q1) * 10 + digit_value(p.last()));
    assert(n == a * 100 + b * 10 + c);
}

proof fn lemma_time_fields(micros: int, total_millis: int, secs_of_day: int, hh: nat, mm: nat, ss: nat)
    requires
        micros > 0,
        total_millis == micros / 1000,
        secs_of_day == (total_millis / 1000) % 86_400,
        hh == secs_of_day / 3600,
        mm == (secs_of_day % 3600) / 60,
        ss == secs_of_day % 60,
    ensures
        hh < 24 && mm < 60 && ss < 60,
        0 <= total_millis % 1000 < 1000,
        hh * 3600 + mm * 60 + ss == (micros / 1_000_000) % 86_400,
{
    assert(total_millis / 1000 == micros / 1_000_000) by (nonlinear_arith)
        requires total_millis == micros / 1000, micros > 0;
    assert(hh < 24 && mm < 60 && ss < 60) by (nonlinear_arith)
        requires 0 <= secs_of_day < 86_400, hh == secs_of_day / 3600, mm == (secs_of_day % 3600) / 60, ss == secs_of_day % 60;
    assert(hh * 3600 + mm * 60 + ss == secs_of_day) by (nonlinear_arith)
        requires 0 <= secs_of_day, hh == secs_of_day / 3600, mm == (secs_of_day % 3600) / 60, ss == secs_of_day % 60;
}

/// A log time reads as the 24-hour UTC time of day of its moment: for a
/// positive moment the text is `HH:MM:SS.mmm`, every field in decimal
/// digits, with hours below 24 and minutes and seconds below 60, such that
/// `HH:MM:SS` is the second of the day of the moment and `mmm` its
/// millisecond within the second.
pub proof fn lemma_fmt_time_is_time_of_day(micros: i64)
    requires
        micros > 0,
    ensures
        ({
            let r = fmt_time_spec(micros);
            let h = digits_value(r.subrange(0, 2));
            let m = digits_value(r.subrange(3, 5));
            let s = digits_value(r.subrange(6, 8));
            let ms = digits_value(r.subrange(9, 12));
            &&& r.len() == 12
            &&& r[2] == ':' && r[5] == ':' && r[8] == '.'
            &&& all_digits(r.subrange(0, 2)) && all_digits(r.subrange(3, 5))
            &&& all_digits(r.subrange(6, 8)) && all_digits(r.subrange(9, 12))
            &&& h < 24 && m < 60 && s < 60 && ms < 1000
            &&& h * 3600 + m * 60 + s == (micros as int / 1_000_000) % 86_400
            &&& ms == (micros as int / 1000) % 1000
        }),
{
    let total_millis = micros as int / 1000;
    let millis = total_millis % 1000;
    let secs_of_day = (total_millis / 1000) % 86_400;
    let hh = (secs_of_day / 3600) as nat;
    let mm = ((secs_of_day % 3600) / 60) as nat;
    let ss = (secs_of_day % 60) as nat;
    lemma_time_fields(micros as int, total_millis, secs_of_day, hh, mm, ss);
    lemma_pad2(hh);
    lemma_pad2(mm);
    lemma_pad2(ss);
    lemma_pad3(millis as nat);
    let r = fmt_time_spec(micros);
    assert(r == pad2(hh) + seq![':'] + pad2(mm) + seq![':'] + pad2(ss) + seq!['.'] + pad3(millis as nat));
    assert(r.subrange(0, 2) =~= pad2(hh));
    assert(r.subrange(3, 5) =~= pad2(mm));
    assert(r.subrange(6, 8) =~= pad2(ss));
    assert(r.subrange(9, 12) =~= pad3(millis as nat));
}

fn push_padded(s: &mut String, n: u64, width: u64)
    requires
        width == 2 || width == 3,
        n < 1000,
    ensures
        width == 2 ==> final(s)@ == old(s)@ + pad2(n as nat),
        width == 3 ==> final(s)@ == old(s)@ + pad3(n as nat),
{
    if width == 3 && n < 100 {
        push_char(s, '0');
    }
    if n < 10 {
        push_char(s, '0');
    }
    push_decimal(s, n);
}

pub fn fmt_time(micros: i64) -> (r: String)
    ensures
        r@ == fmt_time_spec(micros),
{
    let mut r = String::new();
    if micros <= 0 {
        push_char(&mut r, '\u{2014}');
        return r;
    }
    let total_millis = micros / 1000;
    let millis = (total_millis % 1000) as u64;
    let total_secs = (total_millis / 1000) as u64;
    let secs_of_day = total_secs % 86_400;
    push_padded(&mut r, secs_of_day / 3600, 2);
    push_char(&mut r, ':');
    push_padded(&mut r, (secs_of_day % 3600) / 60, 2);
    push_char(&mut r, ':');
    push_padded(&mut r, secs_of_day % 60, 2);
    push_char(&mut r, '.');
    push_padded(&mut r, millis, 3);
    r
}

} // verus!

verus! {

/// The standard base64 alphabet.
pub open spec fn b64_char(v: int) -> char {
    if v < 26 {
        ((v + 65) as u32) as char
    } else if v < 52 {
        ((v - 26 + 97) as u32) as char
    } else if v < 62 {
        ((v - 52 + 48) as u32) as char
    } else if v == 62 {
        '+'
    } else {
        '/'
    }
}

/// Standard base64 with `=` padding: every three bytes become four
/// characters; a last group of one or two bytes is padded.
pub open spec fn base64_spec(b: Seq<u8>) -> Seq<char>
    decreases b.len(),
{
    if b.len() == 0 {
        Seq::empty()
    } else if b.len() == 1 {
        seq![b64_char(b[0] as int / 4), b64_char((b[0] as int % 4) * 16), '=', '=']
    } else if b.len() == 2 {
        seq![b64_char(b[0] as int / 4), b64_char((b[0] as int % 4) * 16 + b[1] as int / 16),
            b64_char((b[1] as int % 16) * 4), '=']
    } else {
        seq![b64_char(b[0] as int / 4), b64_char((b[0] as int % 4) * 16 + b[1] as int / 16),
            b64_char((b[1] as int % 16) * 4 + b[2] as int / 64), b64_char(b[2] as int % 64)]
            + base64_spec(b.subrange(3, b.len() as int))
    }
}

/// `base64::engine::general_purpose::STANDARD.encode`: standard base64 with
/// padding.  It panics when the encoded length overflows `usize`.
#[verifier::external_body]
fn encode_base64_standard(input: &[u8]) -> (r: String)
    requires
        (input@.len() + 2) / 3 * 4 <= usize::MAX,
    ensures
        r@ == base64_spec(input@),
{
    base64::engine::general_purpose::STANDARD.encode(input)
}

/// The base64 of the PEM text, so its line breaks survive a json body.
pub fn to_base64(pem: &str) -> (r: String)
    requires
        (pem.spec_bytes().len() + 2) / 3 * 4 <= usize::MAX,
    ensures
        r@ == base64_spec(pem.spec_bytes()),
{
    encode_base64_standard(pem.as_bytes())
}

/// The certificate upload request for `cert_id`.
pub fn init_ssl_certificate_request(cert_id: &str, certificate: &str, private_key: &str) -> (r: InitSslCertificateRequestModel)
    requires
        (certificate.spec_bytes().len() + 2) / 3 * 4 <= usize::MAX,
        (private_key.spec_bytes().len() + 2) / 3 * 4 <= usize::MAX,
    ensures
        r.cert_id@ == cert_id@,
        r.cert@ == base64_spec(certificate.spec_bytes()),
        r.private_key@ == base64_spec(private_key.spec_bytes()),
{
    InitSslCertificateRequestModel {
        cert_id: cert_id.to_string(),
        cert: to_base64(certificate),
        private_key: to_base64(private_key),
    }
}

/// `s` with every leading copy of `prefix` removed (`str::trim_start_matches`).
pub open spec fn strip_prefixes(s: Seq<char>, prefix: Seq<char>) -> Seq<char>
    decreases s.len(),
{
    if prefix.len() > 0 && s.len() >= prefix.len() && s.subrange(0, prefix.len() as int) == prefix {
        strip_prefixes(s.subrange(prefix.len() as int, s.len() as int), prefix)
    } else {
        s
    }
}

fn strip_validation_prefixes(s: &str) -> (r: &str)
    ensures
        r@ == strip_prefixes(s@, "Validation error:"@),
    decreases s@.len(),
{
    proof { reveal_strlit("Validation error:"); }
    let p = "Validation error:";
    let n = s.unicode_len();
    let m = p.unicode_len();
    if n >= m {
        let head = s.substring_char(0, m);
        if crate::text::str_eq(head, p) {
            let rest = s.substring_char(m, n);
            return strip_validation_prefixes(rest);
        }
    }
    s
}

/// The text a rejected certificate upload shows: the response body without
/// surrounding whitespace and without its `Validation error:` prefix; when
/// nothing is left, `POST {url} returned {status}`.
pub fn upload_rejection_message(body: &str, url: &str, status: &str) -> (r: String)
    ensures
        ({
            let message = trim_spec(strip_prefixes(trim_spec(body@), "Validation error:"@));
            r@ == if message.len() == 0 { "POST "@ + url@ + " returned "@ + status@ } else { message }
        }),
{
    let trimmed = trim_str(body);
    let stripped = strip_validation_prefixes(trimmed);
    let message = trim_str(stripped);
    if message.unicode_len() == 0 {
        let mut r = String::from_str("POST ");
        r.append(url);
        r.append(" returned ");
        r.append(status);
        r
    } else {
        message.to_string()
    }
}

/// The pill class of a certificate by the days it has left.
pub fn ssl_days_left_class(days_left: i64) -> (r: &'static str)
    ensures
        r@ == if days_left < 7 { "days-left critical"@ } else if days_left < 30 { "days-left warn"@ } else { "days-left ok"@ },
{
    if days_left < 7 {
        "days-left critical"
    } else if days_left < 30 {
        "days-left warn"
    } else {
        "days-left ok"
    }
}

/// The row class of a location by its last upstream status.
pub fn location_row_class(last_status: Option<i64>) -> (r: &'static str)
    ensures
        r@ == match last_status {
            Some(1) => "upstream-ok"@,
            Some(2) => "upstream-error"@,
            Some(0) => "upstream-unknown"@,
            _ => ""@,
        },
{
    match last_status {
        Some(1) => "upstream-ok",
        Some(2) => "upstream-error",
        Some(0) => "upstream-unknown",
        _ => "",
    }
}

} // verus!
