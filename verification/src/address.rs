//! The address rewriter: the client dials the local proxy, and the real
//! destination travels inside the host field.

use vstd::prelude::*;
use crate::plugin::ViaVersionPlugin;
use crate::text::{
    chars_of, decimal, is_digit, lemma_decimal_denotes, push_chars, push_decimal, push_range,
    push_text,
};

verus! {

/// Separates the fields of an encoded host.
pub const FIELD_SEPARATOR: char = '\x07';

/// Separates the encoded host from the extra data carried behind it.
pub const SUFFIX_SEPARATOR: char = '\0';

/// An IPv4 socket address: the address a proxy is bound to.
#[derive(Clone, Copy, Debug, PartialEq, Eq)]
pub struct BindAddr {
    pub ip: [u8; 4],
    pub port: u16,
}

/// A server as the client names it: host and port.
#[derive(Clone, Debug, PartialEq, Eq)]
pub struct ServerAddr {
    pub host: String,
    pub port: u16,
}

/// A server address together with the socket that the transport dials.
#[derive(Clone, Debug, PartialEq, Eq)]
pub struct ResolvedAddr {
    pub server: ServerAddr,
    pub socket: BindAddr,
}

impl BindAddr {
    /// The address as text: the four octets in decimal joined by dots, a
    /// colon, and the port in decimal.
    pub open spec fn text(self) -> Seq<char> {
        decimal(self.ip[0] as nat) + seq!['.'] + decimal(self.ip[1] as nat) + seq!['.'] + decimal(
            self.ip[2] as nat,
        ) + seq!['.'] + decimal(self.ip[3] as nat) + seq![':'] + decimal(self.port as nat)
    }

    /// Renders the address as `a.b.c.d:port`.
    pub fn to_text(&self) -> (text: String)
        ensures
            text@ == self.text(),
    {
        let mut text = String::new();
        push_decimal(&mut text, self.ip[0] as u64);
        text.push('.');
        push_decimal(&mut text, self.ip[1] as u64);
        text.push('.');
        push_decimal(&mut text, self.ip[2] as u64);
        text.push('.');
        push_decimal(&mut text, self.ip[3] as u64);
        text.push(':');
        push_decimal(&mut text, self.port as u64);
        assert(text@ =~= self.text());
        text
    }
}

/// Index of the first `c` in `s` at or after `from`; the length of `s` where
/// there is none.
pub open spec fn find_char(s: Seq<char>, c: char, from: int) -> int
    decreases s.len() - from,
{
    if from < 0 || from >= s.len() {
        s.len() as int
    } else if s[from] == c {
        from
    } else {
        find_char(s, c, from + 1)
    }
}

/// What stands behind the first field separator of `host`, where it holds one.
pub open spec fn suffix_data(host: Seq<char>) -> Option<Seq<char>> {
    let at = find_char(host, FIELD_SEPARATOR, 0);
    if at < host.len() {
        Some(host.subrange(at + 1, host.len() as int))
    } else {
        None
    }
}

/// The three fields of the encoding: a placeholder host, the real
/// destination as `host:port`, and the protocol version to speak to it.
pub open spec fn encoded_fields(host: Seq<char>, port: u16, version: Seq<char>) -> Seq<char> {
    "localhost"@ + seq![FIELD_SEPARATOR] + host + seq![':'] + decimal(port as nat)
        + seq![FIELD_SEPARATOR] + version
}

/// The host field that carries `host`, `port` and `version` to the proxy.
/// Data that `host` already carried behind a field separator is kept, and
/// appended once more behind a suffix separator.
pub open spec fn encoded_host(host: Seq<char>, port: u16, version: Seq<char>) -> Seq<char> {
    match suffix_data(host) {
        Some(data) => encoded_fields(host, port, version) + seq![SUFFIX_SEPARATOR] + data,
        None => encoded_fields(host, port, version),
    }
}

/// The address after the rewrite: the encoded host with the port unchanged,
/// dialled at `socket`.
pub open spec fn rewrites_to(
    server: ServerAddr,
    version: Seq<char>,
    socket: BindAddr,
    rewritten: ResolvedAddr,
) -> bool {
    &&& rewritten.server.host@ == encoded_host(server.host@, server.port, version)
    &&& rewritten.server.port == server.port
    &&& rewritten.socket == socket
}

/// Index of the first `c` in `s`, or the length of `s`.
fn position_of(s: &Vec<char>, c: char) -> (at: usize)
    ensures
        at == find_char(s@, c, 0),
        at <= s.len(),
{
    let mut i: usize = 0;
    while i < s.len() && s[i] != c
        invariant
            i <= s.len(),
            find_char(s@, c, 0) == find_char(s@, c, i as int),
        decreases s.len() - i,
    {
        i += 1;
    }
    i
}

/// Encodes `host`, `port` and `version` into one host field.
pub fn encode_host(host: &str, port: u16, version: &str) -> (encoded: String)
    ensures
        encoded@ == encoded_host(host@, port, version@),
{
    let chars = chars_of(host);
    let at: usize = position_of(&chars, FIELD_SEPARATOR);
    let mut encoded = String::new();
    push_text(&mut encoded, "localhost");
    encoded.push(FIELD_SEPARATOR);
    push_chars(&mut encoded, &chars);
    encoded.push(':');
    push_decimal(&mut encoded, port as u64);
    encoded.push(FIELD_SEPARATOR);
    push_text(&mut encoded, version);
    assert(encoded@ =~= encoded_fields(host@, port, version@));
    if at < chars.len() {
        encoded.push(SUFFIX_SEPARATOR);
        push_range(&mut encoded, &chars, at + 1, chars.len());
    }
    encoded
}

/// Rewrites the address of `server` so that the transport dials `socket` and
/// the proxy there learns the real destination and `version` from the host.
pub fn rewrite_address(server: &ServerAddr, version: &str, socket: BindAddr) -> (rewritten:
    ResolvedAddr)
    ensures
        rewrites_to(*server, version@, socket, rewritten),
{
    let host = encode_host(server.host.as_str(), server.port, version);
    ResolvedAddr { server: ServerAddr { host, port: server.port }, socket }
}

impl ViaVersionPlugin {
    /// Rewrites the address that the client was given, once, before the
    /// connection is opened: the transport then dials the proxy, and the
    /// proxy learns the real destination and the protocol version from the
    /// host field.
    pub fn handle_change_address(&self, server: &ServerAddr) -> (rewritten: ResolvedAddr)
        ensures
            rewrites_to(*server, self@.mc_version, self@.bind_addr, rewritten),
    {
        rewrite_address(server, self.mc_version(), self.bind_addr())
    }
}

/// The fields of `s`: what stands between the occurrences of `sep`.
pub open spec fn split_fields(s: Seq<char>, sep: char) -> Seq<Seq<char>>
    decreases s.len(),
{
    let at = find_char(s, sep, 0);
    if 0 <= at < s.len() {
        seq![s.subrange(0, at)] + split_fields(s.subrange(at + 1, s.len() as int), sep)
    } else {
        seq![s]
    }
}

/// Whether `tail` is what `s` ends with.
pub open spec fn ends_with(s: Seq<char>, tail: Seq<char>) -> bool {
    &&& tail.len() <= s.len()
    &&& s.subrange(s.len() - tail.len(), s.len() as int) == tail
}

/// `find_char` returns an index between `from` and the length, and no `c`
/// stands between `from` and that index.
pub proof fn lemma_find_char(s: Seq<char>, c: char, from: int)
    requires
        0 <= from <= s.len(),
    ensures
        from <= find_char(s, c, from) <= s.len(),
        find_char(s, c, from) < s.len() ==> s[find_char(s, c, from)] == c,
        forall|i: int| from <= i < find_char(s, c, from) ==> s[i] != c,
    decreases s.len() - from,
{
    if from < s.len() && s[from] != c {
        lemma_find_char(s, c, from + 1);
    }
}

/// In `head + [c] + tail`, where `head` holds no `c`, the first `c` stands
/// right behind `head`.
pub proof fn lemma_find_char_after(head: Seq<char>, c: char, tail: Seq<char>)
    requires
        !head.contains(c),
    ensures
        find_char(head + seq![c] + tail, c, 0) == head.len(),
{
    let s = head + seq![c] + tail;
    lemma_find_char(s, c, 0);
    let at = find_char(s, c, 0);
    assert(s[head.len() as int] == c);
    if at < head.len() {
        assert(s[at] == head[at]);
        assert(head.contains(c));
    }
}

/// A sequence without `c` has no first `c`.
pub proof fn lemma_find_char_absent(s: Seq<char>, c: char)
    requires
        !s.contains(c),
    ensures
        find_char(s, c, 0) == s.len(),
{
    lemma_find_char(s, c, 0);
    let at = find_char(s, c, 0);
    if at < s.len() {
        assert(s.contains(c));
    }
}

/// A sequence without `sep` is one field.
pub proof fn lemma_split_one(s: Seq<char>, sep: char)
    requires
        !s.contains(sep),
    ensures
        split_fields(s, sep) == seq![s],
{
    lemma_find_char_absent(s, sep);
}

/// Where `head` holds no `sep`, it is the first field of `head + [sep] +
/// tail`, and the fields of `tail` follow it.
pub proof fn lemma_split_first(head: Seq<char>, sep: char, tail: Seq<char>)
    requires
        !head.contains(sep),
    ensures
        split_fields(head + seq![sep] + tail, sep) == seq![head] + split_fields(tail, sep),
{
    let s = head + seq![sep] + tail;
    lemma_find_char_after(head, sep, tail);
    assert(s.subrange(0, head.len() as int) =~= head);
    assert(s.subrange(head.len() as int + 1, s.len() as int) =~= tail);
}

/// The placeholder host holds no field separator.
pub proof fn lemma_placeholder_is_plain()
    ensures
        !"localhost"@.contains(FIELD_SEPARATOR),
{
    reveal_strlit("localhost");
    let placeholder = "localhost"@;
    if placeholder.contains(FIELD_SEPARATOR) {
        let i = choose|i: int| 0 <= i < placeholder.len() && placeholder[i] == FIELD_SEPARATOR;
        assert(placeholder[i] != FIELD_SEPARATOR);
    }
}

/// `host:port` holds a field separator only where `host` does.
pub proof fn lemma_destination_is_plain(host: Seq<char>, port: u16)
    requires
        !host.contains(FIELD_SEPARATOR),
    ensures
        !(host + seq![':'] + decimal(port as nat)).contains(FIELD_SEPARATOR),
{
    let destination = host + seq![':'] + decimal(port as nat);
    lemma_decimal_denotes(port as nat);
    if destination.contains(FIELD_SEPARATOR) {
        let i = choose|i: int| 0 <= i < destination.len() && destination[i] == FIELD_SEPARATOR;
        if i < host.len() {
            assert(destination[i] == host[i]);
            assert(host.contains(FIELD_SEPARATOR));
        } else if i > host.len() {
            assert(destination[i] == decimal(port as nat)[i - host.len() - 1]);
            assert(is_digit(decimal(port as nat)[i - host.len() - 1]));
        } else {
            assert(destination[i] == ':');
        }
    }
}

/// Without data behind a field separator in `host`, and without a separator
/// in `version`, the encoded host splits on the field separator into exactly
/// three fields: the placeholder, `host:port`, and `version`.
pub proof fn lemma_encoding_round_trip(host: Seq<char>, port: u16, version: Seq<char>)
    requires
        !host.contains(FIELD_SEPARATOR),
        !version.contains(FIELD_SEPARATOR),
    ensures
        split_fields(encoded_host(host, port, version), FIELD_SEPARATOR) == seq![
            "localhost"@,
            host + seq![':'] + decimal(port as nat),
            version,
        ],
{
    let placeholder = "localhost"@;
    let destination = host + seq![':'] + decimal(port as nat);
    let rest = destination + seq![FIELD_SEPARATOR] + version;
    lemma_find_char_absent(host, FIELD_SEPARATOR);
    assert(encoded_host(host, port, version) == encoded_fields(host, port, version));
    assert(encoded_fields(host, port, version) =~= placeholder + seq![FIELD_SEPARATOR] + rest);
    lemma_placeholder_is_plain();
    lemma_destination_is_plain(host, port);
    lemma_split_first(placeholder, FIELD_SEPARATOR, rest);
    lemma_split_first(destination, FIELD_SEPARATOR, version);
    lemma_split_one(version, FIELD_SEPARATOR);
    assert(seq![placeholder] + (seq![destination] + seq![version]) =~= seq![
        placeholder,
        destination,
        version,
    ]);
}

/// Where the host already carries `data` behind a field separator, the
/// encoded host ends with a suffix separator followed by `data`.
pub proof fn lemma_encoding_keeps_suffix(
    name: Seq<char>,
    data: Seq<char>,
    port: u16,
    version: Seq<char>,
)
    requires
        !name.contains(FIELD_SEPARATOR),
    ensures
        ends_with(
            encoded_host(name + seq![FIELD_SEPARATOR] + data, port, version),
            seq![SUFFIX_SEPARATOR] + data,
        ),
{
    let host = name + seq![FIELD_SEPARATOR] + data;
    lemma_find_char_after(name, FIELD_SEPARATOR, data);
    assert(host.subrange(name.len() as int + 1, host.len() as int) =~= data);
    assert(suffix_data(host) == Some(data));
    let encoded = encoded_host(host, port, version);
    let tail = seq![SUFFIX_SEPARATOR] + data;
    assert(encoded.subrange(encoded.len() - tail.len(), encoded.len() as int) =~= tail);
}

} // verus!
