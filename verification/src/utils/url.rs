//! Redirect URIs and query strings.

use vstd::prelude::*;
use crate::text::{chars_of, find_char, find_from, find_from_spec, slice_string};
use crate::trusted::{parse_url, percent_decode, percent_decoded, url_parse};
use crate::utils::name_map::{distinct_keys, has_key, position_of, position_of_spec, value_of, NameMap};

verus! {

/// The host of a URL.
#[derive(Debug)]
pub enum UrlHost {
    /// A domain name.
    Domain(String),
    /// An IPv4 address, by its four octets.
    Ipv4([u8; 4]),
    /// An IPv6 address, by its eight 16-bit segments.
    Ipv6([u16; 8]),
}

/// The model of a host.
pub enum HostModel {
    Domain(Seq<char>),
    Ipv4(Seq<u8>),
    Ipv6(Seq<u16>),
}

impl View for UrlHost {
    type V = HostModel;

    open spec fn view(&self) -> HostModel {
        match self {
            UrlHost::Domain(name) => HostModel::Domain(name@),
            UrlHost::Ipv4(octets) => HostModel::Ipv4(octets@),
            UrlHost::Ipv6(segments) => HostModel::Ipv6(segments@),
        }
    }
}

/// The parts of a parsed URL that the flow reads.
#[derive(Debug)]
pub struct UrlParts {
    pub scheme: String,
    pub host: Option<UrlHost>,
    pub port: Option<u16>,
    pub path: String,
    pub query: Option<String>,
}

/// The model of a parsed URL.
pub struct UrlModel {
    pub scheme: Seq<char>,
    pub host: Option<HostModel>,
    pub port: Option<u16>,
    pub path: Seq<char>,
    pub query: Option<Seq<char>>,
}

impl View for UrlParts {
    type V = UrlModel;

    open spec fn view(&self) -> UrlModel {
        UrlModel {
            scheme: self.scheme@,
            host: match self.host {
                Some(h) => Some(h@),
                None => None,
            },
            port: self.port,
            path: self.path@,
            query: match self.query {
                Some(q) => Some(q@),
                None => None,
            },
        }
    }
}

/// Whether a parsed URL uses the scheme `http` or `https`.
pub open spec fn url_is_web(url: UrlModel) -> bool {
    url.scheme == "http"@ || url.scheme == "https"@
}

/// Whether a text is an absolute URL that uses HTTP or HTTPS.
pub open spec fn is_web_url(text: Seq<char>) -> bool {
    url_parse(text) matches Some(url) && url_is_web(url)
}

/// Whether a host is the local machine: the name `localhost`, an address in
/// 127.0.0.0/8, or the address `::1`.
pub open spec fn host_is_loopback(host: HostModel) -> bool {
    match host {
        HostModel::Domain(name) => name == "localhost"@,
        HostModel::Ipv4(octets) => octets[0] == 127,
        HostModel::Ipv6(segments) => segments == seq![0u16, 0u16, 0u16, 0u16, 0u16, 0u16, 0u16, 1u16],
    }
}

/// Whether a parsed URL is bound to the local machine.
pub open spec fn url_is_localhost(url: UrlModel) -> bool {
    url.host matches Some(host) && host_is_loopback(host)
}

/// Whether a redirect URI parses and is bound to the local machine.
pub open spec fn is_localhost_uri(uri: Seq<char>) -> bool {
    url_parse(uri) matches Some(url) && url_is_localhost(url)
}

/// The port that a loopback redirect URI names: its explicit port, or 80;
/// nothing for any other URI.
pub open spec fn redirect_port(uri: Seq<char>) -> Option<u16> {
    match url_parse(uri) {
        Some(url) => if url_is_localhost(url) {
            Some(
                match url.port {
                    Some(port) => port,
                    None => 80u16,
                },
            )
        } else {
            None
        },
        None => None,
    }
}

impl UrlHost {
    /// Whether the host is the local machine.
    pub fn is_loopback(&self) -> (r: bool)
        ensures
            r == host_is_loopback(self@),
    {
        match self {
            UrlHost::Domain(name) => *name.as_str() == *"localhost",
            UrlHost::Ipv4(octets) => octets[0] == 127,
            UrlHost::Ipv6(segments) => {
                let r = segments[0] == 0 && segments[1] == 0 && segments[2] == 0 && segments[3]
                    == 0 && segments[4] == 0 && segments[5] == 0 && segments[6] == 0
                    && segments[7] == 1;
                proof {
                    if r {
                        assert(segments@ =~= seq![0u16, 0u16, 0u16, 0u16, 0u16, 0u16, 0u16, 1u16]);
                    }
                }
                r
            },
        }
    }
}

impl UrlParts {
    /// Whether the scheme is `https`.
    pub fn is_https(&self) -> (r: bool)
        ensures
            r == (self@.scheme == "https"@),
    {
        *self.scheme.as_str() == *"https"
    }

    /// Whether the scheme is `http` or `https`.
    pub fn is_web(&self) -> (r: bool)
        ensures
            r == url_is_web(self@),
    {
        *self.scheme.as_str() == *"http" || *self.scheme.as_str() == *"https"
    }

    /// Whether the URL has a host.
    pub fn has_host(&self) -> (r: bool)
        ensures
            r == self@.host is Some,
    {
        self.host.is_some()
    }

    /// Whether the URL is bound to the local machine.
    pub fn is_localhost(&self) -> (r: bool)
        ensures
            r == url_is_localhost(self@),
    {
        match &self.host {
            Some(host) => host.is_loopback(),
            None => false,
        }
    }

    /// The port on which a listener for this URL listens: its explicit port or
    /// 80 where it is bound to the local machine, nothing otherwise.
    pub fn listener_port(&self) -> (r: Option<u16>)
        ensures
            r == if url_is_localhost(self@) {
                Some(
                    match self.port {
                        Some(port) => port,
                        None => 80u16,
                    },
                )
            } else {
                None
            },
    {
        if self.is_localhost() {
            match self.port {
                Some(port) => Some(port),
                None => Some(80),
            }
        } else {
            None
        }
    }
}

/// Whether `text` is an absolute URL that uses HTTP or HTTPS.
pub fn parses_as_web_url(text: &str) -> (r: bool)
    ensures
        r == is_web_url(text@),
{
    match parse_url(text) {
        Ok(url) => url.is_web(),
        Err(_) => false,
    }
}

/// Whether `uri` parses as a URL whose host is the local machine.
pub fn is_localhost_redirect_uri(uri: &str) -> (r: bool)
    ensures
        r == is_localhost_uri(uri@),
{
    match parse_url(uri) {
        Ok(url) => url.is_localhost(),
        Err(_) => false,
    }
}

/// The port of a loopback redirect URI, 80 where it names none; nothing for a
/// URI that does not parse or is not bound to the local machine.
pub fn extract_port_from_redirect_uri(uri: &str) -> (r: Option<u16>)
    ensures
        r == redirect_port(uri@),
{
    match parse_url(uri) {
        Ok(url) => url.listener_port(),
        Err(_) => None,
    }
}

/// One decoded name and value.
pub type Pair = (Seq<char>, Seq<char>);

/// What one `&`-separated piece of a query gives: its text before the first
/// `=` and its text after it, each percent-decoded; nothing where it has no
/// `=` or where either side does not decode.
pub open spec fn pair_of(piece: Seq<char>) -> Option<Pair> {
    let eq = find_from(piece, '=', 0);
    if eq >= piece.len() {
        None
    } else {
        match (
            percent_decoded(piece.subrange(0, eq)),
            percent_decoded(piece.subrange(eq + 1, piece.len() as int)),
        ) {
            (Some(name), Some(value)) => Some((name, value)),
            _ => None,
        }
    }
}

/// The pairs of the pieces of `query` from position `from` on, in order.
pub open spec fn query_pairs(query: Seq<char>, from: int) -> Seq<Pair>
    decreases query.len() - from,
{
    let end = find_from(query, '&', from);
    let head = match pair_of(query.subrange(from, end)) {
        Some(pair) => seq![pair],
        None => Seq::<Pair>::empty(),
    };
    if end < from || end >= query.len() {
        head
    } else {
        head + query_pairs(query, end + 1)
    }
}

/// `pairs` without every pair whose name an earlier pair has: the first
/// occurrence of a name wins.
pub open spec fn first_wins(pairs: Seq<Pair>) -> Seq<Pair>
    decreases pairs.len(),
{
    if pairs.len() == 0 {
        pairs
    } else {
        let before = first_wins(pairs.drop_last());
        if has_key(before, pairs.last().0) {
            before
        } else {
            before.push(pairs.last())
        }
    }
}

/// Among the pairs that are kept no name occurs twice, a name is kept
/// exactly when a pair has it, and every kept pair is one of the pairs.
pub proof fn first_wins_keeps_names(pairs: Seq<Pair>, name: Seq<char>)
    ensures
        distinct_keys(first_wins(pairs)),
        has_key(first_wins(pairs), name) <==> has_key(pairs, name),
    decreases pairs.len(),
{
    if pairs.len() > 0 {
        let before = first_wins(pairs.drop_last());
        let last = pairs.last();
        first_wins_keeps_names(pairs.drop_last(), name);
        first_wins_keeps_names(pairs.drop_last(), last.0);
        position_of_spec(before, last.0);
        position_of_spec(before, name);
        position_of_spec(first_wins(pairs), name);
        if !has_key(before, last.0) {
            let after = before.push(last);
            assert forall|i: int, j: int| 0 <= i < j < after.len() implies (#[trigger] after[i]).0
                != (#[trigger] after[j]).0 by {
                if j < before.len() {
                    assert(after[i] == before[i] && after[j] == before[j]);
                } else {
                    assert(after[i] == before[i]);
                }
            }
            assert(after.drop_last() =~= before);
        }
    }
}

/// The first occurrence of a name wins: the value that is kept for a name is
/// the value of the first pair that has the name.
pub proof fn first_occurrence_wins(pairs: Seq<Pair>, i: int)
    requires
        0 <= i < pairs.len(),
        forall|j: int| 0 <= j < i ==> (#[trigger] pairs[j]).0 != pairs[i].0,
    ensures
        has_key(first_wins(pairs), pairs[i].0),
        value_of(first_wins(pairs), pairs[i].0) == pairs[i].1,
    decreases pairs.len(),
{
    let name = pairs[i].0;
    let rest = pairs.drop_last();
    let before = first_wins(rest);
    first_wins_keeps_names(rest, name);
    first_wins_keeps_names(rest, pairs.last().0);
    position_of_spec(rest, name);
    position_of_spec(before, name);
    if i < pairs.len() - 1 {
        assert(rest[i] == pairs[i]);
        assert forall|j: int| 0 <= j < i implies (#[trigger] rest[j]).0 != rest[i].0 by {
            assert(rest[j] == pairs[j]);
        }
        first_occurrence_wins(rest, i);
        if !has_key(before, pairs.last().0) {
            let after = before.push(pairs.last());
            let at = position_of(before, name).unwrap();
            assert(after.drop_last() =~= before);
            assert(pairs.last().0 != name);
            assert(position_of(after, name) == position_of(before, name));
            assert(after[at] == before[at]);
        }
    } else {
        if has_key(rest, name) {
            let at = position_of(rest, name).unwrap();
            assert(rest[at] == pairs[at]);
            assert(pairs[at].0 != pairs[i].0);
        }
        let after = before.push(pairs.last());
        assert(after.drop_last() =~= before);
    }
}

/// The parameters of a query string: its pairs, first occurrence of a name
/// winning.
pub open spec fn query_params(query: Seq<char>) -> Seq<Pair> {
    first_wins(query_pairs(query, 0))
}

/// The texts of a list of named strings.
pub open spec fn texts_of(entries: Seq<(Seq<char>, String)>) -> Seq<Pair> {
    Seq::new(entries.len(), |i: int| (entries[i].0, entries[i].1@))
}

proof fn texts_keep_positions(entries: Seq<(Seq<char>, String)>, key: Seq<char>)
    ensures
        position_of(texts_of(entries), key) == position_of(entries, key),
    decreases entries.len(),
{
    if entries.len() > 0 {
        assert(texts_of(entries).drop_last() =~= texts_of(entries.drop_last()));
        texts_keep_positions(entries.drop_last(), key);
    }
}

/// The decoded parameters of a query string.
#[derive(Debug)]
pub struct QueryParams {
    map: NameMap<String>,
}

impl View for QueryParams {
    type V = Seq<Pair>;

    closed spec fn view(&self) -> Seq<Pair> {
        texts_of(self.map@)
    }
}

impl QueryParams {
    fn new() -> (r: Self)
        ensures
            r@ == Seq::<Pair>::empty(),
    {
        let r = QueryParams { map: NameMap::new() };
        assert(r@ =~= Seq::<Pair>::empty());
        r
    }

    /// Whether there is no parameter.
    pub fn is_empty(&self) -> (r: bool)
        ensures
            r == (self@.len() == 0),
    {
        self.map.is_empty()
    }

    /// The number of parameters; no name occurs twice.
    pub fn len(&self) -> (r: usize)
        ensures
            r == self@.len(),
            distinct_keys(self@),
    {
        let n = self.map.len();
        proof {
            assert forall|i: int, j: int| 0 <= i < j < self@.len() implies (#[trigger] self@[i]).0
                != (#[trigger] self@[j]).0 by {
                assert(self@[i].0 == self.map@[i].0 && self@[j].0 == self.map@[j].0);
            }
        }
        n
    }

    /// Whether a parameter is named `key`.
    pub fn contains_key(&self, key: &str) -> (r: bool)
        ensures
            r == has_key(self@, key@),
    {
        proof {
            texts_keep_positions(self.map@, key@);
        }
        self.map.contains_key(key)
    }

    /// The value of the parameter named `key`, if there is one.
    pub fn get(&self, key: &str) -> (r: Option<&String>)
        ensures
            r is Some == has_key(self@, key@),
            r matches Some(value) ==> value@ == value_of(self@, key@),
    {
        proof {
            texts_keep_positions(self.map@, key@);
            position_of_spec(self.map@, key@);
        }
        self.map.get(key)
    }

    /// Adds a pair unless its name is already there.
    fn add_first(&mut self, name: String, value: String)
        ensures
            final(self)@ == if has_key(old(self)@, name@) {
                old(self)@
            } else {
                old(self)@.push((name@, value@))
            },
    {
        proof {
            texts_keep_positions(self.map@, name@);
        }
        if !self.map.contains_key(name.as_str()) {
            let ghost before = self.map@;
            self.map.insert(name, value);
            assert(self@ =~= texts_of(before).push((name@, value@)));
        }
    }
}

/// Decodes one piece of a query: the characters `from..to` of `query`.
fn parse_pair(query: &str, chars: &Vec<char>, from: usize, to: usize) -> (r: Option<
    (String, String),
>)
    requires
        chars@ == query@,
        from <= to <= chars@.len(),
    ensures
        match r {
            Some(pair) => pair_of(query@.subrange(from as int, to as int)) == Some(
                (pair.0@, pair.1@),
            ),
            None => pair_of(query@.subrange(from as int, to as int)) is None,
        },
{
    let ghost piece = query@.subrange(from as int, to as int);
    let eq = find_char(chars, '=', from);
    proof {
        find_from_spec(chars@, '=', from as int);
        find_from_spec(piece, '=', 0);
        let shifted = find_from(piece, '=', 0);
        // The first `=` of the piece is the first `=` of the query at or
        // after `from`, as far as the piece reaches.
        if eq < to {
            assert(piece[eq - from] == chars@[eq as int]);
            if shifted < eq - from {
                assert(piece[shifted] == chars@[shifted + from]);
            }
            assert(shifted == eq - from);
        } else {
            if shifted < piece.len() {
                assert(piece[shifted] == chars@[shifted + from]);
            }
            assert(shifted == piece.len());
        }
    }
    if eq >= to {
        return None;
    }
    let name_text = slice_string(query, from, eq);
    let value_text = slice_string(query, eq + 1, to);
    proof {
        assert(name_text@ =~= piece.subrange(0, eq - from));
        assert(value_text@ =~= piece.subrange(eq - from + 1, piece.len() as int));
    }
    match percent_decode(name_text.as_str()) {
        Some(name) => match percent_decode(value_text.as_str()) {
            Some(value) => Some((name, value)),
            None => None,
        },
        None => None,
    }
}

/// The parameters of a query string. Pieces are separated by `&`; a piece is
/// a name and a value around its first `=`, both percent-decoded; a piece
/// without `=` or that does not decode is skipped; of two pieces with one
/// name the first wins.
pub fn parse_query_params(query: &str) -> (r: QueryParams)
    ensures
        r@ == query_params(query@),
{
    let chars = chars_of(query);
    let n = chars.len();
    let mut params = QueryParams::new();
    let ghost mut seen: Seq<Pair> = Seq::empty();
    let mut start: usize = 0;
    loop
        invariant_except_break
            start <= n,
            query_pairs(query@, 0) == seen + query_pairs(query@, start as int),
        invariant
            n == chars@.len(),
            chars@ == query@,
            params@ == first_wins(seen),
        ensures
            query_pairs(query@, 0) == seen,
        decreases n - start,
    {
        let end = find_char(&chars, '&', start);
        let ghost rest = query_pairs(query@, start as int);
        let ghost before = seen;
        match parse_pair(query, &chars, start, end) {
            Some(pair) => {
                proof {
                    seen = seen.push((pair.0@, pair.1@));
                    assert(seen.drop_last() =~= before);
                }
                params.add_first(pair.0, pair.1);
            },
            None => {},
        }
        if end >= n {
            proof {
                assert(query_pairs(query@, 0) =~= seen);
            }
            break ;
        }
        proof {
            assert(query_pairs(query@, 0) =~= seen + query_pairs(query@, end + 1));
        }
        start = end + 1;
    }
    params
}

/// The path on which the callback for `redirect_uri` arrives: the path of the
/// URI, or `/callback` where it does not parse.
pub open spec fn callback_path_of(redirect_uri: Seq<char>) -> Seq<char> {
    match url_parse(redirect_uri) {
        Some(url) => url.path,
        None => "/callback"@,
    }
}

/// The path component of `redirect_uri`; `/callback` where it does not parse.
pub fn extract_path_from_redirect_uri(redirect_uri: &str) -> (r: String)
    ensures
        r@ == callback_path_of(redirect_uri@),
{
    match parse_url(redirect_uri) {
        Ok(url) => url.path,
        Err(_) => "/callback".to_string(),
    }
}

} // verus!
