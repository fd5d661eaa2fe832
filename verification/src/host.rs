//! The name that a connection is made for.

use http::Uri;
use vstd::prelude::*;
use vstd::string::StrSliceExecFns;

verus! {

/// Declares `http::Uri`, of which only its [`authority_of`] is known.
#[verifier::external_type_specification]
#[verifier::external_body]
pub struct ExUri(Uri);

/// The authority of a URI, as text: user information, host and port; `None` if the
/// URI has no authority.
pub uninterp spec fn authority_of(uri: Uri) -> Option<Seq<char>>;

/// Whether a text is an IPv6 address as `core::net::Ipv6Addr` reads them.
pub uninterp spec fn reads_as_ipv6(text: Seq<char>) -> bool;

/// The text that an optional string holds.
pub open spec fn maybe_text(text: Option<&str>) -> Option<Seq<char>> {
    match text {
        Some(text) => Some(text@),
        None => None,
    }
}

/// What follows the user information of an authority: what follows its last `@`, or
/// all of it if it has none.
pub open spec fn host_and_port(authority: Seq<char>) -> Seq<char>
    decreases authority.len(),
{
    if authority.len() == 0 || authority.last() == '@' {
        Seq::empty()
    } else {
        host_and_port(authority.drop_last()).push(authority.last())
    }
}

/// What comes before the first `delimiter` of a text, or all of it if it has none.
pub open spec fn before_first(text: Seq<char>, delimiter: char) -> Seq<char>
    decreases text.len(),
{
    if text.len() == 0 || text[0] == delimiter {
        Seq::empty()
    } else {
        seq![text[0]] + before_first(text.drop_first(), delimiter)
    }
}

/// An authority from which a host can be read: something follows the user
/// information, and if that starts with `[`, a `]` closes it.
pub open spec fn names_a_host(authority: Seq<char>) -> bool {
    let rest = host_and_port(authority);
    rest.len() > 0 && (rest[0] == '[' ==> rest.contains(']'))
}

/// The host of an authority: what follows the user information, up to and including
/// the first `]` if it starts with `[`, and up to the first `:` otherwise.
pub open spec fn host_in(authority: Seq<char>) -> Seq<char> {
    let rest = host_and_port(authority);
    if rest.len() > 0 && rest[0] == '[' {
        before_first(rest, ']').push(']')
    } else {
        before_first(rest, ':')
    }
}

/// Calls `Uri::authority` and `Authority::as_str`: the text of the authority, which
/// depends on the URI alone.
#[verifier::external_body]
fn uri_authority(uri: &Uri) -> (r: Option<&str>)
    ensures
        maybe_text(r) == authority_of(*uri),
{
    uri.authority().map(|authority| authority.as_str())
}

/// Calls `Uri::host`: the host of the authority, if the URI has one. The call panics on
/// an authority from which no host can be read; one that was not checked as a whole
/// can be put into a URI.
#[verifier::external_body]
fn host_of_authority(uri: &Uri) -> (r: Option<&str>)
    requires
        authority_of(*uri) matches Some(authority) ==> names_a_host(authority),
    ensures
        maybe_text(r) == (match authority_of(*uri) {
            Some(authority) => Some(host_in(authority)),
            None => None,
        }),
{
    uri.host()
}

/// Calls `str::parse` for `core::net::Ipv6Addr`: whether the text is an IPv6 address,
/// which depends on the text alone. An address is written without brackets.
#[verifier::external_body]
fn is_ipv6_address(text: &str) -> (r: bool)
    ensures
        r == reads_as_ipv6(text@),
        r ==> !is_bracketed(text@),
{
    text.parse::<core::net::Ipv6Addr>().is_ok()
}

/// The host of a URI; `None` if the URI has no authority, or one from which no host
/// can be read.
pub open spec fn readable_host(uri: Uri) -> Option<Seq<char>> {
    match authority_of(uri) {
        Some(authority) => if names_a_host(authority) {
            Some(host_in(authority))
        } else {
            None
        },
        None => None,
    }
}

/// A host that starts with `[` and ends with `]`.
pub open spec fn is_bracketed(host: Seq<char>) -> bool {
    host.len() >= 2 && host.first() == '[' && host.last() == ']'
}

/// What stands between the first and the last character of a host.
pub open spec fn between_brackets(host: Seq<char>) -> Seq<char> {
    host.subrange(1, host.len() - 1)
}

/// The host without the brackets around an IPv6 address; `is_ipv6` says whether
/// what stands between the brackets is one.
pub open spec fn normalized(host: Seq<char>, is_ipv6: bool) -> Seq<char> {
    if is_bracketed(host) && is_ipv6 {
        between_brackets(host)
    } else {
        host
    }
}

/// The host without the brackets around an IPv6 address.
pub open spec fn normal_form(host: Seq<char>) -> Seq<char> {
    normalized(host, is_bracketed(host) && reads_as_ipv6(between_brackets(host)))
}

/// The normalized host of a URI, if it has one.
pub open spec fn connect_host(uri: Uri) -> Option<Seq<char>> {
    match readable_host(uri) {
        Some(host) => Some(normal_form(host)),
        None => None,
    }
}

/// Whether a host can be read from an authority.
pub fn has_readable_host(authority: &str) -> (r: bool)
    ensures
        r == names_a_host(authority@),
{
    let mut empty = true;
    let mut opened = false;
    let mut closed = false;
    let ghost mut rest: Seq<char> = Seq::empty();
    for c in it: authority.chars()
        invariant
            it.seq() == authority@,
            rest == host_and_port(authority@.take(it.index())),
            empty == (rest.len() == 0),
            opened == (rest.len() > 0 && rest[0] == '['),
            closed == rest.contains(']'),
    {
        let ghost before = rest;
        proof {
            let seen = authority@.take(it.index() + 1);
            assert(seen.drop_last() =~= authority@.take(it.index()));
            assert(seen.last() == c);
            rest = host_and_port(seen);
        }
        if c == '@' {
            empty = true;
            opened = false;
            closed = false;
        } else {
            if empty {
                empty = false;
                opened = c == '[';
            }
            if c == ']' {
                closed = true;
                assert(rest.last() == ']');
            }
            assert(rest == before.push(c));
            assert(forall|k: int| 0 <= k < before.len() ==> rest[k] == before[k]);
        }
    }
    assert(authority@.take(authority@.len() as int) =~= authority@);
    !empty && (!opened || closed)
}

/// The host of a URI; `None` if the URI has no authority, or one from which no host
/// can be read.
pub fn uri_host(uri: &Uri) -> (r: Option<&str>)
    ensures
        maybe_text(r) == readable_host(*uri),
        r is Some <==> (authority_of(*uri) matches Some(authority) && names_a_host(authority)),
{
    match uri_authority(uri) {
        Some(authority) => if has_readable_host(authority) {
            host_of_authority(uri)
        } else {
            None
        },
        None => None,
    }
}

/// What stands between the square brackets of a host, if it has any.
pub fn bracketed_part(host: &str) -> (r: Option<&str>)
    ensures
        r is Some <==> is_bracketed(host@),
        r matches Some(part) ==> part@ == between_brackets(host@),
{
    let len: usize = host.unicode_len();
    if len >= 2 && host.get_char(0) == '[' && host.get_char(len - 1) == ']' {
        Some(host.substring_char(1, len - 1))
    } else {
        None
    }
}

/// Strips the brackets off a host if what stands between them is an IPv6 address, as
/// `is_ipv6` says.
pub fn strip_brackets(host: &str, is_ipv6: bool) -> (r: &str)
    ensures
        r@ == normalized(host@, is_ipv6),
{
    if is_ipv6 {
        if let Some(part) = bracketed_part(host) {
            return part;
        }
    }
    host
}

/// If `host` is an IPv6 address, we must strip away the square brackets that surround
/// it (otherwise, the TLS engine will fail to parse the host as an IP address, eventually
/// causing the handshake to fail due a hostname verification error).
///
/// Normalizing the result again changes nothing.
pub fn normalize_host(host: &str) -> (r: &str)
    ensures
        r@ == normal_form(host@),
        normal_form(r@) == r@,
{
    let is_ipv6 = match bracketed_part(host) {
        Some(part) => is_ipv6_address(part),
        None => false,
    };
    strip_brackets(host, is_ipv6)
}

/// The normalized host of a URI, if it has one.
pub fn host_to_connect_to(uri: &Uri) -> (r: Option<&str>)
    ensures
        maybe_text(r) == connect_host(*uri),
{
    match uri_host(uri) {
        Some(host) => Some(normalize_host(host)),
        None => None,
    }
}

proof fn lemma_user_information_is_left_out(user: Seq<char>, rest: Seq<char>)
    requires
        !rest.contains('@'),
    ensures
        host_and_port(user.push('@') + rest) == rest,
    decreases rest.len(),
{
    let authority = user.push('@') + rest;
    if rest.len() == 0 {
        assert(authority.last() == '@');
    } else {
        let shorter = rest.drop_last();
        assert(authority.last() == rest.last());
        assert(rest.contains(rest.last()));
        assert forall|c: char| shorter.contains(c) implies rest.contains(c) by {
            let k = shorter.index_of(c);
            assert(rest[k] == c);
        }
        lemma_user_information_is_left_out(user, shorter);
        assert(authority.drop_last() =~= user.push('@') + shorter);
    }
    assert(host_and_port(authority) =~= rest);
}

proof fn lemma_without_user_information(rest: Seq<char>)
    requires
        !rest.contains('@'),
    ensures
        host_and_port(rest) == rest,
    decreases rest.len(),
{
    if rest.len() > 0 {
        let shorter = rest.drop_last();
        assert(rest.contains(rest.last()));
        assert forall|c: char| shorter.contains(c) implies rest.contains(c) by {
            let k = shorter.index_of(c);
            assert(rest[k] == c);
        }
        lemma_without_user_information(shorter);
    }
    assert(host_and_port(rest) =~= rest);
}

proof fn lemma_first_delimiter_ends_the_text(text: Seq<char>, delimiter: char, after: Seq<char>)
    requires
        !text.contains(delimiter),
        after.len() > 0 ==> after[0] == delimiter,
    ensures
        before_first(text + after, delimiter) == text,
    decreases text.len(),
{
    if text.len() == 0 {
        assert(text + after =~= after);
    } else {
        let rest = text.drop_first();
        assert(text.contains(text[0]));
        assert forall|c: char| rest.contains(c) implies text.contains(c) by {
            let k = rest.index_of(c);
            assert(text[k + 1] == c);
        }
        lemma_first_delimiter_ends_the_text(rest, delimiter, after);
        assert((text + after).drop_first() =~= rest + after);
    }
    assert(before_first(text + after, delimiter) =~= text);
}

/// The user information and the `@` that ends it, where there is any.
pub open spec fn user_part(user: Option<Seq<char>>) -> Seq<char> {
    match user {
        Some(user) => user.push('@'),
        None => Seq::empty(),
    }
}

/// The port and the `:` before it, where there is one.
pub open spec fn port_part(port: Option<Seq<char>>) -> Seq<char> {
    match port {
        Some(port) => seq![':'] + port,
        None => Seq::empty(),
    }
}

proof fn lemma_host_and_port_of_parts(user: Option<Seq<char>>, host: Seq<char>, port: Seq<char>)
    requires
        !host.contains('@'),
        !port.contains('@'),
    ensures
        host_and_port(user_part(user) + host + port) == host + port,
{
    let rest = host + port;
    assert(!rest.contains('@')) by {
        if rest.contains('@') {
            let k = rest.index_of('@');
            if k < host.len() {
                assert(host[k] == '@');
            } else {
                assert(port[k - host.len()] == '@');
            }
        }
    }
    match user {
        Some(user) => {
            lemma_user_information_is_left_out(user, rest);
            assert(user_part(Some(user)) + host + port =~= user.push('@') + rest);
        },
        None => {
            lemma_without_user_information(rest);
            assert(user_part(None) + host + port =~= rest);
        },
    }
}

/// A name is read as the host of an authority, whatever user information comes before
/// it and whatever port follows it; with a port, it may be empty.
pub proof fn law_name_is_the_host(
    user: Option<Seq<char>>,
    name: Seq<char>,
    port: Option<Seq<char>>,
)
    requires
        name.len() > 0 || port is Some,
        name.len() > 0 ==> name[0] != '[',
        !name.contains('@'),
        !name.contains(':'),
        !port_part(port).contains('@'),
    ensures
        names_a_host(user_part(user) + name + port_part(port)),
        host_in(user_part(user) + name + port_part(port)) == name,
{
    lemma_host_and_port_of_parts(user, name, port_part(port));
    if name.len() > 0 {
        assert((name + port_part(port))[0] == name[0]);
    } else {
        assert((name + port_part(port))[0] == ':');
    }
    lemma_first_delimiter_ends_the_text(name, ':', port_part(port));
}

/// An IP literal is read as the host of an authority, with its brackets, whatever user
/// information comes before it and whatever follows it.
pub proof fn law_ip_literal_is_the_host(
    user: Option<Seq<char>>,
    address: Seq<char>,
    after: Seq<char>,
)
    requires
        !address.contains('@'),
        !address.contains(']'),
        !after.contains('@'),
    ensures
        ({
            let literal = seq!['['] + address + seq![']'];
            &&& names_a_host(user_part(user) + literal + after)
            &&& host_in(user_part(user) + literal + after) == literal
        }),
{
    let literal = seq!['['] + address + seq![']'];
    let opened = seq!['['] + address;
    let rest = literal + after;
    assert(!literal.contains('@')) by {
        if literal.contains('@') {
            let k = literal.index_of('@');
            assert(address[k - 1] == '@');
        }
    }
    lemma_host_and_port_of_parts(user, literal, after);
    assert(rest[0] == '[');
    assert(rest[literal.len() - 1] == ']');
    assert(!opened.contains(']')) by {
        if opened.contains(']') {
            let k = opened.index_of(']');
            assert(address[k - 1] == ']');
        }
    }
    lemma_first_delimiter_ends_the_text(opened, ']', seq![']'] + after);
    assert(rest =~= opened + (seq![']'] + after));
    assert(opened.push(']') =~= literal);
}

/// No host can be read from an authority that ends with its user information, nor from
/// one that opens a bracket after it and never closes it.
pub proof fn law_authority_without_a_host(user: Option<Seq<char>>, rest: Seq<char>)
    requires
        !rest.contains('@'),
        rest.len() > 0 ==> rest[0] == '[' && !rest.contains(']'),
    ensures
        !names_a_host(user_part(user) + rest),
{
    lemma_host_and_port_of_parts(user, rest, Seq::empty());
    assert(user_part(user) + rest + Seq::empty() =~= user_part(user) + rest);
    assert(rest + Seq::empty() =~= rest);
}

/// The host of a URI, and the host to connect to: an IP literal as it stands, to connect
/// to without its brackets if it is an IPv6 address; a name as it stands; none where the
/// URI has no authority or no host can be read from it. User information and port do
/// not matter.
pub proof fn law_host_of_a_uri(
    uri: Uri,
    user: Option<Seq<char>>,
    text: Seq<char>,
    after: Seq<char>,
)
    requires
        !text.contains('@'),
        !after.contains('@'),
    ensures
        ({
            let literal = seq!['['] + text + seq![']'];
            &&& authority_of(uri) is None ==> readable_host(uri) is None && connect_host(uri) is None
            &&& authority_of(uri) == Some(user_part(user) + literal + after) && !text.contains(']')
                ==> readable_host(uri) == Some(literal) && connect_host(uri) == Some(
                if reads_as_ipv6(text) {
                    text
                } else {
                    literal
                },
            )
            &&& authority_of(uri) == Some(user_part(user) + text + after) && text.len()
                + after.len() > 0 && (text.len() > 0 ==> text[0] != '[') && !text.contains(':') && (
            after.len() > 0 ==> after[0] == ':') ==> readable_host(uri) == Some(text)
                && connect_host(uri) == Some(text)
            &&& authority_of(uri) == Some(user_part(user) + text) && (text.len() > 0 ==> text[0]
                == '[' && !text.contains(']')) ==> readable_host(uri) is None && connect_host(
                uri,
            ) is None
        }),
{
    let literal = seq!['['] + text + seq![']'];
    if !text.contains(']') {
        law_ip_literal_is_the_host(user, text, after);
        law_brackets_around_an_address_are_stripped(text);
    }
    if text.len() + after.len() > 0 && (text.len() > 0 ==> text[0] != '[') && !text.contains(':')
        && (after.len() > 0 ==> after[0] == ':') {
        let port = if after.len() > 0 {
            Some(after.skip(1))
        } else {
            None
        };
        assert(port_part(port) =~= after);
        law_name_is_the_host(user, text, port);
    }
    if text.len() > 0 ==> text[0] == '[' && !text.contains(']') {
        law_authority_without_a_host(user, text);
    }
}

/// An optional string counts with all its text, also where that is empty; one that is
/// left out counts as left out.
pub proof fn law_text_counts_whole(text: &str)
    ensures
        maybe_text(Some(text)) == Some(text@),
        maybe_text(None) is None,
{
}

/// A host is in brackets exactly if it is some text with `[` before it and `]` after it,
/// and that text is what stands between them.
pub proof fn law_brackets_stand_around_a_text(host: Seq<char>, text: Seq<char>)
    ensures
        is_bracketed(host) <==> exists|part: Seq<char>|
            host == #[trigger] (seq!['['] + part + seq![']']),
        host == seq!['['] + text + seq![']'] ==> between_brackets(host) == text,
{
    if is_bracketed(host) {
        assert(host =~= seq!['['] + between_brackets(host) + seq![']']);
    }
    if host == seq!['['] + text + seq![']'] {
        assert(between_brackets(host) =~= text);
    }
}

/// Brackets are stripped exactly as told, and nothing but a pair of brackets ever is.
pub proof fn law_brackets_are_stripped_as_told(host: Seq<char>, is_ipv6: bool)
    ensures
        normalized(seq!['['] + host + seq![']'], true) == host,
        normalized(host, false) == host,
        host.len() < 2 || host[0] != '[' || host[host.len() - 1] != ']' ==> normalized(
            host,
            is_ipv6,
        ) == host,
{
    assert(between_brackets(seq!['['] + host + seq![']']) =~= host);
}

/// A host that is not in brackets stays as it is.
pub proof fn law_host_without_brackets_is_kept(host: Seq<char>)
    requires
        host.len() < 2 || host[0] != '[' || host[host.len() - 1] != ']',
    ensures
        normal_form(host) == host,
{
}

/// A text in brackets is normalized to the text if it is an IPv6 address, and stays
/// as it is otherwise.
pub proof fn law_brackets_around_an_address_are_stripped(text: Seq<char>)
    ensures
        normal_form(seq!['['] + text + seq![']']) == (if reads_as_ipv6(text) {
            text
        } else {
            seq!['['] + text + seq![']']
        }),
{
    let host = seq!['['] + text + seq![']'];
    assert(between_brackets(host) =~= text);
}

/// A normalized host is the host or all of it but its first and last character.
pub proof fn law_normalized_host_is_part_of_the_host(host: Seq<char>)
    ensures
        normal_form(host) == host || (host.len() >= 2 && normal_form(host) == host.subrange(
            1,
            host.len() - 1,
        )),
        normal_form(host).len() == host.len() || normal_form(host).len() == host.len() - 2,
{
}

} // verus!
