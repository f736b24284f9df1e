//! What a client of the three flows computes: it takes apart the node URI
//! of a channel offer and writes the callback URLs.

use crate::messages::{AuthChallengeResponse, ChannelRequestResponse, WithdrawRequestResponse};
use vstd::prelude::*;
use vstd::string::{StrSliceExecFns, StringExecFns};

verus! {

/// Why a node URI was refused.
#[derive(Clone, Copy, Debug, PartialEq, Eq, Structural)]
pub enum UriError {
    /// The URI does not hold exactly one `@`.
    InvalidUri,
    /// What follows the `@` does not hold exactly one `:`.
    InvalidAddress,
    /// What follows the `:` is no port number.
    InvalidPort,
}

/// `sep` stands in `s` at `i` and nowhere else.
pub open spec fn only_at(s: Seq<char>, sep: char, i: int) -> bool {
    &&& 0 <= i < s.len()
    &&& s[i] == sep
    &&& forall|j: int| 0 <= j < s.len() && s[j] == sep ==> j == i
}

/// `sep` occurs in `s` exactly once.
pub open spec fn has_one(s: Seq<char>, sep: char) -> bool {
    exists|i: int| only_at(s, sep, i)
}

/// Where the one `sep` of `s` stands.
pub open spec fn position(s: Seq<char>, sep: char) -> int {
    choose|i: int| only_at(s, sep, i)
}

/// Whether `c` is a decimal digit.
pub open spec fn is_digit(c: char) -> bool {
    '0' <= c && c <= '9'
}

/// The number that a string of decimal digits writes.
pub open spec fn digits_value(digits: Seq<char>) -> nat
    decreases digits.len(),
{
    if digits.len() == 0 {
        0
    } else {
        digits_value(digits.drop_last()) * 10 + (digits.last() as nat - '0' as nat) as nat
    }
}

/// The digits of a number text: the text without its leading `+`, if any.
pub open spec fn unsigned_digits(text: Seq<char>) -> Seq<char> {
    if text.len() > 0 && text[0] == '+' {
        text.drop_first()
    } else {
        text
    }
}

/// The port that `text` writes: an optional `+`, then one or more decimal
/// digits whose value fits in 16 bits. Leading zeros are read over.
pub open spec fn parsed_port(text: Seq<char>) -> Option<u16> {
    let digits = unsigned_digits(text);
    if digits.len() > 0 && (forall|i: int| 0 <= i < digits.len() ==> is_digit(#[trigger] digits[i]))
        && digits_value(digits) <= u16::MAX {
        Some(digits_value(digits) as u16)
    } else {
        None
    }
}

/// What a node URI `pubkey@host:port` parses to.
pub open spec fn parsed_uri(uri: Seq<char>) -> Result<(Seq<char>, Seq<char>, u16), UriError> {
    if !has_one(uri, '@') {
        Err(UriError::InvalidUri)
    } else {
        let at = position(uri, '@');
        let socket = uri.skip(at + 1);
        if !has_one(socket, ':') {
            Err(UriError::InvalidAddress)
        } else {
            let colon = position(socket, ':');
            match parsed_port(socket.skip(colon + 1)) {
                None => Err(UriError::InvalidPort),
                Some(port) => Ok((uri.take(at), socket.take(colon), port)),
            }
        }
    }
}

/// The value of digits grows with every digit read, so a prefix over the
/// limit puts the whole over it.
proof fn lemma_digits_value_grows(digits: Seq<char>, n: int)
    requires
        0 <= n <= digits.len(),
    ensures
        digits_value(digits.take(n)) <= digits_value(digits),
    decreases digits.len() - n,
{
    if n < digits.len() {
        lemma_digits_value_grows(digits, n + 1);
        assert(digits.take(n + 1).drop_last() =~= digits.take(n));
    } else {
        assert(digits.take(n) =~= digits);
    }
}

/// The characters of a string, in a vector.
fn chars_of(text: &str) -> (chars: Vec<char>)
    ensures
        chars@ == text@,
{
    let mut chars: Vec<char> = Vec::new();
    for c in it: text.chars()
        invariant
            it.seq() == text@,
            chars@ == it.seq().take(it.index() as int),
    {
        chars.push(c);
    }
    chars
}

/// Finds the one `sep` in `chars` from `from` on, if there is exactly
/// one.
fn find_one(chars: &Vec<char>, from: usize, sep: char) -> (found: Option<usize>)
    requires
        from <= chars@.len(),
    ensures
        match found {
            Some(i) => from <= i < chars@.len() && only_at(chars@.skip(from as int), sep, i - from),
            None => !has_one(chars@.skip(from as int), sep),
        },
{
    let ghost rest = chars@.skip(from as int);
    let mut found: Option<usize> = None;
    let mut i: usize = from;
    while i < chars.len()
        invariant
            from <= i <= chars@.len(),
            rest == chars@.skip(from as int),
            match found {
                Some(k) => from <= k < i && chars@[k as int] == sep && forall|j: int|
                    from <= j < i && chars@[j] == sep ==> j == k,
                None => forall|j: int| from <= j < i ==> chars@[j] != sep,
            },
        decreases chars@.len() - i,
    {
        if chars[i] == sep {
            match found {
                Some(k) => {
                    proof {
                        assert(rest[k - from] == sep && rest[i - from] == sep);
                        assert forall|p: int| !only_at(rest, sep, p) by {
                            if only_at(rest, sep, p) {
                                assert(k - from == p);
                                assert(i - from == p);
                            }
                        }
                    }
                    return None;
                },
                None => {
                    found = Some(i);
                },
            }
        }
        i += 1;
    }
    proof {
        match found {
            Some(k) => {
                assert forall|j: int| 0 <= j < rest.len() && rest[j] == sep implies j == k
                    - from by {
                    assert(chars@[j + from] == sep);
                }
            },
            None => {
                assert forall|p: int| !only_at(rest, sep, p) by {
                    if only_at(rest, sep, p) {
                        assert(chars@[p + from] == sep);
                    }
                }
            },
        }
    }
    found
}

/// Reads a port number from `chars` from `from` on.
fn parse_port(chars: &Vec<char>, from: usize) -> (port: Option<u16>)
    requires
        from <= chars@.len(),
    ensures
        port == parsed_port(chars@.skip(from as int)),
{
    let ghost text = chars@.skip(from as int);
    let mut start: usize = from;
    if start < chars.len() && chars[start] == '+' {
        start += 1;
    }
    let ghost digits = chars@.skip(start as int);
    assert(digits =~= unsigned_digits(text));
    if start == chars.len() {
        return None;
    }
    let mut value: u32 = 0;
    let mut i: usize = start;
    while i < chars.len()
        invariant
            start <= i <= chars@.len(),
            digits == chars@.skip(start as int),
            digits == unsigned_digits(chars@.skip(from as int)),
            forall|j: int| 0 <= j < i - start ==> is_digit(#[trigger] digits[j]),
            value == digits_value(digits.take(i - start)),
            value <= u16::MAX,
        decreases chars@.len() - i,
    {
        let c = chars[i];
        if !(c >= '0' && c <= '9') {
            assert(!is_digit(digits[i - start]));
            return None;
        }
        let digit: u32 = c as u32 - '0' as u32;
        proof {
            assert(digits.take(i + 1 - start).drop_last() =~= digits.take(i - start));
            assert(digits.take(i + 1 - start).last() == c);
        }
        value = value * 10 + digit;
        if value > 65535 {
            proof {
                lemma_digits_value_grows(digits, i + 1 - start);
            }
            return None;
        }
        i += 1;
    }
    assert(digits.take(i - start) =~= digits);
    Some(value as u16)
}

/// Takes a node URI of the form `pubkey@host:port` apart. Neither the
/// key nor the host is looked into.
pub fn parse_uri(uri: &str) -> (parsed: Result<(String, String, u16), UriError>)
    ensures
        match parsed {
            Ok((node_id, host, port)) => parsed_uri(uri@) == Ok::<
                (Seq<char>, Seq<char>, u16),
                UriError,
            >((node_id@, host@, port)),
            Err(error) => parsed_uri(uri@) == Err::<(Seq<char>, Seq<char>, u16), UriError>(error),
        },
{
    let chars = chars_of(uri);
    let at = match find_one(&chars, 0, '@') {
        None => {
            assert(chars@.skip(0) =~= uri@);
            return Err(UriError::InvalidUri);
        },
        Some(at) => at,
    };
    proof {
        assert(chars@.skip(0) =~= uri@);
        assert(only_at(uri@, '@', at as int));
        assert(position(uri@, '@') == at);
    }
    let ghost socket = uri@.skip(at + 1);
    assert(at < chars.len());
    let colon = match find_one(&chars, at + 1, ':') {
        None => {
            return Err(UriError::InvalidAddress);
        },
        Some(colon) => colon,
    };
    proof {
        assert(only_at(socket, ':', colon - (at + 1)));
        assert(position(socket, ':') == colon - (at + 1));
        assert(socket.skip(colon - (at + 1) + 1) =~= chars@.skip(colon + 1));
        assert(socket.take(colon - (at + 1)) =~= uri@.subrange(at + 1, colon as int));
        assert(uri@.take(at as int) =~= uri@.subrange(0, at as int));
    }
    let port = match parse_port(&chars, colon + 1) {
        None => {
            return Err(UriError::InvalidPort);
        },
        Some(port) => port,
    };
    let node_id = uri.substring_char(0, at).to_owned();
    let host = uri.substring_char(at + 1, colon).to_owned();
    Ok((node_id, host, port))
}

/// Where a client reaches the server.
pub const SERVER_URL: &'static str = "http://127.0.0.1:3000";

/// The URL that asks for the channel of `offer` to be opened towards the
/// node `remote_id`, as an announced channel.
pub open spec fn channel_callback_text(offer: ChannelRequestResponse, remote_id: Seq<char>) -> Seq<
    char,
> {
    offer.callback@ + "?k1="@ + offer.k1@ + "&remoteid="@ + remote_id + "&private=0"@
}

/// The URL that asks for `bolt11` to be paid under `offer`.
pub open spec fn withdraw_callback_text(offer: WithdrawRequestResponse, bolt11: Seq<char>) -> Seq<
    char,
> {
    offer.callback@ + "?k1="@ + offer.k1@ + "&pr="@ + bolt11
}

/// The URL that answers `challenge` with a signature and its key.
pub open spec fn auth_response_text(
    challenge: AuthChallengeResponse,
    sig: Seq<char>,
    key: Seq<char>,
) -> Seq<char> {
    SERVER_URL@ + "/auth-response?k1="@ + challenge.k1@ + "&sig="@ + sig + "&key="@ + key
}

/// Writes the callback URL of a channel offer.
pub fn channel_callback_url(offer: &ChannelRequestResponse, remote_id: &str) -> (url: String)
    ensures
        url@ == channel_callback_text(*offer, remote_id@),
{
    offer.callback.clone().concat("?k1=").concat(offer.k1.as_str()).concat("&remoteid=").concat(
        remote_id,
    ).concat("&private=0")
}

/// Writes the callback URL of a withdraw offer.
pub fn withdraw_callback_url(offer: &WithdrawRequestResponse, bolt11: &str) -> (url: String)
    ensures
        url@ == withdraw_callback_text(*offer, bolt11@),
{
    offer.callback.clone().concat("?k1=").concat(offer.k1.as_str()).concat("&pr=").concat(bolt11)
}

/// Writes the URL that answers a login challenge.
pub fn auth_response_url(challenge: &AuthChallengeResponse, sig: &str, key: &str) -> (url: String)
    ensures
        url@ == auth_response_text(*challenge, sig@, key@),
{
    SERVER_URL.to_owned().concat("/auth-response?k1=").concat(challenge.k1.as_str()).concat(
        "&sig=",
    ).concat(sig).concat("&key=").concat(key)
}

} // verus!
