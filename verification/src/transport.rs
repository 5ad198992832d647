//! Building the addresses of home-server endpoints with the `url` crate.
//!
//! An address is held as text: the serialization of a parsed URL. What the
//! `url` crate makes of a text is named, not spelled out, so the contracts
//! here say which texts are handed to it and in which order.

use crate::error::Error;
use vstd::prelude::*;

verus! {

/// `url::ParseError`: why the `url` crate could not parse a text. Nothing
/// is known of such a value.
#[verifier::external_type_specification]
#[verifier::external_body]
pub struct ExParseError(url::ParseError);

/// The serialization of the URL that `url::Url::parse` makes of `input`;
/// `None` where it reports an error.
pub uninterp spec fn url_parse(input: Seq<char>) -> Option<Seq<char>>;

/// The serialization of the URL that `url::Url::join` makes of `reference`
/// taken relative to the URL that `base` parses to; `None` where either step
/// reports an error.
pub uninterp spec fn url_join(base: Seq<char>, reference: Seq<char>) -> Option<Seq<char>>;

/// The serialization of the URL that `url` parses to once its query is
/// replaced by `pairs`, each appended in order in
/// `application/x-www-form-urlencoded` syntax; `None` where `url` does not
/// parse.
pub uninterp spec fn url_query(url: Seq<char>, pairs: Seq<(Seq<char>, Seq<char>)>) -> Option<
    Seq<char>,
>;

/// The text in a result of the `url` crate, an error read as `None`.
pub open spec fn parsed(r: Result<String, url::ParseError>) -> Option<Seq<char>> {
    match r {
        Ok(t) => Some(t@),
        Err(_) => None,
    }
}

/// The text in a result of this module.
pub open spec fn address_of(r: Result<String, Error>) -> Result<Seq<char>, Error> {
    match r {
        Ok(t) => Ok(t@),
        Err(e) => Err(e),
    }
}

/// How heavy the part of a text may be in which the parser of the `url`
/// crate can find a host.
///
/// The parser turns a host into ASCII, label by label, and its encoder
/// counts in 32 bits: a label of `n` characters makes it count up to
/// `0x110001 * n`, which stays within 32 bits for up to 3855 characters.
/// A label is part of the text, but not as it stands: an escaped byte is
/// decoded first, a character is mapped to up to 33 bytes of text, and
/// normalizing turns one character into at most four. So a character that
/// is not plain ASCII counts for 132, and an escape for 66, since it takes
/// two of them to make such a character. A plain ASCII character stays one
/// character.
pub const PARSE_LIMIT: usize = 3855;

/// For how many characters of a label one character of a text may stand.
pub open spec fn char_weight(c: char) -> nat {
    if c == '%' {
        66
    } else if (c as u32) < 128 {
        1
    } else {
        132
    }
}

/// Where in a text the parser is: still in the scheme, in the slashes that
/// open an authority, or in the authority itself.
#[derive(Debug, Clone, Copy, PartialEq, Eq, Structural)]
pub enum Part {
    Scheme,
    Slashes,
    Authority,
}

/// Whether the parser passes over `c` where an authority is about to
/// begin: slashes of either kind, and the tabs and line ends that it passes
/// over everywhere.
pub open spec fn opens_authority(c: char) -> bool {
    c == '/' || c == '\\' || c == '\t' || c == '\n' || c == '\r'
}

/// Whether `c` ends an authority.
pub open spec fn ends_authority(c: char) -> bool {
    c == '/' || c == '?' || c == '#'
}

/// The weight of the front of a text, read from the part `part` on: the
/// front ends where the authority ends. A host stands nowhere but in the
/// front: the parser looks for it behind the colon of the scheme and the
/// slashes that follow, and not beyond the next `/`, `?` or `#`.
pub open spec fn front_weight(text: Seq<char>, part: Part) -> nat
    decreases text.len(),
{
    if text.len() == 0 {
        0
    } else {
        let c = text[0];
        let rest = text.drop_first();
        match part {
            Part::Scheme => char_weight(c) + front_weight(
                rest,
                if c == ':' {
                    Part::Slashes
                } else {
                    Part::Scheme
                },
            ),
            Part::Slashes => if opens_authority(c) {
                char_weight(c) + front_weight(rest, Part::Slashes)
            } else if ends_authority(c) {
                0
            } else {
                char_weight(c) + front_weight(rest, Part::Authority)
            },
            Part::Authority => if ends_authority(c) {
                0
            } else {
                char_weight(c) + front_weight(rest, Part::Authority)
            },
        }
    }
}

/// Whether a text is fit to be parsed as a URL: its front is light enough.
pub open spec fn light(text: Seq<char>) -> bool {
    front_weight(text, Part::Scheme) <= PARSE_LIMIT
}

/// Whether a text is fit to be resolved against a URL: it begins with a
/// slash, and where it goes on with what may open an authority, what
/// follows is light enough. A text that begins with one slash and goes on
/// otherwise is a path, and as heavy as it likes.
pub open spec fn rooted(reference: Seq<char>) -> bool {
    &&& reference.len() > 0
    &&& reference[0] == '/'
    &&& reference.len() > 1 && opens_authority(reference[1]) ==> front_weight(
        reference,
        Part::Slashes,
    ) <= PARSE_LIMIT
}

/// `url::Url::parse`, then `Url::into_string`: the serialization of the URL
/// parsed from `input`, or the crate's error. The crate panics on a host
/// with a label that is too long for its encoder: that is ruled out by the
/// weight of the front of the text.
#[verifier::external_body]
fn parse_url(input: &str) -> (r: Result<String, url::ParseError>)
    requires
        light(input@),
    ensures
        parsed(r) == url_parse(input@),
{
    match url::Url::parse(input) {
        Ok(u) => Ok(u.into_string()),
        Err(e) => Err(e),
    }
}

/// `url::Url::join` on the URL parsed from `base`: the serialization of
/// `reference` resolved against it, or the crate's error. Both texts go
/// through the parser, so neither may hold a host that is too heavy. The
/// crate's path parser expects the text before it to end in a slash, and
/// panics where a reference that does not begin with one meets a base
/// whose path ends otherwise: the reference is to begin with a slash.
#[verifier::external_body]
fn join_url(base: &str, reference: &str) -> (r: Result<String, url::ParseError>)
    requires
        light(base@),
        rooted(reference@),
    ensures
        parsed(r) == url_join(base@, reference@),
{
    match url::Url::parse(base)?.join(reference) {
        Ok(u) => Ok(u.into_string()),
        Err(e) => Err(e),
    }
}

/// How many characters a URL may have together with the query it is given.
/// The `url` crate indexes a URL with 32 bits; a character takes at most
/// twelve bytes in a query, so a URL within this limit stays within reach.
pub const QUERY_LIMIT: usize = 0x0fff_ffff;

/// How many characters the pairs of a query take, separators included.
pub open spec fn weight(pairs: Seq<(Seq<char>, Seq<char>)>) -> nat
    decreases pairs.len(),
{
    if pairs.len() == 0 {
        0
    } else {
        weight(pairs.drop_last()) + pairs.last().0.len() + pairs.last().1.len() + 2
    }
}

/// Whether a URL and the query it is to be given are within the limit.
pub open spec fn fits(url: Seq<char>, pairs: Seq<(Seq<char>, Seq<char>)>) -> bool {
    url.len() + weight(pairs) <= QUERY_LIMIT
}

/// `url::Url::query_pairs_mut` on the URL parsed from `url`, with `clear`
/// and `extend_pairs` on what it returns: the serialization of the URL with
/// `pairs` as its whole query, or the crate's error where `url` does not
/// parse. The crate panics when a URL outgrows what 32 bits can index:
/// that is ruled out by the limit. The URL goes through the parser, so it
/// is to be light.
#[verifier::external_body]
fn query_url(url: &str, pairs: &Vec<(&str, String)>) -> (r: Result<String, url::ParseError>)
    requires
        light(url@),
        fits(url@, pairs.deep_view()),
    ensures
        parsed(r) == url_query(url@, pairs.deep_view()),
{
    let mut u = url::Url::parse(url)?;
    u.query_pairs_mut().clear().extend_pairs(pairs.iter());
    Ok(u.into_string())
}

/// The path under which the client API of a home server lives.
pub open spec fn client_prefix() -> Seq<char> {
    "/_matrix/client/r0/"@
}

/// The path under which the media API of a home server lives.
pub open spec fn media_prefix() -> Seq<char> {
    "/_matrix/media/r0/"@
}

/// The address of the home server that `server` names. There is none
/// where the name is too heavy for the parser.
pub open spec fn base_of(server: Seq<char>) -> Result<Seq<char>, Error> {
    if light(server) {
        match url_parse(server) {
            Some(u) => Ok(u),
            None => Err(Error::BackendError),
        }
    } else {
        Err(Error::BackendError)
    }
}

/// The address of `path` on the server at `base`, with `params` as its
/// query. The path is to begin with a slash. There is no address where it
/// does not, where a text holds a host too heavy for the parser, or where
/// address and query together are over the limit.
pub open spec fn address(
    base: Seq<char>,
    path: Seq<char>,
    params: Seq<(Seq<char>, Seq<char>)>,
) -> Result<Seq<char>, Error> {
    if light(base) && rooted(path) {
        match url_join(base, path) {
            Some(u) => if light(u) && fits(u, params) {
                match url_query(u, params) {
                    Some(q) => Ok(q),
                    None => Err(Error::BackendError),
                }
            } else {
                Err(Error::BackendError)
            },
            None => Err(Error::BackendError),
        }
    } else {
        Err(Error::BackendError)
    }
}

/// The address of the client API's `path` on the server at `base`.
pub open spec fn client_address(
    base: Seq<char>,
    path: Seq<char>,
    params: Seq<(Seq<char>, Seq<char>)>,
) -> Result<Seq<char>, Error> {
    address(base, client_prefix() + path, params)
}

/// The address of the media API's `path` on the server at `base`.
pub open spec fn media_address(
    base: Seq<char>,
    path: Seq<char>,
    params: Seq<(Seq<char>, Seq<char>)>,
) -> Result<Seq<char>, Error> {
    address(base, media_prefix() + path, params)
}

/// For how many characters of a label `c` may stand.
fn weigh(c: char) -> (w: usize)
    ensures
        w == char_weight(c),
{
    if c == '%' {
        66
    } else if (c as u32) < 128 {
        1
    } else {
        132
    }
}

/// Whether the front of a text, read from the part `start` on, is light
/// enough.
fn front_fits(text: &str, start: Part) -> (r: bool)
    ensures
        r == (front_weight(text@, start) <= PARSE_LIMIT),
{
    let n = text.unicode_len();
    let mut total: usize = 0;
    let mut part = start;
    let mut i: usize = 0;
    proof {
        assert(text@.skip(0) == text@);
    }
    while i < n
        invariant
            n == text@.len(),
            i <= n,
            total <= PARSE_LIMIT,
            front_weight(text@, start) == total + front_weight(text@.skip(i as int), part),
        decreases n - i,
    {
        let c = text.get_char(i);
        proof {
            assert(text@.skip(i as int)[0] == c);
            assert(text@.skip(i as int).drop_first() == text@.skip(i as int + 1));
        }
        let opens = c == '/' || c == '\\' || c == '\t' || c == '\n' || c == '\r';
        let ends = c == '/' || c == '?' || c == '#';
        let next = match part {
            Part::Scheme => if c == ':' {
                Part::Slashes
            } else {
                Part::Scheme
            },
            Part::Slashes => if opens {
                Part::Slashes
            } else if ends {
                return true;
            } else {
                Part::Authority
            },
            Part::Authority => if ends {
                return true;
            } else {
                Part::Authority
            },
        };
        total = total + weigh(c);
        if total > PARSE_LIMIT {
            return false;
        }
        part = next;
        i += 1;
    }
    true
}

/// Whether a text is fit to be parsed as a URL.
pub fn is_light(text: &str) -> (r: bool)
    ensures
        r == light(text@),
{
    front_fits(text, Part::Scheme)
}

/// Whether a text is fit to be resolved against a URL.
pub fn is_rooted(reference: &str) -> (r: bool)
    ensures
        r == rooted(reference@),
{
    let n = reference.unicode_len();
    if n == 0 || reference.get_char(0) != '/' {
        return false;
    }
    if n == 1 {
        return true;
    }
    let c = reference.get_char(1);
    if c == '/' || c == '\\' || c == '\t' || c == '\n' || c == '\r' {
        front_fits(reference, Part::Slashes)
    } else {
        true
    }
}

/// Parses the name of a home server into its address.
pub fn base_url(server: &str) -> (r: Result<String, Error>)
    ensures
        address_of(r) == base_of(server@),
{
    if !is_light(server) {
        return Err(Error::BackendError);
    }
    match parse_url(server) {
        Ok(u) => Ok(u),
        Err(_) => Err(Error::BackendError),
    }
}

/// The weight of a longer query is no less than that of a shorter one that
/// it begins with.
proof fn lemma_weight_grows(pairs: Seq<(Seq<char>, Seq<char>)>, i: int)
    requires
        0 <= i <= pairs.len(),
    ensures
        weight(pairs.take(i)) <= weight(pairs),
    decreases pairs.len() - i,
{
    if i == pairs.len() {
        assert(pairs.take(i) == pairs);
    } else {
        assert(pairs.take(i + 1).drop_last() == pairs.take(i));
        lemma_weight_grows(pairs, i + 1);
    }
}

/// Whether a URL and the query it is to be given are within the limit.
fn within_limit(url: &str, pairs: &Vec<(&str, String)>) -> (r: bool)
    ensures
        r == fits(url@, pairs.deep_view()),
{
    let ghost all = pairs.deep_view();
    let mut total: usize = url.unicode_len();
    if total > QUERY_LIMIT {
        return false;
    }
    let mut i: usize = 0;
    proof {
        assert(all.take(0) == Seq::<(Seq<char>, Seq<char>)>::empty());
    }
    while i < pairs.len()
        invariant
            i <= pairs.len(),
            all == pairs.deep_view(),
            total == url@.len() + weight(all.take(i as int)),
            total <= QUERY_LIMIT,
        decreases pairs.len() - i,
    {
        let k = pairs[i].0.unicode_len();
        let v = pairs[i].1.as_str().unicode_len();
        proof {
            assert(all.take(i as int + 1).drop_last() == all.take(i as int));
            assert(all.take(i as int + 1).last() == (pairs@[i as int].0@, pairs@[i as int].1@));
            lemma_weight_grows(all, i as int + 1);
        }
        if k > QUERY_LIMIT || v > QUERY_LIMIT {
            return false;
        }
        total = total + k + v + 2;
        if total > QUERY_LIMIT {
            return false;
        }
        i += 1;
    }
    proof {
        assert(all.take(pairs.len() as int) == all);
    }
    true
}

/// Resolves `path`, which is to begin with a slash, against the address
/// `base` and gives the result the query `params`, dropping any query that
/// `path` brought.
pub fn build_url(base: &str, path: &str, params: &Vec<(&str, String)>) -> (r: Result<
    String,
    Error,
>)
    ensures
        address_of(r) == address(base@, path@, params.deep_view()),
{
    if !is_light(base) || !is_rooted(path) {
        return Err(Error::BackendError);
    }
    match join_url(base, path) {
        Ok(u) => {
            if !is_light(u.as_str()) || !within_limit(u.as_str(), params) {
                return Err(Error::BackendError);
            }
            match query_url(u.as_str(), params) {
                Ok(q) => Ok(q),
                Err(_) => Err(Error::BackendError),
            }
        },
        Err(_) => Err(Error::BackendError),
    }
}

/// The address of the client API's `path` on the server at `base`.
pub fn client_url(base: &str, path: &str, params: &Vec<(&str, String)>) -> (r: Result<
    String,
    Error,
>)
    ensures
        address_of(r) == client_address(base@, path@, params.deep_view()),
{
    let full = String::from_str("/_matrix/client/r0/").concat(path);
    build_url(base, full.as_str(), params)
}

/// The address of the media API's `path` on the server at `base`.
pub fn media_url(base: &str, path: &str, params: &Vec<(&str, String)>) -> (r: Result<
    String,
    Error,
>)
    ensures
        address_of(r) == media_address(base@, path@, params.deep_view()),
{
    let full = String::from_str("/_matrix/media/r0/").concat(path);
    build_url(base, full.as_str(), params)
}

} // verus!
