//! Where the media behind a content URI is to be had from a home server.

use crate::error::Error;
use crate::text::{decimal, decimal_text, same};
use crate::transport::{address_of, media_address, media_url};
use vstd::prelude::*;

verus! {

/// How many characters of `s` stand before its first `sep`: all of them
/// where it holds none.
pub open spec fn head_len(s: Seq<char>, sep: char) -> nat
    decreases s.len(),
{
    if s.len() == 0 || s[0] == sep {
        0
    } else {
        1 + head_len(s.drop_first(), sep)
    }
}

/// The home server and the media id that a content URI names: in
/// `mxc://server/media` the server is what stands before the first `/`
/// behind the scheme, and the media id all that follows it. There are none
/// where the URI has another scheme, or no server, or no media id.
pub open spec fn mxc_parts(uri: Seq<char>) -> Option<(Seq<char>, Seq<char>)> {
    let scheme = "mxc://"@;
    if uri.len() >= scheme.len() && uri.take(scheme.len() as int) == scheme {
        let rest = uri.skip(scheme.len() as int);
        let cut = head_len(rest, '/');
        if 0 < cut && cut + 1 < rest.len() {
            Some((rest.take(cut as int), rest.skip(cut as int + 1)))
        } else {
            None
        }
    } else {
        None
    }
}

/// A text without `sep` in its first `n` characters, and with `sep` or its
/// end right behind them, has a head of `n` characters.
pub proof fn lemma_head_len_is(s: Seq<char>, sep: char, n: int)
    requires
        0 <= n <= s.len(),
        forall|i: int| 0 <= i < n ==> s[i] != sep,
        n < s.len() ==> s[n] == sep,
    ensures
        head_len(s, sep) == n,
    decreases s.len(),
{
    if n == 0 {
    } else {
        let rest = s.drop_first();
        assert forall|i: int| 0 <= i < n - 1 implies rest[i] != sep by {
            assert(rest[i] == s[i + 1]);
        }
        lemma_head_len_is(rest, sep, n - 1);
    }
}

/// Takes a content URI apart into home server and media id.
pub fn parse_mxc(uri: &str) -> (r: Option<(String, String)>)
    ensures
        r.deep_view() == mxc_parts(uri@),
{
    proof {
        reveal_strlit("mxc://");
    }
    let n = uri.unicode_len();
    if n < 6 {
        return None;
    }
    if !same(uri.substring_char(0, 6), "mxc://") {
        proof {
            assert(uri@.take(6) == uri@.subrange(0, 6));
        }
        return None;
    }
    proof {
        assert(uri@.take(6) == uri@.subrange(0, 6));
    }
    let ghost rest = uri@.skip(6);
    let mut i: usize = 6;
    while i < n && uri.get_char(i) != '/'
        invariant
            n == uri@.len(),
            6 <= i <= n,
            rest == uri@.skip(6),
            forall|k: int| 0 <= k < i - 6 ==> rest[k] != '/',
        decreases n - i,
    {
        i += 1;
    }
    proof {
        if i < n {
            assert(rest[i as int - 6] == uri@[i as int]);
        }
        lemma_head_len_is(rest, '/', i as int - 6);
    }
    if i == 6 || i >= n - 1 {
        return None;
    }
    let server = String::from_str(uri.substring_char(6, i));
    let media = String::from_str(uri.substring_char(i + 1, n));
    proof {
        assert(server@ == rest.take(i as int - 6));
        assert(media@ == rest.skip(i as int - 6 + 1));
    }
    Some((server, media))
}

/// The address of the thumbnail of a content URI, scaled to fit `width` by
/// `height`, asked for with the access token `token`.
pub open spec fn thumbnail_address(
    base: Seq<char>,
    token: Seq<char>,
    uri: Seq<char>,
    width: int,
    height: int,
) -> Result<Seq<char>, Error> {
    match mxc_parts(uri) {
        None => Err(Error::BackendError),
        Some((server, media)) => media_address(
            base,
            "thumbnail/"@ + server + "/"@ + media,
            seq![
                ("width"@, decimal(width)),
                ("height"@, decimal(height)),
                ("method"@, "scale"@),
                ("access_token"@, token),
            ],
        ),
    }
}

/// The address of the media of a content URI in full, asked for with the
/// access token `token`.
pub open spec fn download_address(base: Seq<char>, token: Seq<char>, uri: Seq<char>) -> Result<
    Seq<char>,
    Error,
> {
    match mxc_parts(uri) {
        None => Err(Error::BackendError),
        Some((server, media)) => media_address(
            base,
            "download/"@ + server + "/"@ + media,
            seq![("access_token"@, token)],
        ),
    }
}

/// The address at which the home server at `base` hands out the thumbnail
/// of the content URI `uri`, scaled to fit `width` by `height`, to who asks
/// with the access token `token`.
pub fn thumbnail_url(base: &str, token: &str, uri: &str, width: u32, height: u32) -> (r: Result<
    String,
    Error,
>)
    ensures
        address_of(r) == thumbnail_address(base@, token@, uri@, width as int, height as int),
{
    let (server, media) = match parse_mxc(uri) {
        Some(parts) => parts,
        None => return Err(Error::BackendError),
    };
    let path = String::from_str("thumbnail/").concat(server.as_str()).concat("/").concat(
        media.as_str(),
    );
    let mut params: Vec<(&str, String)> = Vec::new();
    params.push(("width", decimal_text(width as i64)));
    params.push(("height", decimal_text(height as i64)));
    params.push(("method", String::from_str("scale")));
    params.push(("access_token", String::from_str(token)));
    proof {
        assert(params.deep_view() =~= seq![
            ("width"@, decimal(width as int)),
            ("height"@, decimal(height as int)),
            ("method"@, "scale"@),
            ("access_token"@, token@),
        ]);
    }
    media_url(base, path.as_str(), &params)
}

/// The address at which the home server at `base` hands out the media of
/// the content URI `uri` in full, to who asks with the access token `token`.
pub fn download_url(base: &str, token: &str, uri: &str) -> (r: Result<String, Error>)
    ensures
        address_of(r) == download_address(base@, token@, uri@),
{
    let (server, media) = match parse_mxc(uri) {
        Some(parts) => parts,
        None => return Err(Error::BackendError),
    };
    let path = String::from_str("download/").concat(server.as_str()).concat("/").concat(
        media.as_str(),
    );
    let mut params: Vec<(&str, String)> = Vec::new();
    params.push(("access_token", String::from_str(token)));
    proof {
        assert(params.deep_view() =~= seq![("access_token"@, token@)]);
    }
    media_url(base, path.as_str(), &params)
}

} // verus!
