//! Session credentials: the cookie header sent to the vendor, the cookie
//! string built from a browser session, and the signature of each API call.

use crate::text::{has_prefix, prefix_until, text_until};
use vstd::prelude::*;

verus! {

/// The MD5 digest of the UTF-8 bytes of a text, as 32 lowercase hex digits.
pub uninterp spec fn md5_hex_of(s: Seq<char>) -> Seq<char>;

/// Relies on `md5::compute` over the UTF-8 bytes of `s`, whose `Debug`
/// form writes each of the 16 digest bytes as two lowercase hex digits.
#[verifier::external_body]
pub(crate) fn md5_hex(s: &str) -> (r: String)
    ensures
        r@ == md5_hex_of(s@),
        r@.len() == 32,
{
    format!("{:?}", md5::compute(s))
}

/// The text that an API call signs: token, timestamp, app key and the
/// serialised request data, joined by `&`.
pub open spec fn sign_text(token: Seq<char>, t: Seq<char>, app_key: Seq<char>, data: Seq<char>) -> Seq<
    char,
> {
    token + "&"@ + t + "&"@ + app_key + "&"@ + data
}

/// Builds the text that an API call signs.
pub fn sign_source(token: &str, t: &str, app_key: &str, data: &str) -> (r: String)
    ensures
        r@ == sign_text(token@, t@, app_key@, data@),
{
    let mut s = String::from_str(token);
    s.append("&");
    s.append(t);
    s.append("&");
    s.append(app_key);
    s.append("&");
    s.append(data);
    s
}

/// The `sign` parameter of an API call: the MD5 hex digest of its signed
/// text.
pub fn request_sign(token: &str, t: &str, app_key: &str, data: &str) -> (r: String)
    ensures
        r@ == md5_hex_of(sign_text(token@, t@, app_key@, data@)),
        r@.len() == 32,
{
    let source = sign_source(token, t, app_key, data);
    md5_hex(source.as_str())
}

/// The cookie header of the API client: the account's cookie followed by
/// the two session token cookies.
pub open spec fn cookie_header_text(cookie: Seq<char>, enc_token: Seq<char>, token_with_time: Seq<
    char,
>) -> Seq<char> {
    cookie + ";_m_h5_tk_enc="@ + enc_token + ";_m_h5_tk="@ + token_with_time + ";"@
}

/// Builds the cookie header of the API client.
pub fn cookie_header(cookie: &str, enc_token: &str, token_with_time: &str) -> (r: String)
    ensures
        r@ == cookie_header_text(cookie@, enc_token@, token_with_time@),
{
    let mut s = String::from_str(cookie);
    s.append(";_m_h5_tk_enc=");
    s.append(enc_token);
    s.append(";_m_h5_tk=");
    s.append(token_with_time);
    s.append(";");
    s
}

/// The prefix shared by the names of the session token cookies, which the
/// client derives itself and so drops from a stored cookie.
pub open spec fn token_cookie_prefix() -> Seq<char> {
    "_m_h5_tk"@
}

/// The cookie string of a browser session: `name=value;` for each cookie in
/// order, leaving out the session token cookies.
pub open spec fn session_cookie_text(cookies: Seq<(String, String)>) -> Seq<char>
    decreases cookies.len(),
{
    if cookies.len() == 0 {
        Seq::empty()
    } else {
        let rest = session_cookie_text(cookies.drop_last());
        let (name, value) = cookies.last();
        if token_cookie_prefix().is_prefix_of(name@) {
            rest
        } else {
            rest + name@ + "="@ + value@ + ";"@
        }
    }
}

/// Builds the cookie string of a browser session from its (name, value)
/// pairs.
pub fn session_cookie_string(cookies: &Vec<(String, String)>) -> (r: String)
    ensures
        r@ == session_cookie_text(cookies@),
{
    let mut s = String::new();
    let mut i: usize = 0;
    while i < cookies.len()
        invariant
            i <= cookies@.len(),
            s@ == session_cookie_text(cookies@.subrange(0, i as int)),
        decreases cookies@.len() - i,
    {
        let ghost upto = cookies@.subrange(0, i + 1);
        assert(upto.drop_last() =~= cookies@.subrange(0, i as int));
        assert(upto.last() == cookies@[i as int]);
        let name = &cookies[i].0;
        let value = &cookies[i].1;
        if !has_prefix(name.as_str(), "_m_h5_tk") {
            s.append(name.as_str());
            s.append("=");
            s.append(value.as_str());
            s.append(";");
        }
        i = i + 1;
    }
    assert(cookies@.subrange(0, cookies@.len() as int) =~= cookies@);
    s
}

/// The cookies of a login response: `cookie2=<value>;` followed by the
/// cookie part of the value of each `set-cookie` header (up to its first
/// space), in order.
pub open spec fn login_cookie_text(cookie2: Seq<char>, headers: Seq<(String, String)>) -> Seq<char>
    decreases headers.len(),
{
    if headers.len() == 0 {
        "cookie2="@ + cookie2 + ";"@
    } else {
        let rest = login_cookie_text(cookie2, headers.drop_last());
        let (name, value) = headers.last();
        if "set-cookie"@.is_prefix_of(name@) {
            rest + prefix_until(value@, ' ')
        } else {
            rest
        }
    }
}

/// Builds the cookie string of a confirmed QR-code login from its
/// `cookie2` value and the (name, value) headers of the account page.
pub fn login_cookie_string(cookie2: &str, headers: &Vec<(String, String)>) -> (r: String)
    ensures
        r@ == login_cookie_text(cookie2@, headers@),
{
    let mut s = String::from_str("cookie2=");
    s.append(cookie2);
    s.append(";");
    let mut i: usize = 0;
    while i < headers.len()
        invariant
            i <= headers@.len(),
            s@ == login_cookie_text(cookie2@, headers@.subrange(0, i as int)),
        decreases headers@.len() - i,
    {
        let ghost upto = headers@.subrange(0, i + 1);
        assert(upto.drop_last() =~= headers@.subrange(0, i as int));
        assert(upto.last() == headers@[i as int]);
        if has_prefix(headers[i].0.as_str(), "set-cookie") {
            let part = text_until(headers[i].1.as_str(), ' ');
            s.append(part.as_str());
        }
        i = i + 1;
    }
    assert(headers@.subrange(0, headers@.len() as int) =~= headers@);
    s
}

pub open spec fn is_blank(c: char) -> bool {
    c == ' ' || c == '\n'
}

/// A text without its spaces and line breaks.
pub open spec fn strip_blanks(s: Seq<char>) -> Seq<char>
    decreases s.len(),
{
    if s.len() == 0 {
        s
    } else if is_blank(s.last()) {
        strip_blanks(s.drop_last())
    } else {
        strip_blanks(s.drop_last()).push(s.last())
    }
}

/// The `;`-separated parts of a text, as `str::split(';')` yields them:
/// never none, an empty part where two separators meet or at either end.
pub open spec fn split_semi(s: Seq<char>) -> Seq<Seq<char>>
    decreases s.len(),
{
    if s.len() == 0 {
        seq![Seq::empty()]
    } else {
        let parts = split_semi(s.drop_last());
        if s.last() == ';' {
            parts.push(Seq::empty())
        } else {
            parts.update(parts.len() - 1, parts.last().push(s.last()))
        }
    }
}

/// The parts that are no session token cookie.
pub open spec fn kept_parts(parts: Seq<Seq<char>>) -> Seq<Seq<char>>
    decreases parts.len(),
{
    if parts.len() == 0 {
        parts
    } else if token_cookie_prefix().is_prefix_of(parts.last()) {
        kept_parts(parts.drop_last())
    } else {
        kept_parts(parts.drop_last()).push(parts.last())
    }
}

/// Parts joined with `;` between them.
pub open spec fn join_semi(parts: Seq<Seq<char>>) -> Seq<char>
    decreases parts.len(),
{
    if parts.len() == 0 {
        Seq::empty()
    } else if parts.len() == 1 {
        parts[0]
    } else {
        join_semi(parts.drop_last()) + ";"@ + parts.last()
    }
}

/// A stored cookie made fit for the API client: spaces and line breaks
/// removed, and the session token cookies (which the client derives anew)
/// dropped from its `;`-separated parts.
pub open spec fn clean_cookie_text(raw: Seq<char>) -> Seq<char> {
    join_semi(kept_parts(split_semi(strip_blanks(raw))))
}

proof fn lemma_split_nonempty(s: Seq<char>)
    ensures
        split_semi(s).len() >= 1,
    decreases s.len(),
{
    if s.len() > 0 {
        lemma_split_nonempty(s.drop_last());
    }
}

proof fn lemma_join_push(k: Seq<Seq<char>>, x: Seq<char>)
    ensures
        join_semi(k.push(x)) == if k.len() == 0 {
            x
        } else {
            join_semi(k) + ";"@ + x
        },
{
    assert(k.push(x).drop_last() =~= k);
    if k.len() == 0 {
        assert(k.push(x)[0] == x);
    }
}

/// Cleans a stored cookie for the API client.
pub fn clean_cookie(raw: &str) -> (r: String)
    ensures
        r@ == clean_cookie_text(raw@),
{
    proof {
        reveal_strlit(";");
    }
    let n = raw.unicode_len();
    let mut out = String::new();
    let mut any = false;
    let mut cur = String::new();
    let mut i: usize = 0;
    proof {
        assert(raw@.subrange(0, 0) =~= Seq::<char>::empty());
    }
    while i < n
        invariant
            i <= n,
            n == raw@.len(),
            split_semi(strip_blanks(raw@.subrange(0, i as int))).len() >= 1,
            cur@ == split_semi(strip_blanks(raw@.subrange(0, i as int))).last(),
            out@ == join_semi(kept_parts(split_semi(strip_blanks(raw@.subrange(0, i as int))).drop_last())),
            any == (kept_parts(split_semi(strip_blanks(raw@.subrange(0, i as int))).drop_last()).len() > 0),
        decreases n - i,
    {
        let ghost pre = raw@.subrange(0, i as int);
        let ghost post = raw@.subrange(0, i + 1);
        let ghost parts = split_semi(strip_blanks(pre));
        assert(post.drop_last() =~= pre);
        let c = raw.get_char(i);
        assert(post.last() == c);
        if c == ' ' || c == '\n' {
            assert(strip_blanks(post) == strip_blanks(pre));
        } else if c == ';' {
            proof {
                assert(strip_blanks(post).drop_last() =~= strip_blanks(pre));
                let np = parts.push(Seq::empty());
                assert(split_semi(strip_blanks(post)) == np);
                assert(np.drop_last() =~= parts);
                assert(np.last() == Seq::<char>::empty());
                assert(parts =~= parts.drop_last().push(parts.last()));
            }
            proof {
                lemma_join_push(kept_parts(parts.drop_last()), parts.last());
            }
            if !has_prefix(cur.as_str(), "_m_h5_tk") {
                if any {
                    out.append(";");
                }
                out.append(cur.as_str());
                any = true;
            }
            cur = String::new();
        } else {
            proof {
                assert(strip_blanks(post).drop_last() =~= strip_blanks(pre));
                lemma_split_nonempty(strip_blanks(pre));
                let np = parts.update(parts.len() - 1, parts.last().push(c));
                assert(split_semi(strip_blanks(post)) == np);
                assert(np.drop_last() =~= parts.drop_last());
            }
            let one = raw.substring_char(i, i + 1);
            assert(one@ =~= seq![c]);
            cur.append(one);
            assert(cur@ =~= parts.last().push(c));
        }
        i = i + 1;
    }
    assert(raw@.subrange(0, n as int) =~= raw@);
    let ghost parts = split_semi(strip_blanks(raw@));
    assert(parts =~= parts.drop_last().push(parts.last()));
    proof {
        lemma_join_push(kept_parts(parts.drop_last()), parts.last());
    }
    if !has_prefix(cur.as_str(), "_m_h5_tk") {
        if any {
            out.append(";");
        }
        out.append(cur.as_str());
    }
    out
}

} // verus!
