//! Handling of `stremio://` links and of the web UI URL the tray opens.
//!
//! A `stremio://` link is turned into its `https://` counterpart and
//! wrapped into the web UI's add-on installation URL; the caller then
//! opens the returned URL in a browser (launching a browser is an
//! operating-system call and stays outside this crate).

use vstd::prelude::*;
use vstd::string::StrSliceExecFns;
use vstd::string::StringExecFns;
use crate::text::{push_char, str_starts_with};

verus! {

/// The web UI every link opens into.
pub fn stremio_url() -> (r: &'static str)
    ensures
        r@ == "https://web.stremio.com"@,
{
    "https://web.stremio.com"
}

/// A character the encoding keeps as it stands: ASCII alphanumerics and
/// `-`, `.`, `_`, `~`.
pub open spec fn spec_unreserved(c: char) -> bool {
    let v = c as u32;
    (48 <= v <= 57) || (65 <= v <= 90) || (97 <= v <= 122) || c == '-' || c == '.' || c == '_'
        || c == '~'
}

/// The uppercase hexadecimal digit for a value below sixteen.
pub open spec fn spec_hex_upper(v: int) -> char {
    if v < 10 {
        ((48 + v) as u32) as char
    } else {
        ((55 + v) as u32) as char
    }
}

/// One byte, percent-encoded.
pub open spec fn spec_encode_byte(b: u8) -> Seq<char> {
    seq!['%', spec_hex_upper(b as int / 16), spec_hex_upper(b as int % 16)]
}

/// A run of bytes, percent-encoded one by one.
pub open spec fn spec_encode_bytes(bs: Seq<u8>) -> Seq<char>
    decreases bs.len(),
{
    if bs.len() == 0 {
        Seq::empty()
    } else {
        spec_encode_byte(bs[0]) + spec_encode_bytes(bs.drop_first())
    }
}

/// One character of the input: kept when unreserved, otherwise every byte
/// of its UTF-8 encoding is percent-encoded.
pub open spec fn spec_encode_char(c: char) -> Seq<char> {
    if spec_unreserved(c) {
        seq![c]
    } else {
        spec_encode_bytes(vstd::utf8::encode_scalar(c as u32))
    }
}

/// The percent-encoding of a whole string.
pub open spec fn spec_percent_encode(s: Seq<char>) -> Seq<char>
    decreases s.len(),
{
    if s.len() == 0 {
        Seq::empty()
    } else {
        spec_encode_char(s[0]) + spec_percent_encode(s.drop_first())
    }
}

/// Relies on `urlencoding::encode`: every byte of the UTF-8 input other
/// than ASCII alphanumerics and `-`, `.`, `_`, `~` is written as `%` and
/// two uppercase hexadecimal digits; the result depends on the input
/// alone.
#[verifier::external_body]
fn encode_component(s: &str) -> (r: String)
    ensures
        r@ == spec_percent_encode(s@),
{
    urlencoding::encode(s).into_owned()
}

/// The URL the tray's "open the web UI" action uses: plain, or carrying
/// an add-on manifest URL to install.
pub open spec fn spec_web_url(addon_manifest_url: Option<Seq<char>>) -> Seq<char> {
    match addon_manifest_url {
        None => "https://web.stremio.com"@,
        Some(u) => "https://web.stremio.com"@ + "/#/addons?addon="@ + spec_percent_encode(u),
    }
}

/// Builds the web UI URL, optionally deep-linking to an add-on
/// installation page with the manifest URL percent-encoded into the
/// query.  The caller opens the result in a browser.
pub fn stremio_web_url(addon_manifest_url: Option<&str>) -> (r: String)
    ensures
        r@ == spec_web_url(match addon_manifest_url {
            Some(u) => Some(u@),
            None => None,
        }),
{
    let mut out = String::from_str(stremio_url());
    match addon_manifest_url {
        None => out,
        Some(u) => {
            out.append("/#/addons?addon=");
            let encoded = encode_component(u);
            out.append(encoded.as_str());
            out
        },
    }
}

/// Every occurrence of the custom scheme prefix replaced by `https://`.
/// The last conjunct of the first guard only keeps the recursion
/// well-founded; the prefix is a fixed non-empty literal.
pub open spec fn spec_scheme_rewrite(s: Seq<char>) -> Seq<char>
    decreases s.len(),
{
    if s.len() >= "stremio://"@.len() && s.subrange(0, "stremio://"@.len() as int)
        == "stremio://"@ && "stremio://"@.len() > 0 {
        "https://"@ + spec_scheme_rewrite(s.skip("stremio://"@.len() as int))
    } else if s.len() == 0 {
        Seq::empty()
    } else {
        seq![s[0]] + spec_scheme_rewrite(s.drop_first())
    }
}

/// Replaces every occurrence of `stremio://` with `https://`.
fn rewrite_stremio_scheme(s: &str) -> (r: String)
    ensures
        r@ == spec_scheme_rewrite(s@),
{
    let n = s.unicode_len();
    let prefix = "stremio://";
    let p = prefix.unicode_len();
    proof {
        reveal_strlit("stremio://");
    }
    let mut out = String::new();
    let mut cur: usize = 0;
    proof {
        assert(s@.subrange(0, n as int) =~= s@);
        assert(Seq::<char>::empty() + spec_scheme_rewrite(s@) =~= spec_scheme_rewrite(s@));
    }
    while cur < n
        invariant
            n == s@.len(),
            prefix@ == "stremio://"@,
            p == "stremio://"@.len(),
            p > 0,
            cur <= n,
            spec_scheme_rewrite(s@) == out@ + spec_scheme_rewrite(
                s@.subrange(cur as int, n as int),
            ),
        decreases n - cur,
    {
        let ghost suffix = s@.subrange(cur as int, n as int);
        let ghost out0 = out@;
        if n - cur >= p && str_eq_at(s, cur, prefix) {
            proof {
                assert(suffix.subrange(0, p as int) =~= s@.subrange(cur as int, cur as int
                    + p as int));
                assert(suffix.skip(p as int) =~= s@.subrange(cur as int + p as int, n as int));
            }
            out.append("https://");
            cur += p;
            proof {
                assert(suffix.len() >= "stremio://"@.len());
                assert(suffix.subrange(0, "stremio://"@.len() as int) == "stremio://"@);
                assert(spec_scheme_rewrite(suffix) == "https://"@ + spec_scheme_rewrite(
                    suffix.skip(p as int),
                ));
                assert((out0 + "https://"@) + spec_scheme_rewrite(suffix.skip(p as int))
                    =~= out0 + ("https://"@ + spec_scheme_rewrite(suffix.skip(p as int))));
            }
        } else {
            proof {
                assert(suffix.len() > 0);
                if suffix.len() >= p && suffix.subrange(0, p as int) == "stremio://"@ {
                    assert(s@.subrange(cur as int, cur as int + p as int) =~= suffix.subrange(
                        0,
                        p as int,
                    ));
                }
                assert(suffix.drop_first() =~= s@.subrange(cur as int + 1, n as int));
            }
            let c = s.get_char(cur);
            push_char(&mut out, c);
            cur += 1;
            proof {
                assert(spec_scheme_rewrite(suffix) == seq![suffix[0]] + spec_scheme_rewrite(
                    suffix.drop_first(),
                ));
                assert(suffix[0] == c);
                assert(out0.push(c) =~= out0 + seq![c]);
                assert((out0 + seq![c]) + spec_scheme_rewrite(suffix.drop_first()) =~= out0 + (
                seq![c] + spec_scheme_rewrite(suffix.drop_first())));
            }
        }
    }
    proof {
        assert(s@.subrange(n as int, n as int) =~= Seq::<char>::empty());
    }
    out
}

/// Does `needle` stand in `s` at position `pos`?
fn str_eq_at(s: &str, pos: usize, needle: &str) -> (r: bool)
    requires
        pos <= s@.len(),
    ensures
        r == (pos + needle@.len() <= s@.len() && s@.subrange(
            pos as int,
            pos as int + needle@.len() as int,
        ) == needle@),
{
    let n = s.unicode_len();
    let p = needle.unicode_len();
    if n - pos < p {
        return false;
    }
    let mut i: usize = 0;
    while i < p
        invariant
            n == s@.len(),
            p == needle@.len(),
            pos + p <= n,
            i <= p,
            forall|j: int| 0 <= j < i ==> s@[pos + j] == needle@[j],
        decreases p - i,
    {
        if s.get_char(pos + i) != needle.get_char(i) {
            proof {
                assert(s@.subrange(pos as int, pos as int + p as int)[i as int] == s@[pos as int
                    + i]);
            }
            return false;
        }
        i += 1;
    }
    proof {
        assert(s@.subrange(pos as int, pos as int + p as int) =~= needle@);
    }
    true
}

/// Handles a `stremio://` link: the custom scheme is replaced with
/// `https://` and the result is wrapped into the web UI's add-on
/// installation URL, which is returned for the caller to open in a
/// browser.  Any other string is not a `stremio://` link and yields
/// nothing.
pub fn handle_stremio_protocol(open_url: &str) -> (r: Option<String>)
    ensures
        (open_url@.len() >= "stremio://"@.len() && open_url@.subrange(
            0,
            "stremio://"@.len() as int,
        ) == "stremio://"@) ==> (r matches Some(u) && u@ == spec_web_url(
            Some(spec_scheme_rewrite(open_url@)),
        )),
        !(open_url@.len() >= "stremio://"@.len() && open_url@.subrange(
            0,
            "stremio://"@.len() as int,
        ) == "stremio://"@) ==> r is None,
{
    if str_starts_with(open_url, "stremio://") {
        let url = rewrite_stremio_scheme(open_url);
        Some(stremio_web_url(Some(url.as_str())))
    } else {
        None
    }
}

} // verus!
