//! Vetting of repository location text.
//!
//! The URL parser behind [`crate::GitRepoWatchHandler::new`] indexes fixed
//! path positions for the organization-in-path hosts (`dev.azure.com`,
//! `ssh.dev.azure.com`) and slices one byte off `ssh` paths, so it panics on
//! short forms of those URLs instead of returning an error. The library
//! therefore vets the location text first and rejects eagerly — as a
//! configuration error — everything that could reach those spots: any text
//! with characters outside visible ASCII (the parser strips whitespace and
//! decodes escapes, so such text can smuggle a host form past a plain scan),
//! percent escapes, query or fragment marks, any text carrying the
//! organization-host marker, and scheme-only `ssh:` forms. The vetted set is
//! deliberately conservative: it keeps every ordinary repository URL and
//! trades the exotic rest for the guarantee that the parser is never asked
//! anything it answers with a panic.

use vstd::prelude::*;

verus! {

/// A plain location character: visible ASCII that the URL parser passes
/// through unchanged — no whitespace or controls (stripped before parsing),
/// no percent escape, query or fragment marks, nothing outside ASCII.
pub open spec fn plain_url_char(c: char) -> bool {
    &&& 0x21 <= c as int
    &&& c as int <= 0x7e
    &&& c != '%'
    &&& c != '?'
    &&& c != '#'
}

/// `a` equals `b` up to ASCII case, for a lowercase-or-symbol pattern
/// character `b`.
pub open spec fn char_eq_ci(a: char, b: char) -> bool {
    a == b || (97 <= b as int && b as int <= 122 && a as int == b as int - 32)
}

/// The pattern occurs in `u` at position `i`, up to ASCII case.
pub open spec fn matches_ci_at(u: Seq<char>, pat: Seq<char>, i: int) -> bool {
    &&& 0 <= i
    &&& i + pat.len() <= u.len()
    &&& forall|j: int| 0 <= j < pat.len() ==> char_eq_ci(u[i + j], #[trigger] pat[j])
}

/// The marker of the organization-in-path hosts the URL parser mishandles;
/// `ssh.dev.azure.com` carries it as a suffix.
pub open spec fn org_host_marker() -> Seq<char> {
    "dev.azure.com"@
}

/// Whether the organization-host marker occurs anywhere in `u`.
pub open spec fn has_org_host_marker(u: Seq<char>) -> bool {
    exists|i: int| matches_ci_at(u, org_host_marker(), i)
}

/// A scheme-only ssh form: the text begins with `ssh:` (up to case) but not
/// with `ssh://`. The parser strips one leading byte off such a path and can
/// then index an empty segment list.
pub open spec fn bare_ssh_form(u: Seq<char>) -> bool {
    &&& matches_ci_at(u, "ssh:"@, 0)
    &&& !(u.len() >= 6 && u[4] == '/' && u[5] == '/')
}

/// Location text the URL parser handles without reaching its panics.
pub open spec fn url_vetted(u: Seq<char>) -> bool {
    &&& forall|i: int| 0 <= i < u.len() ==> plain_url_char(#[trigger] u[i])
    &&& !has_org_host_marker(u)
    &&& !bare_ssh_form(u)
}

/// Whether `a` equals `b` up to ASCII case.
fn char_matches_ci(a: char, b: char) -> (r: bool)
    ensures
        r == char_eq_ci(a, b),
{
    a == b || ('a' <= b && b <= 'z' && a as u32 == b as u32 - 32)
}

/// Whether [`url_vetted`] holds of `url`.
pub fn url_is_vetted(url: &str) -> (b: bool)
    ensures
        b == url_vetted(url@),
{
    proof {
        reveal_strlit("dev.azure.com");
        reveal_strlit("ssh:");
    }
    let n = url.unicode_len();

    // every character must be plain
    let mut i: usize = 0;
    while i < n
        invariant
            n == url@.len(),
            i <= n,
            forall|k: int| 0 <= k < i ==> plain_url_char(#[trigger] url@[k]),
        decreases n - i,
    {
        let c = url.get_char(i);
        let v = c as u32;
        if v < 0x21 || v > 0x7e || c == '%' || c == '?' || c == '#' {
            proof {
                assert(!plain_url_char(url@[i as int]));
            }
            return false;
        }
        i += 1;
    }

    // the organization-host marker must not occur anywhere
    let marker = "dev.azure.com";
    let mlen = marker.unicode_len();
    if n >= mlen {
        let mut s: usize = 0;
        while s <= n - mlen
            invariant
                n == url@.len(),
                mlen == org_host_marker().len(),
                marker@ == org_host_marker(),
                mlen <= n,
                s <= n - mlen + 1,
                forall|k: int| 0 <= k < n ==> plain_url_char(#[trigger] url@[k]),
                forall|p: int| 0 <= p < s ==> !matches_ci_at(url@, org_host_marker(), p),
            decreases n - s,
        {
            let mut j: usize = 0;
            let mut matched: bool = true;
            while j < mlen
                invariant
                    n == url@.len(),
                    mlen == org_host_marker().len(),
                    marker@ == org_host_marker(),
                    s + mlen <= n,
                    j <= mlen,
                    matched ==> (forall|k: int|
                        0 <= k < j ==> char_eq_ci(
                            url@[s + k],
                            #[trigger] org_host_marker()[k],
                        )),
                    !matched ==> !matches_ci_at(url@, org_host_marker(), s as int),
                decreases mlen - j,
            {
                if !char_matches_ci(url.get_char(s + j), marker.get_char(j)) {
                    proof {
                        if matched {
                            assert(!char_eq_ci(url@[s + j], org_host_marker()[j as int]));
                        }
                    }
                    matched = false;
                }
                j += 1;
            }
            if matched {
                proof {
                    assert(matches_ci_at(url@, org_host_marker(), s as int));
                }
                return false;
            }
            s += 1;
        }
        proof {
            assert forall|p: int| !matches_ci_at(url@, org_host_marker(), p) by {
                if 0 <= p && p + org_host_marker().len() <= url@.len() {
                    assert(p < n - mlen + 1);
                }
            }
        }
    } else {
        proof {
            assert forall|p: int| !matches_ci_at(url@, org_host_marker(), p) by {}
        }
    }

    // no scheme-only ssh form
    if n >= 4 {
        let s0 = char_matches_ci(url.get_char(0), 's');
        let s1 = char_matches_ci(url.get_char(1), 's');
        let s2 = char_matches_ci(url.get_char(2), 'h');
        let s3 = char_matches_ci(url.get_char(3), ':');
        if s0 && s1 && s2 && s3 {
            proof {
                assert(char_eq_ci(url@[0], "ssh:"@[0]));
                assert(char_eq_ci(url@[1], "ssh:"@[1]));
                assert(char_eq_ci(url@[2], "ssh:"@[2]));
                assert(char_eq_ci(url@[3], "ssh:"@[3]));
                assert(matches_ci_at(url@, "ssh:"@, 0));
            }
            if n < 6 {
                return false;
            }
            if !(url.get_char(4) == '/' && url.get_char(5) == '/') {
                return false;
            }
        } else {
            proof {
                if matches_ci_at(url@, "ssh:"@, 0) {
                    assert(char_eq_ci(url@[0], "ssh:"@[0]));
                    assert(char_eq_ci(url@[1], "ssh:"@[1]));
                    assert(char_eq_ci(url@[2], "ssh:"@[2]));
                    assert(char_eq_ci(url@[3], "ssh:"@[3]));
                }
            }
        }
    }
    true
}

} // verus!
