//! Recognition of platform links.  A message is treated as a resolvable
//! link when it has the shape of a short or long platform address: an
//! optional `http://` or `https://` scheme, a host label of two or three
//! word characters, the platform domain, and at least one further
//! character after the path slash.  Letters match in either case, and the
//! character after the slash may be anything but a line break.
//!
//! Word characters and case folding are deliberately ASCII-only: a host
//! label with letters beyond ASCII — a Unicode word character, or an
//! exotic uppercase form such as the Kelvin sign — does not match.

use vstd::prelude::*;

verus! {

/// An ASCII word character: letter, digit or underscore.
pub open spec fn word_char(c: char) -> bool {
    ('a' <= c && c <= 'z') || ('A' <= c && c <= 'Z') || ('0' <= c && c <= '9') || c == '_'
}

/// Case-insensitive match of one letter.
pub open spec fn ieq(c: char, lo: char, up: char) -> bool {
    c == lo || c == up
}

/// The platform domain `.tiktok.com/` starts at position `j`.
pub open spec fn tiktok_domain_at(s: Seq<char>, j: int) -> bool {
    &&& j + 12 <= s.len()
    &&& s[j] == '.'
    &&& ieq(s[j + 1], 't', 'T')
    &&& ieq(s[j + 2], 'i', 'I')
    &&& ieq(s[j + 3], 'k', 'K')
    &&& ieq(s[j + 4], 't', 'T')
    &&& ieq(s[j + 5], 'o', 'O')
    &&& ieq(s[j + 6], 'k', 'K')
    &&& s[j + 7] == '.'
    &&& ieq(s[j + 8], 'c', 'C')
    &&& ieq(s[j + 9], 'o', 'O')
    &&& ieq(s[j + 10], 'm', 'M')
    &&& s[j + 11] == '/'
}

/// From position `k` on, the text reads as a host label of `w` word
/// characters, the platform domain, and one more character that is not a
/// line break.
pub open spec fn host_match_at(s: Seq<char>, k: int, w: int) -> bool {
    &&& 2 <= w <= 3
    &&& (forall|i: int| k <= i < k + w ==> word_char(#[trigger] s[i]))
    &&& tiktok_domain_at(s, k + w)
    &&& k + w + 12 < s.len()
    &&& s[k + w + 12] != '\n'
}

/// The text starts with `http://`, letters in either case.
pub open spec fn http_prefix(s: Seq<char>) -> bool {
    &&& s.len() >= 7
    &&& ieq(s[0], 'h', 'H')
    &&& ieq(s[1], 't', 'T')
    &&& ieq(s[2], 't', 'T')
    &&& ieq(s[3], 'p', 'P')
    &&& s[4] == ':'
    &&& s[5] == '/'
    &&& s[6] == '/'
}

/// The text starts with `https://`, letters in either case.
pub open spec fn https_prefix(s: Seq<char>) -> bool {
    &&& s.len() >= 8
    &&& ieq(s[0], 'h', 'H')
    &&& ieq(s[1], 't', 'T')
    &&& ieq(s[2], 't', 'T')
    &&& ieq(s[3], 'p', 'P')
    &&& ieq(s[4], 's', 'S')
    &&& s[5] == ':'
    &&& s[6] == '/'
    &&& s[7] == '/'
}

/// The whole link shape: an optional scheme, then a host match.
pub open spec fn is_tiktok_link(s: Seq<char>) -> bool {
    ||| exists|w: int| host_match_at(s, 0, w)
    ||| (http_prefix(s) && exists|w: int| host_match_at(s, 7, w))
    ||| (https_prefix(s) && exists|w: int| host_match_at(s, 8, w))
}

fn is_word_char(c: char) -> (r: bool)
    ensures
        r == word_char(c),
{
    (c >= 'a' && c <= 'z') || (c >= 'A' && c <= 'Z') || (c >= '0' && c <= '9') || c == '_'
}

fn domain_at(s: &str, j: usize) -> (r: bool)
    requires
        j <= s@.len(),
    ensures
        r == tiktok_domain_at(s@, j as int),
{
    let n = s.unicode_len();
    if n - j < 12 {
        return false;
    }
    let c0 = s.get_char(j);
    if c0 != '.' {
        return false;
    }
    let c1 = s.get_char(j + 1);
    if c1 != 't' && c1 != 'T' {
        return false;
    }
    let c2 = s.get_char(j + 2);
    if c2 != 'i' && c2 != 'I' {
        return false;
    }
    let c3 = s.get_char(j + 3);
    if c3 != 'k' && c3 != 'K' {
        return false;
    }
    let c4 = s.get_char(j + 4);
    if c4 != 't' && c4 != 'T' {
        return false;
    }
    let c5 = s.get_char(j + 5);
    if c5 != 'o' && c5 != 'O' {
        return false;
    }
    let c6 = s.get_char(j + 6);
    if c6 != 'k' && c6 != 'K' {
        return false;
    }
    let c7 = s.get_char(j + 7);
    if c7 != '.' {
        return false;
    }
    let c8 = s.get_char(j + 8);
    if c8 != 'c' && c8 != 'C' {
        return false;
    }
    let c9 = s.get_char(j + 9);
    if c9 != 'o' && c9 != 'O' {
        return false;
    }
    let c10 = s.get_char(j + 10);
    if c10 != 'm' && c10 != 'M' {
        return false;
    }
    let c11 = s.get_char(j + 11);
    c11 == '/'
}

fn check_from(s: &str, k: usize) -> (r: bool)
    requires
        k <= s@.len(),
    ensures
        r == exists|w: int| host_match_at(s@, k as int, w),
{
    let n = s.unicode_len();
    let ghost sk = k as int;
    if n - k >= 2 {
        if is_word_char(s.get_char(k)) && is_word_char(s.get_char(k + 1)) {
            if domain_at(s, k + 2) {
                if k + 14 < n && s.get_char(k + 14) != '\n' {
                    proof {
                        assert forall|i: int| sk <= i < sk + 2 implies word_char(
                            #[trigger] s@[i],
                        ) by {
                            if i == sk {
                            } else {
                                assert(i == sk + 1);
                            }
                        }
                        assert(host_match_at(s@, sk, 2));
                    }
                    return true;
                }
            }
        }
    }
    if n - k >= 3 {
        if is_word_char(s.get_char(k)) && is_word_char(s.get_char(k + 1)) && is_word_char(
            s.get_char(k + 2),
        ) {
            if domain_at(s, k + 3) {
                if k + 15 < n && s.get_char(k + 15) != '\n' {
                    proof {
                        assert forall|i: int| sk <= i < sk + 3 implies word_char(
                            #[trigger] s@[i],
                        ) by {
                            if i == sk {
                            } else if i == sk + 1 {
                            } else {
                                assert(i == sk + 2);
                            }
                        }
                        assert(host_match_at(s@, sk, 3));
                    }
                    return true;
                }
            }
        }
    }
    proof {
        assert forall|w: int| !host_match_at(s@, sk, w) by {
            if w == 2 || w == 3 {
                assert(!host_match_at(s@, sk, w));
            }
        }
    }
    false
}

fn has_http_prefix(s: &str) -> (r: bool)
    ensures
        r == http_prefix(s@),
{
    let n = s.unicode_len();
    if n < 7 {
        return false;
    }
    let c0 = s.get_char(0);
    if c0 != 'h' && c0 != 'H' {
        return false;
    }
    let c1 = s.get_char(1);
    if c1 != 't' && c1 != 'T' {
        return false;
    }
    let c2 = s.get_char(2);
    if c2 != 't' && c2 != 'T' {
        return false;
    }
    let c3 = s.get_char(3);
    if c3 != 'p' && c3 != 'P' {
        return false;
    }
    s.get_char(4) == ':' && s.get_char(5) == '/' && s.get_char(6) == '/'
}

fn has_https_prefix(s: &str) -> (r: bool)
    ensures
        r == https_prefix(s@),
{
    let n = s.unicode_len();
    if n < 8 {
        return false;
    }
    let c0 = s.get_char(0);
    if c0 != 'h' && c0 != 'H' {
        return false;
    }
    let c1 = s.get_char(1);
    if c1 != 't' && c1 != 'T' {
        return false;
    }
    let c2 = s.get_char(2);
    if c2 != 't' && c2 != 'T' {
        return false;
    }
    let c3 = s.get_char(3);
    if c3 != 'p' && c3 != 'P' {
        return false;
    }
    let c4 = s.get_char(4);
    if c4 != 's' && c4 != 'S' {
        return false;
    }
    s.get_char(5) == ':' && s.get_char(6) == '/' && s.get_char(7) == '/'
}

/// Whether a message text is a platform link that resolution should be
/// attempted on.
pub fn is_tiktok_url(message: &str) -> (r: bool)
    ensures
        r == is_tiktok_link(message@),
{
    if check_from(message, 0) {
        return true;
    }
    if has_http_prefix(message) {
        if check_from(message, 7) {
            return true;
        }
    }
    if has_https_prefix(message) {
        if check_from(message, 8) {
            return true;
        }
    }
    false
}

} // verus!
