use vstd::prelude::*;
use crate::text::{chars_of, push_all};
use vstd::string::StringExecFns;

verus! {

/// Messages that mention this address hold videos to archive.
pub const OUTPLAYED_URL_PREFIX: &'static str = "https://outplayed.tv/media";

/// The links of a message: `http` or `https` followed by non-blank text.
pub const LINK_PATTERN: &'static str = "\\bhttps?://\\S+\\b";

/// The texts of the successive non-overlapping matches of `pattern` in `text`,
/// or none where `pattern` is not a valid regular expression.
pub uninterp spec fn regex_matches_of(pattern: Seq<char>, text: Seq<char>) -> Option<Seq<Seq<char>>>;

pub open spec fn strings_view(v: Seq<String>) -> Seq<Seq<char>> {
    v.map_values(|s: String| s@)
}

/// Relies on regex's `Regex::new` and `Regex::find_iter`: the text of each
/// match, left to right.
#[verifier::external_body]
fn regex_matches(pattern: &str, text: &str) -> (r: Option<Vec<String>>)
    ensures
        r matches Some(v) ==> regex_matches_of(pattern@, text@) == Some(strings_view(v@)),
        r is None ==> regex_matches_of(pattern@, text@) is None,
{
    let re = regex::Regex::new(pattern).ok()?;
    Some(re.find_iter(text).map(|m| m.as_str().to_string()).collect())
}

/// Whether `t` occurs in `s` at position `i`.
pub open spec fn occurs_at(s: Seq<char>, t: Seq<char>, i: int) -> bool {
    0 <= i && i + t.len() <= s.len() && s.subrange(i, i + t.len()) == t
}

/// Whether `t` occurs somewhere in `s`.
pub open spec fn occurs_in(s: Seq<char>, t: Seq<char>) -> bool {
    exists|i: int| occurs_at(s, t, i)
}

fn matches_at(s: &Vec<char>, t: &Vec<char>, i: usize) -> (r: bool)
    requires
        i + t@.len() <= s@.len(),
    ensures
        r == occurs_at(s@, t@, i as int),
{
    let n = s.len();
    let mut k: usize = 0;
    while k < t.len()
        invariant
            n == s@.len(),
            i + t@.len() <= s@.len(),
            k <= t@.len(),
            forall|m: int| 0 <= m < k ==> s@[i + m] == t@[m],
        decreases t@.len() - k,
    {
        if s[i + k] != t[k] {
            assert(s@.subrange(i as int, i + t@.len())[k as int] != t@[k as int]);
            return false;
        }
        k += 1;
    }
    assert(s@.subrange(i as int, i + t@.len()) =~= t@);
    true
}

/// Whether `t` occurs in `s`.
pub fn contains_text(s: &str, t: &str) -> (r: bool)
    ensures
        r == occurs_in(s@, t@),
{
    let sc = chars_of(s);
    let tc = chars_of(t);
    if tc.len() > sc.len() {
        return false;
    }
    if tc.len() == 0 {
        assert(occurs_at(s@, t@, 0)) by {
            assert(s@.subrange(0, 0) =~= t@);
        }
        return true;
    }
    let n = sc.len();
    let last = n - tc.len();
    let mut i: usize = 0;
    while i <= last
        invariant
            last + tc@.len() == sc@.len(),
            n == sc@.len(),
            tc@.len() > 0,
            i <= last + 1,
            sc@ == s@,
            tc@ == t@,
            forall|j: int| 0 <= j < i ==> !occurs_at(s@, t@, j),
        decreases last + 1 - i,
    {
        if matches_at(&sc, &tc, i) {
            return true;
        }
        i += 1;
    }
    false
}

/// The links that a chat message holds, where it mentions the video site;
/// none where it does not.
pub fn links_in(content: &str) -> (r: Option<Vec<String>>)
    ensures
        !occurs_in(content@, OUTPLAYED_URL_PREFIX@) ==> r is None,
        occurs_in(content@, OUTPLAYED_URL_PREFIX@) ==> match regex_matches_of(LINK_PATTERN@, content@) {
            Some(links) => r matches Some(v) && strings_view(v@) == links,
            None => r is None,
        },
{
    if !contains_text(content, OUTPLAYED_URL_PREFIX) {
        return None;
    }
    regex_matches(LINK_PATTERN, content)
}

/// The decimal digits of `n`, most significant first.
pub open spec fn decimal_of(n: nat) -> Seq<char>
    decreases n,
{
    if n < 10 {
        seq![digit_char(n)]
    } else {
        decimal_of(n / 10).push(digit_char(n % 10))
    }
}

pub open spec fn digit_char(d: nat) -> char {
    ((d + 48) as u8) as char
}

/// `n` written in decimal.
pub fn decimal(n: usize) -> (r: Vec<char>)
    ensures
        r@ == decimal_of(n as nat),
    decreases n,
{
    let d = ((n % 10) as u8 + 48u8) as char;
    if n < 10 {
        let mut r: Vec<char> = Vec::new();
        r.push(d);
        assert(r@ =~= decimal_of(n as nat));
        r
    } else {
        let mut r = decimal(n / 10);
        r.push(d);
        r
    }
}

/// The question asked before archiving `count` videos.
pub fn confirmation_text(count: usize) -> (r: String)
    ensures
        r@ == "Wow, I found "@ + decimal_of(count as nat)
            + " outplayed video. Do you want to save it?"@,
{
    let mut r = String::new();
    r.append("Wow, I found ");
    push_all(&mut r, &decimal(count));
    r.append(" outplayed video. Do you want to save it?");
    r
}

} // verus!
