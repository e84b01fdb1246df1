//! The echo server's rule: a text message that reads `ping`, ignoring
//! surrounding whitespace and letter case, is answered with `Pong`.

use vstd::prelude::*;

verus! {

/// Unicode `White_Space`, the characters `str::trim` removes.
pub open spec fn is_white_space(c: char) -> bool {
    let n = c as u32;
    (0x9 <= n <= 0xd) || n == 0x20 || n == 0x85 || n == 0xa0 || n == 0x1680 || (0x2000 <= n
        <= 0x200a) || n == 0x2028 || n == 0x2029 || n == 0x202f || n == 0x205f || n == 0x3000
}

/// `s` without leading white space.
pub open spec fn trim_start(s: Seq<char>) -> Seq<char>
    decreases s.len(),
{
    if s.len() > 0 && is_white_space(s[0]) {
        trim_start(s.drop_first())
    } else {
        s
    }
}

/// `s` without trailing white space.
pub open spec fn trim_end(s: Seq<char>) -> Seq<char>
    decreases s.len(),
{
    if s.len() > 0 && is_white_space(s.last()) {
        trim_end(s.drop_last())
    } else {
        s
    }
}

/// `s` without leading and trailing white space, as `str::trim` gives it.
pub open spec fn trimmed(s: Seq<char>) -> Seq<char> {
    trim_end(trim_start(s))
}

fn white_space(c: char) -> (b: bool)
    ensures
        b == is_white_space(c),
{
    let n = c as u32;
    (0x9 <= n && n <= 0xd) || n == 0x20 || n == 0x85 || n == 0xa0 || n == 0x1680 || (0x2000 <= n
        && n <= 0x200a) || n == 0x2028 || n == 0x2029 || n == 0x202f || n == 0x205f || n == 0x3000
}

proof fn lemma_trim_start_skip(s: Seq<char>, i: int)
    requires
        0 <= i <= s.len(),
        forall|j: int| 0 <= j < i ==> is_white_space(#[trigger] s[j]),
    ensures
        trim_start(s) == trim_start(s.skip(i)),
    decreases i,
{
    if i > 0 {
        assert(s.skip(1) =~= s.drop_first());
        lemma_trim_start_skip(s.drop_first(), i - 1);
        assert(s.drop_first().skip(i - 1) =~= s.skip(i));
    } else {
        assert(s.skip(0) =~= s);
    }
}

proof fn lemma_trim_end_take(s: Seq<char>, i: int)
    requires
        0 <= i <= s.len(),
        forall|j: int| i <= j < s.len() ==> is_white_space(#[trigger] s[j]),
    ensures
        trim_end(s) == trim_end(s.take(i)),
    decreases s.len() - i,
{
    if i < s.len() {
        assert(s.take(s.len() - 1) =~= s.drop_last());
        lemma_trim_end_take(s.drop_last(), i);
        assert(s.drop_last().take(i) =~= s.take(i));
    } else {
        assert(s.take(s.len() as int) =~= s);
    }
}

/// `text` without leading and trailing white space.
pub fn trim(text: &str) -> (t: String)
    ensures
        t@ == trimmed(text@),
{
    let n = text.unicode_len();
    let mut start: usize = 0;
    while start < n && white_space(text.get_char(start))
        invariant
            n == text@.len(),
            start <= n,
            forall|j: int| 0 <= j < start ==> is_white_space(#[trigger] text@[j]),
        decreases n - start,
    {
        start = start + 1;
    }
    proof {
        lemma_trim_start_skip(text@, start as int);
    }
    let ghost rest = text@.skip(start as int);
    let mut end: usize = n;
    while end > start && white_space(text.get_char(end - 1))
        invariant
            n == text@.len(),
            start <= end <= n,
            rest == text@.skip(start as int),
            forall|j: int| end - start <= j < rest.len() ==> is_white_space(#[trigger] rest[j]),
        decreases end - start,
    {
        end = end - 1;
    }
    proof {
        lemma_trim_end_take(rest, end - start);
        if start < n {
            assert(!is_white_space(text@[start as int]));
            assert(trim_start(rest) == rest);
        } else {
            assert(rest.len() == 0);
        }
        if end > start {
            assert(rest.take(end - start).last() == text@[end - 1]);
            assert(trim_end(rest.take(end - start)) == rest.take(end - start));
        } else {
            assert(rest.take(0).len() == 0);
        }
        assert(rest.take(end - start) =~= text@.subrange(start as int, end as int));
    }
    String::from_str(text.substring_char(start, end))
}

/// The lowercase form of `s` as `str::to_lowercase` gives it.
pub uninterp spec fn spec_to_lowercase(s: Seq<char>) -> Seq<char>;

/// Every character of `s` is ASCII.
pub open spec fn is_ascii_text(s: Seq<char>) -> bool {
    forall|i: int| 0 <= i < s.len() ==> (#[trigger] s[i] as u32) < 128
}

/// `c` with an ASCII capital letter turned into its small letter.
pub open spec fn ascii_lower_char(c: char) -> char {
    if 65 <= (c as u32) <= 90 {
        ((c as u32) + 32) as char
    } else {
        c
    }
}

/// `s` with every ASCII capital letter turned into its small letter.
pub open spec fn ascii_lowercase(s: Seq<char>) -> Seq<char> {
    s.map_values(|c: char| ascii_lower_char(c))
}

/// Lowercases with `str::to_lowercase` (full Unicode case mapping).
/// Trusted: the result is what `spec_to_lowercase` names; on ASCII text
/// it maps `A`..`Z` to `a`..`z` and keeps every other character, one for
/// one (the Unicode lowercase mapping of the ASCII range). What it does
/// to other characters is named, not spelled out.
#[verifier::external_body]
fn to_lowercase(s: &str) -> (lower: String)
    ensures
        lower@ == spec_to_lowercase(s@),
        is_ascii_text(s@) ==> lower@ == ascii_lowercase(s@),
{
    s.to_lowercase()
}

/// The message is a ping.
pub open spec fn is_ping(text: Seq<char>) -> bool {
    spec_to_lowercase(trimmed(text)) == "ping"@
}

/// What trimming keeps of `s` lies in `s`: ASCII text stays ASCII.
proof fn lemma_trimmed_ascii(s: Seq<char>)
    requires
        is_ascii_text(s),
    ensures
        is_ascii_text(trimmed(s)),
{
    lemma_trim_start_ascii(s);
    lemma_trim_end_ascii(trim_start(s));
}

proof fn lemma_trim_start_ascii(s: Seq<char>)
    requires
        is_ascii_text(s),
    ensures
        is_ascii_text(trim_start(s)),
    decreases s.len(),
{
    if s.len() > 0 && is_white_space(s[0]) {
        assert(is_ascii_text(s.drop_first())) by {
            assert forall|i: int| 0 <= i < s.drop_first().len() implies (#[trigger] s.drop_first()[i]
                as u32) < 128 by {
                assert(s.drop_first()[i] == s[i + 1]);
            }
        }
        lemma_trim_start_ascii(s.drop_first());
    }
}

proof fn lemma_trim_end_ascii(s: Seq<char>)
    requires
        is_ascii_text(s),
    ensures
        is_ascii_text(trim_end(s)),
    decreases s.len(),
{
    if s.len() > 0 && is_white_space(s.last()) {
        assert(is_ascii_text(s.drop_last())) by {
            assert forall|i: int| 0 <= i < s.drop_last().len() implies (#[trigger] s.drop_last()[i]
                as u32) < 128 by {
                assert(s.drop_last()[i] == s[i]);
            }
        }
        lemma_trim_end_ascii(s.drop_last());
    }
}

/// The answer to a text message: `Pong` to a ping, nothing otherwise. On
/// ASCII text a ping is `ping` in any mix of capital and small letters,
/// with any white space around it.
pub fn ping_reply(text: &str) -> (reply: Option<String>)
    ensures
        match reply {
            Some(r) => is_ping(text@) && r@ == "Pong"@,
            None => !is_ping(text@),
        },
        is_ascii_text(text@) ==> (reply is Some <==> ascii_lowercase(trimmed(text@)) == "ping"@),
{
    proof {
        if is_ascii_text(text@) {
            lemma_trimmed_ascii(text@);
        }
    }
    let t = trim(text);
    let lower = to_lowercase(t.as_str());
    if lower == String::from_str("ping") {
        Some(String::from_str("Pong"))
    } else {
        None
    }
}

} // verus!
