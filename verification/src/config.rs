//! Encoding and parsing of the persisted notifications flag.
//!
//! The flag lives in a one-line text file whose contents are exactly `"1"`
//! or `"0"`. Reading and writing the file is the surrounding program's job;
//! this module fixes what is written and how the contents are interpreted:
//! the flag is on exactly when the trimmed contents equal `"1"`, and a
//! missing or unreadable file means off.
use vstd::prelude::*;

verus! {

/// The characters that trimming removes: the Unicode white-space set that
/// `char::is_whitespace` documents.
pub open spec fn is_config_whitespace(c: char) -> bool {
    c == '\u{0009}' || c == '\u{000A}' || c == '\u{000B}' || c == '\u{000C}'
        || c == '\u{000D}' || c == '\u{0020}' || c == '\u{0085}' || c == '\u{00A0}'
        || c == '\u{1680}' || c == '\u{2000}' || c == '\u{2001}' || c == '\u{2002}'
        || c == '\u{2003}' || c == '\u{2004}' || c == '\u{2005}' || c == '\u{2006}'
        || c == '\u{2007}' || c == '\u{2008}' || c == '\u{2009}' || c == '\u{200A}'
        || c == '\u{2028}' || c == '\u{2029}' || c == '\u{202F}' || c == '\u{205F}'
        || c == '\u{3000}'
}

/// White-space removed from the front.
pub open spec fn trim_front(s: Seq<char>) -> Seq<char>
    decreases s.len(),
{
    if s.len() > 0 && is_config_whitespace(s.first()) {
        trim_front(s.drop_first())
    } else {
        s
    }
}

/// White-space removed from the back.
pub open spec fn trim_back(s: Seq<char>) -> Seq<char>
    decreases s.len(),
{
    if s.len() > 0 && is_config_whitespace(s.last()) {
        trim_back(s.drop_last())
    } else {
        s
    }
}

/// White-space removed from both ends.
pub open spec fn spec_trim(s: Seq<char>) -> Seq<char> {
    trim_back(trim_front(s))
}

/// What file contents mean: the flag is on exactly when the trimmed
/// contents are the single character `1`.
pub open spec fn spec_config_enabled(s: Seq<char>) -> bool {
    spec_trim(s) == seq!['1']
}

/// What the file holds after a save of the given flag value.
pub open spec fn spec_config_payload(enabled: bool) -> Seq<char> {
    if enabled {
        seq!['1']
    } else {
        seq!['0']
    }
}

/// What a load yields from the file contents, where `None` stands for a
/// missing or unreadable file.
pub open spec fn spec_load(content: Option<Seq<char>>) -> bool {
    match content {
        Some(s) => spec_config_enabled(s),
        None => false,
    }
}

fn is_whitespace_char(c: char) -> (r: bool)
    ensures
        r == is_config_whitespace(c),
{
    c == '\u{0009}' || c == '\u{000A}' || c == '\u{000B}' || c == '\u{000C}'
        || c == '\u{000D}' || c == '\u{0020}' || c == '\u{0085}' || c == '\u{00A0}'
        || c == '\u{1680}' || c == '\u{2000}' || c == '\u{2001}' || c == '\u{2002}'
        || c == '\u{2003}' || c == '\u{2004}' || c == '\u{2005}' || c == '\u{2006}'
        || c == '\u{2007}' || c == '\u{2008}' || c == '\u{2009}' || c == '\u{200A}'
        || c == '\u{2028}' || c == '\u{2029}' || c == '\u{202F}' || c == '\u{205F}'
        || c == '\u{3000}'
}

proof fn lemma_trim_front_is_suffix(s: Seq<char>, i: int)
    requires
        0 <= i <= s.len(),
        forall|k: int| 0 <= k < i ==> is_config_whitespace(s[k]),
        i == s.len() || !is_config_whitespace(s[i]),
    ensures
        trim_front(s) == s.subrange(i, s.len() as int),
    decreases i,
{
    if i == 0 {
        assert(s.subrange(0, s.len() as int) =~= s);
    } else {
        lemma_trim_front_is_suffix(s.drop_first(), i - 1);
        assert(s.drop_first().subrange(i - 1, s.drop_first().len() as int) =~= s.subrange(
            i,
            s.len() as int,
        ));
    }
}

proof fn lemma_trim_back_is_prefix(s: Seq<char>, j: int)
    requires
        0 <= j <= s.len(),
        forall|k: int| j <= k < s.len() ==> is_config_whitespace(s[k]),
        j == 0 || !is_config_whitespace(s[j - 1]),
    ensures
        trim_back(s) == s.subrange(0, j),
    decreases s.len(),
{
    if j == s.len() {
        if s.len() > 0 && is_config_whitespace(s.last()) {
            assert(false);
        }
        assert(s.subrange(0, j) =~= s);
    } else {
        assert(is_config_whitespace(s.last()));
        lemma_trim_back_is_prefix(s.drop_last(), j);
        assert(s.drop_last().subrange(0, j) =~= s.subrange(0, j));
    }
}

/// The exact text that a save writes for the given flag value.
pub fn config_payload(enabled: bool) -> (s: &'static str)
    ensures
        s@ == spec_config_payload(enabled),
{
    proof {
        reveal_strlit("1");
        reveal_strlit("0");
        assert("1"@ =~= seq!['1']);
        assert("0"@ =~= seq!['0']);
    }
    if enabled {
        "1"
    } else {
        "0"
    }
}

/// Whether file contents turn the flag on: true exactly when the trimmed
/// contents equal `"1"`.
pub fn config_enabled(content: &str) -> (enabled: bool)
    ensures
        enabled == spec_config_enabled(content@),
{
    let ghost s = content@;
    let n = content.unicode_len();
    let mut start: usize = 0;
    while start < n && is_whitespace_char(content.get_char(start))
        invariant
            0 <= start <= n,
            n == s.len(),
            s == content@,
            forall|k: int| 0 <= k < start ==> is_config_whitespace(s[k]),
        decreases n - start,
    {
        start = start + 1;
    }
    let mut end: usize = n;
    while end > start && is_whitespace_char(content.get_char(end - 1))
        invariant
            0 <= start <= end <= n,
            n == s.len(),
            s == content@,
            forall|k: int| end <= k < n ==> is_config_whitespace(s[k]),
        decreases end,
    {
        end = end - 1;
    }
    proof {
        lemma_trim_front_is_suffix(s, start as int);
        lemma_trim_back_is_prefix(
            s.subrange(start as int, n as int),
            end as int - start as int,
        );
        assert(spec_trim(s) == s.subrange(start as int, n as int).subrange(
            0,
            end as int - start as int,
        ));
        assert(s.subrange(start as int, n as int).subrange(0, end as int - start as int)
            =~= s.subrange(start as int, end as int));
    }
    if end - start == 1 && content.get_char(start) == '1' {
        proof {
            assert(spec_trim(s) =~= seq!['1']);
        }
        true
    } else {
        proof {
            if spec_trim(s) == seq!['1'] {
                assert(s.subrange(start as int, end as int).len() == 1);
                assert(s.subrange(start as int, end as int)[0] == '1');
            }
        }
        false
    }
}

/// What a load of the config file yields, where `None` stands for a missing
/// or unreadable file: the fail-soft default is off.
pub fn load_config(content: Option<&str>) -> (enabled: bool)
    ensures
        enabled == match content {
            Some(s) => spec_config_enabled(s@),
            None => false,
        },
        enabled == spec_load(
            match content {
                Some(s) => Some(s@),
                None => None,
            },
        ),
{
    match content {
        Some(s) => config_enabled(s),
        None => false,
    }
}

/// A saved flag value loads back unchanged, and a missing file always loads
/// as off.
pub proof fn lemma_config_round_trip(enabled: bool)
    ensures
        spec_load(Some(spec_config_payload(enabled))) == enabled,
        !spec_load(None),
{
    let s = spec_config_payload(enabled);
    assert(!is_config_whitespace('1'));
    assert(!is_config_whitespace('0'));
    assert(trim_front(s) == s);
    assert(trim_back(s) == s);
    if !enabled {
        assert(spec_trim(s)[0] == '0');
    }
}

} // verus!
