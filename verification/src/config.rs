//! Key-value configuration data: `key=value` lines, `#` starting a
//! comment that runs to the end of the line.
//!
//! Reading the file itself is the caller's business; this module parses
//! lines that have already been read and answers lookups.  A line keeps
//! whatever precedes its `#`, trimmed of surrounding whitespace; a line
//! without `=`, or with an empty key or value, holds no pair.  When one
//! key appears on several lines, the last occurrence wins.

use vstd::prelude::*;

verus! {

broadcast use vstd::string::next_postcondition, vstd::string::axiom_spec_iter;

use vstd::std_specs::iter::IteratorSpec;

/// One `key=value` binding.
pub struct KVPair {
    pub key: String,
    pub value: String,
}

/// Whether a character counts as trimmable whitespace.
pub open spec fn is_space(c: char) -> bool {
    c == ' ' || c == '\t' || c == '\r' || c == '\n'
}

/// Index of the first occurrence of `c` in `s`, if any.
pub open spec fn find_char(s: Seq<char>, c: char) -> Option<int>
    decreases s.len(),
{
    if s.len() == 0 {
        None
    } else if s[0] == c {
        Some(0)
    } else {
        match find_char(s.skip(1), c) {
            Some(i) => Some(i + 1),
            None => None,
        }
    }
}

/// How many trimmable characters `s` starts with.
pub open spec fn leading_spaces(s: Seq<char>) -> int
    decreases s.len(),
{
    if s.len() == 0 || !is_space(s[0]) {
        0
    } else {
        1 + leading_spaces(s.skip(1))
    }
}

/// How many trimmable characters `s` ends with.
pub open spec fn trailing_spaces(s: Seq<char>) -> int
    decreases s.len(),
{
    if s.len() == 0 || !is_space(s.last()) {
        0
    } else {
        1 + trailing_spaces(s.drop_last())
    }
}

/// `s` without its leading and trailing whitespace.
pub open spec fn trim_spec(s: Seq<char>) -> Seq<char> {
    let t = s.skip(leading_spaces(s));
    t.take(t.len() - trailing_spaces(t))
}

/// What remains of a line once its comment is cut away: everything from
/// the first `#` on is dropped and the rest trimmed; a line without `#`
/// is kept as it is.
pub open spec fn filter_comments_spec(line: Seq<char>) -> Seq<char> {
    match find_char(line, '#') {
        None => line,
        Some(i) => trim_spec(line.take(i)),
    }
}

/// The binding a line holds, if any: the comment-filtered line must
/// contain `=` with a non-empty key before it and a non-empty value
/// after it.
pub open spec fn parse_line_spec(line: Seq<char>) -> Option<(Seq<char>, Seq<char>)> {
    let filtered = filter_comments_spec(line);
    match find_char(filtered, '=') {
        None => None,
        Some(i) => {
            let key = filtered.take(i);
            let value = filtered.skip(i + 1);
            if key.len() > 0 && value.len() > 0 {
                Some((key, value))
            } else {
                None
            }
        },
    }
}

/// The bindings a sequence of lines holds, in order.
pub open spec fn config_pairs_spec(lines: Seq<Seq<char>>) -> Seq<(Seq<char>, Seq<char>)>
    decreases lines.len(),
{
    if lines.len() == 0 {
        Seq::empty()
    } else {
        let rest = config_pairs_spec(lines.drop_last());
        match parse_line_spec(lines.last()) {
            Some(kv) => rest.push(kv),
            None => rest,
        }
    }
}

/// The value bound to `key`, the last binding winning.
pub open spec fn lookup_spec(pairs: Seq<(Seq<char>, Seq<char>)>, key: Seq<char>) -> Option<
    Seq<char>,
>
    decreases pairs.len(),
{
    if pairs.len() == 0 {
        None
    } else if pairs.last().0 == key {
        Some(pairs.last().1)
    } else {
        lookup_spec(pairs.drop_last(), key)
    }
}

/// `find_char` names the first occurrence: everything before it differs
/// from `c`, and `None` means no character equals `c` at all.
proof fn lemma_find_char(s: Seq<char>, c: char)
    ensures
        match find_char(s, c) {
            Some(i) => 0 <= i < s.len() && s[i] == c && forall|j: int| 0 <= j < i ==> s[j] != c,
            None => forall|j: int| 0 <= j < s.len() ==> s[j] != c,
        },
    decreases s.len(),
{
    if s.len() != 0 && s[0] != c {
        let t = s.skip(1);
        lemma_find_char(t, c);
        assert(forall|j: int| 1 <= j < s.len() ==> s[j] == t[j - 1]);
        match find_char(t, c) {
            Some(i2) => {
                assert(s[i2 + 1] == t[i2]);
                assert(forall|j: int| 0 <= j < i2 + 1 ==> s[j] != c);
            },
            None => {
                assert(forall|j: int| 0 <= j < s.len() ==> s[j] != c);
            },
        }
    }
}

/// `leading_spaces` counts an initial all-whitespace run that is either
/// the whole sequence or stops just before a non-whitespace character.
proof fn lemma_leading_spaces(s: Seq<char>)
    ensures
        0 <= leading_spaces(s) <= s.len(),
        forall|j: int| 0 <= j < leading_spaces(s) ==> is_space(s[j]),
        leading_spaces(s) < s.len() ==> !is_space(s[leading_spaces(s)]),
    decreases s.len(),
{
    if s.len() != 0 && is_space(s[0]) {
        lemma_leading_spaces(s.skip(1));
        assert forall|j: int| 0 <= j < leading_spaces(s) implies is_space(s[j]) by {
            if j > 0 {
                assert(s.skip(1)[j - 1] == s[j]);
            }
        }
        if leading_spaces(s) < s.len() {
            assert(s.skip(1)[leading_spaces(s) - 1] == s[leading_spaces(s)]);
        }
    }
}

/// `trailing_spaces` counts a final all-whitespace run that is either
/// the whole sequence or starts just after a non-whitespace character.
proof fn lemma_trailing_spaces(s: Seq<char>)
    ensures
        0 <= trailing_spaces(s) <= s.len(),
        forall|j: int| s.len() - trailing_spaces(s) <= j < s.len() ==> is_space(s[j]),
        trailing_spaces(s) < s.len() ==> !is_space(s[s.len() - trailing_spaces(s) - 1]),
    decreases s.len(),
{
    if s.len() != 0 && is_space(s.last()) {
        lemma_trailing_spaces(s.drop_last());
        assert forall|j: int| s.len() - trailing_spaces(s) <= j < s.len() implies is_space(
            s[j],
        ) by {
            if j < s.len() - 1 {
                assert(s.drop_last()[j] == s[j]);
            }
        }
    }
}

/// Relies on String::push: appends one character to the string.
#[verifier::external_body]
fn push_char(s: &mut String, c: char)
    ensures
        final(s)@ == old(s)@.push(c),
{
    s.push(c);
}

/// The characters of a string slice, in order.
pub fn chars_of(s: &str) -> (v: Vec<char>)
    ensures
        v@ == s@,
{
    let mut it = s.chars();
    let mut v: Vec<char> = Vec::new();
    loop
        invariant
            v@.len() <= s@.len(),
            v@ == s@.take(v@.len() as int),
            it.remaining() == s@.skip(v@.len() as int),
        ensures
            v@ == s@,
        decreases s@.len() - v@.len(),
    {
        let ghost pre = it.remaining();
        match it.next() {
            Some(c) => {
                proof {
                    assert(c == s@[v@.len() as int]);
                    assert(s@.take(v@.len() as int + 1) =~= s@.take(v@.len() as int).push(c));
                    assert(pre.drop_first() =~= s@.skip(v@.len() as int + 1));
                }
                v.push(c);
            },
            None => {
                proof {
                    assert(v@ =~= s@);
                }
                break ;
            },
        }
    }
    v
}

/// A string holding exactly the given characters.
pub fn string_from_chars(v: &Vec<char>) -> (s: String)
    ensures
        s@ == v@,
{
    let mut s = String::new();
    let mut i: usize = 0;
    while i < v.len()
        invariant
            i <= v@.len(),
            s@ == v@.take(i as int),
        decreases v@.len() - i,
    {
        push_char(&mut s, v[i]);
        proof {
            assert(v@.take(i + 1) =~= v@.take(i as int).push(v@[i as int]));
        }
        i = i + 1;
    }
    proof {
        assert(v@.take(v@.len() as int) =~= v@);
    }
    s
}

/// Index of the first occurrence of `c` among the characters, if any.
#[verifier::loop_isolation(false)]
fn find_in_chars(v: &Vec<char>, c: char) -> (r: Option<usize>)
    ensures
        match r {
            Some(i) => find_char(v@, c) == Some(i as int),
            None => find_char(v@, c) is None,
        },
{
    proof {
        lemma_find_char(v@, c);
    }
    let mut i: usize = 0;
    while i < v.len()
        invariant
            i <= v@.len(),
            forall|j: int| 0 <= j < i ==> v@[j] != c,
        decreases v@.len() - i,
    {
        if v[i] == c {
            return Some(i);
        }
        i = i + 1;
    }
    None
}

/// The characters with leading and trailing whitespace removed.
#[verifier::loop_isolation(false)]
fn trim_chars(v: &Vec<char>) -> (r: Vec<char>)
    ensures
        r@ == trim_spec(v@),
{
    proof {
        lemma_leading_spaces(v@);
    }
    let mut lo: usize = 0;
    while lo < v.len() && (v[lo] == ' ' || v[lo] == '\t' || v[lo] == '\r' || v[lo] == '\n')
        invariant
            lo <= v@.len(),
            forall|j: int| 0 <= j < lo ==> is_space(v@[j]),
            lo <= leading_spaces(v@),
        decreases v@.len() - lo,
    {
        lo = lo + 1;
    }
    proof {
        assert(lo == leading_spaces(v@));
        lemma_trailing_spaces(v@.skip(lo as int));
    }
    let ghost t = v@.skip(lo as int);
    let mut hi: usize = v.len();
    while hi > lo && (v[hi - 1] == ' ' || v[hi - 1] == '\t' || v[hi - 1] == '\r' || v[hi - 1]
        == '\n')
        invariant
            lo <= hi <= v@.len(),
            forall|j: int| hi <= j < v@.len() ==> is_space(v@[j]),
            hi - lo >= t.len() - trailing_spaces(t),
        decreases hi,
    {
        proof {
            assert(t[hi - 1 - lo] == v@[hi - 1]);
        }
        hi = hi - 1;
    }
    proof {
        if hi > lo {
            assert(t[hi - 1 - lo] == v@[hi - 1]);
        }
        assert(hi - lo == t.len() - trailing_spaces(t));
    }
    let mut out: Vec<char> = Vec::new();
    let mut i: usize = lo;
    while i < hi
        invariant
            lo <= i <= hi <= v@.len(),
            out@ == v@.subrange(lo as int, i as int),
        decreases hi - i,
    {
        out.push(v[i]);
        proof {
            assert(v@.subrange(lo as int, i + 1) =~= v@.subrange(lo as int, i as int).push(
                v@[i as int],
            ));
        }
        i = i + 1;
    }
    proof {
        assert(out@ =~= trim_spec(v@));
    }
    out
}

/// Cut a line's comment away: everything from the first `#` on is
/// dropped and the rest trimmed; a line without `#` is returned as it
/// is.
#[verifier::loop_isolation(false)]
pub fn filter_comments(line: &str) -> (r: String)
    ensures
        r@ == filter_comments_spec(line@),
{
    let cs = chars_of(line);
    match find_in_chars(&cs, '#') {
        None => line.to_owned(),
        Some(i) => {
            proof {
                lemma_find_char(cs@, '#');
            }
            let mut head: Vec<char> = Vec::new();
            let mut j: usize = 0;
            while j < i
                invariant
                    j <= i <= cs@.len(),
                    head@ == cs@.take(j as int),
                decreases i - j,
            {
                head.push(cs[j]);
                proof {
                    assert(cs@.take(j + 1) =~= cs@.take(j as int).push(cs@[j as int]));
                }
                j = j + 1;
            }
            let trimmed = trim_chars(&head);
            string_from_chars(&trimmed)
        },
    }
}

/// The binding a line holds, if any: the comment-filtered line must
/// contain `=` with a non-empty key before it and a non-empty value
/// after it.
#[verifier::loop_isolation(false)]
pub fn parse_line(line: String) -> (r: Option<KVPair>)
    ensures
        match r {
            Some(kv) => parse_line_spec(line@) == Some((kv.key@, kv.value@)),
            None => parse_line_spec(line@) is None,
        },
{
    let filtered = filter_comments(line.as_str());
    let fc = chars_of(filtered.as_str());
    let sep = match find_in_chars(&fc, '=') {
        Some(i) => i,
        None => {
            return None;
        },
    };
    proof {
        lemma_find_char(fc@, '=');
    }
    let n = fc.len();
    if sep == 0 || sep == n - 1 {
        return None;
    }
    let mut key: Vec<char> = Vec::new();
    let mut i: usize = 0;
    while i < sep
        invariant
            i <= sep <= fc@.len(),
            key@ == fc@.take(i as int),
        decreases sep - i,
    {
        key.push(fc[i]);
        proof {
            assert(fc@.take(i + 1) =~= fc@.take(i as int).push(fc@[i as int]));
        }
        i = i + 1;
    }
    let mut value: Vec<char> = Vec::new();
    let mut j: usize = sep + 1;
    while j < fc.len()
        invariant
            sep + 1 <= j <= fc@.len(),
            value@ == fc@.subrange(sep + 1, j as int),
        decreases fc@.len() - j,
    {
        value.push(fc[j]);
        proof {
            assert(fc@.subrange(sep + 1, j + 1) =~= fc@.subrange(sep + 1, j as int).push(
                fc@[j as int],
            ));
        }
        j = j + 1;
    }
    proof {
        assert(value@ =~= fc@.skip(sep + 1));
    }
    Some(KVPair { key: string_from_chars(&key), value: string_from_chars(&value) })
}

/// The key-value bindings read out of a configuration file.
pub struct Config {
    kv_pairs: Vec<KVPair>,
}

impl Config {
    /// The bindings held, in order, for specifications.
    pub closed spec fn spec_pairs(&self) -> Seq<(Seq<char>, Seq<char>)> {
        self.kv_pairs@.map_values(|kv: KVPair| (kv.key@, kv.value@))
    }

    /// The bindings a sequence of already-read lines holds.
    pub fn from_lines(lines: &Vec<String>) -> (c: Config)
        ensures
            c.spec_pairs() == config_pairs_spec(lines@.map_values(|l: String| l@)),
    {
        let ghost lviews = lines@.map_values(|l: String| l@);
        let mut kv_pairs: Vec<KVPair> = Vec::new();
        let mut i: usize = 0;
        while i < lines.len()
            invariant
                i <= lines@.len(),
                kv_pairs@.map_values(|kv: KVPair| (kv.key@, kv.value@)) == config_pairs_spec(
                    lviews.take(i as int),
                ),
                lviews == lines@.map_values(|l: String| l@),
            decreases lines@.len() - i,
        {
            let ghost before = kv_pairs@.map_values(|kv: KVPair| (kv.key@, kv.value@));
            let line = lines[i].clone();
            match parse_line(line) {
                Some(kv) => {
                    kv_pairs.push(kv);
                },
                None => (),
            }
            proof {
                assert(lviews.take(i + 1).drop_last() =~= lviews.take(i as int));
                assert(lviews.take(i + 1).last() == lines@[i as int]@);
                assert(kv_pairs@.map_values(|kv: KVPair| (kv.key@, kv.value@)) =~= config_pairs_spec(
                    lviews.take(i + 1),
                ));
            }
            i = i + 1;
        }
        proof {
            assert(lviews.take(lviews.len() as int) =~= lviews);
        }
        Config { kv_pairs }
    }

    /// Return a value for a key if it exists, the last binding of the
    /// key winning.
    #[verifier::loop_isolation(false)]
    pub fn get(&self, key: &str) -> (r: Option<&String>)
        ensures
            match r {
                Some(v) => lookup_spec(self.spec_pairs(), key@) == Some(v@),
                None => lookup_spec(self.spec_pairs(), key@) is None,
            },
    {
        let owned = key.to_owned();
        let ghost pairs = self.spec_pairs();
        proof {
            assert(pairs.take(pairs.len() as int) =~= pairs);
        }
        let mut i: usize = self.kv_pairs.len();
        while i > 0
            invariant
                i <= self.kv_pairs@.len(),
                lookup_spec(pairs, key@) == lookup_spec(pairs.take(i as int), key@),
            decreases i,
        {
            proof {
                assert(pairs.take(i as int).last() == pairs[i - 1]);
                assert(pairs.take(i as int).drop_last() =~= pairs.take(i - 1));
            }
            if self.kv_pairs[i - 1].key == owned {
                return Some(&self.kv_pairs[i - 1].value);
            }
            i = i - 1;
        }
        proof {
            assert(pairs.take(0) =~= Seq::<(Seq<char>, Seq<char>)>::empty());
        }
        None
    }
}

} // verus!
