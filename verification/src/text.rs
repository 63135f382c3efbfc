use vstd::prelude::*;

verus! {

/// The characters `str::trim` and `split_whitespace` treat as whitespace
/// (the Unicode `White_Space` property).
pub open spec fn spec_is_space(c: char) -> bool {
    c == ' ' || c == '\t' || c == '\n' || c == '\u{0B}' || c == '\u{0C}' || c == '\r'
        || c == '\u{85}' || c == '\u{A0}' || c == '\u{1680}'
        || ('\u{2000}' <= c && c <= '\u{200A}')
        || c == '\u{2028}' || c == '\u{2029}' || c == '\u{202F}' || c == '\u{205F}'
        || c == '\u{3000}'
}

pub fn is_space(c: char) -> (r: bool)
    ensures
        r == spec_is_space(c),
{
    c == ' ' || c == '\t' || c == '\n' || c == '\u{0B}' || c == '\u{0C}' || c == '\r'
        || c == '\u{85}' || c == '\u{A0}' || c == '\u{1680}'
        || ('\u{2000}' <= c && c <= '\u{200A}')
        || c == '\u{2028}' || c == '\u{2029}' || c == '\u{202F}' || c == '\u{205F}'
        || c == '\u{3000}'
}

/// Index of the first non-space character at or after `i`, or the length.
pub open spec fn skip_spaces(s: Seq<char>, i: int) -> int
    decreases s.len() - i,
{
    if i < 0 || i >= s.len() {
        s.len() as int
    } else if !spec_is_space(s[i]) {
        i
    } else {
        skip_spaces(s, i + 1)
    }
}

/// Index of the first space character at or after `i`, or the length.
pub open spec fn token_end(s: Seq<char>, i: int) -> int
    decreases s.len() - i,
{
    if i < 0 || i >= s.len() {
        s.len() as int
    } else if spec_is_space(s[i]) {
        i
    } else {
        token_end(s, i + 1)
    }
}

/// One past the last non-space character, or zero when all are spaces.
pub open spec fn trim_end_idx(s: Seq<char>) -> int
    decreases s.len(),
{
    if s.len() == 0 {
        0
    } else if !spec_is_space(s.last()) {
        s.len() as int
    } else {
        trim_end_idx(s.drop_last())
    }
}

/// What `str::trim` leaves: the characters between the leading and the
/// trailing run of whitespace.
pub open spec fn spec_trim(s: Seq<char>) -> Seq<char> {
    let a = skip_spaces(s, 0);
    let b = trim_end_idx(s);
    if a < b {
        s.subrange(a, b)
    } else {
        Seq::empty()
    }
}

pub proof fn lemma_skip_spaces(s: Seq<char>, i: int)
    requires
        0 <= i <= s.len(),
    ensures
        i <= skip_spaces(s, i) <= s.len(),
        forall|k: int| i <= k < skip_spaces(s, i) ==> spec_is_space(s[k]),
        skip_spaces(s, i) < s.len() ==> !spec_is_space(s[skip_spaces(s, i)]),
    decreases s.len() - i,
{
    if i < s.len() && spec_is_space(s[i]) {
        lemma_skip_spaces(s, i + 1);
    }
}

pub proof fn lemma_token_end(s: Seq<char>, i: int)
    requires
        0 <= i <= s.len(),
    ensures
        i <= token_end(s, i) <= s.len(),
        forall|k: int| i <= k < token_end(s, i) ==> !spec_is_space(s[k]),
        token_end(s, i) < s.len() ==> spec_is_space(s[token_end(s, i)]),
    decreases s.len() - i,
{
    if i < s.len() && !spec_is_space(s[i]) {
        lemma_token_end(s, i + 1);
    }
}

pub proof fn lemma_trim_end_idx(s: Seq<char>)
    ensures
        0 <= trim_end_idx(s) <= s.len(),
        forall|k: int| trim_end_idx(s) <= k < s.len() ==> spec_is_space(s[k]),
        trim_end_idx(s) > 0 ==> !spec_is_space(s[trim_end_idx(s) - 1]),
    decreases s.len(),
{
    if s.len() > 0 && spec_is_space(s.last()) {
        lemma_trim_end_idx(s.drop_last());
        assert forall|k: int| trim_end_idx(s) <= k < s.len() implies spec_is_space(s[k]) by {
            if k < s.len() - 1 {
                assert(s[k] == s.drop_last()[k]);
            }
        }
    }
}

/// First index at or after `from` holding a non-space character, or the length.
pub fn find_non_space(s: &str, from: usize) -> (r: usize)
    requires
        from <= s@.len(),
    ensures
        r == skip_spaces(s@, from as int),
{
    proof {
        lemma_skip_spaces(s@, from as int);
    }
    let n = s.unicode_len();
    let mut i = from;
    while i < n && is_space(s.get_char(i))
        invariant
            from <= i <= n,
            n == s@.len(),
            forall|k: int| from <= k < i ==> spec_is_space(s@[k]),
        decreases n - i,
    {
        i = i + 1;
    }
    proof {
        let sk = skip_spaces(s@, from as int);
        if sk < i {
            assert(spec_is_space(s@[sk]));
        }
        if i < sk {
            assert(spec_is_space(s@[i as int]));
        }
    }
    i
}

/// First index at or after `from` holding a space character, or the length.
pub fn find_space(s: &str, from: usize) -> (r: usize)
    requires
        from <= s@.len(),
    ensures
        r == token_end(s@, from as int),
{
    proof {
        lemma_token_end(s@, from as int);
    }
    let n = s.unicode_len();
    let mut i = from;
    while i < n && !is_space(s.get_char(i))
        invariant
            from <= i <= n,
            n == s@.len(),
            forall|k: int| from <= k < i ==> !spec_is_space(s@[k]),
        decreases n - i,
    {
        i = i + 1;
    }
    proof {
        let te = token_end(s@, from as int);
        if te < i {
            assert(!spec_is_space(s@[te]));
        }
        if i < te {
            assert(!spec_is_space(s@[i as int]));
        }
    }
    i
}

/// The input without its leading and trailing whitespace.
pub fn trim(s: &str) -> (r: &str)
    ensures
        r@ == spec_trim(s@),
{
    proof {
        lemma_skip_spaces(s@, 0);
        lemma_trim_end_idx(s@);
    }
    let n = s.unicode_len();
    let a = find_non_space(s, 0);
    if a == n {
        proof {
            let b = trim_end_idx(s@);
            if skip_spaces(s@, 0) < b {
                assert(!spec_is_space(s@[b - 1]));
            }
        }
        s.substring_char(0, 0)
    } else {
        // scan the trailing run of spaces
        let mut b = n;
        while b > a && is_space(s.get_char(b - 1))
            invariant
                a <= b <= n,
                n == s@.len(),
                a < n,
                !spec_is_space(s@[a as int]),
                forall|k: int| b <= k < n ==> spec_is_space(s@[k]),
            decreases b,
        {
            b = b - 1;
        }
        proof {
            let te = trim_end_idx(s@);
            if te < b {
                assert(spec_is_space(s@[b - 1]));
            }
            if b < te {
                assert(spec_is_space(s@[te - 1]));
            }
            assert(b == te);
        }
        s.substring_char(a, b)
    }
}

/// Character-wise string equality.
pub fn str_eq(a: &str, b: &str) -> (r: bool)
    ensures
        r == (a@ == b@),
{
    let n = a.unicode_len();
    if n != b.unicode_len() {
        return false;
    }
    let mut i: usize = 0;
    while i < n
        invariant
            0 <= i <= n,
            n == a@.len(),
            n == b@.len(),
            forall|k: int| 0 <= k < i ==> a@[k] == b@[k],
        decreases n - i,
    {
        if a.get_char(i) != b.get_char(i) {
            return false;
        }
        i = i + 1;
    }
    proof {
        assert(a@ =~= b@);
    }
    true
}

/// Index of the first occurrence of `c` at or after `i`, or the length.
pub open spec fn find_char_from(s: Seq<char>, c: char, i: int) -> int
    decreases s.len() - i,
{
    if i < 0 || i >= s.len() {
        s.len() as int
    } else if s[i] == c {
        i
    } else {
        find_char_from(s, c, i + 1)
    }
}

pub proof fn lemma_find_char_from(s: Seq<char>, c: char, i: int)
    requires
        0 <= i <= s.len(),
    ensures
        i <= find_char_from(s, c, i) <= s.len(),
        forall|k: int| i <= k < find_char_from(s, c, i) ==> s[k] != c,
        find_char_from(s, c, i) < s.len() ==> s[find_char_from(s, c, i)] == c,
    decreases s.len() - i,
{
    if i < s.len() && s[i] != c {
        lemma_find_char_from(s, c, i + 1);
    }
}

/// First index at or after `from` holding `c`, or the length.
pub fn find_char(s: &str, c: char, from: usize) -> (r: usize)
    requires
        from <= s@.len(),
    ensures
        r == find_char_from(s@, c, from as int),
{
    proof {
        lemma_find_char_from(s@, c, from as int);
    }
    let n = s.unicode_len();
    let mut i = from;
    while i < n && s.get_char(i) != c
        invariant
            from <= i <= n,
            n == s@.len(),
            forall|k: int| from <= k < i ==> s@[k] != c,
        decreases n - i,
    {
        i = i + 1;
    }
    proof {
        let f = find_char_from(s@, c, from as int);
        if f < i {
            assert(s@[f] != c);
        }
        if i < f {
            assert(s@[i as int] != c);
        }
    }
    i
}

/// The segments of `s` between occurrences of `sep`; always at least one.
pub open spec fn spec_split(s: Seq<char>, sep: char) -> Seq<Seq<char>>
    decreases s.len(),
{
    let j = find_char_from(s, sep, 0);
    if j < 0 || j >= s.len() {
        seq![s]
    } else {
        seq![s.subrange(0, j)] + spec_split(s.subrange(j + 1, s.len() as int), sep)
    }
}

/// Splitting the suffix that starts at `pos` prepends the segment up to the
/// next separator.
proof fn lemma_split_step(s: Seq<char>, sep: char, pos: int)
    requires
        0 <= pos <= s.len(),
    ensures
        ({
            let suf = s.subrange(pos, s.len() as int);
            let j = find_char_from(s, sep, pos);
            if j >= s.len() {
                spec_split(suf, sep) == seq![suf]
            } else {
                spec_split(suf, sep) == seq![s.subrange(pos, j)] + spec_split(
                    s.subrange(j + 1, s.len() as int),
                    sep,
                )
            }
        }),
{
    let suf = s.subrange(pos, s.len() as int);
    let j = find_char_from(s, sep, pos);
    lemma_find_char_from(s, sep, pos);
    lemma_find_char_from(suf, sep, 0);
    let js = find_char_from(suf, sep, 0);
    // the two scans agree, offset by pos
    assert forall|k: int| 0 <= k < j - pos implies suf[k] != sep by {
        assert(suf[k] == s[pos + k]);
    }
    assert forall|k: int| pos <= k < pos + js implies s[k] != sep by {
        assert(s[k] == suf[k - pos]);
    }
    if js < suf.len() {
        assert(s[pos + js] == suf[js]);
    }
    if j < s.len() {
        assert(suf[j - pos] == s[j]);
    }
    assert(js == j - pos);
    if j >= s.len() {
        assert(spec_split(suf, sep) == seq![suf]);
    } else {
        assert(suf.subrange(0, js) =~= s.subrange(pos, j));
        assert(suf.subrange(js + 1, suf.len() as int) =~= s.subrange(j + 1, s.len() as int));
    }
}

/// Splits on a separator character, as `str::split` does: `n` separators
/// give `n + 1` segments.
pub fn split_by(s: &str, sep: char) -> (r: Vec<String>)
    ensures
        r.deep_view() == spec_split(s@, sep),
{
    let n = s.unicode_len();
    let mut parts: Vec<String> = Vec::new();
    let mut pos: usize = 0;
    proof {
        assert(parts.deep_view() =~= Seq::<Seq<char>>::empty());
        assert(s@.subrange(0, n as int) =~= s@);
        assert(parts.deep_view() + spec_split(s@.subrange(0, n as int), sep) =~= spec_split(
            s@,
            sep,
        ));
    }
    loop
        invariant
            0 <= pos <= n,
            n == s@.len(),
            parts.deep_view() + spec_split(s@.subrange(pos as int, n as int), sep) == spec_split(
                s@,
                sep,
            ),
        decreases n - pos,
    {
        let j = find_char(s, sep, pos);
        proof {
            lemma_find_char_from(s@, sep, pos as int);
            lemma_split_step(s@, sep, pos as int);
        }
        let seg = s.substring_char(pos, j).to_owned();
        parts.push(seg);
        if j < n {
            proof {
                let old_parts = parts.deep_view().drop_last();
                assert(parts.deep_view() =~= old_parts.push(s@.subrange(pos as int, j as int)));
                assert(parts.deep_view() + spec_split(s@.subrange(j + 1, n as int), sep)
                    =~= old_parts + (seq![s@.subrange(pos as int, j as int)] + spec_split(
                    s@.subrange(j + 1, n as int),
                    sep,
                )));
            }
            pos = j + 1;
        } else {
            proof {
                let old_parts = parts.deep_view().drop_last();
                assert(parts.deep_view() =~= old_parts.push(s@.subrange(pos as int, n as int)));
                assert(parts.deep_view() =~= old_parts + seq![s@.subrange(pos as int, n as int)]);
            }
            return parts;
        }
    }
}

/// Whether the sequence consists of decimal digits only.
pub open spec fn all_digits(s: Seq<char>) -> bool {
    forall|k: int| 0 <= k < s.len() ==> '0' <= #[trigger] s[k] && s[k] <= '9'
}

/// Numeric value of a digit sequence, read left to right.
pub open spec fn digits_value(s: Seq<char>) -> nat
    decreases s.len(),
{
    if s.len() == 0 {
        0
    } else {
        digits_value(s.drop_last()) * 10 + (s.last() as int - '0' as int) as nat
    }
}

/// What parsing a decimal `u64` from the whole string yields: the value,
/// when the string is one or more digits and the value fits.
pub open spec fn spec_parse_u64(s: Seq<char>) -> Option<u64> {
    if s.len() > 0 && all_digits(s) && digits_value(s) <= u64::MAX {
        Some(digits_value(s) as u64)
    } else {
        None
    }
}

/// Parses a decimal integer; the whole input must be digits.
pub fn parse_u64(s: &str) -> (r: Option<u64>)
    ensures
        r == spec_parse_u64(s@),
{
    let n = s.unicode_len();
    if n == 0 {
        return None;
    }
    let mut value: u64 = 0;
    let mut i: usize = 0;
    while i < n
        invariant
            0 <= i <= n,
            n == s@.len(),
            all_digits(s@.subrange(0, i as int)),
            value == digits_value(s@.subrange(0, i as int)),
        decreases n - i,
    {
        let c = s.get_char(i);
        let cu = c as u32;
        if cu < '0' as u32 || cu > '9' as u32 {
            proof {
                assert(!('0' <= s@[i as int] && s@[i as int] <= '9'));
            }
            return None;
        }
        let d = (cu - '0' as u32) as u64;
        if value > (u64::MAX - d) / 10 {
            proof {
                let p = s@.subrange(0, i as int + 1);
                assert(p.drop_last() =~= s@.subrange(0, i as int));
                assert(p.last() == s@[i as int]);
                assert(digits_value(p) == digits_value(s@.subrange(0, i as int)) * 10 + d);
                let q = (u64::MAX - d) / 10;
                assert(q * 10 + 9 >= u64::MAX - d) by (nonlinear_arith)
                    requires
                        q == (u64::MAX - d) / 10,
                        d <= 9,
                ;
                assert(value * 10 >= (q + 1) * 10) by (nonlinear_arith)
                    requires
                        value >= q + 1,
                ;
                assert(digits_value(p) > u64::MAX);
                lemma_digits_value_prefix(s@, i as int + 1);
            }
            return None;
        }
        value = value * 10 + d;
        proof {
            let p = s@.subrange(0, i as int + 1);
            assert(p.drop_last() =~= s@.subrange(0, i as int));
            assert(p.last() == s@[i as int]);
        }
        i = i + 1;
    }
    proof {
        assert(s@.subrange(0, n as int) =~= s@);
    }
    Some(value)
}

/// A digit prefix never exceeds the value of the whole digit string.
proof fn lemma_digits_value_prefix(s: Seq<char>, i: int)
    requires
        0 <= i <= s.len(),
    ensures
        digits_value(s.subrange(0, i)) <= digits_value(s),
    decreases s.len() - i,
{
    if i < s.len() {
        let p = s.subrange(0, i + 1);
        assert(p.drop_last() =~= s.subrange(0, i));
        assert(digits_value(p) == digits_value(s.subrange(0, i)) * 10 + (p.last() as int
            - '0' as int) as nat);
        lemma_digits_value_prefix(s, i + 1);
    } else {
        assert(s.subrange(0, i) =~= s);
    }
}

} // verus!
