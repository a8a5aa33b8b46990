use vstd::prelude::*;

verus! {

/// Whether a character has the Unicode `White_Space` property, the set that
/// `char::is_whitespace` and `str::trim` go by: tab through carriage return,
/// space, next line, no-break space, ogham space mark, the spaces from en
/// quad to hair space, line and paragraph separators, narrow no-break space,
/// medium mathematical space and ideographic space.
pub open spec fn is_white(c: char) -> bool {
    let u = c as u32;
    ||| 0x09 <= u <= 0x0D
    ||| u == 0x20
    ||| u == 0x85
    ||| u == 0xA0
    ||| u == 0x1680
    ||| 0x2000 <= u <= 0x200A
    ||| u == 0x2028
    ||| u == 0x2029
    ||| u == 0x202F
    ||| u == 0x205F
    ||| u == 0x3000
}

/// Whether a character is whitespace.
pub fn char_is_white(c: char) -> (b: bool)
    ensures
        b == is_white(c),
{
    let u = c as u32;
    (0x09 <= u && u <= 0x0D) || u == 0x20 || u == 0x85 || u == 0xA0 || u == 0x1680 || (0x2000 <= u
        && u <= 0x200A) || u == 0x2028 || u == 0x2029 || u == 0x202F || u == 0x205F || u == 0x3000
}

/// Whether an ASCII character is a letter or a digit.
pub open spec fn is_ascii_alnum(c: char) -> bool {
    ('a' <= c <= 'z') || ('A' <= c <= 'Z') || ('0' <= c <= '9')
}

/// What `char::is_alphanumeric` answers for a character.
pub uninterp spec fn is_alnum(c: char) -> bool;

/// Calls `char::is_alphanumeric`. The contract names its answer and states
/// it for ASCII, where the Unicode `Alphabetic` and `Numeric` properties
/// that the function goes by hold exactly of the letters and digits.
#[verifier::external_body]
pub(crate) fn char_is_alnum(c: char) -> (b: bool)
    ensures
        b == is_alnum(c),
        (c as u32) < 128 ==> (b <==> is_ascii_alnum(c)),
{
    c.is_alphanumeric()
}

/// Appending one character to a `String` (std's `String::push`).
pub assume_specification[ String::push ](s: &mut String, ch: char)
    ensures
        final(s)@ == old(s)@.push(ch),
;

/// The characters of a string slice, in order.
pub fn chars_of(s: &str) -> (out: Vec<char>)
    ensures
        out@ == s@,
{
    let mut out: Vec<char> = Vec::new();
    for c in it: s.chars()
        invariant
            out@ == it.seq().take(it.index() as int),
            it.seq() == s@,
    {
        out.push(c);
    }
    out
}

/// A `String` holding exactly the given characters.
pub fn string_of(cs: &[char]) -> (out: String)
    ensures
        out@ == cs@,
{
    let mut out = String::new();
    let n = cs.len();
    let mut i: usize = 0;
    while i < n
        invariant
            n == cs@.len(),
            i <= n,
            out@ == cs@.take(i as int),
        decreases n - i,
    {
        out.push(cs[i]);
        i += 1;
        assert(cs@.take(i as int) == cs@.take(i - 1).push(cs@[i - 1]));
    }
    assert(cs@.take(n as int) == cs@);
    out
}


/// `s` with leading whitespace removed (std's `str::trim_start`).
pub open spec fn trim_start(s: Seq<char>) -> Seq<char>
    decreases s.len(),
{
    if s.len() > 0 && is_white(s[0]) {
        trim_start(s.drop_first())
    } else {
        s
    }
}

/// `s` with trailing whitespace removed (std's `str::trim_end`).
pub open spec fn trim_end(s: Seq<char>) -> Seq<char>
    decreases s.len(),
{
    if s.len() > 0 && is_white(s.last()) {
        trim_end(s.drop_last())
    } else {
        s
    }
}

/// `s` with leading and trailing whitespace removed (std's `str::trim`).
pub open spec fn trim(s: Seq<char>) -> Seq<char> {
    trim_end(trim_start(s))
}

/// `s` with every leading copy of `c` removed.
pub open spec fn trim_start_matches(s: Seq<char>, c: char) -> Seq<char>
    decreases s.len(),
{
    if s.len() > 0 && s[0] == c {
        trim_start_matches(s.drop_first(), c)
    } else {
        s
    }
}

/// `s` with every trailing copy of `c` removed.
pub open spec fn trim_end_matches(s: Seq<char>, c: char) -> Seq<char>
    decreases s.len(),
{
    if s.len() > 0 && s.last() == c {
        trim_end_matches(s.drop_last(), c)
    } else {
        s
    }
}

/// `s` with every leading and trailing copy of `c` removed (std's
/// `str::trim_matches` with a `char` pattern).
pub open spec fn trim_matches(s: Seq<char>, c: char) -> Seq<char> {
    trim_end_matches(trim_start_matches(s, c), c)
}

/// Index of the first character of `s[from..]` that is not whitespace
/// (or `s.len()` when there is none).
fn skip_white_from(s: &[char], from: usize) -> (i: usize)
    requires
        from <= s@.len(),
    ensures
        from <= i <= s@.len(),
        trim_start(s@.skip(from as int)) == s@.skip(i as int),
{
    let n = s.len();
    let mut i = from;
    while i < n && char_is_white(s[i])
        invariant
            n == s@.len(),
            from <= i <= n,
            trim_start(s@.skip(from as int)) == trim_start(s@.skip(i as int)),
        decreases n - i,
    {
        assert(s@.skip(i as int).drop_first() == s@.skip(i + 1));
        i += 1;
    }
    i
}

/// Length of `s[..to]` once its trailing whitespace is removed.
fn drop_white_before(s: &[char], to: usize) -> (j: usize)
    requires
        to <= s@.len(),
    ensures
        j <= to,
        trim_end(s@.take(to as int)) == s@.take(j as int),
{
    let mut j = to;
    while j > 0 && char_is_white(s[j - 1])
        invariant
            j <= to <= s@.len(),
            trim_end(s@.take(to as int)) == trim_end(s@.take(j as int)),
        decreases j,
    {
        assert(s@.take(j as int).drop_last() == s@.take(j - 1));
        j -= 1;
    }
    j
}

/// The characters `s[lo..hi]` as a new vector.
pub fn slice_of(s: &[char], lo: usize, hi: usize) -> (out: Vec<char>)
    requires
        lo <= hi <= s@.len(),
    ensures
        out@ == s@.subrange(lo as int, hi as int),
{
    vstd::slice::slice_to_vec(vstd::slice::slice_subrange(s, lo, hi))
}

/// `s` with leading whitespace removed.
pub fn trimmed_start(s: &[char]) -> (out: Vec<char>)
    ensures
        out@ == trim_start(s@),
{
    let i = skip_white_from(s, 0);
    assert(s@.skip(0) == s@);
    assert(s@.skip(i as int) == s@.subrange(i as int, s@.len() as int));
    slice_of(s, i, s.len())
}

/// `s` with trailing whitespace removed.
pub fn trimmed_end(s: &[char]) -> (out: Vec<char>)
    ensures
        out@ == trim_end(s@),
{
    let j = drop_white_before(s, s.len());
    assert(s@.take(s@.len() as int) == s@);
    assert(s@.take(j as int) == s@.subrange(0, j as int));
    slice_of(s, 0, j)
}

/// `s` with leading and trailing whitespace removed.
pub fn trimmed(s: &[char]) -> (out: Vec<char>)
    ensures
        out@ == trim(s@),
{
    let t = trimmed_start(s);
    trimmed_end(&t)
}

/// `s` with every leading and trailing copy of `c` removed.
pub fn trimmed_matches(s: &[char], c: char) -> (out: Vec<char>)
    ensures
        out@ == trim_matches(s@, c),
{
    let n = s.len();
    let mut i: usize = 0;
    assert(s@.skip(0) == s@);
    while i < n && s[i] == c
        invariant
            n == s@.len(),
            i <= n,
            trim_start_matches(s@, c) == trim_start_matches(s@.skip(i as int), c),
        decreases n - i,
    {
        assert(s@.skip(i as int).drop_first() == s@.skip(i + 1));
        i += 1;
    }
    let ghost rest = s@.skip(i as int);
    assert(trim_start_matches(s@, c) == rest);
    let mut j: usize = n;
    while j > i && s[j - 1] == c
        invariant
            n == s@.len(),
            i <= j <= n,
            rest == s@.skip(i as int),
            trim_end_matches(rest, c) == trim_end_matches(s@.subrange(i as int, j as int), c),
        decreases j,
    {
        assert(s@.subrange(i as int, j as int).drop_last() == s@.subrange(i as int, j - 1));
        j -= 1;
    }
    assert(rest == s@.subrange(i as int, n as int));
    slice_of(s, i, j)
}


/// The pieces of `s` between occurrences of `sep` (std's `str::split` with a
/// `char` pattern): one more piece than there are separators.
pub open spec fn split_on(s: Seq<char>, sep: char) -> Seq<Seq<char>>
    decreases s.len(),
{
    if s.len() == 0 {
        seq![Seq::empty()]
    } else {
        let init = split_on(s.drop_last(), sep);
        if s.last() == sep {
            init.push(Seq::empty())
        } else {
            init.update(init.len() - 1, init.last().push(s.last()))
        }
    }
}

/// `split_on` never yields an empty list of pieces.
pub proof fn lemma_split_on_nonempty(s: Seq<char>, sep: char)
    ensures
        split_on(s, sep).len() >= 1,
    decreases s.len(),
{
    if s.len() > 0 {
        lemma_split_on_nonempty(s.drop_last(), sep);
    }
}

/// For a vector of characters the deep view is the plain view.
pub proof fn lemma_chars_deep_view(v: Vec<char>)
    ensures
        v.deep_view() == v@,
{
    assert(v.deep_view() =~= v@);
}

/// The pieces of `s` between occurrences of `sep`.
pub fn split(s: &[char], sep: char) -> (out: Vec<Vec<char>>)
    ensures
        out.deep_view() == split_on(s@, sep),
{
    let mut out: Vec<Vec<char>> = Vec::new();
    let mut cur: Vec<char> = Vec::new();
    let n = s.len();
    let mut i: usize = 0;
    assert(s@.take(0) == Seq::<char>::empty());
    assert(out.deep_view().push(cur@) == seq![Seq::<char>::empty()]);
    while i < n
        invariant
            n == s@.len(),
            i <= n,
            out.deep_view().push(cur@) == split_on(s@.take(i as int), sep),
        decreases n - i,
    {
        let ghost before = out.deep_view();
        let ghost cur_before = cur@;
        let c = s[i];
        assert(s@.take(i + 1).drop_last() == s@.take(i as int));
        proof {
            lemma_split_on_nonempty(s@.take(i as int), sep);
        }
        if c == sep {
            proof {
                lemma_chars_deep_view(cur);
            }
            out.push(cur);
            cur = Vec::new();
            assert(out.deep_view() =~= before.push(cur_before));
        } else {
            cur.push(c);
            assert(out.deep_view() =~= before);
            assert(before.push(cur_before).update(before.len() as int, cur_before.push(c))
                == before.push(cur@));
        }
        i += 1;
    }
    assert(s@.take(n as int) == s@);
    let ghost before = out.deep_view();
    let ghost last = cur@;
    proof {
        lemma_chars_deep_view(cur);
    }
    out.push(cur);
    assert(out.deep_view() =~= before.push(last));
    out
}

/// Whether `s` begins with `p`.
pub fn has_prefix(s: &[char], p: &[char]) -> (b: bool)
    ensures
        b == p@.is_prefix_of(s@),
{
    let n = p.len();
    if n > s.len() {
        return false;
    }
    let mut i: usize = 0;
    while i < n
        invariant
            n == p@.len(),
            n <= s@.len(),
            i <= n,
            forall|k: int| 0 <= k < i ==> p@[k] == s@[k],
        decreases n - i,
    {
        if p[i] != s[i] {
            assert(p@ != s@.subrange(0, n as int)) by {
                assert(s@.subrange(0, n as int)[i as int] == s@[i as int]);
            }
            return false;
        }
        i += 1;
    }
    assert(p@ =~= s@.subrange(0, n as int));
    true
}

/// `s` with the prefix `p` removed, when `s` begins with `p`
/// (std's `str::strip_prefix`).
pub open spec fn strip_prefix(s: Seq<char>, p: Seq<char>) -> Option<Seq<char>> {
    if p.is_prefix_of(s) {
        Some(s.skip(p.len() as int))
    } else {
        None
    }
}

/// `s` with the prefix `p` removed, when `s` begins with `p`.
pub fn stripped_prefix(s: &[char], p: &[char]) -> (out: Option<Vec<char>>)
    ensures
        out.deep_view() == strip_prefix(s@, p@),
{
    if has_prefix(s, p) {
        let rest = slice_of(s, p.len(), s.len());
        assert(rest@ == s@.skip(p@.len() as int));
        Some(rest)
    } else {
        None
    }
}

/// Concatenation of two character sequences as a new vector.
pub fn concat(a: &[char], b: &[char]) -> (out: Vec<char>)
    ensures
        out@ == a@ + b@,
{
    let mut out = vstd::slice::slice_to_vec(a);
    let n = b.len();
    let mut i: usize = 0;
    while i < n
        invariant
            n == b@.len(),
            i <= n,
            out@ == a@ + b@.take(i as int),
        decreases n - i,
    {
        out.push(b[i]);
        i += 1;
        assert(a@ + b@.take(i as int) == (a@ + b@.take(i - 1)).push(b@[i - 1]));
    }
    assert(b@.take(n as int) == b@);
    out
}

/// The view of an optional `String`.
pub open spec fn opt_view(o: Option<String>) -> Option<Seq<char>> {
    match o {
        Some(s) => Some(s@),
        None => None,
    }
}

/// An optional character vector turned into an optional `String`.
pub fn opt_string(o: Option<Vec<char>>) -> (out: Option<String>)
    ensures
        opt_view(out) == o.deep_view(),
{
    match o {
        Some(v) => Some(string_of(&v)),
        None => None,
    }
}


/// Whether `p` occurs in `s` starting at index `i`.
pub open spec fn occurs_at(s: Seq<char>, p: Seq<char>, i: int) -> bool {
    0 <= i && i + p.len() <= s.len() && s.subrange(i, i + p.len()) == p
}

/// The first index at or after `i` where `p` occurs in `s`.
pub open spec fn find_from(s: Seq<char>, p: Seq<char>, i: int) -> Option<int>
    decreases s.len() + 1 - i,
{
    if i < 0 || i + p.len() > s.len() {
        None
    } else if occurs_at(s, p, i) {
        Some(i)
    } else {
        find_from(s, p, i + 1)
    }
}

/// `find_from` gives an occurrence, the first one from `i` on, or says that
/// there is none.
pub proof fn lemma_find_from(s: Seq<char>, p: Seq<char>, i: int)
    requires
        0 <= i,
    ensures
        match find_from(s, p, i) {
            Some(k) => i <= k && occurs_at(s, p, k) && forall|j: int| i <= j < k ==> !occurs_at(s, p, j),
            None => forall|j: int| i <= j ==> !occurs_at(s, p, j),
        },
    decreases s.len() + 1 - i,
{
    if i + p.len() > s.len() {
    } else if occurs_at(s, p, i) {
    } else {
        lemma_find_from(s, p, i + 1);
    }
}

/// Whether `p` occurs anywhere in `s` (std's `str::contains`).
pub open spec fn contains(s: Seq<char>, p: Seq<char>) -> bool {
    find_from(s, p, 0) is Some
}

/// The first index at or after `from` where `p` occurs in `s`.
pub fn find(s: &[char], p: &[char], from: usize) -> (out: Option<usize>)
    ensures
        match out {
            Some(k) => find_from(s@, p@, from as int) == Some(k as int),
            None => find_from(s@, p@, from as int) is None,
        },
{
    let n = s.len();
    let m = p.len();
    let mut i = from;
    while i <= n && m <= n - i
        invariant
            n == s@.len(),
            m == p@.len(),
            from <= i,
            find_from(s@, p@, from as int) == find_from(s@, p@, i as int),
        decreases n + 1 - i,
    {
        let rest = vstd::slice::slice_subrange(s, i, n);
        if has_prefix(rest, p) {
            assert(s@.subrange(i as int, i + m) == rest@.subrange(0, m as int));
            return Some(i);
        }
        assert(!occurs_at(s@, p@, i as int)) by {
            if occurs_at(s@, p@, i as int) {
                assert(s@.subrange(i as int, i + m) == rest@.subrange(0, m as int));
            }
        }
        i += 1;
    }
    None
}

/// `s` with every `\r\n` replaced by `\n` (std's `str::replace`, which
/// rewrites non-overlapping matches from the left).
pub open spec fn crlf_to_lf(s: Seq<char>) -> Seq<char>
    decreases s.len(),
{
    if s.len() >= 2 && s[0] == '\r' && s[1] == '\n' {
        seq!['\n'] + crlf_to_lf(s.skip(2))
    } else if s.len() > 0 {
        seq![s[0]] + crlf_to_lf(s.drop_first())
    } else {
        Seq::empty()
    }
}

/// `s[i..]` with every `\r\n` replaced by `\n`.
pub fn crlf_replaced(s: &[char]) -> (out: Vec<char>)
    ensures
        out@ == crlf_to_lf(s@),
{
    let n = s.len();
    let mut out: Vec<char> = Vec::new();
    let mut i: usize = 0;
    assert(s@.skip(0) == s@);
    while i < n
        invariant
            n == s@.len(),
            i <= n,
            crlf_to_lf(s@) == out@ + crlf_to_lf(s@.skip(i as int)),
        decreases n - i,
    {
        let ghost before = out@;
        if i + 1 < n && s[i] == '\r' && s[i + 1] == '\n' {
            assert(s@.skip(i as int).skip(2) == s@.skip(i + 2));
            out.push('\n');
            i += 2;
            assert(before + (seq!['\n'] + crlf_to_lf(s@.skip(i as int))) == out@ + crlf_to_lf(s@.skip(i as int)));
        } else {
            assert(s@.skip(i as int).drop_first() == s@.skip(i + 1));
            out.push(s[i]);
            i += 1;
            assert(before + (seq![s@[i - 1]] + crlf_to_lf(s@.skip(i as int))) == out@ + crlf_to_lf(s@.skip(i as int)));
        }
    }
    assert(out@ + crlf_to_lf(s@.skip(n as int)) == out@);
    out
}

/// A piece that ended at a line break, without a `\r` just before that break.
pub open spec fn strip_cr(piece: Seq<char>) -> Seq<char> {
    if piece.len() > 0 && piece.last() == '\r' {
        piece.drop_last()
    } else {
        piece
    }
}

/// The lines of `s` as std's `str::lines` yields them: pieces between `\n`,
/// a `\r` before a `\n` dropped, and no empty piece after a final `\n`.
pub open spec fn std_lines(s: Seq<char>) -> Seq<Seq<char>> {
    let parts = split_on(s, '\n');
    let n = parts.len() as int;
    let k = if parts[n - 1].len() == 0 { n - 1 } else { n };
    Seq::new(k as nat, |i: int| if i < n - 1 { strip_cr(parts[i]) } else { parts[i] })
}

/// The lines of `s` (std's `str::lines`).
pub fn lines_of(s: &[char]) -> (out: Vec<Vec<char>>)
    ensures
        out.deep_view() == std_lines(s@),
{
    let parts = split(s, '\n');
    proof {
        lemma_split_on_nonempty(s@, '\n');
    }
    let n = parts.len();
    let k = if parts[n - 1].len() == 0 { n - 1 } else { n };
    let ghost pv = parts.deep_view();
    assert(pv[n - 1] == parts[n - 1]@) by {
        lemma_chars_deep_view(parts[n - 1]);
    }
    let mut out: Vec<Vec<char>> = Vec::new();
    let mut i: usize = 0;
    while i < k
        invariant
            pv == parts.deep_view(),
            pv == split_on(s@, '\n'),
            n == pv.len(),
            k <= n,
            k == (if pv[n - 1].len() == 0 { n - 1 } else { n as int }),
            i <= k,
            out.deep_view() == Seq::new(i as nat, |j: int| if j < n - 1 { strip_cr(pv[j]) } else { pv[j] }),
        decreases k - i,
    {
        let piece = &parts[i];
        assert(piece@ == pv[i as int]) by {
            lemma_chars_deep_view(parts[i as int]);
        }
        let m = piece.len();
        let line = if i + 1 < n && m > 0 && piece[m - 1] == '\r' {
            slice_of(piece.as_slice(), 0, m - 1)
        } else {
            slice_of(piece.as_slice(), 0, m)
        };
        assert(piece@.subrange(0, m as int) == piece@);
        if m > 0 {
            assert(piece@.subrange(0, m - 1) == piece@.drop_last());
        }
        assert(line@ == (if i < n - 1 { strip_cr(pv[i as int]) } else { pv[i as int] }));
        let ghost before = out.deep_view();
        proof {
            lemma_chars_deep_view(line);
        }
        out.push(line);
        assert(out.deep_view() =~= before.push(line@));
        assert(out.deep_view() =~= Seq::new(i as nat + 1, |j: int| if j < n - 1 { strip_cr(pv[j]) } else { pv[j] }));
        i += 1;
    }
    out
}


/// Every piece of `split_on(s, sep)` is at most as long as `s`.
pub proof fn lemma_split_on_pieces_len(s: Seq<char>, sep: char)
    ensures
        forall|i: int| 0 <= i < split_on(s, sep).len() ==> #[trigger] split_on(s, sep)[i].len() <= s.len(),
    decreases s.len(),
{
    if s.len() > 0 {
        lemma_split_on_pieces_len(s.drop_last(), sep);
        lemma_split_on_nonempty(s.drop_last(), sep);
    }
}

/// Trimming never lengthens a sequence.
pub proof fn lemma_trim_len(s: Seq<char>)
    ensures
        trim_start(s).len() <= s.len(),
        trim_end(s).len() <= s.len(),
        trim(s).len() <= s.len(),
    decreases s.len(),
{
    if s.len() > 0 {
        lemma_trim_len(s.drop_first());
        lemma_trim_len(s.drop_last());
    }
    if trim_start(s).len() <= s.len() {
        lemma_trim_end_len(trim_start(s));
    }
}

proof fn lemma_trim_end_len(s: Seq<char>)
    ensures
        trim_end(s).len() <= s.len(),
    decreases s.len(),
{
    if s.len() > 0 {
        lemma_trim_end_len(s.drop_last());
    }
}

/// `trim_start` drops exactly the leading run of whitespace: what it gives
/// is a suffix of `s`, everything cut off is whitespace, and what is left
/// does not start with whitespace.
pub proof fn lemma_trim_start_cuts_leading_white(s: Seq<char>)
    ensures
        trim_start(s).len() <= s.len(),
        trim_start(s) == s.skip(s.len() - trim_start(s).len()),
        forall|j: int| 0 <= j < s.len() - trim_start(s).len() ==> is_white(#[trigger] s[j]),
        trim_start(s).len() > 0 ==> !is_white(trim_start(s)[0]),
    decreases s.len(),
{
    if s.len() > 0 && is_white(s[0]) {
        let t = s.drop_first();
        lemma_trim_start_cuts_leading_white(t);
        assert(t.skip(t.len() - trim_start(s).len()) =~= s.skip(s.len() - trim_start(s).len()));
        assert forall|j: int| 0 <= j < s.len() - trim_start(s).len() implies is_white(#[trigger] s[j]) by {
            if j > 0 {
                assert(s[j] == t[j - 1]);
            }
        }
    } else {
        assert(s.skip(0) =~= s);
    }
}

/// `trim_end` drops exactly the trailing run of whitespace: what it gives
/// is a prefix of `s`, everything cut off is whitespace, and what is left
/// does not end with whitespace.
pub proof fn lemma_trim_end_cuts_trailing_white(s: Seq<char>)
    ensures
        trim_end(s).len() <= s.len(),
        trim_end(s) == s.take(trim_end(s).len() as int),
        forall|j: int| trim_end(s).len() <= j < s.len() ==> is_white(#[trigger] s[j]),
        trim_end(s).len() > 0 ==> !is_white(trim_end(s).last()),
    decreases s.len(),
{
    if s.len() > 0 && is_white(s.last()) {
        let t = s.drop_last();
        lemma_trim_end_cuts_trailing_white(t);
        assert(t.take(trim_end(s).len() as int) =~= s.take(trim_end(s).len() as int));
        assert forall|j: int| trim_end(s).len() <= j < s.len() implies is_white(#[trigger] s[j]) by {
            if j < s.len() - 1 {
                assert(s[j] == t[j]);
            }
        }
    } else {
        assert(s.take(s.len() as int) =~= s);
    }
}

/// A UTF-8 encoding takes at most four bytes per character.
pub proof fn lemma_encode_utf8_len(s: Seq<char>)
    ensures
        vstd::utf8::encode_utf8(s).len() <= 4 * s.len(),
    decreases s.len(),
{
    if s.len() > 0 {
        lemma_encode_utf8_len(s.drop_first());
        assert(vstd::utf8::encode_scalar(s[0] as u32).len() <= 4);
    }
}


/// The text `a`, `b` and `c` written one after the other.
pub fn join3(a: &str, b: &str, c: &str) -> (out: String)
    ensures
        out@ == a@ + b@ + c@,
{
    let x = chars_of(a);
    let y = chars_of(b);
    let z = chars_of(c);
    let xy = concat(&x, &y);
    let xyz = concat(&xy, &z);
    string_of(&xyz)
}

/// `s` with leading and trailing whitespace removed.
pub fn trim_str(s: &str) -> (out: String)
    ensures
        out@ == trim(s@),
{
    let cs = chars_of(s);
    let t = trimmed(&cs);
    string_of(&t)
}

/// `s` without its last character (unchanged when empty).
pub fn without_last(s: &str) -> (out: String)
    ensures
        out@ == (if s@.len() == 0 { s@ } else { s@.drop_last() }),
{
    let cs = chars_of(s);
    if cs.len() == 0 {
        string_of(&cs)
    } else {
        let shorter = slice_of(&cs, 0, cs.len() - 1);
        assert(shorter@ == s@.drop_last());
        string_of(&shorter)
    }
}

} // verus!
