//! Reading the Riot Client's session and settings text.
use vstd::prelude::*;
use crate::text::{
    chars_of, concat, contains, crlf_replaced, crlf_to_lf, find, find_from, has_prefix,
    lemma_chars_deep_view,
    lines_of, opt_string, opt_view, slice_of, split, split_on, std_lines, string_of, strip_prefix,
    stripped_prefix, trim, trim_end, trim_matches, trim_start, trimmed, trimmed_end,
    trimmed_matches, trimmed_start,
};

verus! {

/// A value as the session readers take it from the text after a key:
/// surrounding whitespace, then surrounding double quotes, then surrounding
/// single quotes removed.
pub open spec fn clean_value(v: Seq<char>) -> Seq<char> {
    trim_matches(trim_matches(trim(v), '"'), '\'')
}

/// A cleaned value counts when it is not empty and does not open a nested
/// block (`{`).
pub open spec fn usable(v: Seq<char>) -> bool {
    v.len() > 0 && v[0] != '{'
}

/// The value that `line` gives for the key `prefix`: the line is trimmed,
/// must start with `prefix`, and what follows must clean to a usable value.
pub open spec fn field_on_line(line: Seq<char>, prefix: Seq<char>) -> Option<Seq<char>> {
    match strip_prefix(trim(line), prefix) {
        Some(rest) => if usable(clean_value(rest)) {
            Some(clean_value(rest))
        } else {
            None
        },
        None => None,
    }
}

/// The value that `line` gives for the first of `prefixes` that yields one.
pub open spec fn field_on_line_any(line: Seq<char>, prefixes: Seq<Seq<char>>) -> Option<Seq<char>>
    decreases prefixes.len(),
{
    if prefixes.len() == 0 {
        None
    } else {
        match field_on_line(line, prefixes[0]) {
            Some(v) => Some(v),
            None => field_on_line_any(line, prefixes.drop_first()),
        }
    }
}

/// The value given by the first line (in order) that yields one for any of
/// `prefixes`.
pub open spec fn first_field(lines: Seq<Seq<char>>, prefixes: Seq<Seq<char>>) -> Option<Seq<char>>
    decreases lines.len(),
{
    if lines.len() == 0 {
        None
    } else {
        match field_on_line_any(lines[0], prefixes) {
            Some(v) => Some(v),
            None => first_field(lines.drop_first(), prefixes),
        }
    }
}

/// A field is read from the first line that gives a usable value for one
/// of its keys: that line gives the value, and no line before it gives any;
/// when there is none, no line gives one.
pub proof fn lemma_first_field_is_first_line(lines: Seq<Seq<char>>, prefixes: Seq<Seq<char>>)
    ensures
        first_field(lines, prefixes) matches Some(v) ==> exists|k: int|
            0 <= k < lines.len() && #[trigger] field_on_line_any(lines[k], prefixes) == Some(v) && forall|j: int|
                0 <= j < k ==> (#[trigger] field_on_line_any(lines[j], prefixes)) is None,
        first_field(lines, prefixes) is None ==> forall|k: int|
            0 <= k < lines.len() ==> (#[trigger] field_on_line_any(lines[k], prefixes)) is None,
    decreases lines.len(),
{
    if lines.len() > 0 {
        let t = lines.drop_first();
        lemma_first_field_is_first_line(t, prefixes);
        if field_on_line_any(lines[0], prefixes) is None {
            if let Some(v) = first_field(lines, prefixes) {
                let k = choose|k: int|
                    0 <= k < t.len() && #[trigger] field_on_line_any(t[k], prefixes) == Some(v) && forall|j: int|
                        0 <= j < k ==> (#[trigger] field_on_line_any(t[j], prefixes)) is None;
                assert(lines[k + 1] == t[k]);
                assert forall|j: int| 0 <= j < k + 1 implies (#[trigger] field_on_line_any(lines[j], prefixes)) is None by {
                    if j > 0 {
                        assert(lines[j] == t[j - 1]);
                    }
                }
            } else {
                assert forall|k: int| 0 <= k < lines.len() implies (#[trigger] field_on_line_any(lines[k], prefixes)) is None by {
                    if k > 0 {
                        assert(lines[k] == t[k - 1]);
                    }
                }
            }
        }
    }
}

proof fn lemma_first_field_at(lines: Seq<Seq<char>>, prefixes: Seq<Seq<char>>, k: int, v: Seq<char>)
    requires
        0 <= k < lines.len(),
        field_on_line_any(lines[k], prefixes) == Some(v),
        forall|j: int| 0 <= j < k ==> (#[trigger] field_on_line_any(lines[j], prefixes)) is None,
    ensures
        first_field(lines, prefixes) == Some(v),
    decreases k,
{
    if k > 0 {
        let t = lines.drop_first();
        assert(field_on_line_any(lines[0], prefixes) is None);
        assert(t[k - 1] == lines[k]);
        assert forall|j: int| 0 <= j < k - 1 implies (#[trigger] field_on_line_any(t[j], prefixes)) is None by {
            assert(t[j] == lines[j + 1]);
        }
        lemma_first_field_at(t, prefixes, k - 1, v);
    }
}

proof fn lemma_first_field_none(lines: Seq<Seq<char>>, prefixes: Seq<Seq<char>>)
    requires
        forall|k: int| 0 <= k < lines.len() ==> (#[trigger] field_on_line_any(lines[k], prefixes)) is None,
    ensures
        first_field(lines, prefixes) is None,
{
    lemma_first_field_is_first_line(lines, prefixes);
    if let Some(v) = first_field(lines, prefixes) {
        let k = choose|k: int|
            0 <= k < lines.len() && #[trigger] field_on_line_any(lines[k], prefixes) == Some(v) && forall|j: int|
                0 <= j < k ==> (#[trigger] field_on_line_any(lines[j], prefixes)) is None;
    }
}

/// The Riot ID of a session: the game name given by the first line that
/// gives one (under `gameName:` or `game-name:`), followed by `#` and the
/// tag given by the first line that gives one (under `tagLine:`), or the bare
/// name when no line gives a tag; none when no line gives a name.
pub proof fn lemma_riot_id_from_first_lines(data: Seq<char>, k: int, name: Seq<char>, m: int, tag: Seq<char>)
    ensures
        ({
            let lines = std_lines(data);
            let name_keys = seq!["gameName:"@, "game-name:"@];
            let tag_keys = seq!["tagLine:"@];
            &&& (forall|i: int| 0 <= i < lines.len() ==> (#[trigger] field_on_line_any(lines[i], name_keys)) is None)
                ==> riot_id_in(data) is None
            &&& (0 <= k < lines.len() && field_on_line_any(lines[k], name_keys) == Some(name) && (forall|j: int|
                0 <= j < k ==> (#[trigger] field_on_line_any(lines[j], name_keys)) is None)) ==> {
                &&& (forall|i: int| 0 <= i < lines.len() ==> (#[trigger] field_on_line_any(lines[i], tag_keys)) is None)
                    ==> riot_id_in(data) == Some(name)
                &&& (0 <= m < lines.len() && field_on_line_any(lines[m], tag_keys) == Some(tag) && (forall|j: int|
                    0 <= j < m ==> (#[trigger] field_on_line_any(lines[j], tag_keys)) is None)) ==> riot_id_in(data)
                    == Some(name + seq!['#'] + tag)
            }
        }),
{
    let lines = std_lines(data);
    let name_keys = seq!["gameName:"@, "game-name:"@];
    let tag_keys = seq!["tagLine:"@];
    if forall|i: int| 0 <= i < lines.len() ==> (#[trigger] field_on_line_any(lines[i], name_keys)) is None {
        lemma_first_field_none(lines, name_keys);
    }
    if 0 <= k < lines.len() && field_on_line_any(lines[k], name_keys) == Some(name) && (forall|j: int|
        0 <= j < k ==> (#[trigger] field_on_line_any(lines[j], name_keys)) is None) {
        lemma_first_field_at(lines, name_keys, k, name);
        if forall|i: int| 0 <= i < lines.len() ==> (#[trigger] field_on_line_any(lines[i], tag_keys)) is None {
            lemma_first_field_none(lines, tag_keys);
        }
        if 0 <= m < lines.len() && field_on_line_any(lines[m], tag_keys) == Some(tag) && (forall|j: int|
            0 <= j < m ==> (#[trigger] field_on_line_any(lines[j], tag_keys)) is None) {
            lemma_first_field_at(lines, tag_keys, m, tag);
        }
    }
}

/// The lines of a session text, as std's `str::lines` yields them.
pub open spec fn text_lines(data: Seq<char>) -> Seq<Seq<char>> {
    std_lines(data)
}

fn cleaned(v: &[char]) -> (out: Vec<char>)
    ensures
        out@ == clean_value(v@),
{
    let t = trimmed(v);
    let t = trimmed_matches(&t, '"');
    trimmed_matches(&t, '\'')
}

fn field_on_line_exec(line: &[char], prefix: &[char]) -> (out: Option<Vec<char>>)
    ensures
        out.deep_view() == field_on_line(line@, prefix@),
{
    let t = trimmed(line);
    match stripped_prefix(&t, prefix) {
        Some(rest) => {
            proof {
                lemma_chars_deep_view(rest);
            }
            let v = cleaned(&rest);
            if v.len() > 0 && v[0] != '{' {
                proof {
                    lemma_chars_deep_view(v);
                }
                Some(v)
            } else {
                None
            }
        },
        None => None,
    }
}

fn field_on_line_any_exec(line: &[char], prefixes: &Vec<Vec<char>>) -> (out: Option<Vec<char>>)
    ensures
        out.deep_view() == field_on_line_any(line@, prefixes.deep_view()),
{
    let n = prefixes.len();
    let mut i: usize = 0;
    assert(prefixes.deep_view().skip(0) == prefixes.deep_view());
    while i < n
        invariant
            n == prefixes.deep_view().len(),
            i <= n,
            field_on_line_any(line@, prefixes.deep_view())
                == field_on_line_any(line@, prefixes.deep_view().skip(i as int)),
        decreases n - i,
    {
        let ghost rest = prefixes.deep_view().skip(i as int);
        assert(rest[0] == prefixes[i as int]@) by {
            lemma_chars_deep_view(prefixes[i as int]);
        }
        assert(rest.drop_first() == prefixes.deep_view().skip(i + 1));
        let r = field_on_line_exec(line, prefixes[i].as_slice());
        if r.is_some() {
            return r;
        }
        i += 1;
    }
    None
}

fn first_field_exec(lines: &Vec<Vec<char>>, prefixes: &Vec<Vec<char>>) -> (out: Option<Vec<char>>)
    ensures
        out.deep_view() == first_field(lines.deep_view(), prefixes.deep_view()),
{
    let n = lines.len();
    let mut i: usize = 0;
    assert(lines.deep_view().skip(0) == lines.deep_view());
    while i < n
        invariant
            n == lines.deep_view().len(),
            i <= n,
            first_field(lines.deep_view(), prefixes.deep_view())
                == first_field(lines.deep_view().skip(i as int), prefixes.deep_view()),
        decreases n - i,
    {
        let ghost rest = lines.deep_view().skip(i as int);
        assert(rest[0] == lines[i as int]@) by {
            lemma_chars_deep_view(lines[i as int]);
        }
        assert(rest.drop_first() == lines.deep_view().skip(i + 1));
        let r = field_on_line_any_exec(lines[i].as_slice(), prefixes);
        if r.is_some() {
            return r;
        }
        i += 1;
    }
    None
}

/// The character vectors of the given keys.
fn keys(a: &str, b: Option<&str>, c: Option<&str>) -> (out: Vec<Vec<char>>)
    ensures
        out.deep_view() == match (b, c) {
            (Some(b), Some(c)) => seq![a@, b@, c@],
            (Some(b), None) => seq![a@, b@],
            _ => seq![a@],
        },
{
    let mut out: Vec<Vec<char>> = Vec::new();
    let va = chars_of(a);
    proof { lemma_chars_deep_view(va); }
    out.push(va);
    if let Some(b) = b {
        let vb = chars_of(b);
        proof { lemma_chars_deep_view(vb); }
        out.push(vb);
        if let Some(c) = c {
            let vc = chars_of(c);
            proof { lemma_chars_deep_view(vc); }
            out.push(vc);
        }
    }
    assert(out.deep_view() =~= match (b, c) {
        (Some(b), Some(c)) => seq![a@, b@, c@],
        (Some(b), None) => seq![a@, b@],
        _ => seq![a@],
    });
    out
}

/// The Riot ID that a session text names: `gameName` (or `game-name`) and,
/// when present, `tagLine`, joined as `name#tag`.
pub open spec fn riot_id_in(data: Seq<char>) -> Option<Seq<char>> {
    let lines = text_lines(data);
    match (
        first_field(lines, seq!["gameName:"@, "game-name:"@]),
        first_field(lines, seq!["tagLine:"@]),
    ) {
        (Some(name), Some(tag)) => Some(name + seq!['#'] + tag),
        (Some(name), None) => Some(name),
        _ => None,
    }
}

/// The login name that a session text names under `username`, `user-name`
/// or `acct` (the first line that gives one).
pub open spec fn username_in(data: Seq<char>) -> Option<Seq<char>> {
    first_field(text_lines(data), seq!["username:"@, "user-name:"@, "acct:"@])
}

/// The region that a session text names under `region`.
pub open spec fn region_in(data: Seq<char>) -> Option<Seq<char>> {
    first_field(text_lines(data), seq!["region:"@])
}

/// Finds the Riot ID (`name#tag`, or the bare name when no tag line is
/// present) in a saved session.
pub fn extract_riot_id(data: &str) -> (out: Option<String>)
    ensures
        opt_view(out) == riot_id_in(data@),
{
    let cs = chars_of(data);
    let lines = lines_of(&cs);
    let name_keys = keys("gameName:", Some("game-name:"), None);
    let tag_keys = keys("tagLine:", None, None);
    let name = first_field_exec(&lines, &name_keys);
    let tag = first_field_exec(&lines, &tag_keys);
    match (name, tag) {
        (Some(n), Some(t)) => {
            let mut with_hash = n;
            with_hash.push('#');
            let joined = concat(&with_hash, &t);
            Some(string_of(&joined))
        },
        (Some(n), None) => Some(string_of(&n)),
        _ => None,
    }
}

/// Finds the login name in a saved session.
pub fn extract_username(data: &str) -> (out: Option<String>)
    ensures
        opt_view(out) == username_in(data@),
{
    let cs = chars_of(data);
    let lines = lines_of(&cs);
    let ks = keys("username:", Some("user-name:"), Some("acct:"));
    opt_string(first_field_exec(&lines, &ks))
}

/// Finds the region that a saved session was made for.
pub fn extract_persist_region(token_data: &str) -> (out: Option<String>)
    ensures
        opt_view(out) == region_in(token_data@),
{
    let cs = chars_of(token_data);
    let lines = lines_of(&cs);
    let ks = keys("region:", None, None);
    opt_string(first_field_exec(&lines, &ks))
}


/// Whether position `p` of `r` opens a top-level line: it follows a line
/// break and holds something other than a line break, a space or a tab.
pub open spec fn opens_top_level_line(r: Seq<char>, p: int) -> bool {
    1 <= p < r.len() && r[p - 1] == '\n' && r[p] != '\n' && r[p] != ' ' && r[p] != '\t'
}

/// Where the YAML section that begins `r` ends: at the first top-level line
/// after its header line, or at the end of `r`.
pub open spec fn section_end_from(r: Seq<char>, p: int) -> int
    decreases r.len() - p,
{
    if p >= r.len() {
        r.len() as int
    } else if opens_top_level_line(r, p) {
        p
    } else {
        section_end_from(r, p + 1)
    }
}

/// Where the top-level section `key:` starts in `y`: at the very beginning,
/// or just after the first line break that is followed by `key:`.
pub open spec fn section_start(y: Seq<char>, key: Seq<char>) -> Option<int> {
    if (key + seq![':']).is_prefix_of(y) {
        Some(0)
    } else {
        match find_from(y, seq!['\n'] + key + seq![':'], 0) {
            Some(i) => Some(i + 1),
            None => None,
        }
    }
}

/// The top-level YAML section `key:` of `yaml` (line breaks normalised to
/// `\n`): its header line and every following line that is empty or
/// indented, with trailing whitespace removed.
pub open spec fn yaml_section(yaml: Seq<char>, key: Seq<char>) -> Option<Seq<char>> {
    let y = crlf_to_lf(yaml);
    match section_start(y, key) {
        Some(st) => {
            let rest = y.skip(st);
            Some(trim_end(rest.take(section_end_from(rest, 1))))
        },
        None => None,
    }
}

fn section_end(r: &[char]) -> (e: usize)
    ensures
        e as int == section_end_from(r@, 1),
        e <= r@.len(),
{
    let n = r.len();
    let mut p: usize = 1;
    while p < n
        invariant
            n == r@.len(),
            1 <= p,
            section_end_from(r@, 1) == section_end_from(r@, p as int),
        decreases n - p,
    {
        if r[p - 1] == '\n' && r[p] != '\n' && r[p] != ' ' && r[p] != '\t' {
            return p;
        }
        p += 1;
    }
    n
}

/// Takes the top-level section `key:` out of a YAML document.
pub fn extract_yaml_section(yaml: &str, key: &str) -> (out: Option<String>)
    ensures
        opt_view(out) == yaml_section(yaml@, key@),
{
    let ycs = chars_of(yaml);
    let y = crlf_replaced(&ycs);
    let k = chars_of(key);
    let mut colon: Vec<char> = Vec::new();
    colon.push(':');
    let header = concat(&k, &colon);
    let start = if has_prefix(&y, &header) {
        0
    } else {
        let mut nl: Vec<char> = Vec::new();
        nl.push('\n');
        let nl_key = concat(&nl, &header);
        assert(nl_key@ == seq!['\n'] + k@ + seq![':']);
        match find(&y, &nl_key, 0) {
            Some(i) => {
                proof {
                    crate::text::lemma_find_from(y@, nl_key@, 0);
                }
                let ylen = y.len();
                assert(i + 1 <= ylen);
                i + 1
            },
            None => {
                return None;
            },
        }
    };
    let rest = slice_of(&y, start, y.len());
    assert(rest@ == y@.skip(start as int));
    let end = section_end(&rest);
    let section = slice_of(&rest, 0, end);
    assert(section@ == rest@.take(end as int));
    let trimmed_section = trimmed_end(&section);
    Some(string_of(&trimmed_section))
}

/// The view of an optional string slice.
pub open spec fn opt_str_view(o: Option<&str>) -> Option<Seq<char>> {
    match o {
        Some(s) => Some(s@),
        None => None,
    }
}

/// The session text to write when switching to `token_data`: the saved
/// `riot-login` section (or the whole saved text when it has none) followed by
/// this machine's own `rso-authenticator` section. Without a local
/// `rso-authenticator` section the saved text is written unchanged.
pub open spec fn session_with_local_tdid(token_data: Seq<char>, local: Option<Seq<char>>) -> Seq<char> {
    let local_rso = match local {
        Some(y) => yaml_section(y, "rso-authenticator"@),
        None => None,
    };
    let login = match yaml_section(token_data, "riot-login"@) {
        Some(l) => l,
        None => token_data,
    };
    match local_rso {
        Some(rso) => trim_end(login) + seq!['\n'] + trim_start(rso),
        None => token_data,
    }
}

/// Combines a saved session with the local machine's device section.
/// `local_settings` is the current session file of this machine, when it could
/// be read.
pub fn with_local_tdid(token_data: &str, local_settings: Option<&str>) -> (out: String)
    ensures
        out@ == session_with_local_tdid(token_data@, opt_str_view(local_settings)),
{
    let local_rso = match local_settings {
        Some(y) => extract_yaml_section(y, "rso-authenticator"),
        None => None,
    };
    match local_rso {
        Some(rso) => {
            let login = match extract_yaml_section(token_data, "riot-login") {
                Some(l) => l,
                None => String::from_str(token_data),
            };
            let login_cs = chars_of(login.as_str());
            let rso_cs = chars_of(rso.as_str());
            let mut head = trimmed_end(&login_cs);
            head.push('\n');
            let tail = trimmed_start(&rso_cs);
            let joined = concat(&head, &tail);
            string_of(&joined)
        },
        None => String::from_str(token_data),
    }
}

/// A settings line with its `region:` entry (if it has one) set to `region`,
/// keeping the line's indentation.
pub open spec fn region_line(line: Seq<char>, region: Seq<char>) -> Seq<char> {
    let t = trim_start(line);
    if "region:"@.is_prefix_of(t) {
        line.take(line.len() - t.len()) + "region: \""@ + region + "\""@
    } else {
        line
    }
}

/// The lines, each rewritten by `region_line` and ended by a line break.
pub open spec fn region_lines(lines: Seq<Seq<char>>, region: Seq<char>) -> Seq<char>
    decreases lines.len(),
{
    if lines.len() == 0 {
        Seq::empty()
    } else {
        region_lines(lines.drop_last(), region) + region_line(lines.last(), region) + seq!['\n']
    }
}

/// The client settings text with every `region:` entry set to `region`; the
/// text ends with a line break exactly when it did before (or when it was
/// empty).
pub open spec fn settings_with_region(content: Seq<char>, region: Seq<char>) -> Seq<char> {
    let r = region_lines(std_lines(content), region);
    if !(content.len() > 0 && content.last() == '\n') && r.len() > 0 && r.last() == '\n' {
        r.drop_last()
    } else {
        r
    }
}

/// The settings text that a region rewrite must give: each line of
/// `content`, in order and ended by a line break, is, when its text after
/// the indentation starts with `region:`, that indentation followed by
/// `region: "<region>"`, and otherwise the line unchanged; the final line
/// break is dropped when `content` did not end with one.
pub open spec fn every_region_line_set(content: Seq<char>, region: Seq<char>, out: Seq<char>) -> bool {
    let lines = std_lines(content);
    let all = Seq::new(
        lines.len(),
        |i: int|
            if "region:"@.is_prefix_of(trim_start(lines[i])) {
                lines[i].take(lines[i].len() - trim_start(lines[i]).len()) + "region: \""@ + region + "\""@ + seq!['\n']
            } else {
                lines[i] + seq!['\n']
            },
    ).flatten();
    out == if content.len() > 0 && content.last() != '\n' {
        all.drop_last()
    } else {
        all
    }
}

proof fn lemma_region_lines_flat(lines: Seq<Seq<char>>, region: Seq<char>)
    ensures
        region_lines(lines, region) == Seq::new(lines.len(), |i: int| region_line(lines[i], region) + seq!['\n']).flatten_alt(),
    decreases lines.len(),
{
    let f = Seq::new(lines.len(), |i: int| region_line(lines[i], region) + seq!['\n']);
    if lines.len() > 0 {
        let init = lines.drop_last();
        lemma_region_lines_flat(init, region);
        let g = Seq::new(init.len(), |i: int| region_line(init[i], region) + seq!['\n']);
        assert(f.drop_last() =~= g);
        assert(f.last() == region_line(lines.last(), region) + seq!['\n']);
        assert(region_line(lines.last(), region) + seq!['\n'] == seq![].add(region_line(lines.last(), region)) + seq!['\n']);
        assert(region_lines(lines, region) =~= g.flatten_alt() + f.last());
    } else {
        assert(f.flatten_alt() =~= Seq::<char>::empty());
    }
}

proof fn lemma_last_line_present(content: Seq<char>)
    requires
        content.len() > 0,
        content.last() != '\n',
    ensures
        std_lines(content).len() > 0,
{
    crate::text::lemma_split_on_nonempty(content.drop_last(), '\n');
    let parts = split_on(content, '\n');
    assert(parts.last().len() > 0);
}

/// Every `region:` line of the client settings is set to the new region,
/// each one on its own, whatever the lines before it held; every other line
/// is kept, and the text ends with a line break exactly as before.
pub proof fn lemma_every_region_line_set(content: Seq<char>, region: Seq<char>)
    ensures
        every_region_line_set(content, region, settings_with_region(content, region)),
{
    let lines = std_lines(content);
    lemma_region_lines_flat(lines, region);
    let f = Seq::new(lines.len(), |i: int| region_line(lines[i], region) + seq!['\n']);
    let all = Seq::new(
        lines.len(),
        |i: int|
            if "region:"@.is_prefix_of(trim_start(lines[i])) {
                lines[i].take(lines[i].len() - trim_start(lines[i]).len()) + "region: \""@ + region + "\""@ + seq!['\n']
            } else {
                lines[i] + seq!['\n']
            },
    );
    assert(f =~= all);
    f.lemma_flatten_and_flatten_alt_are_equivalent();
    let r = region_lines(lines, region);
    if content.len() > 0 && content.last() != '\n' {
        lemma_last_line_present(content);
        assert(r.len() > 0 && r.last() == '\n');
    }
}

fn region_line_exec(line: &[char], region: &[char]) -> (out: Vec<char>)
    ensures
        out@ == region_line(line@, region@),
{
    let t = trimmed_start(line);
    let key = chars_of("region:");
    if has_prefix(&t, &key) {
        proof {
            crate::text::lemma_trim_start_cuts_leading_white(line@);
        }
        let indent = slice_of(line, 0, line.len() - t.len());
        let opening = chars_of("region: \"");
        let closing = chars_of("\"");
        let a = concat(&indent, &opening);
        let b = concat(&a, region);
        concat(&b, &closing)
    } else {
        slice_of(line, 0, line.len())
    }
}

/// Rewrites the client settings so that every `region:` entry names
/// `region`, as switching to a session made for that region requires.
pub fn rewrite_client_region(content: &str, region: &str) -> (out: String)
    ensures
        out@ == settings_with_region(content@, region@),
        every_region_line_set(content@, region@, out@),
{
    proof {
        lemma_every_region_line_set(content@, region@);
    }
    let cs = chars_of(content);
    let rcs = chars_of(region);
    let lines = lines_of(&cs);
    let n = lines.len();
    let mut out: Vec<char> = Vec::new();
    let mut i: usize = 0;
    while i < n
        invariant
            n == lines.deep_view().len(),
            i <= n,
            rcs@ == region@,
            lines.deep_view() == std_lines(content@),
            out@ == region_lines(lines.deep_view().take(i as int), region@),
        decreases n - i,
    {
        let ghost before = out@;
        assert(lines.deep_view()[i as int] == lines[i as int]@) by {
            lemma_chars_deep_view(lines[i as int]);
        }
        let piece = region_line_exec(lines[i].as_slice(), &rcs);
        let with_piece = concat(&out, &piece);
        out = with_piece;
        out.push('\n');
        assert(lines.deep_view().take(i + 1).drop_last() == lines.deep_view().take(i as int));
        i += 1;
    }
    assert(lines.deep_view().take(n as int) == lines.deep_view());
    let ends_with_newline = cs.len() > 0 && cs[cs.len() - 1] == '\n';
    if !ends_with_newline && out.len() > 0 && out[out.len() - 1] == '\n' {
        let trimmed_out = slice_of(&out, 0, out.len() - 1);
        assert(trimmed_out@ == out@.drop_last());
        string_of(&trimmed_out)
    } else {
        string_of(&out)
    }
}

/// What `str::to_lowercase` gives for a text.
pub uninterp spec fn to_lowercase(s: Seq<char>) -> Seq<char>;

/// Calls `str::to_lowercase`; the contract only names its result.
#[verifier::external_body]
fn lowercase(s: &str) -> (out: String)
    ensures
        out@ == to_lowercase(s@),
{
    s.to_lowercase()
}

/// The stored credential that a line of `cmdkey /list` output names, when
/// the line mentions Riot (in any letter case) and reads `Target: ...`.
pub open spec fn credential_target(line: Seq<char>) -> Option<Seq<char>> {
    credential_target_given(line, to_lowercase(line))
}

/// The credential that `line` names, given `lowered`, the line in lower
/// case: when `lowered` contains `riot` and the trimmed line reads
/// `Target: ...`, the trimmed rest.
pub open spec fn credential_target_given(line: Seq<char>, lowered: Seq<char>) -> Option<Seq<char>> {
    if contains(lowered, "riot"@) {
        match strip_prefix(trim(line), "Target: "@) {
            Some(r) => Some(trim(r)),
            None => None,
        }
    } else {
        None
    }
}

/// The credentials named by the given lines, in order.
pub open spec fn credential_targets_in(lines: Seq<Seq<char>>) -> Seq<Seq<char>>
    decreases lines.len(),
{
    if lines.len() == 0 {
        Seq::empty()
    } else {
        let init = credential_targets_in(lines.drop_last());
        match credential_target(lines.last()) {
            Some(t) => init.push(t),
            None => init,
        }
    }
}

/// The credential that a listing line names, given the line in lower case.
pub fn target_of_line(line: &str, lowered: &str) -> (out: Option<String>)
    ensures
        opt_view(out) == credential_target_given(line@, lowered@),
{
    let riot = chars_of("riot");
    let target = chars_of("Target: ");
    let lower_cs = chars_of(lowered);
    if find(&lower_cs, &riot, 0).is_some() {
        let cs = chars_of(line);
        let t = trimmed(&cs);
        match stripped_prefix(&t, &target) {
            Some(r) => {
                proof {
                    lemma_chars_deep_view(r);
                }
                let name = trimmed(&r);
                Some(string_of(&name))
            },
            None => None,
        }
    } else {
        None
    }
}

/// The Riot credentials that a `cmdkey /list` listing names; these are the
/// ones that switching accounts deletes.
pub fn credential_targets(listing: &str) -> (out: Vec<String>)
    ensures
        out.deep_view() == credential_targets_in(std_lines(listing@)),
{
    let cs = chars_of(listing);
    let lines = lines_of(&cs);
    let n = lines.len();
    let mut out: Vec<String> = Vec::new();
    let mut i: usize = 0;
    while i < n
        invariant
            n == lines.deep_view().len(),
            i <= n,
            lines.deep_view() == std_lines(listing@),
            out.deep_view() == credential_targets_in(lines.deep_view().take(i as int)),
        decreases n - i,
    {
        let ghost before = out.deep_view();
        let line = &lines[i];
        assert(lines.deep_view()[i as int] == line@) by {
            lemma_chars_deep_view(lines[i as int]);
        }
        assert(lines.deep_view().take(i + 1).drop_last() == lines.deep_view().take(i as int));
        let line_str = string_of(line.as_slice());
        let lower = lowercase(line_str.as_str());
        match target_of_line(line_str.as_str(), lower.as_str()) {
            Some(name) => {
                out.push(name);
                assert(out.deep_view() =~= before.push(name@));
            },
            None => {},
        }
        i += 1;
    }
    assert(lines.deep_view().take(n as int) == lines.deep_view());
    out
}


/// The port and password that the client's lockfile names
/// (`name:pid:port:password:protocol`): its third and fourth `:`-separated
/// fields once surrounding whitespace is removed, when it has at least five.
pub open spec fn lockfile_fields(content: Seq<char>) -> Option<(Seq<char>, Seq<char>)> {
    let parts = split_on(trim(content), ':');
    if parts.len() < 5 {
        None
    } else {
        Some((parts[2], parts[3]))
    }
}

/// The request that asks the running client who is logged in.
pub struct UserinfoRequest {
    pub url: String,
    pub authorization: String,
}

/// The address of the client's local user-info endpoint on `port`.
pub open spec fn userinfo_url(port: Seq<char>) -> Seq<char> {
    "https://127.0.0.1:"@ + port + "/riot-client-auth/v1/userinfo"@
}

/// The basic-authentication header for user `riot` and `password`.
pub open spec fn basic_auth(password: Seq<char>) -> Seq<char> {
    "Basic "@ + crate::crypto::base64_encode(vstd::utf8::encode_utf8("riot:"@ + password))
}

fn chars_to_string_with(prefix: &str, middle: &[char], suffix: &str) -> (out: String)
    ensures
        out@ == prefix@ + middle@ + suffix@,
{
    let p = chars_of(prefix);
    let s = chars_of(suffix);
    let a = concat(&p, middle);
    let b = concat(&a, &s);
    string_of(&b)
}

/// Builds the user-info request from the client's lockfile; `None` when the
/// lockfile does not have the expected fields.
/// The lockfile is short; the length bound only keeps the base64 buffer
/// size of the credentials within `usize`.
pub fn userinfo_request(lockfile: &str) -> (out: Option<UserinfoRequest>)
    requires
        lockfile@.len() <= usize::MAX / 16,
    ensures
        match lockfile_fields(lockfile@) {
            Some((port, password)) => out matches Some(r) && r.url@ == userinfo_url(port)
                && r.authorization@ == basic_auth(password),
            None => out is None,
        },
{
    let cs = chars_of(lockfile);
    let t = trimmed(&cs);
    let parts = split(&t, ':');
    if parts.len() < 5 {
        return None;
    }
    let ghost pv = parts.deep_view();
    assert(pv[2] == parts[2]@ && pv[3] == parts[3]@) by {
        lemma_chars_deep_view(parts[2]);
        lemma_chars_deep_view(parts[3]);
    }
    let url = chars_to_string_with("https://127.0.0.1:", parts[2].as_slice(), "/riot-client-auth/v1/userinfo");
    let credentials = chars_to_string_with("riot:", parts[3].as_slice(), "");
    assert(credentials@ == "riot:"@ + parts[3]@) by {
        reveal_strlit("");
        assert("riot:"@ + parts[3]@ + ""@ == "riot:"@ + parts[3]@);
    }
    let bytes = credentials.as_str().as_bytes();
    proof {
        crate::text::lemma_trim_len(cs@);
        crate::text::lemma_split_on_pieces_len(t@, ':');
        crate::text::lemma_encode_utf8_len(credentials@);
        reveal_strlit("riot:");
    }
    let encoded = crate::crypto::encode_base64(bytes);
    let encoded_cs = chars_of(encoded.as_str());
    let authorization = chars_to_string_with("Basic ", encoded_cs.as_slice(), "");
    assert(authorization@ == "Basic "@ + encoded@) by {
        reveal_strlit("");
        assert("Basic "@ + encoded_cs@ + ""@ == "Basic "@ + encoded@);
    }
    Some(UserinfoRequest { url, authorization })
}

/// What `serde_json` finds in `text` parsed as JSON under `value[outer][inner]`
/// when a string stands there (`None` when the text does not parse or no
/// string stands there).
pub uninterp spec fn json_string_at(text: Seq<char>, outer: Seq<char>, inner: Seq<char>) -> Option<Seq<char>>;

/// Parses `text` with `serde_json::from_str::<Value>`, indexes the value by
/// `outer` then `inner` (`Value`'s `Index`, which gives `Null` for what is
/// missing) and takes the string there (`Value::as_str`). The result is
/// named.
#[verifier::external_body]
fn json_string_field(text: &str, outer: &str, inner: &str) -> (out: Option<String>)
    ensures
        opt_view(out) == json_string_at(text@, outer@, inner@),
{
    let value: serde_json::Value = serde_json::from_str(text).ok()?;
    value[outer][inner].as_str().map(String::from)
}

/// The Riot ID in the client's user-info reply: `acct.game_name`, followed
/// by `#` and `acct.tag_line` when that is present and not empty.
pub open spec fn userinfo_riot_id(body: Seq<char>) -> Option<Seq<char>> {
    riot_id_of_parts(json_string_at(body, "acct"@, "game_name"@), json_string_at(body, "acct"@, "tag_line"@))
}

/// The Riot ID made of a game name and a tag line: none without a name, the
/// bare name when the tag is missing or empty, else `name#tag`.
pub open spec fn riot_id_of_parts(name: Option<Seq<char>>, tag: Option<Seq<char>>) -> Option<Seq<char>> {
    match name {
        Some(name) => {
            let tag = match tag {
                Some(t) => t,
                None => Seq::empty(),
            };
            if tag.len() == 0 {
                Some(name)
            } else {
                Some(name + seq!['#'] + tag)
            }
        },
        None => None,
    }
}

/// Reads the Riot ID out of the client's user-info reply.
pub fn riot_id_from_userinfo(body: &str) -> (out: Option<String>)
    ensures
        opt_view(out) == userinfo_riot_id(body@),
{
    let name = json_string_field(body, "acct", "game_name");
    let tag = json_string_field(body, "acct", "tag_line");
    join_riot_id(name, tag)
}

/// Joins a game name and a tag line into a Riot ID.
pub fn join_riot_id(name: Option<String>, tag: Option<String>) -> (out: Option<String>)
    ensures
        opt_view(out) == riot_id_of_parts(opt_view(name), opt_view(tag)),
{
    let name = name?;
    let tag = match tag {
        Some(t) => t,
        None => String::new(),
    };
    let tag_cs = chars_of(tag.as_str());
    if tag_cs.len() == 0 {
        Some(name)
    } else {
        let mut with_hash = chars_of(name.as_str());
        with_hash.push('#');
        let joined = concat(&with_hash, &tag_cs);
        Some(string_of(&joined))
    }
}

} // verus!
