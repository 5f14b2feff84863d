use vstd::prelude::*;
use crate::text::{
    chars_ends_with, chars_eq_ignore_ascii_case, chars_of, char_is_ascii_ws, ends_with,
    eq_ignore_ascii_case, find_chars_from, find_from, is_ascii_ws, lemma_find_from_bounds,
    matches_at, slice_to_vec, starts_with, trim, trim_chars, trim_end, trim_end_chars,
};

verus! {

// ---------------------------------------------------------------------------
// Entities

/// Every occurrence of `pat` (left to right, not overlapping) replaced by `rep`
/// (`str::replace`).
pub open spec fn replace_all(s: Seq<char>, pat: Seq<char>, rep: Seq<char>) -> Seq<char>
    decreases s.len(),
{
    if pat.len() == 0 {
        s
    } else {
        match find_from(s, pat, 0) {
            Some(k) => if 0 <= k && k + pat.len() <= s.len() {
                s.take(k) + rep + replace_all(s.skip(k + pat.len()), pat, rep)
            } else {
                s
            },
            None => s,
        }
    }
}

pub fn replace_all_chars(s: &[char], pat: &[char], rep: &[char]) -> (r: Vec<char>)
    requires
        pat.len() > 0,
    ensures
        r@ == replace_all(s@, pat@, rep@),
    decreases s.len(),
{
    match find_chars_from(s, pat, 0) {
        Some(k) => {
            proof {
                lemma_find_from_bounds(s@, pat@, 0);
            }
            let n = s.len();
            assert(k + pat@.len() <= n);
            let mut r = slice_to_vec(s, 0, k);
            let mut i: usize = 0;
            while i < rep.len()
                invariant
                    i <= rep.len(),
                    r@ == s@.take(k as int) + rep@.take(i as int),
                decreases rep.len() - i,
            {
                r.push(rep[i]);
                assert(rep@.take(i as int + 1) == rep@.take(i as int).push(rep@[i as int]));
                i = i + 1;
            }
            assert(rep@.take(rep@.len() as int) == rep@);
            assert(s@.subrange(0, k as int) == s@.take(k as int));
            let rest = slice_to_vec(s, k + pat.len(), s.len());
            assert(rest@ == s@.skip(k + pat@.len()));
            let tail = replace_all_chars(rest.as_slice(), pat, rep);
            let mut j: usize = 0;
            let ghost head = r@;
            while j < tail.len()
                invariant
                    j <= tail.len(),
                    r@ == head + tail@.take(j as int),
                decreases tail.len() - j,
            {
                r.push(tail[j]);
                assert(tail@.take(j as int + 1) == tail@.take(j as int).push(tail@[j as int]));
                j = j + 1;
            }
            assert(tail@.take(tail@.len() as int) == tail@);
            r
        },
        None => slice_to_vec(s, 0, s.len()),
    }
}

/// The five predefined XML entities decoded, in the order `&amp;`, `&quot;`, `&apos;`,
/// `&lt;`, `&gt;` (so `&amp;quot;` becomes `"`).
pub open spec fn unescape(s: Seq<char>) -> Seq<char> {
    replace_all(replace_all(replace_all(replace_all(replace_all(s,
        "&amp;"@, "&"@), "&quot;"@, "\""@), "&apos;"@, "'"@), "&lt;"@, "<"@), "&gt;"@, ">"@)
}

fn unescape_chars(s: &[char]) -> (r: Vec<char>)
    ensures
        r@ == unescape(s@),
{
    proof {
        reveal_strlit("&amp;");
        reveal_strlit("&quot;");
        reveal_strlit("&apos;");
        reveal_strlit("&lt;");
        reveal_strlit("&gt;");
    }
    let a = replace_all_chars(s, chars_of("&amp;").as_slice(), chars_of("&").as_slice());
    let b = replace_all_chars(a.as_slice(), chars_of("&quot;").as_slice(), chars_of("\"").as_slice());
    let c = replace_all_chars(b.as_slice(), chars_of("&apos;").as_slice(), chars_of("'").as_slice());
    let d = replace_all_chars(c.as_slice(), chars_of("&lt;").as_slice(), chars_of("<").as_slice());
    replace_all_chars(d.as_slice(), chars_of("&gt;").as_slice(), chars_of(">").as_slice())
}

// ---------------------------------------------------------------------------
// Tags and elements

pub open spec fn open_tag(tag: Seq<char>) -> Seq<char> {
    "<"@ + tag + ">"@
}

pub open spec fn close_tag(tag: Seq<char>) -> Seq<char> {
    "</"@ + tag + ">"@
}

/// The text of the first `<tag>...</tag>`, trimmed and with entities decoded.
pub open spec fn tag_text(xml: Seq<char>, tag: Seq<char>) -> Option<Seq<char>> {
    match crate::text::tag_block(xml, open_tag(tag), close_tag(tag)) {
        Some(b) => Some(unescape(trim(b))),
        None => None,
    }
}

pub fn xml_tag(xml: &[char], tag: &str) -> (r: Option<Vec<char>>)
    ensures
        match (r, tag_text(xml@, tag@)) {
            (Some(x), Some(y)) => x@ == y,
            (None, None) => true,
            _ => false,
        },
{
    let mut open = crate::text::owned("<");
    crate::text::push_str(&mut open, tag);
    crate::text::push_str(&mut open, ">");
    let mut close = crate::text::owned("</");
    crate::text::push_str(&mut close, tag);
    crate::text::push_str(&mut close, ">");
    let o = chars_of(open.as_str());
    let c = chars_of(close.as_str());
    match crate::text::tag_block_chars(xml, o.as_slice(), c.as_slice()) {
        Some(b) => {
            let t = trim_chars(b.as_slice());
            Some(unescape_chars(t.as_slice()))
        },
        None => None,
    }
}

/// The content of the first `<tag ...>...</tag>` element (empty for `<tag ... />`),
/// looking from `offset`. A start tag must be followed by `>`, `/` or ASCII whitespace
/// (so `<tagX` does not count); input that ends early gives nothing.
pub open spec fn element_from(xml: Seq<char>, tag: Seq<char>, offset: int) -> Option<Seq<char>>
    decreases xml.len() - offset,
{
    let needle = "<"@ + tag;
    if offset < 0 {
        None
    } else {
        match find_from(xml, needle, offset) {
            None => None,
            Some(start) => {
                let b = start + needle.len();
                if b < 0 || b >= xml.len() {
                    None
                } else if !(xml[b] == '>' || xml[b] == '/' || is_ascii_ws(xml[b])) {
                    if b > offset { element_from(xml, tag, b) } else { None }
                } else {
                    match find_from(xml, seq!['>'], start) {
                        None => None,
                        Some(oe) => if start <= oe && ends_with(trim_end(xml.subrange(start, oe)), seq!['/']) {
                            Some(Seq::<char>::empty())
                        } else {
                            match find_from(xml, close_tag(tag), oe + 1) {
                                None => None,
                                Some(ce) => if oe + 1 <= ce { Some(xml.subrange(oe + 1, ce)) } else { None },
                            }
                        },
                    }
                }
            },
        }
    }
}

pub open spec fn element(xml: Seq<char>, tag: Seq<char>) -> Option<Seq<char>> {
    element_from(xml, tag, 0)
}

pub fn xml_element(xml: &[char], tag: &str) -> (r: Option<Vec<char>>)
    ensures
        match (r, element(xml@, tag@)) {
            (Some(x), Some(y)) => x@ == y,
            (None, None) => true,
            _ => false,
        },
{
    let n = xml.len();
    let mut needle_s = crate::text::owned("<");
    crate::text::push_str(&mut needle_s, tag);
    let needle = chars_of(needle_s.as_str());
    proof {
        reveal_strlit("<");
    }
    assert(needle@.len() >= 1);
    let mut close_s = crate::text::owned("</");
    crate::text::push_str(&mut close_s, tag);
    crate::text::push_str(&mut close_s, ">");
    let close = chars_of(close_s.as_str());
    let gt: Vec<char> = vec!['>'];
    let slash: Vec<char> = vec!['/'];
    assert(gt@ == seq!['>']);
    assert(slash@ == seq!['/']);
    let mut offset: usize = 0;
    loop
        invariant
            n == xml@.len(),
            needle@ == "<"@ + tag@,
            needle@.len() >= 1,
            close@ == close_tag(tag@),
            gt@ == seq!['>'],
            slash@ == seq!['/'],
            offset <= n,
            element(xml@, tag@) == element_from(xml@, tag@, offset as int),
        decreases n - offset,
    {
        let start = match find_chars_from(xml, needle.as_slice(), offset) {
            None => return None,
            Some(s) => s,
        };
        proof {
            lemma_find_from_bounds(xml@, needle@, offset as int);
        }
        assert(matches_at(xml@, needle@, start as int));
        let b = start + needle.len();
        if b >= n {
            return None;
        }
        let c = xml[b];
        if !(c == '>' || c == '/' || char_is_ascii_ws(c)) {
            offset = b;
            continue;
        }
        let oe = match find_chars_from(xml, gt.as_slice(), start) {
            None => return None,
            Some(o) => o,
        };
        proof {
            lemma_find_from_bounds(xml@, gt@, start as int);
        }
        assert(matches_at(xml@, gt@, oe as int));
        let head = slice_to_vec(xml, start, oe);
        let head_t = trim_end_chars(head.as_slice());
        if chars_ends_with(head_t.as_slice(), slash.as_slice()) {
            return Some(Vec::new());
        }
        let ce = match find_chars_from(xml, close.as_slice(), oe + 1) {
            None => return None,
            Some(x) => x,
        };
        proof {
            lemma_find_from_bounds(xml@, close@, oe + 1);
        }
        assert(matches_at(xml@, close@, ce as int));
        return Some(slice_to_vec(xml, oe + 1, ce));
    }
}

/// An element is on unless its `<Enabled>` text says otherwise (`true` in any case).
pub open spec fn enabled_or_default(element: Seq<char>) -> bool {
    match tag_text(element, "Enabled"@) {
        Some(v) => eq_ignore_ascii_case(v, "true"@),
        None => true,
    }
}

pub fn xml_enabled_or_default(element: &[char]) -> (r: bool)
    ensures
        r == enabled_or_default(element@),
{
    match xml_tag(element, "Enabled") {
        Some(v) => {
            let t = chars_of("true");
            chars_eq_ignore_ascii_case(v.as_slice(), t.as_slice())
        },
        None => true,
    }
}

// ---------------------------------------------------------------------------
// Direct children

pub open spec fn skip_ascii_ws(s: Seq<char>, i: int) -> int
    decreases s.len() - i,
{
    if 0 <= i < s.len() && is_ascii_ws(s[i]) { skip_ascii_ws(s, i + 1) } else { i }
}

pub open spec fn token_end(s: Seq<char>, i: int) -> int
    decreases s.len() - i,
{
    if 0 <= i < s.len() && !is_ascii_ws(s[i]) { token_end(s, i + 1) } else { i }
}

/// `split_ascii_whitespace().next()`
pub open spec fn first_ascii_token(s: Seq<char>) -> Option<Seq<char>> {
    let a = skip_ascii_ws(s, 0);
    if 0 <= a < s.len() && a <= token_end(s, a) <= s.len() { Some(s.subrange(a, token_end(s, a))) } else { None }
}

/// `trim_end_matches('/')`
pub open spec fn trim_slashes(s: Seq<char>) -> Seq<char>
    decreases s.len(),
{
    if s.len() > 0 && s.last() == '/' { trim_slashes(s.drop_last()) } else { s }
}

/// `rsplit(':').next()`: the text after the last `:` (all of it without one).
pub open spec fn after_last_colon(s: Seq<char>) -> Seq<char>
    decreases s.len(),
{
    if s.len() == 0 {
        s
    } else if s.last() == ':' {
        Seq::empty()
    } else {
        after_last_colon(s.drop_last()).push(s.last())
    }
}

/// The names (without namespace prefix) of the elements at nesting depth 0 from
/// `offset` on, after `names`; nothing when the markup is cut off or unbalanced.
/// Comments, `<?...>` and `<!...>` are skipped.
pub open spec fn children_from(xml: Seq<char>, offset: int, depth: nat, names: Seq<Seq<char>>) -> Option<Seq<Seq<char>>>
    decreases xml.len() - offset,
{
    if offset < 0 || offset > xml.len() {
        None
    } else {
        match find_from(xml, seq!['<'], offset) {
            None => if depth == 0 { Some(names) } else { None },
            Some(start) => if start < offset {
                None
            } else if starts_with(xml.skip(start), "<!--"@) {
                match find_from(xml, "-->"@, start + 4) {
                    None => None,
                    Some(p) => if p + 3 > offset && p + 3 <= xml.len() { children_from(xml, p + 3, depth, names) } else { None },
                }
            } else {
                match find_from(xml, seq!['>'], start) {
                    None => None,
                    Some(end) => if end <= start || end + 1 <= offset || end + 1 > xml.len() {
                        None
                    } else {
                        let raw = trim(xml.subrange(start + 1, end));
                        if raw.len() > 0 && (raw[0] == '?' || raw[0] == '!') {
                            children_from(xml, end + 1, depth, names)
                        } else if raw.len() > 0 && raw[0] == '/' {
                            if depth == 0 { None } else { children_from(xml, end + 1, (depth - 1) as nat, names) }
                        } else {
                            let self_closing = raw.len() > 0 && raw.last() == '/';
                            match first_ascii_token(trim_slashes(raw)) {
                                None => None,
                                Some(name) => children_from(
                                    xml,
                                    end + 1,
                                    if self_closing { depth } else { depth + 1 },
                                    if depth == 0 { names.push(after_last_colon(name)) } else { names },
                                ),
                            }
                        }
                    },
                }
            },
        }
    }
}

pub open spec fn direct_children(xml: Seq<char>) -> Option<Seq<Seq<char>>> {
    children_from(xml, 0, 0, Seq::empty())
}

fn first_ascii_token_chars(s: &[char]) -> (r: Option<Vec<char>>)
    ensures
        match (r, first_ascii_token(s@)) {
            (Some(x), Some(y)) => x@ == y,
            (None, None) => true,
            _ => false,
        },
{
    let mut a: usize = 0;
    while a < s.len() && char_is_ascii_ws(s[a])
        invariant
            a <= s.len(),
            skip_ascii_ws(s@, 0) == skip_ascii_ws(s@, a as int),
        decreases s.len() - a,
    {
        a = a + 1;
    }
    if a >= s.len() {
        return None;
    }
    let mut b: usize = a;
    while b < s.len() && !char_is_ascii_ws(s[b])
        invariant
            a <= b <= s.len(),
            token_end(s@, a as int) == token_end(s@, b as int),
        decreases s.len() - b,
    {
        b = b + 1;
    }
    Some(slice_to_vec(s, a, b))
}

fn after_last_colon_chars(s: &[char]) -> (r: Vec<char>)
    ensures
        r@ == after_last_colon(s@),
{
    let mut k: usize = s.len();
    assert(s@.take(s@.len() as int) == s@);
    assert(s@.skip(s@.len() as int) == Seq::<char>::empty());
    while k > 0 && s[k - 1] != ':'
        invariant
            k <= s.len(),
            after_last_colon(s@) == after_last_colon(s@.take(k as int)) + s@.skip(k as int),
        decreases k,
    {
        assert(s@.take(k as int).drop_last() == s@.take(k - 1));
        assert(s@.skip(k - 1) == seq![s@[k - 1]] + s@.skip(k as int));
        k = k - 1;
    }
    if k > 0 {
        assert(after_last_colon(s@.take(k as int)) == Seq::<char>::empty());
    } else {
        assert(s@.take(0) == Seq::<char>::empty());
    }
    assert(s@.skip(k as int) == s@.subrange(k as int, s@.len() as int));
    slice_to_vec(s, k, s.len())
}

pub fn xml_direct_child_names(xml: &[char]) -> (r: Option<Vec<Vec<char>>>)
    ensures
        match (r, direct_children(xml@)) {
            (Some(x), Some(y)) => x@.len() == y.len() && forall|i: int| 0 <= i < y.len() ==> #[trigger] x@[i]@ == y[i],
            (None, None) => true,
            _ => false,
        },
{
    let n = xml.len();
    let lt: Vec<char> = vec!['<'];
    let gt: Vec<char> = vec!['>'];
    let comment = chars_of("<!--");
    let comment_end = chars_of("-->");
    proof {
        reveal_strlit("<!--");
        reveal_strlit("-->");
    }
    let mut names: Vec<Vec<char>> = Vec::new();
    let ghost mut seen: Seq<Seq<char>> = Seq::empty();
    let mut depth: usize = 0;
    let mut offset: usize = 0;
    loop
        invariant
            n == xml@.len(),
            lt@ == seq!['<'],
            gt@ == seq!['>'],
            comment@ == "<!--"@,
            comment_end@ == "-->"@,
            comment@.len() == 4,
            comment_end@.len() == 3,
            offset <= n,
            depth <= offset,
            names@.len() == seen.len(),
            forall|i: int| 0 <= i < seen.len() ==> #[trigger] names@[i]@ == seen[i],
            direct_children(xml@) == children_from(xml@, offset as int, depth as nat, seen),
        decreases n - offset,
    {
        let start = match find_chars_from(xml, lt.as_slice(), offset) {
            None => {
                if depth == 0 {
                    return Some(names);
                } else {
                    return None;
                }
            },
            Some(s) => s,
        };
        proof {
            lemma_find_from_bounds(xml@, lt@, offset as int);
        }
        assert(matches_at(xml@, lt@, start as int));
        let rest = slice_to_vec(xml, start, n);
        assert(rest@ == xml@.skip(start as int));
        if crate::text::chars_starts_with(rest.as_slice(), comment.as_slice()) {
            assert(start + 4 <= n);
            let p = match find_chars_from(xml, comment_end.as_slice(), start + 4) {
                None => return None,
                Some(p) => p,
            };
            proof {
                lemma_find_from_bounds(xml@, comment_end@, start + 4);
            }
            assert(matches_at(xml@, comment_end@, p as int));
            offset = p + 3;
            continue;
        }
        let end = match find_chars_from(xml, gt.as_slice(), start) {
            None => return None,
            Some(e) => e,
        };
        proof {
            lemma_find_from_bounds(xml@, gt@, start as int);
        }
        assert(matches_at(xml@, gt@, end as int));
        assert(xml@.subrange(start as int, start + 1)[0] == xml@[start as int]);
        assert(xml@[start as int] == '<');
        assert(xml@.subrange(end as int, end + 1)[0] == xml@[end as int]);
        assert(end != start);
        let inner = slice_to_vec(xml, start + 1, end);
        let raw = trim_chars(inner.as_slice());
        if raw.len() > 0 && (raw[0] == '?' || raw[0] == '!') {
            offset = end + 1;
            continue;
        }
        if raw.len() > 0 && raw[0] == '/' {
            if depth == 0 {
                return None;
            }
            depth = depth - 1;
            offset = end + 1;
            continue;
        }
        let self_closing = raw.len() > 0 && raw[raw.len() - 1] == '/';
        let mut k: usize = raw.len();
        assert(raw@.take(raw@.len() as int) == raw@);
        while k > 0 && raw[k - 1] == '/'
            invariant
                k <= raw.len(),
                trim_slashes(raw@) == trim_slashes(raw@.take(k as int)),
            decreases k,
        {
            assert(raw@.take(k as int).drop_last() == raw@.take(k - 1));
            k = k - 1;
        }
        let stripped = slice_to_vec(raw.as_slice(), 0, k);
        assert(stripped@ == raw@.take(k as int));
        let name = match first_ascii_token_chars(stripped.as_slice()) {
            None => return None,
            Some(t) => t,
        };
        if depth == 0 {
            let local = after_last_colon_chars(name.as_slice());
            proof {
                seen = seen.push(local@);
            }
            names.push(local);
        }
        if !self_closing {
            depth = depth + 1;
        }
        offset = end + 1;
    }
}

// ---------------------------------------------------------------------------
// The task's action

/// The program of an `Exec` action: trimmed, either wholly quoted or not quoted at all,
/// with no other quote inside, and not empty.
pub open spec fn normalized_command(command: Seq<char>) -> Option<Seq<char>> {
    let c = trim(command);
    let sq = c.len() > 0 && c[0] == '"';
    let eq = c.len() > 0 && c.last() == '"';
    let inner: Option<Seq<char>> = if sq && eq {
        if c.len() >= 2 { Some(c.subrange(1, c.len() - 1)) } else { None }
    } else if !sq && !eq {
        Some(c)
    } else {
        None
    };
    match inner {
        Some(x) => if x.len() > 0 && !x.contains('"') { Some(x) } else { None },
        None => None,
    }
}

pub fn normalize_task_command(command: &[char]) -> (r: Option<Vec<char>>)
    ensures
        match (r, normalized_command(command@)) {
            (Some(x), Some(y)) => x@ == y,
            (None, None) => true,
            _ => false,
        },
{
    let c = trim_chars(command);
    let sq = c.len() > 0 && c[0] == '"';
    let eq = c.len() > 0 && c[c.len() - 1] == '"';
    let inner = if sq && eq {
        if c.len() >= 2 {
            slice_to_vec(c.as_slice(), 1, c.len() - 1)
        } else {
            return None;
        }
    } else if !sq && !eq {
        slice_to_vec(c.as_slice(), 0, c.len())
    } else {
        return None;
    };
    assert(c@.subrange(0, c@.len() as int) == c@);
    if inner.len() > 0 && !crate::text::chars_contain(inner.as_slice(), '"') {
        Some(inner)
    } else {
        None
    }
}

/// The program and the arguments of the autostart task, accepted only for a task that
/// runs with the highest privileges, has exactly one trigger (an enabled logon
/// trigger), is enabled, and has exactly one `Exec` action whose program passes
/// `normalized_command`. Missing arguments are empty.
pub open spec fn task_action(xml: Seq<char>) -> Option<(Seq<char>, Seq<char>)> {
    match element(xml, "Principals"@) {
        None => None,
        Some(principals) => match tag_text(principals, "RunLevel"@) {
            None => None,
            Some(level) => if level != "HighestAvailable"@ {
                None
            } else {
                match element(xml, "Triggers"@) {
                    None => None,
                    Some(triggers) => if direct_children(triggers) != Some(seq!["LogonTrigger"@]) {
                        None
                    } else {
                        match element(triggers, "LogonTrigger"@) {
                            None => None,
                            Some(logon) => if !enabled_or_default(logon) {
                                None
                            } else {
                                match element(xml, "Settings"@) {
                                    None => None,
                                    Some(settings) => if !enabled_or_default(settings) {
                                        None
                                    } else {
                                        match element(xml, "Actions"@) {
                                            None => None,
                                            Some(actions) => if direct_children(actions) != Some(seq!["Exec"@]) {
                                                None
                                            } else {
                                                match element(actions, "Exec"@) {
                                                    None => None,
                                                    Some(exec) => match tag_text(exec, "Command"@) {
                                                        None => None,
                                                        Some(cmd) => match normalized_command(cmd) {
                                                            None => None,
                                                            Some(command) => Some((command, match tag_text(exec, "Arguments"@) {
                                                                Some(a) => a,
                                                                None => Seq::<char>::empty(),
                                                            })),
                                                        },
                                                    },
                                                }
                                            },
                                        }
                                    },
                                }
                            },
                        }
                    },
                }
            },
        },
    }
}

fn children_are(xml: &[char], only: &str) -> (r: bool)
    ensures
        r == (direct_children(xml@) == Some(seq![only@])),
{
    match xml_direct_child_names(xml) {
        None => false,
        Some(names) => {
            if names.len() != 1 {
                assert(direct_children(xml@)->0.len() != 1);
                return false;
            }
            let o = chars_of(only);
            let same = crate::text::chars_eq(names[0].as_slice(), o.as_slice());
            if same {
                assert(direct_children(xml@)->0 =~= seq![only@]);
            } else {
                assert(direct_children(xml@)->0[0] != only@);
            }
            same
        },
    }
}

pub fn parse_task_action(xml: &str) -> (r: Option<(String, String)>)
    ensures
        match (r, task_action(xml@)) {
            (Some((c, a)), Some((c2, a2))) => c@ == c2 && a@ == a2,
            (None, None) => true,
            _ => false,
        },
{
    let x = chars_of(xml);
    let principals = match xml_element(x.as_slice(), "Principals") { None => return None, Some(p) => p };
    let level = match xml_tag(principals.as_slice(), "RunLevel") { None => return None, Some(l) => l };
    let highest = chars_of("HighestAvailable");
    if !crate::text::chars_eq(level.as_slice(), highest.as_slice()) {
        return None;
    }
    let triggers = match xml_element(x.as_slice(), "Triggers") { None => return None, Some(t) => t };
    if !children_are(triggers.as_slice(), "LogonTrigger") {
        return None;
    }
    let logon = match xml_element(triggers.as_slice(), "LogonTrigger") { None => return None, Some(l) => l };
    if !xml_enabled_or_default(logon.as_slice()) {
        return None;
    }
    let settings = match xml_element(x.as_slice(), "Settings") { None => return None, Some(s) => s };
    if !xml_enabled_or_default(settings.as_slice()) {
        return None;
    }
    let actions = match xml_element(x.as_slice(), "Actions") { None => return None, Some(a) => a };
    if !children_are(actions.as_slice(), "Exec") {
        return None;
    }
    let exec = match xml_element(actions.as_slice(), "Exec") { None => return None, Some(e) => e };
    let cmd = match xml_tag(exec.as_slice(), "Command") { None => return None, Some(c) => c };
    let command = match normalize_task_command(cmd.as_slice()) { None => return None, Some(c) => c };
    let arguments = match xml_tag(exec.as_slice(), "Arguments") {
        Some(a) => crate::text::string_of(a.as_slice()),
        None => String::new(),
    };
    Some((crate::text::string_of(command.as_slice()), arguments))
}

} // verus!
