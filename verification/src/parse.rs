//! Parsing of filtering directive strings of the form
//! `"module1=level,module2,level"`: a comma-separated list of rules, each a
//! module prefix with an optional ceiling, a bare module prefix granted
//! everything, or a bare level that becomes the nameless rule. A part after
//! a first `/` (a message-text filter in the richer directive grammars) is
//! not part of this layer's rule language and is ignored; a string with
//! more than one `/` is rejected as a whole. Invalid pieces are skipped:
//! parsing never fails, it yields the rules of the valid pieces.

use vstd::prelude::*;
use vstd::string::StrSliceExecFns;
use vstd::string::StringExecFns;

use crate::filter::Directive;
use crate::filter::DirectiveV;
use crate::filter::spec_insert;
use crate::level::LevelFilter;
use crate::logger::push_char;

verus! {

/// The views of a list of strings.
pub open spec fn seq_views(v: Seq<String>) -> Seq<Seq<char>> {
    v.map_values(|x: String| x@)
}

/// True for the whitespace characters that are stripped around pieces.
pub open spec fn is_ascii_ws(c: char) -> bool {
    c == ' ' || c == '\t' || c == '\n' || c == '\u{c}' || c == '\r'
}

/// The sequence without its leading whitespace.
pub open spec fn spec_trim_start(s: Seq<char>) -> Seq<char>
    decreases s.len(),
{
    if s.len() > 0 && is_ascii_ws(s[0]) {
        spec_trim_start(s.drop_first())
    } else {
        s
    }
}

/// The sequence without its trailing whitespace.
pub open spec fn spec_trim_end(s: Seq<char>) -> Seq<char>
    decreases s.len(),
{
    if s.len() > 0 && is_ascii_ws(s.last()) {
        spec_trim_end(s.drop_last())
    } else {
        s
    }
}

/// The sequence without leading and trailing whitespace.
pub open spec fn spec_trim(s: Seq<char>) -> Seq<char> {
    spec_trim_end(spec_trim_start(s))
}

/// Splitting at every occurrence of `sep`, with `cur` the piece read so
/// far; a separator at the very end yields a final empty piece.
pub open spec fn split_acc(s: Seq<char>, sep: char, cur: Seq<char>) -> Seq<Seq<char>>
    decreases s.len(),
{
    if s.len() == 0 {
        seq![cur]
    } else if s[0] == sep {
        seq![cur] + split_acc(s.drop_first(), sep, Seq::empty())
    } else {
        split_acc(s.drop_first(), sep, cur.push(s[0]))
    }
}

/// The pieces of `s` between occurrences of `sep`.
pub open spec fn spec_split(s: Seq<char>, sep: char) -> Seq<Seq<char>> {
    split_acc(s, sep, Seq::empty())
}

/// True when the two characters are the same letter up to ASCII case.
pub open spec fn chars_eq_ic(x: char, y: char) -> bool {
    x == y || (65 <= x as u32 <= 90 && y as u32 == x as u32 + 32) || (65 <= y as u32 <= 90 && x
        as u32 == y as u32 + 32)
}

/// True when the two texts are equal up to ASCII case.
pub open spec fn spec_eq_ignore_case(a: Seq<char>, b: Seq<char>) -> bool {
    a.len() == b.len() && forall|i: int| 0 <= i < a.len() ==> chars_eq_ic(a[i], b[i])
}

/// The ceiling a piece of text names, compared without regard to ASCII
/// case; `None` when it names none.
pub open spec fn spec_parse_level(s: Seq<char>) -> Option<LevelFilter> {
    if spec_eq_ignore_case(s, "off"@) {
        Some(LevelFilter::Off)
    } else if spec_eq_ignore_case(s, "error"@) {
        Some(LevelFilter::Error)
    } else if spec_eq_ignore_case(s, "warn"@) {
        Some(LevelFilter::Warn)
    } else if spec_eq_ignore_case(s, "info"@) {
        Some(LevelFilter::Info)
    } else if spec_eq_ignore_case(s, "debug"@) {
        Some(LevelFilter::Debug)
    } else if spec_eq_ignore_case(s, "trace"@) {
        Some(LevelFilter::Trace)
    } else {
        None
    }
}

/// The rule one comma-separated piece denotes, or `None` for a piece that
/// is blank or invalid and is skipped. A bare level names the nameless
/// rule; a bare module name, or one with an empty level, is granted
/// everything; a module with a level that names no ceiling is invalid, as
/// is a piece with more than one `=`.
pub open spec fn spec_parse_chunk(chunk: Seq<char>) -> Option<DirectiveV> {
    let t = spec_trim(chunk);
    if t.len() == 0 {
        None
    } else {
        let parts = spec_split(t, '=');
        if parts.len() == 1 {
            match spec_parse_level(parts[0]) {
                Some(l) => Some(DirectiveV { name: None, level: l }),
                None => Some(DirectiveV { name: Some(parts[0]), level: LevelFilter::Trace }),
            }
        } else if parts.len() == 2 {
            let p1 = spec_trim(parts[1]);
            if p1.len() == 0 {
                Some(DirectiveV { name: Some(parts[0]), level: LevelFilter::Trace })
            } else {
                match spec_parse_level(p1) {
                    Some(l) => Some(DirectiveV { name: Some(parts[0]), level: l }),
                    None => None,
                }
            }
        } else {
            None
        }
    }
}

/// The rule list after applying every piece in order, each valid piece
/// inserted as the builder inserts: replacing the rule with the same name.
pub open spec fn spec_apply_chunks(rules: Seq<DirectiveV>, chunks: Seq<Seq<char>>) -> Seq<
    DirectiveV,
>
    decreases chunks.len(),
{
    if chunks.len() == 0 {
        rules
    } else {
        let rest = spec_apply_chunks(rules, chunks.drop_last());
        match spec_parse_chunk(chunks.last()) {
            Some(d) => spec_insert(rest, d),
            None => rest,
        }
    }
}

/// The rule list a whole directive string yields, starting from `rules`: a
/// string with more than one `/` is rejected as a whole, otherwise the
/// part before any `/` is the comma-separated rule list.
pub open spec fn spec_parse(rules: Seq<DirectiveV>, s: Seq<char>) -> Seq<DirectiveV> {
    let slash = spec_split(s, '/');
    if slash.len() > 2 {
        rules
    } else {
        spec_apply_chunks(rules, spec_split(slash[0], ','))
    }
}

/// Splits `s` at every occurrence of `sep`.
pub fn split_string(s: &str, sep: char) -> (parts: Vec<String>)
    ensures
        seq_views(parts@) == spec_split(s@, sep),
{
    let n = s.unicode_len();
    let mut parts: Vec<String> = Vec::new();
    let mut cur = String::new();
    let mut i: usize = 0;
    proof {
        assert(s@.subrange(0, n as int) =~= s@);
        assert(seq_views(parts@) + split_acc(s@, sep, cur@) =~~= spec_split(s@, sep));
    }
    while i < n
        invariant
            0 <= i <= n,
            n == s@.len(),
            seq_views(parts@) + split_acc(s@.subrange(i as int, n as int), sep, cur@)
                == spec_split(s@, sep),
        decreases n - i,
    {
        let ghost rest = s@.subrange(i as int, n as int);
        let ghost next_rest = s@.subrange(i as int + 1, n as int);
        proof {
            assert(rest.drop_first() =~= next_rest);
            assert(rest[0] == s@[i as int]);
        }
        let c = s.get_char(i);
        if c == sep {
            let ghost finished = cur@;
            let ghost prev_views = seq_views(parts@);
            parts.push(cur);
            cur = String::new();
            proof {
                assert(seq_views(parts@) =~~= prev_views.push(finished));
                assert(seq_views(parts@) + split_acc(next_rest, sep, cur@) =~~= prev_views
                    + split_acc(rest, sep, finished));
                assert(seq_views(parts@) + split_acc(next_rest, sep, cur@) == spec_split(s@, sep));
            }
        } else {
            push_char(&mut cur, c);
            proof {
                assert(split_acc(rest, sep, cur@.drop_last()) == split_acc(
                    next_rest,
                    sep,
                    cur@.drop_last().push(s@[i as int]),
                ));
                assert(cur@.drop_last().push(s@[i as int]) =~= cur@);
                assert(seq_views(parts@) + split_acc(next_rest, sep, cur@) == spec_split(s@, sep));
            }
        }
        i += 1;
    }
    proof {
        assert(s@.subrange(n as int, n as int) =~= Seq::<char>::empty());
    }
    let ghost finished = cur@;
    let ghost prev_views = seq_views(parts@);
    parts.push(cur);
    proof {
        assert(seq_views(parts@) =~~= prev_views.push(finished));
        assert(seq_views(parts@) =~~= spec_split(s@, sep));
    }
    parts
}

/// Decides whether `c` is stripped whitespace.
fn is_ws(c: char) -> (r: bool)
    ensures
        r == is_ascii_ws(c),
{
    c == ' ' || c == '\t' || c == '\n' || c == '\u{c}' || c == '\r'
}

proof fn lemma_trim_start_at(s: Seq<char>, k: int)
    requires
        0 <= k <= s.len(),
        forall|j: int| 0 <= j < k ==> is_ascii_ws(#[trigger] s[j]),
        k < s.len() ==> !is_ascii_ws(s[k]),
    ensures
        spec_trim_start(s) == s.subrange(k, s.len() as int),
    decreases k,
{
    if k == 0 {
        assert(s.subrange(0, s.len() as int) =~= s);
    } else {
        assert(is_ascii_ws(s[0]));
        lemma_trim_start_at(s.drop_first(), k - 1);
        assert(s.drop_first().subrange(k - 1, s.drop_first().len() as int) =~= s.subrange(
            k,
            s.len() as int,
        ));
    }
}

proof fn lemma_trim_end_at(t: Seq<char>, k: int)
    requires
        0 <= k <= t.len(),
        forall|j: int| k <= j < t.len() ==> is_ascii_ws(#[trigger] t[j]),
        k > 0 ==> !is_ascii_ws(t[k - 1]),
    ensures
        spec_trim_end(t) == t.subrange(0, k),
    decreases t.len(),
{
    if t.len() == 0 {
        assert(t.subrange(0, 0) =~= t);
    } else if k == t.len() {
        assert(!is_ascii_ws(t.last()));
        assert(t.subrange(0, k) =~= t);
    } else {
        assert(is_ascii_ws(t.last()));
        lemma_trim_end_at(t.drop_last(), k);
        assert(t.drop_last().subrange(0, k) =~= t.subrange(0, k));
    }
}

/// The piece without its surrounding whitespace.
pub fn trim_str<'a>(s: &'a str) -> (r: &'a str)
    ensures
        r@ == spec_trim(s@),
{
    let n = s.unicode_len();
    let mut start: usize = 0;
    let mut scanning = true;
    while scanning && start < n
        invariant
            0 <= start <= n,
            n == s@.len(),
            forall|j: int| 0 <= j < start ==> is_ascii_ws(#[trigger] s@[j]),
            !scanning ==> (start < n && !is_ascii_ws(s@[start as int])),
        decreases n - start + (if scanning { 1int } else { 0int }),
    {
        if is_ws(s.get_char(start)) {
            start += 1;
        } else {
            scanning = false;
        }
    }
    proof {
        lemma_trim_start_at(s@, start as int);
    }
    let ghost t = s@.subrange(start as int, n as int);
    let mut end: usize = n;
    let mut scanning_back = true;
    while scanning_back && end > start
        invariant
            start <= end <= n,
            n == s@.len(),
            forall|j: int| end <= j < n ==> is_ascii_ws(#[trigger] s@[j]),
            !scanning_back ==> (end > start && !is_ascii_ws(s@[end - 1])),
        decreases end + (if scanning_back { 1int } else { 0int }),
    {
        if is_ws(s.get_char(end - 1)) {
            end -= 1;
        } else {
            scanning_back = false;
        }
    }
    proof {
        assert(forall|j: int| end - start <= j < t.len() ==> is_ascii_ws(#[trigger] t[j]));
        lemma_trim_end_at(t, end - start);
        assert(t.subrange(0, end - start) =~= s@.subrange(start as int, end as int));
    }
    s.substring_char(start, end)
}

/// Decides whether two pieces of text are equal up to ASCII case.
pub fn eq_ignore_case(a: &str, b: &str) -> (r: bool)
    ensures
        r == spec_eq_ignore_case(a@, b@),
{
    let al = a.unicode_len();
    let bl = b.unicode_len();
    if al != bl {
        return false;
    }
    let mut i: usize = 0;
    while i < al
        invariant
            0 <= i <= al,
            al == a@.len(),
            bl == b@.len(),
            al == bl,
            forall|j: int| 0 <= j < i ==> chars_eq_ic(#[trigger] a@[j], b@[j]),
        decreases al - i,
    {
        let x = a.get_char(i) as u32;
        let y = b.get_char(i) as u32;
        let same = x == y || (65 <= x && x <= 90 && y == x + 32) || (65 <= y && y <= 90 && x == y
            + 32);
        if !same {
            proof {
                assert(!chars_eq_ic(a@[i as int], b@[i as int]));
            }
            return false;
        }
        i += 1;
    }
    true
}

/// Names the ceiling a piece of text denotes, without regard to ASCII
/// case.
pub fn parse_level(s: &str) -> (r: Option<LevelFilter>)
    ensures
        r == spec_parse_level(s@),
{
    if eq_ignore_case(s, "off") {
        Some(LevelFilter::Off)
    } else if eq_ignore_case(s, "error") {
        Some(LevelFilter::Error)
    } else if eq_ignore_case(s, "warn") {
        Some(LevelFilter::Warn)
    } else if eq_ignore_case(s, "info") {
        Some(LevelFilter::Info)
    } else if eq_ignore_case(s, "debug") {
        Some(LevelFilter::Debug)
    } else if eq_ignore_case(s, "trace") {
        Some(LevelFilter::Trace)
    } else {
        None
    }
}

/// Reads one comma-separated piece into a rule, or `None` for a piece that
/// is skipped.
fn parse_chunk(chunk: &str) -> (r: Option<Directive>)
    ensures
        match r {
            Some(d) => spec_parse_chunk(chunk@) == Some(d@),
            None => spec_parse_chunk(chunk@) is None,
        },
{
    let t = trim_str(chunk);
    if t.unicode_len() == 0 {
        return None;
    }
    let parts = split_string(t, '=');
    proof {
        assert(forall|k: int|
            0 <= k < parts@.len() ==> seq_views(parts@)[k] == #[trigger] parts@[k]@);
    }
    if parts.len() == 1 {
        match parse_level(parts[0].as_str()) {
            Some(l) => Some(Directive { name: None, level: l }),
            None => Some(Directive { name: Some(parts[0].clone()), level: LevelFilter::Trace }),
        }
    } else if parts.len() == 2 {
        let p1 = trim_str(parts[1].as_str());
        if p1.unicode_len() == 0 {
            Some(Directive { name: Some(parts[0].clone()), level: LevelFilter::Trace })
        } else {
            match parse_level(p1) {
                Some(l) => Some(Directive { name: Some(parts[0].clone()), level: l }),
                None => None,
            }
        }
    } else {
        None
    }
}

proof fn lemma_split_len(s: Seq<char>, sep: char, cur: Seq<char>)
    ensures
        split_acc(s, sep, cur).len() >= 1,
    decreases s.len(),
{
    if s.len() > 0 {
        if s[0] == sep {
            lemma_split_len(s.drop_first(), sep, Seq::empty());
        } else {
            lemma_split_len(s.drop_first(), sep, cur.push(s[0]));
        }
    }
}

impl crate::filter::FilterBuilder {
    /// Adds the rules of a whole directive string; pieces that denote no
    /// rule are skipped, and a string with more than one `/` adds nothing.
    pub fn parse(self, filters: &str) -> (r: crate::filter::FilterBuilder)
        ensures
            r.rules() == spec_parse(self.rules(), filters@),
    {
        let ghost orig = self.rules();
        let slash = split_string(filters, '/');
        proof {
            lemma_split_len(filters@, '/', Seq::<char>::empty());
        }
        if slash.len() > 2 {
            return self;
        }
        let ghost chunk_views = spec_split(spec_split(filters@, '/')[0], ',');
        proof {
            assert(seq_views(slash@)[0] == slash@[0]@);
        }
        let chunks = split_string(slash[0].as_str(), ',');
        proof {
            assert(forall|k: int|
                0 <= k < chunks@.len() ==> seq_views(chunks@)[k] == #[trigger] chunks@[k]@);
        }
        let n = chunks.len();
        let mut b = self;
        let mut i: usize = 0;
        while i < n
            invariant
                0 <= i <= n,
                n == chunks@.len(),
                chunk_views.len() == n,
                forall|k: int| 0 <= k < n ==> chunk_views[k] == #[trigger] chunks@[k]@,
                b.rules() == spec_apply_chunks(orig, chunk_views.subrange(0, i as int)),
            decreases n - i,
        {
            let ghost prefix = chunk_views.subrange(0, i as int);
            let ghost next_prefix = chunk_views.subrange(0, i as int + 1);
            proof {
                assert(next_prefix.drop_last() =~= prefix);
                assert(next_prefix.last() == chunk_views[i as int]);
            }
            match parse_chunk(chunks[i].as_str()) {
                Some(d) => {
                    let level = d.level;
                    b = match &d.name {
                        Some(nm) => b.filter(Some(nm.as_str()), level),
                        None => b.filter(None, level),
                    };
                },
                None => {},
            }
            i += 1;
        }
        proof {
            assert(chunk_views.subrange(0, n as int) =~= chunk_views);
        }
        b
    }
}

} // verus!
