//! Primitive documentation: a small markdown-like fragment language, parsed
//! line by line into text, code, emphasis, links and primitive references.
use vstd::prelude::*;

use crate::prim::{lemma_name_uniqueness, name_spec, Primitive};
use crate::strutil::str_eq;

verus! {

/// A fragment of one documentation line.
#[derive(Debug)]
pub enum PrimDocFragment {
    /// Plain text.
    Text(String),
    /// Inline code.
    Code(String),
    /// Emphasised text.
    Emphasis(String),
    /// Strongly emphasised text.
    Strong(String),
    /// A reference to a primitive; `named` says whether it renders by name.
    Prim(Primitive, bool),
    /// A link: its text and its address.
    Link(String, String),
}

/// The mathematical shape of a fragment.
pub enum FragModel {
    /// Plain text.
    Text(Seq<char>),
    /// Inline code.
    Code(Seq<char>),
    /// Emphasised text.
    Emphasis(Seq<char>),
    /// Strongly emphasised text.
    Strong(Seq<char>),
    /// A reference to a primitive.
    Prim(Primitive, bool),
    /// A link: its text and its address.
    Link(Seq<char>, Seq<char>),
}

/// What a fragment holds, over views.
pub open spec fn frag_model(f: PrimDocFragment) -> FragModel {
    match f {
        PrimDocFragment::Text(t) => FragModel::Text(t@),
        PrimDocFragment::Code(t) => FragModel::Code(t@),
        PrimDocFragment::Emphasis(t) => FragModel::Emphasis(t@),
        PrimDocFragment::Strong(t) => FragModel::Strong(t@),
        PrimDocFragment::Prim(p, named) => FragModel::Prim(p, named),
        PrimDocFragment::Link(t, u) => FragModel::Link(t@, u@),
    }
}

/// The parser's mode: what the characters being gathered will become.
#[derive(Debug, Clone, Copy, PartialEq, Eq, Structural)]
pub enum FragKind {
    /// Gathering plain text.
    Text,
    /// Inside backticks.
    Code,
    /// Inside single asterisks.
    Emphasis,
    /// Inside double asterisks.
    Strong,
    /// Inside square brackets.
    Prim,
}

/// The opening marker of a mode, reattached to an unclosed tail.
pub open spec fn open_of(k: FragKind) -> Seq<char> {
    match k {
        FragKind::Text => Seq::empty(),
        FragKind::Code => "`"@,
        FragKind::Emphasis => "*"@,
        FragKind::Strong => "**"@,
        FragKind::Prim => "["@,
    }
}

/// The primitive a piece of inline code refers to, when exactly one primitive
/// carries that name.
pub open spec fn prim_named(s: Seq<char>) -> Option<Primitive> {
    if exists|p: Primitive| name_spec(p) == s {
        Some(choose|p: Primitive| name_spec(p) == s)
    } else {
        None
    }
}

/// The first closing parenthesis at or after position `j`, or the end.
pub open spec fn close_paren(s: Seq<char>, j: int) -> int
    decreases s.len() - j when 0 <= j <= s.len()
{
    if j < 0 || j >= s.len() {
        s.len() as int
    } else if s[j] == ')' {
        j
    } else {
        close_paren(s, j + 1)
    }
}

/// The fragment parse of the rest of a line: a state machine over one
/// character of lookahead. Backslash escapes a backtick; backticks gather
/// code, which resolves to a primitive reference when it is exactly a name;
/// single and double asterisks gather emphasis; square brackets gather a
/// primitive reference by name, or, followed by parentheses, a link whose
/// address is shed of surrounding whitespace.
pub open spec fn parse_frags(s: Seq<char>, i: int, kind: FragKind, cur: Seq<char>) -> Seq<
    FragModel,
>
    decreases s.len() - i, 0int when 0 <= i <= s.len()
{
    if i >= s.len() {
        let fin = open_of(kind) + cur;
        if fin.len() == 0 {
            Seq::empty()
        } else {
            seq![FragModel::Text(fin)]
        }
    } else {
        let c = s[i];
        if c == '\\' && i + 1 < s.len() && s[i + 1] == '`' {
            parse_frags(s, i + 2, kind, cur.push('`'))
        } else if c == '`' && kind == FragKind::Code {
            (match prim_named(cur) {
                Some(p) => seq![FragModel::Prim(p, false)],
                None => seq![FragModel::Code(cur)],
            }) + parse_frags(s, i + 1, FragKind::Text, Seq::empty())
        } else if c == '`' && kind == FragKind::Text {
            seq![FragModel::Text(cur)] + parse_frags(s, i + 1, FragKind::Code, Seq::empty())
        } else if c == '*' && kind == FragKind::Emphasis && cur.len() == 0 {
            parse_frags(s, i + 1, FragKind::Strong, Seq::empty())
        } else if c == '*' && kind == FragKind::Emphasis {
            seq![FragModel::Emphasis(cur)] + parse_frags(s, i + 1, FragKind::Text, Seq::empty())
        } else if c == '*' && kind == FragKind::Strong && i + 1 < s.len() && s[i + 1] == '*' {
            seq![FragModel::Strong(cur)] + parse_frags(s, i + 2, FragKind::Text, Seq::empty())
        } else if c == '*' && kind == FragKind::Text {
            seq![FragModel::Text(cur)] + parse_frags(s, i + 1, FragKind::Emphasis, Seq::empty())
        } else if c == '[' && kind == FragKind::Text {
            seq![FragModel::Text(cur)] + parse_frags(s, i + 1, FragKind::Prim, Seq::empty())
        } else if c == ']' && kind == FragKind::Prim && i + 1 < s.len() && s[i + 1] == '(' {
            let cp = close_paren(s, i + 2);
            seq![FragModel::Link(cur, trimmed(s.subrange(i + 2, cp)))] + parse_frags(
                s,
                if i + 2 <= cp && cp < s.len() {
                    cp + 1
                } else {
                    s.len() as int
                },
                FragKind::Text,
                Seq::empty(),
            )
        } else if c == ']' && kind == FragKind::Prim {
            (match prim_named(cur) {
                Some(p) => seq![FragModel::Prim(p, true)],
                None => seq![FragModel::Text(cur)],
            }) + parse_frags(s, i + 1, FragKind::Text, Seq::empty())
        } else if c == ']' && kind == FragKind::Text {
            seq![FragModel::Text(cur)] + parse_frags(s, i + 1, FragKind::Text, Seq::empty())
        } else {
            parse_frags(s, i + 1, kind, cur.push(c))
        }
    }
}

/// Mapping fragments to their models distributes over catenation.
proof fn lemma_map_add(a: Seq<PrimDocFragment>, b: Seq<PrimDocFragment>)
    ensures
        (a + b).map_values(|f: PrimDocFragment| frag_model(f)) == a.map_values(
            |f: PrimDocFragment| frag_model(f),
        ) + b.map_values(|f: PrimDocFragment| frag_model(f)),
{
    assert((a + b).map_values(|f: PrimDocFragment| frag_model(f)) =~= a.map_values(
        |f: PrimDocFragment| frag_model(f),
    ) + b.map_values(|f: PrimDocFragment| frag_model(f)));
}

/// Parse one documentation line into its fragments.
pub fn parse_doc_line_fragments(line: &str) -> (r: Vec<PrimDocFragment>)
    ensures
        r@.map_values(|f: PrimDocFragment| frag_model(f)) == parse_frags(
            line@,
            0,
            FragKind::Text,
            Seq::empty(),
        ),
{
    parse_rec(line, 0, FragKind::Text, String::new())
}

/// One step of the fragment parser, from position `i` in mode `kind` with the
/// gathered text `cur`.
#[verifier::loop_isolation(false)]
fn parse_rec(s: &str, i: usize, kind: FragKind, cur: String) -> (r: Vec<PrimDocFragment>)
    requires
        i <= s@.len(),
    ensures
        r@.map_values(|f: PrimDocFragment| frag_model(f)) == parse_frags(s@, i as int, kind, cur@),
    decreases s@.len() - i, 0int,
{
    let n = s.unicode_len();
    if i >= n {
        let ghost gcur = cur@;
        let fin = match kind {
            FragKind::Text => cur,
            FragKind::Code => prepend("`", cur),
            FragKind::Emphasis => prepend("*", cur),
            FragKind::Strong => prepend("**", cur),
            FragKind::Prim => prepend("[", cur),
        };
        proof {
            reveal_strlit("`");
            reveal_strlit("*");
            reveal_strlit("**");
            reveal_strlit("[");
            assert(fin@ =~= open_of(kind) + gcur);
        }
        let mut out: Vec<PrimDocFragment> = Vec::new();
        if fin.unicode_len() > 0 {
            out.push(PrimDocFragment::Text(fin));
            proof {
                assert(out@.map_values(|f: PrimDocFragment| frag_model(f)) =~= seq![
                    FragModel::Text(open_of(kind) + cur@),
                ]);
            }
        } else {
            proof {
                assert(out@.map_values(|f: PrimDocFragment| frag_model(f)) =~= Seq::<
                    FragModel,
                >::empty());
            }
        }
        return out;
    }
    let c = s.get_char(i);
    if c == '\\' && i + 1 < n && s.get_char(i + 1) == '`' {
        let mut cur = cur;
        cur.push('`');
        parse_rec(s, i + 2, kind, cur)
    } else if c == '`' && kind == FragKind::Code {
        let frag = match prim_of_name(&cur) {
            Some(p) => PrimDocFragment::Prim(p, false),
            None => PrimDocFragment::Code(cur),
        };
        emit_and_rest(frag, s, i + 1)
    } else if c == '`' && kind == FragKind::Text {
        emit_with(PrimDocFragment::Text(cur), s, i + 1, FragKind::Code)
    } else if c == '*' && kind == FragKind::Emphasis && cur.unicode_len() == 0 {
        proof {
            assert(cur@.len() == 0);
        }
        parse_rec(s, i + 1, FragKind::Strong, String::new())
    } else if c == '*' && kind == FragKind::Emphasis {
        emit_and_rest(PrimDocFragment::Emphasis(cur), s, i + 1)
    } else if c == '*' && kind == FragKind::Strong && i + 1 < n && s.get_char(i + 1) == '*' {
        emit_and_rest(PrimDocFragment::Strong(cur), s, i + 2)
    } else if c == '*' && kind == FragKind::Text {
        emit_with(PrimDocFragment::Text(cur), s, i + 1, FragKind::Emphasis)
    } else if c == '[' && kind == FragKind::Text {
        emit_with(PrimDocFragment::Text(cur), s, i + 1, FragKind::Prim)
    } else if c == ']' && kind == FragKind::Prim && i + 1 < n && s.get_char(i + 1) == '(' {
        let cp = find_close_paren(s, i + 2);
        let url = trim_exec(s.substring_char(i + 2, cp));
        let next = if cp < n {
            cp + 1
        } else {
            n
        };
        emit_and_rest(PrimDocFragment::Link(cur, String::from_str(url)), s, next)
    } else if c == ']' && kind == FragKind::Prim {
        let frag = match prim_of_name(&cur) {
            Some(p) => PrimDocFragment::Prim(p, true),
            None => PrimDocFragment::Text(cur),
        };
        emit_and_rest(frag, s, i + 1)
    } else if c == ']' && kind == FragKind::Text {
        emit_and_rest(PrimDocFragment::Text(cur), s, i + 1)
    } else {
        let mut cur = cur;
        cur.push(c);
        parse_rec(s, i + 1, kind, cur)
    }
}

/// Emit one fragment and parse the rest in plain-text mode.
fn emit_and_rest(frag: PrimDocFragment, s: &str, next: usize) -> (r: Vec<PrimDocFragment>)
    requires
        next <= s@.len(),
    ensures
        r@.map_values(|f: PrimDocFragment| frag_model(f)) == seq![frag_model(frag)] + parse_frags(
            s@,
            next as int,
            FragKind::Text,
            Seq::empty(),
        ),
    decreases s@.len() - next, 1int,
{
    let rest = parse_rec(s, next, FragKind::Text, String::new());
    let mut out: Vec<PrimDocFragment> = Vec::new();
    out.push(frag);
    let ghost head = out@;
    let mut rest = rest;
    out.append(&mut rest);
    proof {
        lemma_map_add(head, out@.subrange(1, out@.len() as int));
        assert(out@ =~= head + out@.subrange(1, out@.len() as int));
        assert(head.map_values(|f: PrimDocFragment| frag_model(f)) =~= seq![frag_model(frag)]);
    }
    out
}

/// Emit one fragment and parse the rest in the given mode.
fn emit_with(frag: PrimDocFragment, s: &str, next: usize, kind: FragKind) -> (r: Vec<
    PrimDocFragment,
>)
    requires
        next <= s@.len(),
    ensures
        r@.map_values(|f: PrimDocFragment| frag_model(f)) == seq![frag_model(frag)] + parse_frags(
            s@,
            next as int,
            kind,
            Seq::empty(),
        ),
    decreases s@.len() - next, 1int,
{
    let rest = parse_rec(s, next, kind, String::new());
    let mut out: Vec<PrimDocFragment> = Vec::new();
    out.push(frag);
    let ghost head = out@;
    let mut rest = rest;
    out.append(&mut rest);
    proof {
        lemma_map_add(head, out@.subrange(1, out@.len() as int));
        assert(out@ =~= head + out@.subrange(1, out@.len() as int));
        assert(head.map_values(|f: PrimDocFragment| frag_model(f)) =~= seq![frag_model(frag)]);
    }
    out
}

/// Prefix a gathered tail with its reopened marker.
fn prepend(marker: &str, cur: String) -> (r: String)
    ensures
        r@ == marker@ + cur@,
{
    let mut out = String::from_str(marker);
    out.append(cur.as_str());
    out
}

/// The primitive carrying exactly this name, if any.
fn prim_of_name(cur: &String) -> (r: Option<Primitive>)
    ensures
        r == prim_named(cur@),
{
    let r = Primitive::from_name(cur.as_str());
    proof {
        match r {
            Some(p) => {
                let q = choose|q: Primitive| name_spec(q) == cur@;
                if q != p {
                    lemma_name_uniqueness(q, p);
                }
            },
            None => {},
        }
    }
    r
}

/// The scan for a closing parenthesis stays within the text.
proof fn lemma_close_paren_bounds(s: Seq<char>, j: int)
    requires
        0 <= j <= s.len(),
    ensures
        j <= close_paren(s, j) <= s.len(),
    decreases s.len() - j,
{
    if j < s.len() && s[j] != ')' {
        lemma_close_paren_bounds(s, j + 1);
    }
}

/// The first closing parenthesis at or after position `j`, or the end.
#[verifier::loop_isolation(false)]
fn find_close_paren(s: &str, j: usize) -> (r: usize)
    requires
        j <= s@.len(),
    ensures
        r as int == close_paren(s@, j as int),
        j <= r <= s@.len(),
    decreases 0int,
{
    proof {
        lemma_close_paren_bounds(s@, j as int);
    }
    let n = s.unicode_len();
    let mut k = j;
    while k < n
        invariant
            j <= k <= n,
            n == s@.len(),
            close_paren(s@, j as int) == close_paren(s@, k as int),
        decreases n - k,
    {
        if s.get_char(k) == ')' {
            return k;
        }
        k += 1;
    }
    n
}


/// Whitespace a documentation line sheds at its ends.
pub open spec fn is_space(c: char) -> bool {
    c == ' ' || c == '\t' || c == '\r' || c == '\n'
}

/// The first non-whitespace position at or after `i`.
pub open spec fn trim_start_idx(s: Seq<char>, i: int) -> int
    decreases s.len() - i when 0 <= i <= s.len()
{
    if i >= s.len() {
        i
    } else if is_space(s[i]) {
        trim_start_idx(s, i + 1)
    } else {
        i
    }
}

/// The position after the last non-whitespace character before `j`.
pub open spec fn trim_end_idx(s: Seq<char>, j: int) -> int
    decreases j when 0 <= j <= s.len()
{
    if j <= 0 {
        0
    } else if is_space(s[j - 1]) {
        trim_end_idx(s, j - 1)
    } else {
        j
    }
}

/// The text with surrounding whitespace shed.
pub open spec fn trimmed(s: Seq<char>) -> Seq<char> {
    let a = trim_start_idx(s, 0);
    let b = trim_end_idx(s, s.len() as int);
    if a >= b {
        Seq::empty()
    } else {
        s.subrange(a, b)
    }
}

/// The leading scan stays within the text.
proof fn lemma_trim_start_bounds(s: Seq<char>, i: int)
    requires
        0 <= i <= s.len(),
    ensures
        i <= trim_start_idx(s, i) <= s.len(),
    decreases s.len() - i,
{
    if i < s.len() && is_space(s[i]) {
        lemma_trim_start_bounds(s, i + 1);
    }
}

/// The trailing scan stays within the text.
proof fn lemma_trim_end_bounds(s: Seq<char>, j: int)
    requires
        0 <= j <= s.len(),
    ensures
        0 <= trim_end_idx(s, j) <= j,
    decreases j,
{
    if j > 0 && is_space(s[j - 1]) {
        lemma_trim_end_bounds(s, j - 1);
    }
}

/// Whether a character is documentation whitespace.
fn is_space_exec(c: char) -> (r: bool)
    ensures
        r == is_space(c),
{
    c == ' ' || c == '\t' || c == '\r' || c == '\n'
}

/// Shed the whitespace around a piece of text.
#[verifier::loop_isolation(false)]
fn trim_exec<'a>(s: &'a str) -> (r: &'a str)
    ensures
        r@ == trimmed(s@),
{
    let n = s.unicode_len();
    proof {
        lemma_trim_start_bounds(s@, 0);
        lemma_trim_end_bounds(s@, n as int);
    }
    let mut a: usize = 0;
    while a < n && is_space_exec(s.get_char(a))
        invariant
            a <= n,
            trim_start_idx(s@, 0) == trim_start_idx(s@, a as int),
        decreases n - a,
    {
        a += 1;
    }
    let mut b: usize = n;
    while b > 0 && is_space_exec(s.get_char(b - 1))
        invariant
            b <= n,
            trim_end_idx(s@, n as int) == trim_end_idx(s@, b as int),
        decreases b,
    {
        b -= 1;
    }
    if a >= b {
        let r = s.substring_char(0, 0);
        proof {
            assert(r@ =~= Seq::<char>::empty());
        }
        r
    } else {
        s.substring_char(a, b)
    }
}

/// An example in a primitive's documentation.
#[derive(Debug)]
pub struct PrimExample {
    /// The example's source code.
    pub input: String,
    /// Whether the example is expected to error.
    pub should_error: bool,
}

/// One line of a primitive's documentation.
#[derive(Debug)]
pub enum PrimDocLine {
    /// A line of prose.
    Text(Vec<PrimDocFragment>),
    /// A runnable example.
    Example(PrimExample),
}

/// Documentation for a primitive: a short description and the full lines.
#[derive(Debug)]
pub struct PrimDoc {
    /// The short description.
    pub short: Vec<PrimDocFragment>,
    /// The full documentation.
    pub lines: Vec<PrimDocLine>,
}

/// The mathematical shape of a documentation line.
pub enum LineModel {
    /// A line of prose.
    Text(Seq<FragModel>),
    /// An example: its source and whether it should error.
    Example(Seq<char>, bool),
}

/// What a documentation line holds, over views.
pub open spec fn line_model(l: PrimDocLine) -> LineModel {
    match l {
        PrimDocLine::Text(frags) => LineModel::Text(
            frags@.map_values(|f: PrimDocFragment| frag_model(f)),
        ),
        PrimDocLine::Example(ex) => LineModel::Example(ex.input@, ex.should_error),
    }
}

/// Whether `p` begins `s`.
pub open spec fn has_prefix(s: Seq<char>, p: Seq<char>) -> bool {
    p.len() <= s.len() && s.subrange(0, p.len() as int) == p
}

/// The rest of a prefixed line, with one space after the prefix swallowed.
pub open spec fn after_prefix(s: Seq<char>, n: int) -> Seq<char> {
    if s.len() > n && s[n] == ' ' {
        s.subrange(n + 1, s.len() as int)
    } else {
        s.subrange(n, s.len() as int)
    }
}

/// The index of the first line break at or after `i`.
pub open spec fn find_nl(s: Seq<char>, i: int) -> int
    decreases s.len() - i when 0 <= i <= s.len()
{
    if i < 0 || i >= s.len() {
        s.len() as int
    } else if s[i] == '\n' {
        i
    } else {
        find_nl(s, i + 1)
    }
}

/// The state the line reader threads: the short description found so far and
/// the lines gathered so far.
pub struct DocState(pub Seq<FragModel>, pub Seq<LineModel>);

/// Read one documentation line — already shed of surrounding whitespace —
/// into the state: examples by their prefixes, a continuation extending the
/// last example, the first other line becoming the short description, and
/// the rest plain lines.
pub open spec fn doc_step(st: DocState, line: Seq<char>) -> DocState {
    if has_prefix(line, "ex:"@) {
        DocState(st.0, st.1.push(LineModel::Example(after_prefix(line, 3), false)))
    } else if has_prefix(line, "ex!"@) {
        DocState(st.0, st.1.push(LineModel::Example(after_prefix(line, 3), true)))
    } else if has_prefix(line, ":"@) {
        if st.1.len() > 0 && st.1.last() is Example {
            let prev = st.1.last()->Example_0;
            let err = st.1.last()->Example_1;
            DocState(
                st.0,
                st.1.drop_last().push(
                    LineModel::Example(prev + seq!['\n'] + after_prefix(line, 1), err),
                ),
            )
        } else {
            DocState(st.0, st.1.push(LineModel::Text(parse_frags(line, 0, FragKind::Text, Seq::empty()))))
        }
    } else if st.0.len() == 0 {
        DocState(parse_frags(line, 0, FragKind::Text, Seq::empty()), st.1)
    } else {
        DocState(st.0, st.1.push(LineModel::Text(parse_frags(line, 0, FragKind::Text, Seq::empty()))))
    }
}

/// Read the whole text, line by line.
pub open spec fn doc_fold(s: Seq<char>, i: int, st: DocState) -> DocState
    decreases s.len() - i when 0 <= i <= s.len()
{
    if i >= s.len() {
        st
    } else {
        let nl0 = find_nl(s, i);
        let nl = if i <= nl0 && nl0 <= s.len() {
            nl0
        } else {
            s.len() as int
        };
        let line = trimmed(s.subrange(i, nl));
        let st2 = doc_step(st, line);
        if nl < s.len() {
            doc_fold(s, nl + 1, st2)
        } else {
            st2
        }
    }
}

/// Whether a line is prose with no fragments.
pub open spec fn is_empty_text(l: LineModel) -> bool {
    l matches LineModel::Text(frags) && frags.len() == 0
}

/// Lines without their leading empty prose.
pub open spec fn drop_leading_empty(ls: Seq<LineModel>) -> Seq<LineModel>
    decreases ls.len(),
{
    if ls.len() > 0 && is_empty_text(ls[0]) {
        drop_leading_empty(ls.drop_first())
    } else {
        ls
    }
}

/// Lines without their trailing empty prose.
pub open spec fn drop_trailing_empty(ls: Seq<LineModel>) -> Seq<LineModel>
    decreases ls.len(),
{
    if ls.len() > 0 && is_empty_text(ls.last()) {
        drop_trailing_empty(ls.drop_last())
    } else {
        ls
    }
}

/// What `from_lines` produces for a documentation text.
pub open spec fn doc_of(s: Seq<char>) -> DocState {
    let st = doc_fold(s, 0, DocState(Seq::empty(), Seq::empty()));
    DocState(st.0, drop_trailing_empty(drop_leading_empty(st.1)))
}

/// The scan for a line break stays within the text.
proof fn lemma_find_nl_bounds(s: Seq<char>, i: int)
    requires
        0 <= i <= s.len(),
    ensures
        i <= find_nl(s, i) <= s.len(),
    decreases s.len() - i,
{
    if i < s.len() && s[i] != '\n' {
        lemma_find_nl_bounds(s, i + 1);
    }
}

/// The first line break at or after `j`, or the end.
#[verifier::loop_isolation(false)]
fn find_nl_exec(s: &str, j: usize) -> (r: usize)
    requires
        j <= s@.len(),
    ensures
        r as int == find_nl(s@, j as int),
        j <= r <= s@.len(),
{
    proof {
        lemma_find_nl_bounds(s@, j as int);
    }
    let n = s.unicode_len();
    let mut k = j;
    while k < n
        invariant
            j <= k <= n,
            find_nl(s@, j as int) == find_nl(s@, k as int),
        decreases n - k,
    {
        if s.get_char(k) == '\n' {
            return k;
        }
        k += 1;
    }
    n
}

/// The rest of a prefixed line, with one space after the prefix swallowed.
fn after_prefix_exec(line: &str, n: usize) -> (r: String)
    requires
        n <= line@.len(),
    ensures
        r@ == after_prefix(line@, n as int),
{
    if line.unicode_len() > n && line.get_char(n) == ' ' {
        String::from_str(line.substring_char(n + 1, line.unicode_len()))
    } else {
        String::from_str(line.substring_char(n, line.unicode_len()))
    }
}

impl PrimDoc {
    /// Parse a documentation text, line by line, each line shed of its
    /// surrounding whitespace first: examples by their prefixes,
    /// continuations extending the previous example, the first other line
    /// becoming the short description, and empty prose dropped at both ends.
    #[verifier::loop_isolation(false)]
    pub fn from_lines(s: &str) -> (r: PrimDoc)
        ensures
            r.short@.map_values(|f: PrimDocFragment| frag_model(f)) == doc_of(s@).0,
            r.lines@.map_values(|l: PrimDocLine| line_model(l)) == doc_of(s@).1,
    {
        let n = s.unicode_len();
        let mut short: Vec<PrimDocFragment> = Vec::new();
        let mut lines: Vec<PrimDocLine> = Vec::new();
        let ghost init = DocState(Seq::empty(), Seq::empty());
        let mut i: usize = 0;
        proof {
            assert(short@.map_values(|f: PrimDocFragment| frag_model(f)) =~= Seq::<
                FragModel,
            >::empty());
            assert(lines@.map_values(|l: PrimDocLine| line_model(l)) =~= Seq::<
                LineModel,
            >::empty());
        }
        while i < n
            invariant
                i <= n,
                n == s@.len(),
                doc_fold(s@, 0, init) == doc_fold(
                    s@,
                    i as int,
                    DocState(
                        short@.map_values(|f: PrimDocFragment| frag_model(f)),
                        lines@.map_values(|l: PrimDocLine| line_model(l)),
                    ),
                ),
            decreases n - i,
        {
            let ghost pre = DocState(
                short@.map_values(|f: PrimDocFragment| frag_model(f)),
                lines@.map_values(|l: PrimDocLine| line_model(l)),
            );
            let nl = find_nl_exec(s, i);
            let line = trim_exec(s.substring_char(i, nl));
            let ghost lv = line@;
            proof {
                reveal_strlit("ex:");
                reveal_strlit("ex!");
                reveal_strlit(":");
            }
            if str_starts_with_lit(line, "ex:") {
                let input = after_prefix_exec(line, 3);
                lines.push(
                    PrimDocLine::Example(PrimExample { input, should_error: false }),
                );
            } else if str_starts_with_lit(line, "ex!") {
                let input = after_prefix_exec(line, 3);
                lines.push(PrimDocLine::Example(PrimExample { input, should_error: true }));
            } else if str_starts_with_lit(line, ":") {
                match lines.pop() {
                    Some(PrimDocLine::Example(ex)) => {
                        let ghost old_in = ex.input@;
                        let mut input = ex.input;
                        input.push('\n');
                        let after = after_prefix_exec(line, 1);
                        input.append(after.as_str());
                        proof {
                            assert(input@ =~= old_in + seq!['\n'] + after_prefix(lv, 1));
                        }
                        lines.push(
                            PrimDocLine::Example(
                                PrimExample { input, should_error: ex.should_error },
                            ),
                        );
                    },
                    Some(other) => {
                        lines.push(other);
                        lines.push(PrimDocLine::Text(parse_doc_line_fragments(line)));
                    },
                    None => {
                        lines.push(PrimDocLine::Text(parse_doc_line_fragments(line)));
                    },
                }
            } else if short.len() == 0 {
                short = parse_doc_line_fragments(line);
            } else {
                lines.push(PrimDocLine::Text(parse_doc_line_fragments(line)));
            }
            proof {
                let post = DocState(
                    short@.map_values(|f: PrimDocFragment| frag_model(f)),
                    lines@.map_values(|l: PrimDocLine| line_model(l)),
                );
                assert(post.0 =~= doc_step(pre, lv).0);
                assert(post.1 =~= doc_step(pre, lv).1);
                assert(post =~= doc_step(pre, lv));
            }
            if nl < n {
                i = nl + 1;
            } else {
                i = n;
            }
        }
        while lines.len() > 0 && is_empty_text_exec(&lines[0])
            invariant
                drop_leading_empty(doc_fold(s@, 0, init).1) == drop_leading_empty(
                    lines@.map_values(|l: PrimDocLine| line_model(l)),
                ),
                short@.map_values(|f: PrimDocFragment| frag_model(f)) == doc_fold(s@, 0, init).0,
            decreases lines@.len(),
        {
            let ghost prev = lines@.map_values(|l: PrimDocLine| line_model(l));
            let _ = lines.remove(0);
            proof {
                assert(lines@.map_values(|l: PrimDocLine| line_model(l)) =~= prev.drop_first());
            }
        }
        let ghost mid = lines@.map_values(|l: PrimDocLine| line_model(l));
        proof {
            assert(mid == drop_leading_empty(doc_fold(s@, 0, init).1));
        }
        while lines.len() > 0 && is_empty_text_exec(&lines[lines.len() - 1])
            invariant
                drop_trailing_empty(mid) == drop_trailing_empty(
                    lines@.map_values(|l: PrimDocLine| line_model(l)),
                ),
                short@.map_values(|f: PrimDocFragment| frag_model(f)) == doc_fold(s@, 0, init).0,
            decreases lines@.len(),
        {
            let ghost prev = lines@.map_values(|l: PrimDocLine| line_model(l));
            let _ = lines.pop();
            proof {
                assert(lines@.map_values(|l: PrimDocLine| line_model(l)) =~= prev.drop_last());
            }
        }
        PrimDoc { short, lines }
    }
}

/// Whether a line is prose with no fragments.
fn is_empty_text_exec(l: &PrimDocLine) -> (r: bool)
    ensures
        r == is_empty_text(line_model(*l)),
{
    match l {
        PrimDocLine::Text(frags) => frags.len() == 0,
        _ => false,
    }
}

/// Whether `line` begins with the given marker.
fn str_starts_with_lit(line: &str, p: &str) -> (r: bool)
    ensures
        r == has_prefix(line@, p@),
{
    crate::strutil::str_starts_with(line, p)
}

/// The plain text a fragment contributes to the short description: its
/// content, a named primitive's name, or an unnamed primitive's glyph.
pub open spec fn frag_text(f: FragModel) -> Seq<char> {
    match f {
        FragModel::Text(t) => t,
        FragModel::Code(t) => t,
        FragModel::Emphasis(t) => t,
        FragModel::Strong(t) => t,
        FragModel::Link(t, _) => t,
        FragModel::Prim(p, named) => if named {
            name_spec(p)
        } else {
            match crate::prim::glyph_spec(p) {
                Some(c) => seq![c],
                None => name_spec(p),
            }
        },
    }
}

/// The texts of a fragment sequence, joined.
pub open spec fn concat_texts(fs: Seq<FragModel>) -> Seq<char>
    decreases fs.len(),
{
    if fs.len() == 0 {
        Seq::empty()
    } else {
        frag_text(fs[0]) + concat_texts(fs.drop_first())
    }
}

/// Joining splits at the last fragment.
proof fn lemma_concat_push(fs: Seq<FragModel>, f: FragModel)
    ensures
        concat_texts(fs.push(f)) == concat_texts(fs) + frag_text(f),
    decreases fs.len(),
{
    if fs.len() == 0 {
        assert(fs.push(f).drop_first() =~= Seq::<FragModel>::empty());
        assert(frag_text(f) + concat_texts(Seq::<FragModel>::empty()) =~= frag_text(f));
        assert(concat_texts(fs) + frag_text(f) =~= frag_text(f));
    } else {
        assert(fs.push(f).drop_first() =~= fs.drop_first().push(f));
        lemma_concat_push(fs.drop_first(), f);
        assert(frag_text(fs[0]) + (concat_texts(fs.drop_first()) + frag_text(f)) =~= (frag_text(
            fs[0],
        ) + concat_texts(fs.drop_first())) + frag_text(f));
    }
}

impl PrimDoc {
    /// The short description as plain text.
    #[verifier::loop_isolation(false)]
    pub fn short_text(&self) -> (r: String)
        ensures
            r@ == concat_texts(self.short@.map_values(|f: PrimDocFragment| frag_model(f))),
    {
        let ghost m = self.short@.map_values(|f: PrimDocFragment| frag_model(f));
        let mut out = String::new();
        proof {
            assert(concat_texts(m.take(0int)) =~= Seq::<char>::empty());
        }
        for i in 0..self.short.len()
            invariant
                m == self.short@.map_values(|f: PrimDocFragment| frag_model(f)),
                out@ == concat_texts(m.take(i as int)),
        {
            proof {
                assert(m.take(i as int).push(m[i as int]) =~= m.take(i + 1int));
                lemma_concat_push(m.take(i as int), m[i as int]);
            }
            match &self.short[i] {
                PrimDocFragment::Text(t) => out.append(t.as_str()),
                PrimDocFragment::Code(t) => out.append(t.as_str()),
                PrimDocFragment::Emphasis(t) => out.append(t.as_str()),
                PrimDocFragment::Strong(t) => out.append(t.as_str()),
                PrimDocFragment::Link(t, _) => out.append(t.as_str()),
                PrimDocFragment::Prim(p, named) => {
                    if *named {
                        out.append(p.name());
                    } else {
                        match p.glyph() {
                            Some(c) => out.push(c),
                            None => out.append(p.name()),
                        }
                    }
                },
            }
        }
        proof {
            assert(m.take(m.len() as int) =~= m);
        }
        out
    }
}

/// Whether `p` occurs inside `s`.
pub open spec fn contains_sub(s: Seq<char>, p: Seq<char>) -> bool {
    exists|i: int|
        0 <= i && i + p.len() <= s.len() && #[trigger] s.subrange(i, i + p.len() as int) == p
}

/// Whether `p` occurs inside `s`.
#[verifier::loop_isolation(false)]
fn contains_sub_exec(s: &str, p: &str) -> (r: bool)
    ensures
        r == contains_sub(s@, p@),
{
    let n = s.unicode_len();
    let m = p.unicode_len();
    if m > n {
        proof {
            assert(!contains_sub(s@, p@));
        }
        return false;
    }
    if m == 0 {
        proof {
            assert(s@.subrange(0, 0 + p@.len() as int) =~= p@);
        }
        return true;
    }
    let mut i: usize = 0;
    while i <= n - m
        invariant
            m <= n,
            n == s@.len(),
            m == p@.len(),
            i <= n,
            forall|j: int| 0 <= j < i ==> #[trigger] s@.subrange(j, j + p@.len() as int) != p@,
        decreases n - i,
    {
        let w = s.substring_char(i, i + m);
        if crate::strutil::str_eq(w, p) {
            return true;
        }
        i += 1;
    }
    proof {
        assert(!contains_sub(s@, p@));
    }
    false
}

impl PrimExample {
    /// The example's source code.
    pub fn input(&self) -> (r: &str)
        ensures
            r@ == self.input@,
    {
        self.input.as_str()
    }

    /// Whether the example is expected to error.
    pub fn should_error(&self) -> (r: bool)
        ensures
            r == self.should_error,
    {
        self.should_error
    }

    /// Whether the example should run automatically: it must not reach the
    /// host facade through one of the system operations.
    pub fn should_run(&self) -> (r: bool)
        ensures
            r == !(contains_sub(self.input@, "&sl"@) || contains_sub(self.input@, "&tcpc"@)
                || contains_sub(self.input@, "&ast"@) || contains_sub(self.input@, "&p"@)
                || contains_sub(self.input@, "&fwa"@)),
    {
        !(contains_sub_exec(self.input.as_str(), "&sl") || contains_sub_exec(
            self.input.as_str(),
            "&tcpc",
        ) || contains_sub_exec(self.input.as_str(), "&ast") || contains_sub_exec(
            self.input.as_str(),
            "&p",
        ) || contains_sub_exec(self.input.as_str(), "&fwa"))
    }
}

impl Primitive {
    /// The documentation of the primitive, where one is written.
    pub fn doc(&self) -> Option<PrimDoc> {
        let text: &str = match self {
            Primitive::Dup => "Duplicate the top value on the stack",
            Primitive::Over => "Duplicate the second-to-top value to the top of the stack",
            Primitive::Flip => "Swap the top two values on the stack",
            Primitive::Pop => "Pop the top value off the stack",
            Primitive::Save => "Pop the top value off the stack and push it to the antistack",
            Primitive::Load => "Pop the top value off the antistack and push it to the stack",
            Primitive::Identity => "Do nothing with one value",
            Primitive::Not => "Logical not: one minus the argument",
            Primitive::Sign => "Numerical sign: one, negative one, or zero",
            Primitive::Neg => "Negate a number",
            Primitive::Abs => "The absolute value of a number",
            Primitive::Sqrt => "The square root of a number",
            Primitive::Sin => "The sine of a number",
            Primitive::Floor => "Round a number down",
            Primitive::Ceil => "Round a number up",
            Primitive::Round => "Round a number to the nearest whole number",
            Primitive::Eq => "Compare for equality",
            Primitive::Ne => "Compare for inequality",
            Primitive::Lt => "Compare for less than",
            Primitive::Le => "Compare for less than or equal",
            Primitive::Gt => "Compare for greater than",
            Primitive::Ge => "Compare for greater than or equal",
            Primitive::Add => "Add two values",
            Primitive::Sub => "Subtract the first value from the second",
            Primitive::Mul => "Multiply two values",
            Primitive::Div => "Divide the second value by the first",
            Primitive::Mod => "The remainder of dividing the second value by the first",
            Primitive::Pow => "Raise the second value to the power of the first",
            Primitive::Log => "The logarithm of the second value in the base of the first",
            Primitive::Min => "The smaller of two values",
            Primitive::Max => "The larger of two values",
            Primitive::Len => "The number of rows in an array\nex: \u{29fb}2_7_0",
            Primitive::Shape => "The dimensions of an array\nex: \u{25b3}[1_2 3_4 5_6]",
            Primitive::Range => "Make an array of the naturals below the argument\nex: \u{21e1}5",
            Primitive::First => "The first row of an array",
            Primitive::Reverse => "Reverse the rows of an array\nex: \u{21cc}1_2_3_9",
            Primitive::Deshape => "Make an array one-dimensional\nex: \u{266d}[1_2 3_4 5_6]",
            Primitive::Transpose => "Rotate the shape of an array",
            Primitive::Classify => "Assign a unique index to each unique element in an array\nex: \u{229b}7_7_8_0_1_2_0",
            Primitive::Deduplicate => "Remove duplicate elements from an array",
            Primitive::Box => "Wrap a value in a box",
            Primitive::Fix => "Add a length-one axis to the front of an array",
            Primitive::Match => "Check if two arrays' shapes and elements match exactly\nex: \u{224d} 1_2_3 [1 2 3]\nex: \u{224d} 1_2_3 [1 2]",
            Primitive::Couple => "Combine two arrays as the rows of a new array\nex: \u{229f} [1 2 3] [4 5 6]",
            Primitive::Join => "Append two arrays along their leading axis",
            Primitive::Pick => "Index a row or element out of an array\nex: \u{22a1} 2 [8 3 9 2 0]",
            Primitive::Reshape => "Change the shape of an array\nex: \u{21af} 2_3 [1 2 3 4 5 6]",
            Primitive::Keep => "Use an array to replicate the rows of another array",
            Primitive::Try => "Call a function and catch errors with a handler",
            Primitive::Assert => "Throw the message if the condition is not exactly one",
            Primitive::Gen => "Derive a value and a next seed deterministically from a seed",
            Primitive::Deal => "Shuffle the elements of an array with an explicit seed",
            Primitive::Tag => "A fresh tag, counting up from zero",
            Primitive::Type => "The type identity of a value, as a small number",
            Primitive::Now => "The milliseconds of the wall clock since the epoch",
            Primitive::Rand => "A machine-random number",
            Primitive::Memo => "Memoize a function over its arguments",
            Primitive::Repeat => "Repeat a function a number of times",
            Primitive::Reduce => "Apply a reducing function between the rows of an array",
            Primitive::Fold => "Apply a reducing function with an initial value",
            Primitive::Scan => "Reduce, but keep intermediate values",
            Primitive::Each => "Apply a function to each element of an array",
            Primitive::Rows => "Apply a function to each row of an array",
            Primitive::Table => "Apply a function to each combination of rows of two arrays",
            Primitive::Un => "Invert the behavior of a function",
            Primitive::Under => "Apply a function under another",
            _ => {
                return None;
            },
        };
        Some(PrimDoc::from_lines(text))
    }
}

} // verus!
