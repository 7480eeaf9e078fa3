//! The name resolver: maps alphabetic identifiers to primitives, handling
//! fixed aliases, unambiguous prefixes and planet notation.
use vstd::prelude::*;

use crate::prim::{
    all_prims, glyph_spec, is_deprecated_spec, key_of, lemma_name_key, lemma_name_uniqueness,
    lemma_name_wf, lemma_prim_at_index, lemma_prim_index, lemma_unkey, name_key, name_spec,
    prim_index, unkey_prim, Primitive, PRIM_COUNT,
};
use crate::strutil::{contains_upper, has_uppercase, is_prefix, str_eq};

verus! {

/// The fixed aliases of the resolver, part of the stable surface.
pub open spec fn alias_spec(s: Seq<char>) -> Option<Primitive> {
    if s == "id"@ {
        Some(Primitive::Identity)
    } else if s == "ga"@ {
        Some(Primitive::Gap)
    } else if s == "pi"@ {
        Some(Primitive::Pi)
    } else if s == "ran"@ {
        Some(Primitive::Range)
    } else if s == "tra"@ {
        Some(Primitive::Transpose)
    } else if s == "par"@ {
        Some(Primitive::Partition)
    } else {
        None
    }
}

/// The first non-deprecated primitive, at or after position `i`, whose name
/// equals `s` exactly.
pub open spec fn find_exact_from(s: Seq<char>, i: int) -> Option<Primitive>
    decreases PRIM_COUNT - i when 0 <= i <= PRIM_COUNT
{
    if i < 0 || i >= PRIM_COUNT {
        None
    } else if !is_deprecated_spec(all_prims()[i]) && name_spec(all_prims()[i]) == s {
        Some(all_prims()[i])
    } else {
        find_exact_from(s, i + 1)
    }
}

/// Whether a primitive competes for prefix resolution of `s`: it is not
/// deprecated, its glyph is a non-ASCII character, and its name starts with `s`.
pub open spec fn is_candidate(p: Primitive, s: Seq<char>) -> bool {
    &&& !is_deprecated_spec(p)
    &&& glyph_spec(p) is Some
    &&& (glyph_spec(p)->0) as int >= 128
    &&& is_prefix(s, name_spec(p))
}

/// The position of the first prefix candidate for `s` at or after position `i`.
pub open spec fn find_cand_from(s: Seq<char>, i: int) -> Option<int>
    decreases PRIM_COUNT - i when 0 <= i <= PRIM_COUNT
{
    if i < 0 || i >= PRIM_COUNT {
        None
    } else if is_candidate(all_prims()[i], s) {
        Some(i)
    } else {
        find_cand_from(s, i + 1)
    }
}

/// What `from_format_name` resolves `s` to: nothing for capitalised or
/// one-character input; a fixed alias; an exact non-deprecated name; or, for
/// three or more characters, the unique non-deprecated glyph primitive whose
/// name `s` begins.
pub open spec fn ffn_spec(s: Seq<char>) -> Option<Primitive> {
    if contains_upper(s) || s.len() < 2 {
        None
    } else if alias_spec(s) is Some {
        alias_spec(s)
    } else if find_exact_from(s, 0) is Some {
        find_exact_from(s, 0)
    } else if s.len() < 3 {
        None
    } else {
        match find_cand_from(s, 0) {
            None => None,
            Some(i) => {
                if find_cand_from(s, i + 1) is None {
                    Some(all_prims()[i])
                } else {
                    None
                }
            },
        }
    }
}

impl Primitive {
    /// Resolve a formatter name: a fixed alias, an exact non-deprecated name,
    /// or an unambiguous prefix of a glyph primitive's name.
    pub fn from_format_name(name: &str) -> (r: Option<Primitive>)
        ensures
            r == ffn_spec(name@),
    {
        if has_uppercase(name) {
            return None;
        }
        let n = name.unicode_len();
        if n < 2 {
            return None;
        }
        if str_eq(name, "id") {
            return Some(Primitive::Identity);
        }
        if str_eq(name, "ga") {
            return Some(Primitive::Gap);
        }
        if str_eq(name, "pi") {
            return Some(Primitive::Pi);
        }
        if str_eq(name, "ran") {
            return Some(Primitive::Range);
        }
        if str_eq(name, "tra") {
            return Some(Primitive::Transpose);
        }
        if str_eq(name, "par") {
            return Some(Primitive::Partition);
        }
        let all = Primitive::all();
        for i in 0..all.len()
            invariant
                all@ == all_prims(),
                !contains_upper(name@),
                n == name@.len(),
                n >= 2,
                alias_spec(name@) is None,
                find_exact_from(name@, 0) == find_exact_from(name@, i as int),
        {
            let p = all[i];
            if !p.is_deprecated() && str_eq(p.name(), name) {
                proof {
                    assert(find_exact_from(name@, i as int) == Some(all_prims()[i as int]));
                }
                return Some(p);
            }
        }
        if n < 3 {
            return None;
        }
        let fi = match find_candidate(&all, name, 0) {
            None => {
                return None;
            },
            Some(fi) => fi,
        };
        match find_candidate(&all, name, fi + 1) {
            None => Some(all[fi]),
            Some(_) => None,
        }
    }
}

/// The first prefix candidate for `name` at or after position `from`.
fn find_candidate(all: &Vec<Primitive>, name: &str, from: usize) -> (r: Option<usize>)
    requires
        all@ == all_prims(),
        from <= PRIM_COUNT,
    ensures
        match r {
            Some(k) => from <= k < PRIM_COUNT && find_cand_from(name@, from as int) == Some(
                k as int,
            ),
            None => find_cand_from(name@, from as int) is None,
        },
{
    let mut i = from;
    while i < all.len()
        invariant
            all@ == all_prims(),
            from <= i <= PRIM_COUNT,
            find_cand_from(name@, from as int) == find_cand_from(name@, i as int),
        decreases all@.len() - i,
    {
        if is_candidate_exec(all[i], name) {
            return Some(i);
        }
        i += 1;
    }
    None
}

/// Whether a primitive competes for prefix resolution of `s`.
fn is_candidate_exec(p: Primitive, s: &str) -> (r: bool)
    ensures
        r == is_candidate(p, s@),
{
    if p.is_deprecated() {
        return false;
    }
    match p.glyph() {
        None => false,
        Some(c) => {
            if (c as u32) < 128 {
                false
            } else {
                crate::strutil::str_starts_with(p.name(), s)
            }
        },
    }
}


/// The planet-notation expansion of a single letter.
pub open spec fn planet_prim_of(c: char) -> Primitive {
    if c == 'f' {
        Primitive::Fork
    } else if c == 'g' {
        Primitive::Gap
    } else if c == 'd' {
        Primitive::Dip
    } else if c == 'i' {
        Primitive::Identity
    } else {
        Primitive::Pop
    }
}

/// Where the checked middle of a planet word starts: after an optional `f`.
pub open spec fn planet_lo(s: Seq<char>) -> int {
    if s.len() > 0 && s[0] == 'f' {
        1
    } else {
        0
    }
}

/// Where the checked middle of a planet word ends: before an optional
/// trailing `i` or `p`.
pub open spec fn planet_hi(s: Seq<char>) -> int {
    if s.len() > planet_lo(s) && (s[s.len() - 1] == 'i' || s[s.len() - 1] == 'p') {
        s.len() - 1
    } else {
        s.len() as int
    }
}

/// A planet word: optionally prefixed by `f`, optionally suffixed by `i` or
/// `p`, with every remaining character in `{g, d}`.
pub open spec fn is_planet(s: Seq<char>) -> bool {
    forall|i: int| planet_lo(s) <= i < planet_hi(s) ==> #[trigger] s[i] == 'g' || s[i] == 'd'
}

/// The character-by-character decomposition of a planet word.
pub open spec fn planet_seq(s: Seq<char>) -> Seq<(Primitive, Seq<char>)> {
    Seq::new(s.len(), |i: int| (planet_prim_of(s[i]), s.subrange(i, i + 1)))
}

/// One greedy forward step and everything after it: at position `start`, try
/// substring lengths from `len` down to 2; the first that resolves, or is a
/// planet word, is consumed, and the scan commits to it.
pub open spec fn ffm_fwd(s: Seq<char>, start: int, len: int) -> Option<
    Seq<(Primitive, Seq<char>)>,
>
    decreases s.len() - start, len + 1,
        when 0 <= start && start <= s.len() && len <= s.len() - start
{
    if start >= s.len() {
        Some(Seq::empty())
    } else if len < 2 {
        None
    } else {
        let sub = s.subrange(start, start + len);
        if ffn_spec(sub) is Some {
            match ffm_fwd(s, start + len, s.len() - (start + len)) {
                None => None,
                Some(rest) => Some(seq![(ffn_spec(sub)->0, sub)] + rest),
            }
        } else if is_planet(sub) {
            match ffm_fwd(s, start + len, s.len() - (start + len)) {
                None => None,
                Some(rest) => Some(planet_seq(sub) + rest),
            }
        } else {
            ffm_fwd(s, start, len - 1)
        }
    }
}

/// One greedy backward step and everything before it. The backward scan has
/// no planet rule.
pub open spec fn ffm_bwd(s: Seq<char>, end: int, len: int) -> Option<Seq<(Primitive, Seq<char>)>>
    decreases end, len + 1,
        when 0 <= len && len <= end && end <= s.len()
{
    if end <= 0 {
        Some(Seq::empty())
    } else if len < 2 {
        None
    } else {
        let sub = s.subrange(end - len, end);
        if ffn_spec(sub) is Some {
            match ffm_bwd(s, end - len, end - len) {
                None => None,
                Some(rest) => Some(rest + seq![(ffn_spec(sub)->0, sub)]),
            }
        } else {
            ffm_bwd(s, end, len - 1)
        }
    }
}

/// What `from_format_name_multi` resolves: the greedy forward scan, or, where
/// that stalls, the greedy backward scan.
pub open spec fn ffm_spec(s: Seq<char>) -> Option<Seq<(Primitive, Seq<char>)>> {
    if s.len() < 2 {
        None
    } else if ffm_fwd(s, 0, s.len() as int) is Some {
        ffm_fwd(s, 0, s.len() as int)
    } else {
        ffm_bwd(s, s.len() as int, s.len() as int)
    }
}

/// The exec pairs carry the same primitives and the same spans as the spec pairs.
pub open spec fn pairs_match(v: Seq<(Primitive, &str)>, q: Seq<(Primitive, Seq<char>)>) -> bool {
    v.len() == q.len() && forall|i: int|
        0 <= i < v.len() ==> v[i].0 == q[i].0 && (#[trigger] v[i]).1@ == q[i].1
}

/// The exec result matches the spec result: absent together, or matching pairs.
pub open spec fn opt_pairs_match(
    v: Option<Seq<(Primitive, &str)>>,
    q: Option<Seq<(Primitive, Seq<char>)>>,
) -> bool {
    match (v, q) {
        (Some(v), Some(q)) => pairs_match(v, q),
        (None, None) => true,
        _ => false,
    }
}

/// Whether `s` is a planet word.
fn is_planet_exec(s: &str) -> (r: bool)
    ensures
        r == is_planet(s@),
{
    let n = s.unicode_len();
    let lo: usize = if n > 0 && s.get_char(0) == 'f' {
        1
    } else {
        0
    };
    let hi: usize = if n > lo && {
        let c = s.get_char(n - 1);
        c == 'i' || c == 'p'
    } {
        n - 1
    } else {
        n
    };
    proof {
        assert(lo == planet_lo(s@));
        assert(hi == planet_hi(s@));
    }
    let mut i = lo;
    while i < hi
        invariant
            lo == planet_lo(s@),
            hi == planet_hi(s@),
            lo <= i,
            hi <= s@.len(),
            forall|j: int| lo <= j < i ==> #[trigger] s@[j] == 'g' || s@[j] == 'd',
        decreases hi - i,
    {
        let c = s.get_char(i);
        if c != 'g' && c != 'd' {
            return false;
        }
        i += 1;
    }
    true
}

/// The planet decomposition of `s`, as primitive/span pairs.
fn planet_pairs_exec<'a>(s: &'a str) -> (r: Vec<(Primitive, &'a str)>)
    ensures
        pairs_match(r@, planet_seq(s@)),
{
    let n = s.unicode_len();
    let mut out: Vec<(Primitive, &'a str)> = Vec::new();
    for i in 0..n
        invariant
            n == s@.len(),
            out@.len() == i,
            forall|j: int|
                0 <= j < i ==> out@[j].0 == planet_prim_of(s@[j]) && (#[trigger] out@[j]).1@
                    == s@.subrange(j, j + 1),
    {
        let c = s.get_char(i);
        let p = if c == 'f' {
            Primitive::Fork
        } else if c == 'g' {
            Primitive::Gap
        } else if c == 'd' {
            Primitive::Dip
        } else if c == 'i' {
            Primitive::Identity
        } else {
            Primitive::Pop
        };
        let span = s.substring_char(i, i + 1);
        out.push((p, span));
    }
    out
}

/// Append every pair of `b` to `a`.
fn append_pairs<'a>(a: &mut Vec<(Primitive, &'a str)>, b: Vec<(Primitive, &'a str)>)
    ensures
        final(a)@ == old(a)@ + b@,
{
    let mut k: usize = 0;
    while k < b.len()
        invariant
            k <= b@.len(),
            a@ == old(a)@ + b@.take(k as int),
        decreases b@.len() - k,
    {
        a.push(b[k]);
        proof {
            assert(old(a)@ + b@.take(k as int) + seq![b@[k as int]] =~= old(a)@ + b@.take(
                k + 1int,
            ));
        }
        k += 1;
    }
    proof {
        assert(b@.take(b@.len() as int) =~= b@);
    }
}

/// The greedy forward scan from `start`, trying lengths `len` down to 2.
fn ffm_fwd_exec<'a>(name: &'a str, start: usize, len: usize) -> (r: Option<
    Vec<(Primitive, &'a str)>,
>)
    requires
        start + len <= name@.len(),
    ensures
        opt_pairs_match(
            match r {
                Some(v) => Some(v@),
                None => None,
            },
            ffm_fwd(name@, start as int, len as int),
        ),
    decreases name@.len() - start, len + 1,
{
    let n = name.unicode_len();
    if start >= n {
        return Some(Vec::new());
    }
    if len < 2 {
        return None;
    }
    let sub = name.substring_char(start, start + len);
    match Primitive::from_format_name(sub) {
        Some(p) => match ffm_fwd_exec(name, start + len, n - (start + len)) {
            None => None,
            Some(rest) => {
                let mut out: Vec<(Primitive, &'a str)> = Vec::new();
                out.push((p, sub));
                append_pairs(&mut out, rest);
                Some(out)
            },
        },
        None => {
            if is_planet_exec(sub) {
                match ffm_fwd_exec(name, start + len, n - (start + len)) {
                    None => None,
                    Some(rest) => {
                        let mut out = planet_pairs_exec(sub);
                        append_pairs(&mut out, rest);
                        Some(out)
                    },
                }
            } else {
                ffm_fwd_exec(name, start, len - 1)
            }
        },
    }
}

/// The greedy backward scan ending at `end`, trying lengths `len` down to 2.
fn ffm_bwd_exec<'a>(name: &'a str, end: usize, len: usize) -> (r: Option<
    Vec<(Primitive, &'a str)>,
>)
    requires
        len <= end,
        end <= name@.len(),
    ensures
        opt_pairs_match(
            match r {
                Some(v) => Some(v@),
                None => None,
            },
            ffm_bwd(name@, end as int, len as int),
        ),
    decreases end, len + 1,
{
    if end == 0 {
        return Some(Vec::new());
    }
    if len < 2 {
        return None;
    }
    let sub = name.substring_char(end - len, end);
    match Primitive::from_format_name(sub) {
        Some(p) => match ffm_bwd_exec(name, end - len, end - len) {
            None => None,
            Some(rest) => {
                let mut out = rest;
                out.push((p, sub));
                Some(out)
            },
        },
        None => ffm_bwd_exec(name, end, len - 1),
    }
}

impl Primitive {
    /// Resolve the concatenation of several formatter names at once: a greedy
    /// longest-first forward scan with planet notation, retried backward when
    /// the forward scan stalls.
    pub fn from_format_name_multi<'a>(name: &'a str) -> (r: Option<Vec<(Primitive, &'a str)>>)
        ensures
            opt_pairs_match(
                match r {
                    Some(v) => Some(v@),
                    None => None,
                },
                ffm_spec(name@),
            ),
    {
        let n = name.unicode_len();
        if n < 2 {
            return None;
        }
        match ffm_fwd_exec(name, 0, n) {
            Some(v) => Some(v),
            None => ffm_bwd_exec(name, n, n),
        }
    }
}


/// The position of the first primitive, deprecated or not, whose name `s`
/// begins, at or after position `i`. The legacy resolver searches this way.
pub open spec fn find_pref_all_from(s: Seq<char>, i: int) -> Option<int>
    decreases PRIM_COUNT - i when 0 <= i <= PRIM_COUNT
{
    if i < 0 || i >= PRIM_COUNT {
        None
    } else if is_prefix(s, name_spec(all_prims()[i])) {
        Some(i)
    } else {
        find_pref_all_from(s, i + 1)
    }
}

/// What the legacy single-name resolver returns: `pi` by either spelling, or
/// a prefix of at least three characters that picks out one primitive, exact
/// names winning over longer rivals.
pub open spec fn legacy_name_spec(s: Seq<char>) -> Option<Primitive> {
    if contains_upper(s) {
        None
    } else if s == "pi"@ || s == "\u{3c0}"@ {
        Some(Primitive::Pi)
    } else if s.len() < 3 {
        None
    } else {
        match find_pref_all_from(s, 0) {
            None => None,
            Some(i) => {
                if name_spec(all_prims()[i]) == s || find_pref_all_from(s, i + 1) is None {
                    Some(all_prims()[i])
                } else {
                    None
                }
            },
        }
    }
}

/// One step of the legacy forward scan: lengths from `len` down to 3.
pub open spec fn omn_fwd(s: Seq<char>, start: int, len: int) -> Option<
    Seq<(Primitive, Seq<char>)>,
>
    decreases s.len() - start, len + 1,
        when 0 <= start && start <= s.len() && len <= s.len() - start
{
    if start >= s.len() {
        Some(Seq::empty())
    } else if len < 3 {
        None
    } else {
        let sub = s.subrange(start, start + len);
        if legacy_name_spec(sub) is Some {
            match omn_fwd(s, start + len, s.len() - (start + len)) {
                None => None,
                Some(rest) => Some(seq![(legacy_name_spec(sub)->0, sub)] + rest),
            }
        } else {
            omn_fwd(s, start, len - 1)
        }
    }
}

/// What the legacy multi-name resolver returns.
pub open spec fn omn_spec(s: Seq<char>) -> Option<Seq<(Primitive, Seq<char>)>> {
    if s == "pi"@ || s == "\u{3c0}"@ {
        Some(seq![(Primitive::Pi, s)])
    } else if s.len() < 3 {
        None
    } else {
        omn_fwd(s, 0, s.len() as int)
    }
}

/// The first primitive, deprecated or not, whose name `name` begins, at or
/// after position `from`.
fn find_pref_all(all: &Vec<Primitive>, name: &str, from: usize) -> (r: Option<usize>)
    requires
        all@ == all_prims(),
        from <= PRIM_COUNT,
    ensures
        match r {
            Some(k) => from <= k < PRIM_COUNT && find_pref_all_from(name@, from as int) == Some(
                k as int,
            ),
            None => find_pref_all_from(name@, from as int) is None,
        },
{
    let mut i = from;
    while i < all.len()
        invariant
            all@ == all_prims(),
            from <= i <= PRIM_COUNT,
            find_pref_all_from(name@, from as int) == find_pref_all_from(name@, i as int),
        decreases all@.len() - i,
    {
        if crate::strutil::str_starts_with(all[i].name(), name) {
            return Some(i);
        }
        i += 1;
    }
    None
}

/// The legacy single-name resolver: any prefix of three or more characters,
/// over the whole catalogue, deprecated spellings included.
fn legacy_from_name(name: &str) -> (r: Option<Primitive>)
    ensures
        r == legacy_name_spec(name@),
{
    if has_uppercase(name) {
        return None;
    }
    if str_eq(name, "pi") || str_eq(name, "\u{3c0}") {
        return Some(Primitive::Pi);
    }
    let n = name.unicode_len();
    if n < 3 {
        return None;
    }
    let all = Primitive::all();
    let fi = match find_pref_all(&all, name, 0) {
        None => {
            return None;
        },
        Some(fi) => fi,
    };
    if str_eq(all[fi].name(), name) {
        return Some(all[fi]);
    }
    match find_pref_all(&all, name, fi + 1) {
        None => Some(all[fi]),
        Some(_) => None,
    }
}

/// The legacy greedy forward scan from `start`, lengths `len` down to 3.
fn omn_fwd_exec<'a>(name: &'a str, start: usize, len: usize) -> (r: Option<
    Vec<(Primitive, &'a str)>,
>)
    requires
        start + len <= name@.len(),
    ensures
        opt_pairs_match(
            match r {
                Some(v) => Some(v@),
                None => None,
            },
            omn_fwd(name@, start as int, len as int),
        ),
    decreases name@.len() - start, len + 1,
{
    let n = name.unicode_len();
    if start >= n {
        return Some(Vec::new());
    }
    if len < 3 {
        return None;
    }
    let sub = name.substring_char(start, start + len);
    match legacy_from_name(sub) {
        Some(p) => match omn_fwd_exec(name, start + len, n - (start + len)) {
            None => None,
            Some(rest) => {
                let mut out: Vec<(Primitive, &'a str)> = Vec::new();
                out.push((p, sub));
                append_pairs(&mut out, rest);
                Some(out)
            },
        },
        None => omn_fwd_exec(name, start, len - 1),
    }
}

impl Primitive {
    /// The legacy multi-name resolver: a greedy longest-first forward scan
    /// over the whole catalogue, with a minimum fragment of three characters.
    pub fn from_multiname<'a>(name: &'a str) -> (r: Option<Vec<(Primitive, &'a str)>>)
        ensures
            opt_pairs_match(
                match r {
                    Some(v) => Some(v@),
                    None => None,
                },
                omn_spec(name@),
            ),
    {
        if str_eq(name, "pi") || str_eq(name, "\u{3c0}") {
            let mut out: Vec<(Primitive, &'a str)> = Vec::new();
            out.push((Primitive::Pi, name));
            return Some(out);
        }
        let n = name.unicode_len();
        if n < 3 {
            return None;
        }
        omn_fwd_exec(name, 0, n)
    }
}


/// The scan for an exact non-deprecated name finds `p` when `p` qualifies.
proof fn lemma_find_exact_hits(s: Seq<char>, p: Primitive, i: int)
    requires
        !is_deprecated_spec(p),
        name_spec(p) == s,
        0 <= i <= prim_index(p),
    ensures
        find_exact_from(s, i) == Some(p),
    decreases PRIM_COUNT - i,
{
    lemma_prim_index(p);
    let q = all_prims()[i];
    if !is_deprecated_spec(q) && name_spec(q) == s {
        if q != p {
            lemma_name_uniqueness(q, p);
        }
    } else {
        assert(q != p);
        lemma_find_exact_hits(s, p, i + 1);
    }
}

/// The scan for an exact non-deprecated name finds nothing when no
/// non-deprecated primitive is named `s`.
proof fn lemma_find_exact_misses(s: Seq<char>, i: int)
    requires
        forall|q: Primitive| !is_deprecated_spec(q) ==> name_spec(q) != s,
        0 <= i <= PRIM_COUNT,
    ensures
        find_exact_from(s, i) is None,
    decreases PRIM_COUNT - i,
{
    if i < PRIM_COUNT {
        lemma_find_exact_misses(s, i + 1);
    }
}

/// When `p` is the only prefix candidate for `s`, the scan finds its
/// catalogue position.
proof fn lemma_find_cand_hits(s: Seq<char>, p: Primitive, i: int)
    requires
        is_candidate(p, s),
        forall|q: Primitive| is_candidate(q, s) ==> q == p,
        0 <= i <= prim_index(p),
    ensures
        find_cand_from(s, i) == Some(prim_index(p)),
    decreases PRIM_COUNT - i,
{
    lemma_prim_index(p);
    lemma_prim_at_index();
    let q = all_prims()[i];
    if is_candidate(q, s) {
        assert(q == p);
        assert(prim_index(q) == i);
    } else {
        assert(q != p);
        lemma_find_cand_hits(s, p, i + 1);
    }
}

/// Past the only candidate's position, the scan finds nothing more.
proof fn lemma_find_cand_none_after(s: Seq<char>, p: Primitive, i: int)
    requires
        forall|q: Primitive| is_candidate(q, s) ==> q == p,
        prim_index(p) < i <= PRIM_COUNT,
        0 <= i,
    ensures
        find_cand_from(s, i) is None,
    decreases PRIM_COUNT - i,
{
    if i < PRIM_COUNT {
        lemma_prim_at_index();
        let q = all_prims()[i];
        if is_candidate(q, s) {
            assert(q == p);
            assert(prim_index(q) == i);
        }
        lemma_find_cand_none_after(s, p, i + 1);
    }
}

/// No primitive is named like one of the five short aliases that are not
/// themselves names.
proof fn lemma_alias_strings_not_names(p: Primitive)
    ensures
        name_spec(p) != "id"@,
        name_spec(p) != "ga"@,
        name_spec(p) != "ran"@,
        name_spec(p) != "tra"@,
        name_spec(p) != "par"@,
{
    reveal_strlit("id");
    reveal_strlit("ga");
    reveal_strlit("ran");
    reveal_strlit("tra");
    reveal_strlit("par");
    lemma_name_key(p);
    lemma_unkey(p);
    if name_spec(p) == "id"@ {
        assert(unkey_prim(key_of("id"@)) == p);
        assert(false);
    }
    if name_spec(p) == "ga"@ {
        assert(unkey_prim(key_of("ga"@)) == p);
        assert(false);
    }
    if name_spec(p) == "ran"@ {
        assert(unkey_prim(key_of("ran"@)) == p);
        assert(false);
    }
    if name_spec(p) == "tra"@ {
        assert(unkey_prim(key_of("tra"@)) == p);
        assert(false);
    }
    if name_spec(p) == "par"@ {
        assert(unkey_prim(key_of("par"@)) == p);
        assert(false);
    }
}

/// A prefix of a catalogue name holds no capital letter.
proof fn lemma_prefix_lowercase(s: Seq<char>, p: Primitive)
    requires
        is_prefix(s, name_spec(p)),
    ensures
        !contains_upper(s),
{
    lemma_name_wf(p);
    if contains_upper(s) {
        let i = choose|i: int| 0 <= i < s.len() && 'A' <= #[trigger] s[i] <= 'Z';
        assert(name_spec(p)[i] == s[i]);
    }
}

/// Round-trip prefix resolution: a prefix of a non-deprecated primitive's
/// name that is long enough to be unambiguous resolves back to it. The
/// prefix qualifies when it is one of the fixed aliases for that primitive,
/// or the exact name, or, at three or more characters, when the primitive
/// carries a non-ASCII glyph and no other primitive competes for the prefix.
/// When is a prefix long enough to be unambiguous for `p`: it is one of the
/// fixed aliases for `p`, or the exact name, or, at three or more characters,
/// `p` carries a non-ASCII glyph, no other primitive competes for the prefix,
/// and no non-deprecated primitive is named `s` outright.
pub open spec fn unambiguous_prefix_for(s: Seq<char>, p: Primitive) -> bool {
    ||| alias_spec(s) == Some(p)
    ||| (alias_spec(s) is None && s == name_spec(p))
    ||| {
        &&& alias_spec(s) is None
        &&& 3 <= s.len()
        &&& is_candidate(p, s)
        &&& forall|q: Primitive| is_candidate(q, s) ==> q == p
        &&& forall|q: Primitive| !is_deprecated_spec(q) ==> name_spec(q) != s
    }
}

pub proof fn lemma_round_trip_prefix(p: Primitive, s: Seq<char>)
    requires
        !is_deprecated_spec(p),
        is_prefix(s, name_spec(p)),
        2 <= s.len(),
        unambiguous_prefix_for(s, p),
    ensures
        ffn_spec(s) == Some(p),
{
    lemma_prefix_lowercase(s, p);
    if alias_spec(s) == Some(p) {
    } else {
        assert(alias_spec(s) is None);
        if s == name_spec(p) {
            lemma_prim_index(p);
            lemma_find_exact_hits(s, p, 0);
        } else {
            lemma_find_exact_misses(s, 0);
            lemma_prim_index(p);
            lemma_find_cand_hits(s, p, 0);
            lemma_find_cand_none_after(s, p, prim_index(p) + 1);
        }
    }
}

/// A non-deprecated primitive's full name resolves, alone, to exactly that
/// primitive: the single-name case of the multi-name round trip.
pub proof fn lemma_full_name_round_trip(p: Primitive)
    requires
        !is_deprecated_spec(p),
    ensures
        ffm_spec(name_spec(p)) == Some(seq![(p, name_spec(p))]),
{
    let s = name_spec(p);
    lemma_name_wf(p);
    lemma_alias_strings_not_names(p);
    if s == "pi"@ {
        reveal_strlit("pi");
        lemma_name_key(p);
        lemma_unkey(p);
        assert(unkey_prim(key_of("pi"@)) == p);
        assert(p == Primitive::Pi);
    } else {
        assert(alias_spec(s) is None);
    }
    lemma_prim_index(p);
    lemma_find_exact_hits(s, p, 0);
    assert(ffn_spec(s) == Some(p));
    let n = s.len() as int;
    assert(s.subrange(0, n) =~= s);
    assert(ffm_fwd(s, n, 0) == Some(Seq::<(Primitive, Seq<char>)>::empty()));
    assert(seq![(p, s)] + Seq::<(Primitive, Seq<char>)>::empty() =~= seq![(p, s)]);
}

/// A planet word that no single name claims resolves to its
/// character-by-character decomposition.
pub proof fn lemma_planet_resolution(s: Seq<char>)
    requires
        2 <= s.len(),
        is_planet(s),
        ffn_spec(s) is None,
    ensures
        ffm_spec(s) == Some(planet_seq(s)),
{
    let n = s.len() as int;
    assert(s.subrange(0, n) =~= s);
    assert(ffm_fwd(s, n, 0) == Some(Seq::<(Primitive, Seq<char>)>::empty()));
    assert(planet_seq(s) + Seq::<(Primitive, Seq<char>)>::empty() =~= planet_seq(s));
}

} // verus!
