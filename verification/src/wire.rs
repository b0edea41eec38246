//! The wire form of a search request: the structured text sent to the
//! remote API. A request is one object with the fields `search_term`,
//! `term_type`, `role`, `ptm_type` and `organism`, in that order; strings
//! are quoted with `"` and `\` escaped, enumerated fields carry their bare
//! variant names, and an absent optional field carries `null`.

use crate::params::{ParametersView, SearchParameters};
use crate::text::{chars_to_string, str_chars};
use crate::values::{
    item_type_name, item_type_of_name, ptm_type_name, ptm_type_of_name, role_name, role_of_name,
    ItemType, PtmType, Role,
};
use vstd::prelude::*;

verus! {

// ---------------------------------------------------------------------------
// Emission, at the specification level
// ---------------------------------------------------------------------------

/// The escaped form of a character inside a quoted wire string: the quote
/// and the backslash gain a leading backslash; every other character stands
/// for itself.
pub open spec fn escape_char(c: char) -> Seq<char> {
    if c == '"' || c == '\\' {
        seq!['\\', c]
    } else {
        seq![c]
    }
}

/// The escaped form of a string's characters.
pub open spec fn escape(s: Seq<char>) -> Seq<char>
    decreases s.len(),
{
    if s.len() == 0 {
        Seq::empty()
    } else {
        escape_char(s[0]) + escape(s.drop_first())
    }
}

/// The quoted wire form of a string: its escaped characters between quotes.
pub open spec fn quoted(s: Seq<char>) -> Seq<char> {
    seq!['"'] + escape(s) + seq!['"']
}

/// The wire form of an optional modification-class filter: the quoted
/// variant name, or `null` when absent.
pub open spec fn opt_ptm_wire(t: Option<PtmType>) -> Seq<char> {
    match t {
        Some(t) => quoted(ptm_type_name(t)),
        None => "null"@,
    }
}

/// The wire form of an optional organism filter: the quoted string, or
/// `null` when absent.
pub open spec fn opt_str_wire(s: Option<Seq<char>>) -> Seq<char> {
    match s {
        Some(s) => quoted(s),
        None => "null"@,
    }
}

/// The complete wire form of a search request.
pub open spec fn wire_of(v: ParametersView) -> Seq<char> {
    "{\"search_term\":"@ + quoted(v.search_term) + ",\"term_type\":"@ + quoted(
        item_type_name(v.term_type),
    ) + ",\"role\":"@ + quoted(role_name(v.role)) + ",\"ptm_type\":"@ + opt_ptm_wire(v.ptm_type)
        + ",\"organism\":"@ + opt_str_wire(v.organism) + "}"@
}

// ---------------------------------------------------------------------------
// Parsing, at the specification level
// ---------------------------------------------------------------------------

/// Position `j` just past the literal `lit` when `s` carries `lit` at
/// position `i`; nothing otherwise.
pub open spec fn expect(s: Seq<char>, i: int, lit: Seq<char>) -> Option<int> {
    if 0 <= i && i + lit.len() <= s.len() && s.subrange(i, i + lit.len()) == lit {
        Some(i + lit.len())
    } else {
        None
    }
}

/// Scans the body of a quoted string from position `i` (just past the
/// opening quote) to the closing quote: a backslash takes the following
/// quote or backslash literally; a bare quote ends the string. Yields the
/// unescaped characters and the position just past the closing quote.
pub open spec fn scan_str(s: Seq<char>, i: int) -> Option<(Seq<char>, int)>
    decreases s.len() - i when 0 <= i <= s.len()
{
    if i >= s.len() {
        None
    } else if s[i] == '"' {
        Some((Seq::empty(), i + 1))
    } else if s[i] == '\\' {
        if i + 1 < s.len() && (s[i + 1] == '"' || s[i + 1] == '\\') {
            match scan_str(s, i + 2) {
                Some(p) => Some((seq![s[i + 1]] + p.0, p.1)),
                None => None,
            }
        } else {
            None
        }
    } else {
        match scan_str(s, i + 1) {
            Some(p) => Some((seq![s[i]] + p.0, p.1)),
            None => None,
        }
    }
}

/// Scans a whole quoted string standing at position `i`.
pub open spec fn scan_quoted(s: Seq<char>, i: int) -> Option<(Seq<char>, int)> {
    if 0 <= i < s.len() && s[i] == '"' {
        scan_str(s, i + 1)
    } else {
        None
    }
}

/// Scans an optional modification-class value: `null`, or a quoted wire
/// name of a `PtmType` variant.
pub open spec fn scan_opt_ptm(s: Seq<char>, i: int) -> Option<(Option<PtmType>, int)> {
    match expect(s, i, "null"@) {
        Some(j) => Some((None, j)),
        None => match scan_quoted(s, i) {
            Some(p) => match ptm_type_of_name(p.0) {
                Some(t) => Some((Some(t), p.1)),
                None => None,
            },
            None => None,
        },
    }
}

/// Scans an optional string value: `null`, or a quoted string.
pub open spec fn scan_opt_str(s: Seq<char>, i: int) -> Option<(Option<Seq<char>>, int)> {
    match expect(s, i, "null"@) {
        Some(j) => Some((None, j)),
        None => match scan_quoted(s, i) {
            Some(p) => Some((Some(p.0), p.1)),
            None => None,
        },
    }
}

/// The request a wire text denotes, if it is well-formed: the fields in
/// their fixed order, enumerated values restricted to declared variants,
/// and nothing after the closing brace.
pub open spec fn parse_wire(s: Seq<char>) -> Option<ParametersView> {
    match expect(s, 0, "{\"search_term\":"@) {
        None => None,
        Some(i1) => match scan_quoted(s, i1) {
            None => None,
            Some((term, i2)) => match expect(s, i2, ",\"term_type\":"@) {
                None => None,
                Some(i3) => match scan_quoted(s, i3) {
                    None => None,
                    Some((tname, i4)) => match item_type_of_name(tname) {
                        None => None,
                        Some(tt) => match expect(s, i4, ",\"role\":"@) {
                            None => None,
                            Some(i5) => match scan_quoted(s, i5) {
                                None => None,
                                Some((rname, i6)) => match role_of_name(rname) {
                                    None => None,
                                    Some(rl) => match expect(s, i6, ",\"ptm_type\":"@) {
                                        None => None,
                                        Some(i7) => match scan_opt_ptm(s, i7) {
                                            None => None,
                                            Some((pt, i8)) => match expect(
                                                s,
                                                i8,
                                                ",\"organism\":"@,
                                            ) {
                                                None => None,
                                                Some(i9) => match scan_opt_str(s, i9) {
                                                    None => None,
                                                    Some((org, i10)) => match expect(
                                                        s,
                                                        i10,
                                                        "}"@,
                                                    ) {
                                                        None => None,
                                                        Some(i11) => if i11 == s.len() {
                                                            Some(
                                                                ParametersView {
                                                                    search_term: term,
                                                                    term_type: tt,
                                                                    role: rl,
                                                                    ptm_type: pt,
                                                                    organism: org,
                                                                },
                                                            )
                                                        } else {
                                                            None
                                                        },
                                                    },
                                                },
                                            },
                                        },
                                    },
                                },
                            },
                        },
                    },
                },
            },
        },
    }
}

// ---------------------------------------------------------------------------
// Executable scanning primitives
// ---------------------------------------------------------------------------

/// Matches `lit` against `cs` at position `i`.
fn expect_lit(cs: &Vec<char>, i: usize, lit: &str) -> (r: Option<usize>)
    ensures
        match r {
            Some(j) => expect(cs@, i as int, lit@) == Some(j as int) && i <= j <= cs@.len(),
            None => expect(cs@, i as int, lit@) is None,
        },
{
    let lc = str_chars(lit);
    let n = lc.len();
    if i > cs.len() || n > cs.len() - i {
        return None;
    }
    let end = i + n;
    let mut k: usize = 0;
    while k < n
        invariant
            end == i + n,
            i + n <= cs@.len(),
            n == lit@.len(),
            lc@ == lit@,
            k <= n,
            forall|m: int| 0 <= m < k ==> cs@[i + m] == lit@[m],
        decreases n - k,
    {
        if cs[i + k] != lc[k] {
            proof {
                assert(expect(cs@, i as int, lit@) is None) by {
                    if cs@.subrange(i as int, i + lit@.len()) == lit@ {
                        assert(cs@.subrange(i as int, i + lit@.len())[k as int] == cs@[i + k]);
                    }
                }
            }
            return None;
        }
        k += 1;
    }
    proof {
        assert(cs@.subrange(i as int, i + lit@.len()) =~= lit@);
    }
    Some(i + n)
}

/// Combines characters already scanned with the rest of a string scan.
pub open spec fn scan_prepend(acc: Seq<char>, r: Option<(Seq<char>, int)>) -> Option<
    (Seq<char>, int),
> {
    match r {
        Some(p) => Some((acc + p.0, p.1)),
        None => None,
    }
}

/// Scans the body of a quoted string, as `scan_str` describes.
fn scan_string(cs: &Vec<char>, i: usize) -> (r: Option<(Vec<char>, usize)>)
    requires
        i <= cs@.len(),
    ensures
        match r {
            Some(p) => scan_str(cs@, i as int) == Some((p.0@, p.1 as int)) && p.1 <= cs@.len(),
            None => scan_str(cs@, i as int) is None,
        },
{
    let mut acc: Vec<char> = Vec::new();
    let mut pos: usize = i;
    proof {
        assert(scan_prepend(acc@, scan_str(cs@, i as int)) == scan_str(cs@, i as int)) by {
            match scan_str(cs@, i as int) {
                Some(p) => {
                    assert(acc@ + p.0 =~= p.0);
                },
                None => {},
            }
        }
    }
    while pos < cs.len()
        invariant
            i <= pos <= cs@.len(),
            scan_prepend(acc@, scan_str(cs@, pos as int)) == scan_str(cs@, i as int),
        decreases cs@.len() - pos,
    {
        let c = cs[pos];
        if c == '"' {
            proof {
                assert(acc@ + Seq::<char>::empty() =~= acc@);
            }
            return Some((acc, pos + 1));
        } else if c == '\\' {
            if pos + 1 < cs.len() {
                let d = cs[pos + 1];
                if d == '"' || d == '\\' {
                    proof {
                        let ghost oldacc = acc@;
                        match scan_str(cs@, pos + 2) {
                            Some(p) => {
                                assert(oldacc + (seq![d] + p.0) =~= oldacc.push(d) + p.0);
                            },
                            None => {},
                        }
                    }
                    acc.push(d);
                    pos = pos + 2;
                } else {
                    return None;
                }
            } else {
                return None;
            }
        } else {
            proof {
                let ghost oldacc = acc@;
                match scan_str(cs@, pos + 1) {
                    Some(p) => {
                        assert(oldacc + (seq![c] + p.0) =~= oldacc.push(c) + p.0);
                    },
                    None => {},
                }
            }
            acc.push(c);
            pos = pos + 1;
        }
    }
    None
}

// ---------------------------------------------------------------------------
// Executable emission
// ---------------------------------------------------------------------------

/// Appends the characters of `s` to `out`.
fn push_lit(out: &mut Vec<char>, s: &str)
    ensures
        final(out)@ == old(out)@ + s@,
{
    let mut cs = str_chars(s);
    out.append(&mut cs);
}

/// Escaping distributes over extending a string by one character.
proof fn lemma_escape_snoc(s: Seq<char>, c: char)
    ensures
        escape(s.push(c)) == escape(s) + escape_char(c),
    decreases s.len(),
{
    if s.len() == 0 {
        reveal_with_fuel(escape, 2);
        assert(s.push(c)[0] == c);
        assert(s.push(c).drop_first() =~= Seq::<char>::empty());
        assert(escape(s.push(c)) =~= escape(s) + escape_char(c));
    } else {
        assert(s.push(c)[0] == s[0]);
        assert(s.push(c).drop_first() =~= s.drop_first().push(c));
        lemma_escape_snoc(s.drop_first(), c);
        assert(escape_char(s[0]) + (escape(s.drop_first()) + escape_char(c)) =~= (escape_char(
            s[0],
        ) + escape(s.drop_first())) + escape_char(c));
    }
}

/// Appends the quoted wire form of `s` to `out`.
fn push_quoted(out: &mut Vec<char>, s: &str)
    ensures
        final(out)@ == old(out)@ + quoted(s@),
{
    out.push('"');
    proof {
        assert(out@ =~= old(out)@ + seq!['"'] + escape(s@.subrange(0, 0)));
    }
    let n = s.unicode_len();
    let mut k: usize = 0;
    while k < n
        invariant
            n == s@.len(),
            k <= n,
            out@ == old(out)@ + seq!['"'] + escape(s@.subrange(0, k as int)),
        decreases n - k,
    {
        let c = s.get_char(k);
        proof {
            lemma_escape_snoc(s@.subrange(0, k as int), s@[k as int]);
            assert(s@.subrange(0, k as int).push(s@[k as int]) =~= s@.subrange(0, k + 1));
        }
        if c == '"' || c == '\\' {
            out.push('\\');
            out.push(c);
            proof {
                assert(out@ =~= old(out)@ + seq!['"'] + escape(s@.subrange(0, k + 1)));
            }
        } else {
            out.push(c);
            proof {
                assert(out@ =~= old(out)@ + seq!['"'] + escape(s@.subrange(0, k + 1)));
            }
        }
        k += 1;
    }
    out.push('"');
    proof {
        assert(s@.subrange(0, n as int) =~= s@);
        assert(out@ =~= old(out)@ + quoted(s@));
    }
}

impl SearchParameters {
    /// The wire text of this request.
    pub fn to_wire(&self) -> (r: String)
        ensures
            r@ == wire_of(self@),
    {
        let mut out: Vec<char> = Vec::new();
        push_lit(&mut out, "{\"search_term\":");
        push_quoted(&mut out, self.search_term().as_str());
        push_lit(&mut out, ",\"term_type\":");
        let tn = self.term_type().wire_name();
        push_quoted(&mut out, tn.as_str());
        push_lit(&mut out, ",\"role\":");
        let rn = self.role().wire_name();
        push_quoted(&mut out, rn.as_str());
        push_lit(&mut out, ",\"ptm_type\":");
        match self.ptm_type() {
            Some(t) => {
                let pn = t.wire_name();
                push_quoted(&mut out, pn.as_str());
            },
            None => push_lit(&mut out, "null"),
        }
        push_lit(&mut out, ",\"organism\":");
        match self.organism() {
            Some(o) => push_quoted(&mut out, o.as_str()),
            None => push_lit(&mut out, "null"),
        }
        push_lit(&mut out, "}");
        proof {
            assert(out@ =~= wire_of(self@));
        }
        chars_to_string(&out)
    }
}

/// Scans a whole quoted string standing at position `i`.
fn scan_quoted_at(cs: &Vec<char>, i: usize) -> (r: Option<(Vec<char>, usize)>)
    ensures
        match r {
            Some(p) => scan_quoted(cs@, i as int) == Some((p.0@, p.1 as int)) && p.1 <= cs@.len(),
            None => scan_quoted(cs@, i as int) is None,
        },
{
    if i < cs.len() {
        let c = cs[i];
        if c == '"' {
            scan_string(cs, i + 1)
        } else {
            None
        }
    } else {
        None
    }
}

/// Scans an optional modification-class value standing at position `i`.
fn scan_opt_ptm_at(cs: &Vec<char>, i: usize) -> (r: Option<(Option<PtmType>, usize)>)
    ensures
        match r {
            Some(p) => scan_opt_ptm(cs@, i as int) == Some((p.0, p.1 as int)) && p.1 <= cs@.len(),
            None => scan_opt_ptm(cs@, i as int) is None,
        },
{
    match expect_lit(cs, i, "null") {
        Some(j) => Some((None, j)),
        None => match scan_quoted_at(cs, i) {
            Some((name, j)) => {
                let nstr = chars_to_string(&name);
                match PtmType::from_wire_name(nstr.as_str()) {
                    Some(t) => Some((Some(t), j)),
                    None => None,
                }
            },
            None => None,
        },
    }
}

/// Scans an optional string value standing at position `i`.
fn scan_opt_str_at(cs: &Vec<char>, i: usize) -> (r: Option<(Option<Vec<char>>, usize)>)
    ensures
        match r {
            Some(p) => (match p.0 {
                Some(v) => scan_opt_str(cs@, i as int) == Some((Some(v@), p.1 as int)),
                None => scan_opt_str(cs@, i as int) == Some((
                    None::<Seq<char>>,
                    p.1 as int,
                )),
            }) && p.1 <= cs@.len(),
            None => scan_opt_str(cs@, i as int) is None,
        },
{
    match expect_lit(cs, i, "null") {
        Some(j) => Some((None, j)),
        None => match scan_quoted_at(cs, i) {
            Some((v, j)) => Some((Some(v), j)),
            None => None,
        },
    }
}

impl SearchParameters {
    /// The request a wire text denotes, if it is well-formed; `None` on any
    /// malformed text.
    pub fn from_wire(s: &str) -> (r: Option<SearchParameters>)
        ensures
            match r {
                Some(p) => parse_wire(s@) == Some(p@),
                None => parse_wire(s@) is None,
            },
    {
        let cs = str_chars(s);
        let i1 = match expect_lit(&cs, 0, "{\"search_term\":") {
            Some(j) => j,
            None => {
                return None;
            },
        };
        let (term, i2) = match scan_quoted_at(&cs, i1) {
            Some(p) => p,
            None => {
                return None;
            },
        };
        let i3 = match expect_lit(&cs, i2, ",\"term_type\":") {
            Some(j) => j,
            None => {
                return None;
            },
        };
        let (tname, i4) = match scan_quoted_at(&cs, i3) {
            Some(p) => p,
            None => {
                return None;
            },
        };
        let tstr = chars_to_string(&tname);
        let tt = match ItemType::from_wire_name(tstr.as_str()) {
            Some(t) => t,
            None => {
                return None;
            },
        };
        let i5 = match expect_lit(&cs, i4, ",\"role\":") {
            Some(j) => j,
            None => {
                return None;
            },
        };
        let (rname, i6) = match scan_quoted_at(&cs, i5) {
            Some(p) => p,
            None => {
                return None;
            },
        };
        let rstr = chars_to_string(&rname);
        let rl = match Role::from_wire_name(rstr.as_str()) {
            Some(t) => t,
            None => {
                return None;
            },
        };
        let i7 = match expect_lit(&cs, i6, ",\"ptm_type\":") {
            Some(j) => j,
            None => {
                return None;
            },
        };
        let (pt, i8) = match scan_opt_ptm_at(&cs, i7) {
            Some(p) => p,
            None => {
                return None;
            },
        };
        let i9 = match expect_lit(&cs, i8, ",\"organism\":") {
            Some(j) => j,
            None => {
                return None;
            },
        };
        let (org, i10) = match scan_opt_str_at(&cs, i9) {
            Some(p) => p,
            None => {
                return None;
            },
        };
        let i11 = match expect_lit(&cs, i10, "}") {
            Some(j) => j,
            None => {
                return None;
            },
        };
        if i11 != cs.len() {
            return None;
        }
        let organism: Option<String> = match org {
            Some(v) => Some(chars_to_string(&v)),
            None => None,
        };
        let p = SearchParameters::new(chars_to_string(&term), tt, rl, pt, organism);
        proof {
            assert(parse_wire(s@) == Some(p@)) by {
                assert(p@ =~= parse_wire(s@)->Some_0);
            }
        }
        Some(p)
    }
}

// ---------------------------------------------------------------------------
// The round-trip law
// ---------------------------------------------------------------------------

/// Scanning an escaped string body followed by a closing quote recovers the
/// original characters and stops just past that quote.
proof fn lemma_scan_escaped(s: Seq<char>, i: int, t: Seq<char>)
    requires
        0 <= i,
        i + escape(t).len() + 1 <= s.len(),
        s.subrange(i, i + escape(t).len()) == escape(t),
        s[i + escape(t).len()] == '"',
    ensures
        scan_str(s, i) == Some((t, i + escape(t).len() + 1)),
    decreases t.len(),
{
    if t.len() == 0 {
        assert(t =~= Seq::<char>::empty());
        assert(scan_str(s, i) == Some((Seq::<char>::empty(), i + 1)));
    } else {
        let c = t[0];
        let t2 = t.drop_first();
        let e2 = escape(t2);
        assert(escape(t) == escape_char(c) + e2);
        if c == '"' || c == '\\' {
            assert(escape(t).len() == 2 + e2.len());
            assert(s[i] == s.subrange(i, i + escape(t).len())[0]);
            assert(s[i] == '\\');
            assert(s[i + 1] == s.subrange(i, i + escape(t).len())[1]);
            assert(s[i + 1] == c);
            assert(s.subrange(i + 2, i + 2 + e2.len()) =~= e2) by {
                assert forall|m: int| 0 <= m < e2.len() implies s.subrange(
                    i + 2,
                    i + 2 + e2.len(),
                )[m] == e2[m] by {
                    assert(s.subrange(i, i + escape(t).len())[2 + m] == escape(t)[2 + m]);
                }
            }
            lemma_scan_escaped(s, i + 2, t2);
            assert(seq![c] + t2 =~= t);
        } else {
            assert(escape(t).len() == 1 + e2.len());
            assert(s[i] == s.subrange(i, i + escape(t).len())[0]);
            assert(s[i] == c);
            assert(s.subrange(i + 1, i + 1 + e2.len()) =~= e2) by {
                assert forall|m: int| 0 <= m < e2.len() implies s.subrange(
                    i + 1,
                    i + 1 + e2.len(),
                )[m] == e2[m] by {
                    assert(s.subrange(i, i + escape(t).len())[1 + m] == escape(t)[1 + m]);
                }
            }
            lemma_scan_escaped(s, i + 1, t2);
            assert(seq![c] + t2 =~= t);
        }
    }
}

/// Scanning a quoted string recovers the characters it quotes and stops
/// just past its closing quote.
proof fn lemma_scan_quoted_at(s: Seq<char>, i: int, t: Seq<char>)
    requires
        0 <= i,
        i + quoted(t).len() <= s.len(),
        s.subrange(i, i + quoted(t).len()) == quoted(t),
    ensures
        scan_quoted(s, i) == Some((t, i + quoted(t).len())),
{
    let n = escape(t).len() as int;
    assert(quoted(t).len() == n + 2);
    assert(s[i] == s.subrange(i, i + quoted(t).len())[0]);
    assert(s[i] == '"');
    assert(s.subrange(i + 1, i + 1 + n) =~= escape(t)) by {
        assert forall|m: int| 0 <= m < n implies s.subrange(i + 1, i + 1 + n)[m] == escape(t)[m] by {
            assert(s.subrange(i, i + quoted(t).len())[1 + m] == quoted(t)[1 + m]);
        }
    }
    assert(s[i + 1 + n] == s.subrange(i, i + quoted(t).len())[n + 1]);
    assert(s[i + 1 + n] == '"');
    lemma_scan_escaped(s, i + 1, t);
}

/// Law: the wire codec round-trips — parsing the wire form of any request
/// yields exactly that request.
#[verifier::rlimit(100)]
pub proof fn lemma_wire_round_trip(v: ParametersView)
    ensures
        parse_wire(wire_of(v)) == Some(v),
{
    let s = wire_of(v);
    let l1 = "{\"search_term\":"@;
    let l2 = ",\"term_type\":"@;
    let l3 = ",\"role\":"@;
    let l4 = ",\"ptm_type\":"@;
    let l5 = ",\"organism\":"@;
    let l6 = "}"@;
    let q1 = quoted(v.search_term);
    let q2 = quoted(item_type_name(v.term_type));
    let q3 = quoted(role_name(v.role));
    let q4 = opt_ptm_wire(v.ptm_type);
    let q5 = opt_str_wire(v.organism);
    let i1 = l1.len() as int;
    let i2 = i1 + q1.len();
    let i3 = i2 + l2.len();
    let i4 = i3 + q2.len();
    let i5 = i4 + l3.len();
    let i6 = i5 + q3.len();
    let i7 = i6 + l4.len();
    let i8 = i7 + q4.len();
    let i9 = i8 + l5.len();
    let i10 = i9 + q5.len();
    let i11 = i10 + l6.len();
    assert(s.len() == i11);
    assert(s.subrange(0, i1) =~= l1);
    assert(expect(s, 0, l1) == Some(i1));
    assert(s.subrange(i1, i2) =~= q1);
    lemma_scan_quoted_at(s, i1, v.search_term);
    assert(s.subrange(i2, i3) =~= l2);
    assert(expect(s, i2, l2) == Some(i3));
    assert(s.subrange(i3, i4) =~= q2);
    lemma_scan_quoted_at(s, i3, item_type_name(v.term_type));
    crate::values::lemma_item_type_name_round_trip(v.term_type);
    assert(s.subrange(i4, i5) =~= l3);
    assert(expect(s, i4, l3) == Some(i5));
    assert(s.subrange(i5, i6) =~= q3);
    lemma_scan_quoted_at(s, i5, role_name(v.role));
    crate::values::lemma_role_name_round_trip(v.role);
    assert(s.subrange(i6, i7) =~= l4);
    assert(expect(s, i6, l4) == Some(i7));
    reveal_strlit("null");
    assert(("null"@).len() == 4);
    match v.ptm_type {
        None => {
            assert(q4 == "null"@);
            assert(s.subrange(i7, i8) =~= q4);
            assert(expect(s, i7, "null"@) == Some(i8));
            assert(scan_opt_ptm(s, i7) == Some((None::<PtmType>, i8)));
        },
        Some(t) => {
            assert(q4 == quoted(ptm_type_name(t)));
            assert(s.subrange(i7, i8) =~= q4);
            assert(expect(s, i7, "null"@) is None) by {
                if i7 + 4 <= s.len() && s.subrange(i7, i7 + 4) == "null"@ {
                    assert(s[i7] == s.subrange(i7, i7 + 4)[0]);
                    assert(s[i7] == 'n');
                    assert(s.subrange(i7, i8)[0] == q4[0]);
                }
            }
            lemma_scan_quoted_at(s, i7, ptm_type_name(t));
            crate::values::lemma_ptm_type_name_round_trip(t);
            assert(scan_opt_ptm(s, i7) == Some((Some(t), i8)));
        },
    }
    assert(s.subrange(i8, i9) =~= l5);
    assert(expect(s, i8, l5) == Some(i9));
    match v.organism {
        None => {
            assert(q5 == "null"@);
            assert(s.subrange(i9, i10) =~= q5);
            assert(expect(s, i9, "null"@) == Some(i10));
            assert(scan_opt_str(s, i9) == Some((None::<Seq<char>>, i10)));
        },
        Some(o) => {
            assert(q5 == quoted(o));
            assert(s.subrange(i9, i10) =~= q5);
            assert(expect(s, i9, "null"@) is None) by {
                if i9 + 4 <= s.len() && s.subrange(i9, i9 + 4) == "null"@ {
                    assert(s[i9] == s.subrange(i9, i9 + 4)[0]);
                    assert(s[i9] == 'n');
                    assert(s.subrange(i9, i10)[0] == q5[0]);
                }
            }
            lemma_scan_quoted_at(s, i9, o);
            assert(scan_opt_str(s, i9) == Some((Some(o), i10)));
        },
    }
    assert(s.subrange(i10, i11) =~= l6);
    assert(expect(s, i10, l6) == Some(i11));
    assert(parse_wire(s)->Some_0 =~= v);
}

} // verus!
