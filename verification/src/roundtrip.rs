//! The payload text round trip: the scanner lemmas show that parsing the
//! canonical rendering of a member list recovers exactly the members, and
//! that whatever the parser accepts is well-formed enough to render again.

use vstd::prelude::*;

use crate::json::{
    escape_char, escape_str, hex_char, hex_val, is_digit, is_hex_digit, is_numchar, is_ws,
    is_number_token, lemma_numchars_run_block, render_member, render_members, render_payload,
    render_scalar, render_string, spec_parse_members, spec_parse_payload, spec_parse_scalar,
    spec_scan_number, spec_scan_string, spec_skip_ws, MemberView, ScalarView,
};
use crate::record::wf_number_text;

verus! {

/// A string body always escapes as its first character's escape followed
/// by the rest's.
pub proof fn lemma_escape_str_head(x: Seq<char>)
    requires
        x.len() > 0,
    ensures
        escape_str(x) == escape_char(x[0]) + escape_str(x.drop_first()),
    decreases x.len(),
{
    if x.len() == 1 {
        assert(x.drop_last() =~= Seq::<char>::empty());
        assert(x.drop_first() =~= Seq::<char>::empty());
        assert(x.last() == x[0]);
        assert(escape_str(x) =~= escape_char(x[0]) + escape_str(x.drop_first()));
    } else {
        lemma_escape_str_head(x.drop_last());
        assert(x.drop_last()[0] == x[0]);
        assert(x.drop_last().drop_first() =~= x.drop_first().drop_last());
        assert(x.drop_first().last() == x.last());
        assert(x.drop_first().len() > 0);
        assert(escape_str(x) =~= escape_char(x[0]) + escape_str(x.drop_first()));
    }
}

/// The hexadecimal digit of a value below sixteen reads back to the value.
pub proof fn lemma_hex_char_val(v: nat)
    requires
        v < 16,
    ensures
        is_hex_digit(hex_char(v)),
        hex_val(hex_char(v)) == v,
{
}

/// Scanning a quoted string body recovers exactly the escaped content.
pub proof fn lemma_scan_quoted(s: Seq<char>, i: int, x: Seq<char>)
    requires
        0 <= i,
        i + escape_str(x).len() + 1 <= s.len(),
        forall|k: int| 0 <= k < escape_str(x).len() ==> s[i + k] == escape_str(x)[k],
        s[i + escape_str(x).len()] == '"',
    ensures
        spec_scan_string(s, i) == Some((x, i + escape_str(x).len() + 1)),
    decreases x.len(),
{
    let e = escape_str(x);
    if x.len() == 0 {
        assert(e.len() == 0);
        assert(s[i] == '"');
    } else {
        lemma_escape_str_head(x);
        let c = x[0];
        let ec = escape_char(c);
        let rest = x.drop_first();
        let er = escape_str(rest);
        assert(e == ec + er);
        assert(forall|k: int| 0 <= k < ec.len() ==> e[k] == ec[k]);
        assert forall|k: int| 0 <= k < er.len() implies s[i + ec.len() + k] == er[k] by {
            assert(s[i + (ec.len() + k)] == e[ec.len() + k]);
            assert(e[ec.len() + k] == er[k]);
        }
        assert(s[i + ec.len() + er.len()] == '"');
        lemma_scan_quoted(s, i + ec.len(), rest);
        assert(seq![c] + rest =~= x);
        if c == '"' {
            assert(ec =~= seq!['\\', '"']);
            assert(s[i] == '\\' && s[i + 1] == '"');
            assert(spec_scan_string(s, i) == Some((x, i + e.len() + 1)));
        } else if c == '\\' {
            assert(ec =~= seq!['\\', '\\']);
            assert(s[i] == '\\' && s[i + 1] == '\\');
            assert(spec_scan_string(s, i) == Some((x, i + e.len() + 1)));
        } else if (c as u32) < 32 {
            let hi = (c as u32 / 16) as nat;
            let lo = (c as u32 % 16) as nat;
            assert(ec =~= seq!['\\', 'u', '0', '0', hex_char(hi), hex_char(lo)]);
            assert(s[i] == '\\' && s[i + 1] == 'u');
            assert(s[i + 2] == '0' && s[i + 3] == '0');
            assert(s[i + 4] == hex_char(hi) && s[i + 5] == hex_char(lo));
            lemma_hex_char_val(hi);
            lemma_hex_char_val(lo);
            assert(is_hex_digit('0') && hex_val('0') == 0);
            let v = hex_val(s[i + 2]) * 4096 + hex_val(s[i + 3]) * 256 + hex_val(s[i + 4]) * 16
                + hex_val(s[i + 5]);
            assert(v == hi * 16 + lo);
            assert(v == c as u32) by {
                assert(c as u32 == (c as u32 / 16) * 16 + (c as u32 % 16));
            }
            assert(vstd::utf8::is_scalar(v as u32));
            vstd::utf8::char_u32_cast(c, c as u32);
            assert(((v as u32) as char) == c);
            assert(spec_scan_string(s, i) == Some((x, i + e.len() + 1)));
        } else {
            assert(ec =~= seq![c]);
            assert(s[i] == c);
            assert(c != '"' && c != '\\' && !((c as u32) < 32));
            assert(spec_scan_string(s, i) == Some((x, i + e.len() + 1)));
        }
    }
}

/// A complete number token is nonempty and opens with a sign or a digit.
pub proof fn lemma_number_token_first(t: Seq<char>)
    requires
        is_number_token(t),
    ensures
        t.len() > 0,
        t[0] == '-' || is_digit(t[0]),
{
}

/// Scanning at a rendered number token, with no number character following
/// it, recovers exactly the token.
pub proof fn lemma_scan_number_exact(s: Seq<char>, i: int, t: Seq<char>)
    requires
        0 <= i,
        i + t.len() <= s.len(),
        wf_number_text(t),
        forall|k: int| 0 <= k < t.len() ==> s[i + k] == t[k],
        i + t.len() == s.len() || !is_numchar(s[i + t.len()]),
    ensures
        spec_scan_number(s, i) == Some((t, i + t.len())),
{
    assert forall|j: int| i <= j < i + t.len() implies is_numchar(s[j]) by {
        assert(s[i + (j - i)] == t[j - i]);
    }
    lemma_numchars_run_block(s, i, i + t.len());
    assert(s.subrange(i, i + t.len()) =~= t);
}

/// A scalar the renderer and the scanner agree on: a number member must
/// carry a complete token of number characters.
pub open spec fn scalar_wf(v: ScalarView) -> bool {
    match v {
        ScalarView::Num(t) => wf_number_text(t),
        _ => true,
    }
}

/// Every member of the list carries a scalar the renderer and the scanner
/// agree on.
pub open spec fn members_wf(ms: Seq<MemberView>) -> bool
    decreases ms.len(),
{
    ms.len() == 0 || (scalar_wf(ms[0].value) && members_wf(ms.drop_first()))
}


/// Every character inside a measured run is a number character.
proof fn lemma_numchars_run_chars(s: Seq<char>, i: int, k: int)
    requires
        0 <= i,
        0 <= k < crate::json::numchars_run(s, i),
    ensures
        is_numchar(s[i + k]),
    decreases k,
{
    if k > 0 {
        lemma_numchars_run_chars(s, i + 1, k - 1);
    }
}

/// A measured run never reaches past the end of the text.
proof fn lemma_numchars_run_bound(s: Seq<char>, i: int)
    requires
        0 <= i <= s.len(),
    ensures
        0 <= crate::json::numchars_run(s, i),
        i + crate::json::numchars_run(s, i) <= s.len(),
    decreases s.len() - i,
{
    if i < s.len() && is_numchar(s[i]) {
        lemma_numchars_run_bound(s, i + 1);
    }
}

/// Whatever the number scanner accepts is a well-formed number scalar.
proof fn lemma_scan_number_wf(s: Seq<char>, i: int)
    requires
        spec_scan_number(s, i) is Some,
    ensures
        scalar_wf(ScalarView::Num(spec_scan_number(s, i).unwrap().0)),
{
    let n = crate::json::numchars_run(s, i);
    let t = s.subrange(i, i + n);
    lemma_numchars_run_bound(s, i);
    assert forall|k: int| 0 <= k < t.len() implies is_numchar(t[k]) by {
        lemma_numchars_run_chars(s, i, k);
    }
}

/// Whatever the scalar parser accepts is a well-formed scalar.
proof fn lemma_parse_scalar_wf(s: Seq<char>, i: int)
    requires
        spec_parse_scalar(s, i) is Some,
    ensures
        scalar_wf(spec_parse_scalar(s, i).unwrap().0),
{
    if 0 <= i && i < s.len() && s[i] != '"' && (s[i] == '-' || is_digit(s[i])) {
        lemma_scan_number_wf(s, i);
    }
}

/// Whatever the member parser accepts is a list of well-formed members.
proof fn lemma_parse_members_wf(s: Seq<char>, i: int)
    requires
        spec_parse_members(s, i) is Some,
    ensures
        members_wf(spec_parse_members(s, i).unwrap().0),
    decreases s.len() - i,
{
    let j = spec_skip_ws(s, i);
    if j < s.len() && s[j] == '"' {
        match spec_scan_string(s, j + 1) {
            Some((name, j2)) => {
                let j3 = spec_skip_ws(s, j2);
                if j3 < s.len() && s[j3] == ':' {
                    let j4 = spec_skip_ws(s, j3 + 1);
                    match spec_parse_scalar(s, j4) {
                        Some((v, j5)) => {
                            lemma_parse_scalar_wf(s, j4);
                            let j6 = spec_skip_ws(s, j5);
                            let m = MemberView { name, value: v };
                            if j6 < s.len() && s[j6] == ',' {
                                if i < j6 + 1 && j6 + 1 <= s.len() {
                                    lemma_parse_members_wf(s, j6 + 1);
                                    let rest = spec_parse_members(s, j6 + 1).unwrap().0;
                                    assert((seq![m] + rest)[0] == m);
                                    assert((seq![m] + rest).drop_first() =~= rest);
                                    assert(members_wf(seq![m] + rest));
                                }
                            } else if j6 < s.len() && s[j6] == '}' {
                                assert(seq![m][0] == m);
                                assert(seq![m].drop_first() =~= Seq::<MemberView>::empty());
                                assert(members_wf(Seq::<MemberView>::empty()));
                                assert(members_wf(seq![m]));
                            }
                        },
                        None => {},
                    }
                }
            },
            None => {},
        }
    }
}

/// Whatever the payload parser accepts is a list of well-formed members.
pub proof fn lemma_parse_payload_wf(s: Seq<char>)
    requires
        spec_parse_payload(s) is Some,
    ensures
        members_wf(spec_parse_payload(s).unwrap()),
{
    let i = spec_skip_ws(s, 0);
    let j = spec_skip_ws(s, i + 1);
    if !(j < s.len() && s[j] == '}') {
        lemma_parse_members_wf(s, i + 1);
    }
}

/// The elementwise reading of [`members_wf`].
pub proof fn lemma_members_wf_index(ms: Seq<MemberView>, k: int)
    requires
        members_wf(ms),
        0 <= k < ms.len(),
    ensures
        scalar_wf(ms[k].value),
    decreases k,
{
    if k > 0 {
        lemma_members_wf_index(ms.drop_first(), k - 1);
    }
}

/// A member list always renders as its first member, a comma, and the
/// rest.
pub proof fn lemma_render_members_head(ms: Seq<MemberView>)
    requires
        ms.len() >= 2,
    ensures
        render_members(ms) == render_member(ms[0]) + seq![','] + render_members(ms.drop_first()),
    decreases ms.len(),
{
    if ms.len() == 2 {
        assert(ms.drop_last().len() == 1);
        assert(ms.drop_last()[0] == ms[0]);
        assert(ms.drop_first().len() == 1);
        assert(ms.drop_first()[0] == ms[1]);
        assert(ms.last() == ms[1]);
        assert(render_members(ms.drop_last()) == render_member(ms[0]));
        assert(render_members(ms.drop_first()) == render_member(ms[1]));
        assert(render_members(ms) =~= render_member(ms[0]) + seq![','] + render_members(
            ms.drop_first(),
        ));
    } else {
        lemma_render_members_head(ms.drop_last());
        assert(ms.drop_last()[0] == ms[0]);
        assert(ms.drop_last().drop_first() =~= ms.drop_first().drop_last());
        assert(ms.drop_first().last() == ms.last());
        assert(ms.drop_first().len() >= 2);
        assert(render_members(ms) =~= render_member(ms[0]) + seq![','] + render_members(
            ms.drop_first(),
        ));
    }
}

/// Parsing at a rendered member list followed by a closing brace recovers
/// exactly the members.
pub proof fn lemma_parse_members_exact(s: Seq<char>, i: int, ms: Seq<MemberView>)
    requires
        ms.len() > 0,
        members_wf(ms),
        0 <= i,
        i + render_members(ms).len() + 1 <= s.len(),
        forall|k: int| 0 <= k < render_members(ms).len() ==> s[i + k] == render_members(ms)[k],
        s[i + render_members(ms).len()] == '}',
    ensures
        spec_parse_members(s, i) == Some((ms, i + render_members(ms).len() + 1)),
    decreases ms.len(),
{
    let rm = render_members(ms);
    let m = ms[0];
    assert(scalar_wf(m.value));
    let nm = render_string(m.name);
    let rs = render_scalar(m.value);
    let rmem = render_member(m);
    assert(rmem == nm + seq![':'] + rs);
    if ms.len() == 1 {
        assert(rm == rmem);
    } else {
        lemma_render_members_head(ms);
        assert(rm == rmem + seq![','] + render_members(ms.drop_first()));
    }
    // The member's own characters, seen through `s`.
    assert forall|k: int| 0 <= k < rmem.len() implies s[i + k] == rmem[k] by {
        assert(s[i + k] == rm[k]);
    }
    // The character right after the member is a comma or the brace.
    let sep = s[i + rmem.len() as int];
    if ms.len() == 1 {
        assert(sep == '}');
    } else {
        assert(rm[rmem.len() as int] == ',');
        assert(sep == ',');
    }
    // Opening quote of the name.
    assert(rmem[0] == '"');
    assert(s[i] == '"');
    assert(spec_skip_ws(s, i) == i);
    // The name's escaped body, then its closing quote, then the colon.
    let en = escape_str(m.name);
    assert forall|k: int| 0 <= k < en.len() implies s[i + 1 + k] == en[k] by {
        assert(rmem[1 + k] == nm[1 + k]);
        assert(nm[1 + k] == en[k]);
        assert(s[i + (1 + k)] == rmem[1 + k]);
    }
    assert(s[i + 1 + en.len()] == '"') by {
        assert(rmem[1 + en.len() as int] == nm[1 + en.len() as int]);
        assert(nm[1 + en.len() as int] == '"');
        assert(s[i + 1 + en.len() as int] == rmem[1 + en.len() as int]);
    }
    lemma_scan_quoted(s, i + 1, m.name);
    let pn = i + nm.len();
    assert(spec_scan_string(s, i + 1) == Some((m.name, pn)));
    assert(s[pn] == ':') by {
        assert(rmem[nm.len() as int] == ':');
        assert(s[i + nm.len() as int] == rmem[nm.len() as int]);
    }
    assert(spec_skip_ws(s, pn) == pn);
    let j4 = pn + 1;
    // The scalar's characters.
    assert forall|k: int| 0 <= k < rs.len() implies s[j4 + k] == rs[k] by {
        assert(rmem[nm.len() + 1 + k] == rs[k]);
        assert(s[i + (nm.len() + 1 + k)] == rmem[nm.len() + 1 + k]);
    }
    let j5 = j4 + rs.len();
    assert(j5 == i + rmem.len());
    match m.value {
        ScalarView::Null => {
            assert(rs =~= seq!['n', 'u', 'l', 'l']);
            assert(s[j4] == 'n' && s[j4 + 1] == 'u' && s[j4 + 2] == 'l' && s[j4 + 3] == 'l');
            assert(spec_skip_ws(s, j4) == j4);
            assert(spec_parse_scalar(s, j4) == Some((m.value, j5)));
        },
        ScalarView::Bool(b) => {
            if b {
                assert(rs =~= seq!['t', 'r', 'u', 'e']);
                assert(s[j4] == 't' && s[j4 + 1] == 'r' && s[j4 + 2] == 'u' && s[j4 + 3] == 'e');
            } else {
                assert(rs =~= seq!['f', 'a', 'l', 's', 'e']);
                assert(s[j4] == 'f' && s[j4 + 1] == 'a' && s[j4 + 2] == 'l' && s[j4 + 3] == 's'
                    && s[j4 + 4] == 'e');
            }
            assert(spec_skip_ws(s, j4) == j4);
            assert(spec_parse_scalar(s, j4) == Some((m.value, j5)));
        },
        ScalarView::Num(t) => {
            assert(rs == t);
            lemma_number_token_first(t);
            assert(s[j4] == t[0]);
            assert(!is_ws(t[0]) && t[0] != '"');
            assert(spec_skip_ws(s, j4) == j4);
            assert(!is_numchar(sep));
            assert(s[j4 + t.len()] == sep);
            lemma_scan_number_exact(s, j4, t);
            assert(spec_parse_scalar(s, j4) == Some((m.value, j5)));
        },
        ScalarView::Str(t) => {
            let et = escape_str(t);
            assert(rs == seq!['"'] + et + seq!['"']);
            assert(rs[0] == '"');
            assert(s[j4 + 0] == rs[0]);
            assert(s[j4] == '"');
            assert(spec_skip_ws(s, j4) == j4);
            assert forall|k: int| 0 <= k < et.len() implies s[j4 + 1 + k] == et[k] by {
                assert(rs[1 + k] == et[k]);
                assert(s[j4 + (1 + k)] == rs[1 + k]);
            }
            assert(s[j4 + 1 + et.len()] == '"') by {
                assert(rs[1 + et.len() as int] == '"');
                assert(s[j4 + 1 + et.len() as int] == rs[1 + et.len() as int]);
            }
            lemma_scan_quoted(s, j4 + 1, t);
            assert(spec_parse_scalar(s, j4) == Some((m.value, j5)));
        },
    }
    assert(spec_skip_ws(s, j5) == j5);
    if ms.len() == 1 {
        assert(sep == '}' && sep != ',');
        assert(seq![m] =~= ms);
        assert(spec_parse_members(s, i) == Some((ms, i + rm.len() + 1)));
    } else {
        let rest = ms.drop_first();
        let rr = render_members(rest);
        assert(rm.len() == rmem.len() + 1 + rr.len());
        assert forall|k: int| 0 <= k < rr.len() implies s[j5 + 1 + k] == rr[k] by {
            assert(rm[rmem.len() + 1 + k] == rr[k]);
            assert(s[i + (rmem.len() + 1 + k)] == rm[rmem.len() + 1 + k]);
        }
        assert(s[j5 + 1 + rr.len()] == '}');
        lemma_parse_members_exact(s, j5 + 1, rest);
        assert(seq![m] + rest =~= ms);
        assert(spec_parse_members(s, i) == Some((ms, i + rm.len() + 1)));
    }
}

/// Parsing the canonical rendering of a member list recovers exactly the
/// members: the parser inverts the renderer.
pub proof fn lemma_parse_render_payload(ms: Seq<MemberView>)
    requires
        members_wf(ms),
    ensures
        spec_parse_payload(render_payload(ms)) == Some(ms),
{
    let s = render_payload(ms);
    let rm = render_members(ms);
    assert(s == seq!['{'] + rm + seq!['}']);
    assert(s[0] == '{');
    assert(spec_skip_ws(s, 0) == 0);
    if ms.len() == 0 {
        assert(rm =~= Seq::<char>::empty());
        assert(s.len() == 2);
        assert(s[1] == '}');
        assert(spec_skip_ws(s, 1) == 1);
        assert(spec_skip_ws(s, 2) == 2);
        assert(ms =~= Seq::<MemberView>::empty());
    } else {
        assert forall|k: int| 0 <= k < rm.len() implies s[1 + k] == rm[k] by {
            assert(s[1 + k] == (seq!['{'] + rm + seq!['}'])[1 + k]);
        }
        assert(s[1 + rm.len() as int] == '}');
        lemma_parse_members_exact(s, 1, ms);
        // The first member opens with a quote, so the empty-object branch
        // is not taken.
        let m = ms[0];
        let rmem = render_member(m);
        if ms.len() == 1 {
            assert(rm == rmem);
        } else {
            lemma_render_members_head(ms);
            assert(rm == rmem + seq![','] + render_members(ms.drop_first()));
        }
        assert(rmem[0] == '"');
        assert(rm[0] == '"');
        assert(s[1] == '"');
        assert(spec_skip_ws(s, 1) == 1);
        assert(spec_parse_members(s, 1) == Some((ms, s.len() as int)));
        assert(spec_skip_ws(s, s.len() as int) == s.len());
    }
}

} // verus!
