//! String helpers shared by the post and article generators:
//! HTML escaping by numeric character entities, and slug casing.
use crate::text::{chars_of, is_ws, replace_all, replace_seq, string_of};
use vstd::prelude::*;

verus! {

/// `s` after the whole escaping cascade: each escapable character is
/// replaced by its numeric HTML entity, pass by pass in the fixed
/// order below.  Because earlier passes insert `&`, `#` and digits
/// that later passes match again, the cascade is stated literally,
/// pass by pass, exactly as the escaping runs.
pub open spec fn escape_html_spec(s: Seq<char>) -> Seq<char> {
    let e0 = replace_seq(s, seq!['!'], seq!['&', '#', '3', '3', ';']);
    let e1 = replace_seq(e0, seq!['"'], seq!['&', '#', '3', '4', ';']);
    let e2 = replace_seq(e1, seq!['#'], seq!['&', '#', '3', '5', ';']);
    let e3 = replace_seq(e2, seq!['$'], seq!['&', '#', '3', '6', ';']);
    let e4 = replace_seq(e3, seq!['%'], seq!['&', '#', '3', '7', ';']);
    let e5 = replace_seq(e4, seq!['&'], seq!['&', '#', '3', '8', ';']);
    let e6 = replace_seq(e5, seq!['\''], seq!['&', '#', '3', '9', ';']);
    let e7 = replace_seq(e6, seq!['('], seq!['&', '#', '4', '0', ';']);
    let e8 = replace_seq(e7, seq![')'], seq!['&', '#', '4', '1', ';']);
    let e9 = replace_seq(e8, seq!['*'], seq!['&', '#', '4', '2', ';']);
    let e10 = replace_seq(e9, seq!['+'], seq!['&', '#', '4', '3', ';']);
    let e11 = replace_seq(e10, seq![','], seq!['&', '#', '4', '4', ';']);
    let e12 = replace_seq(e11, seq!['-'], seq!['&', '#', '4', '5', ';']);
    let e13 = replace_seq(e12, seq!['.'], seq!['&', '#', '4', '6', ';']);
    let e14 = replace_seq(e13, seq![':'], seq!['&', '#', '5', '8', ';']);
    let e15 = replace_seq(e14, seq![';'], seq!['&', '#', '5', '9', ';']);
    let e16 = replace_seq(e15, seq!['<'], seq!['&', '#', '6', '0', ';']);
    let e17 = replace_seq(e16, seq!['='], seq!['&', '#', '6', '1', ';']);
    let e18 = replace_seq(e17, seq!['>'], seq!['&', '#', '6', '2', ';']);
    let e19 = replace_seq(e18, seq!['?'], seq!['&', '#', '6', '3', ';']);
    let e20 = replace_seq(e19, seq!['@'], seq!['&', '#', '6', '4', ';']);
    let e21 = replace_seq(e20, seq!['['], seq!['&', '#', '9', '1', ';']);
    let e22 = replace_seq(e21, seq!['\\'], seq!['&', '#', '9', '2', ';']);
    let e23 = replace_seq(e22, seq![']'], seq!['&', '#', '9', '3', ';']);
    let e24 = replace_seq(e23, seq!['^'], seq!['&', '#', '9', '4', ';']);
    let e25 = replace_seq(e24, seq!['_'], seq!['&', '#', '9', '5', ';']);
    let e26 = replace_seq(e25, seq!['`'], seq!['&', '#', '9', '6', ';']);
    let e27 = replace_seq(e26, seq!['{'], seq!['&', '#', '1', '2', '3', ';']);
    let e28 = replace_seq(e27, seq!['|'], seq!['&', '#', '1', '2', '4', ';']);
    let e29 = replace_seq(e28, seq!['}'], seq!['&', '#', '1', '2', '5', ';']);
    let e30 = replace_seq(e29, seq!['~'], seq!['&', '#', '1', '2', '6', ';']);
    e30
}

/// Escape a string of HTML character by character with numeric
/// entities, exactly as `escape_html_spec` describes.
pub fn escape_html(html: &String) -> (r: String)
    ensures
        r@ == escape_html_spec(html@),
{
    let mut cur = chars_of(html.as_str());
    let p0: Vec<char> = vec!['!'];
    let t0: Vec<char> = vec!['&', '#', '3', '3', ';'];
    proof {
        assert(p0@ =~= seq!['!']);
        assert(t0@ =~= seq!['&', '#', '3', '3', ';']);
    }
    cur = replace_all(&cur, &p0, &t0);
    let p1: Vec<char> = vec!['"'];
    let t1: Vec<char> = vec!['&', '#', '3', '4', ';'];
    proof {
        assert(p1@ =~= seq!['"']);
        assert(t1@ =~= seq!['&', '#', '3', '4', ';']);
    }
    cur = replace_all(&cur, &p1, &t1);
    let p2: Vec<char> = vec!['#'];
    let t2: Vec<char> = vec!['&', '#', '3', '5', ';'];
    proof {
        assert(p2@ =~= seq!['#']);
        assert(t2@ =~= seq!['&', '#', '3', '5', ';']);
    }
    cur = replace_all(&cur, &p2, &t2);
    let p3: Vec<char> = vec!['$'];
    let t3: Vec<char> = vec!['&', '#', '3', '6', ';'];
    proof {
        assert(p3@ =~= seq!['$']);
        assert(t3@ =~= seq!['&', '#', '3', '6', ';']);
    }
    cur = replace_all(&cur, &p3, &t3);
    let p4: Vec<char> = vec!['%'];
    let t4: Vec<char> = vec!['&', '#', '3', '7', ';'];
    proof {
        assert(p4@ =~= seq!['%']);
        assert(t4@ =~= seq!['&', '#', '3', '7', ';']);
    }
    cur = replace_all(&cur, &p4, &t4);
    let p5: Vec<char> = vec!['&'];
    let t5: Vec<char> = vec!['&', '#', '3', '8', ';'];
    proof {
        assert(p5@ =~= seq!['&']);
        assert(t5@ =~= seq!['&', '#', '3', '8', ';']);
    }
    cur = replace_all(&cur, &p5, &t5);
    let p6: Vec<char> = vec!['\''];
    let t6: Vec<char> = vec!['&', '#', '3', '9', ';'];
    proof {
        assert(p6@ =~= seq!['\'']);
        assert(t6@ =~= seq!['&', '#', '3', '9', ';']);
    }
    cur = replace_all(&cur, &p6, &t6);
    let p7: Vec<char> = vec!['('];
    let t7: Vec<char> = vec!['&', '#', '4', '0', ';'];
    proof {
        assert(p7@ =~= seq!['(']);
        assert(t7@ =~= seq!['&', '#', '4', '0', ';']);
    }
    cur = replace_all(&cur, &p7, &t7);
    let p8: Vec<char> = vec![')'];
    let t8: Vec<char> = vec!['&', '#', '4', '1', ';'];
    proof {
        assert(p8@ =~= seq![')']);
        assert(t8@ =~= seq!['&', '#', '4', '1', ';']);
    }
    cur = replace_all(&cur, &p8, &t8);
    let p9: Vec<char> = vec!['*'];
    let t9: Vec<char> = vec!['&', '#', '4', '2', ';'];
    proof {
        assert(p9@ =~= seq!['*']);
        assert(t9@ =~= seq!['&', '#', '4', '2', ';']);
    }
    cur = replace_all(&cur, &p9, &t9);
    let p10: Vec<char> = vec!['+'];
    let t10: Vec<char> = vec!['&', '#', '4', '3', ';'];
    proof {
        assert(p10@ =~= seq!['+']);
        assert(t10@ =~= seq!['&', '#', '4', '3', ';']);
    }
    cur = replace_all(&cur, &p10, &t10);
    let p11: Vec<char> = vec![','];
    let t11: Vec<char> = vec!['&', '#', '4', '4', ';'];
    proof {
        assert(p11@ =~= seq![',']);
        assert(t11@ =~= seq!['&', '#', '4', '4', ';']);
    }
    cur = replace_all(&cur, &p11, &t11);
    let p12: Vec<char> = vec!['-'];
    let t12: Vec<char> = vec!['&', '#', '4', '5', ';'];
    proof {
        assert(p12@ =~= seq!['-']);
        assert(t12@ =~= seq!['&', '#', '4', '5', ';']);
    }
    cur = replace_all(&cur, &p12, &t12);
    let p13: Vec<char> = vec!['.'];
    let t13: Vec<char> = vec!['&', '#', '4', '6', ';'];
    proof {
        assert(p13@ =~= seq!['.']);
        assert(t13@ =~= seq!['&', '#', '4', '6', ';']);
    }
    cur = replace_all(&cur, &p13, &t13);
    let p14: Vec<char> = vec![':'];
    let t14: Vec<char> = vec!['&', '#', '5', '8', ';'];
    proof {
        assert(p14@ =~= seq![':']);
        assert(t14@ =~= seq!['&', '#', '5', '8', ';']);
    }
    cur = replace_all(&cur, &p14, &t14);
    let p15: Vec<char> = vec![';'];
    let t15: Vec<char> = vec!['&', '#', '5', '9', ';'];
    proof {
        assert(p15@ =~= seq![';']);
        assert(t15@ =~= seq!['&', '#', '5', '9', ';']);
    }
    cur = replace_all(&cur, &p15, &t15);
    let p16: Vec<char> = vec!['<'];
    let t16: Vec<char> = vec!['&', '#', '6', '0', ';'];
    proof {
        assert(p16@ =~= seq!['<']);
        assert(t16@ =~= seq!['&', '#', '6', '0', ';']);
    }
    cur = replace_all(&cur, &p16, &t16);
    let p17: Vec<char> = vec!['='];
    let t17: Vec<char> = vec!['&', '#', '6', '1', ';'];
    proof {
        assert(p17@ =~= seq!['=']);
        assert(t17@ =~= seq!['&', '#', '6', '1', ';']);
    }
    cur = replace_all(&cur, &p17, &t17);
    let p18: Vec<char> = vec!['>'];
    let t18: Vec<char> = vec!['&', '#', '6', '2', ';'];
    proof {
        assert(p18@ =~= seq!['>']);
        assert(t18@ =~= seq!['&', '#', '6', '2', ';']);
    }
    cur = replace_all(&cur, &p18, &t18);
    let p19: Vec<char> = vec!['?'];
    let t19: Vec<char> = vec!['&', '#', '6', '3', ';'];
    proof {
        assert(p19@ =~= seq!['?']);
        assert(t19@ =~= seq!['&', '#', '6', '3', ';']);
    }
    cur = replace_all(&cur, &p19, &t19);
    let p20: Vec<char> = vec!['@'];
    let t20: Vec<char> = vec!['&', '#', '6', '4', ';'];
    proof {
        assert(p20@ =~= seq!['@']);
        assert(t20@ =~= seq!['&', '#', '6', '4', ';']);
    }
    cur = replace_all(&cur, &p20, &t20);
    let p21: Vec<char> = vec!['['];
    let t21: Vec<char> = vec!['&', '#', '9', '1', ';'];
    proof {
        assert(p21@ =~= seq!['[']);
        assert(t21@ =~= seq!['&', '#', '9', '1', ';']);
    }
    cur = replace_all(&cur, &p21, &t21);
    let p22: Vec<char> = vec!['\\'];
    let t22: Vec<char> = vec!['&', '#', '9', '2', ';'];
    proof {
        assert(p22@ =~= seq!['\\']);
        assert(t22@ =~= seq!['&', '#', '9', '2', ';']);
    }
    cur = replace_all(&cur, &p22, &t22);
    let p23: Vec<char> = vec![']'];
    let t23: Vec<char> = vec!['&', '#', '9', '3', ';'];
    proof {
        assert(p23@ =~= seq![']']);
        assert(t23@ =~= seq!['&', '#', '9', '3', ';']);
    }
    cur = replace_all(&cur, &p23, &t23);
    let p24: Vec<char> = vec!['^'];
    let t24: Vec<char> = vec!['&', '#', '9', '4', ';'];
    proof {
        assert(p24@ =~= seq!['^']);
        assert(t24@ =~= seq!['&', '#', '9', '4', ';']);
    }
    cur = replace_all(&cur, &p24, &t24);
    let p25: Vec<char> = vec!['_'];
    let t25: Vec<char> = vec!['&', '#', '9', '5', ';'];
    proof {
        assert(p25@ =~= seq!['_']);
        assert(t25@ =~= seq!['&', '#', '9', '5', ';']);
    }
    cur = replace_all(&cur, &p25, &t25);
    let p26: Vec<char> = vec!['`'];
    let t26: Vec<char> = vec!['&', '#', '9', '6', ';'];
    proof {
        assert(p26@ =~= seq!['`']);
        assert(t26@ =~= seq!['&', '#', '9', '6', ';']);
    }
    cur = replace_all(&cur, &p26, &t26);
    let p27: Vec<char> = vec!['{'];
    let t27: Vec<char> = vec!['&', '#', '1', '2', '3', ';'];
    proof {
        assert(p27@ =~= seq!['{']);
        assert(t27@ =~= seq!['&', '#', '1', '2', '3', ';']);
    }
    cur = replace_all(&cur, &p27, &t27);
    let p28: Vec<char> = vec!['|'];
    let t28: Vec<char> = vec!['&', '#', '1', '2', '4', ';'];
    proof {
        assert(p28@ =~= seq!['|']);
        assert(t28@ =~= seq!['&', '#', '1', '2', '4', ';']);
    }
    cur = replace_all(&cur, &p28, &t28);
    let p29: Vec<char> = vec!['}'];
    let t29: Vec<char> = vec!['&', '#', '1', '2', '5', ';'];
    proof {
        assert(p29@ =~= seq!['}']);
        assert(t29@ =~= seq!['&', '#', '1', '2', '5', ';']);
    }
    cur = replace_all(&cur, &p29, &t29);
    let p30: Vec<char> = vec!['~'];
    let t30: Vec<char> = vec!['&', '#', '1', '2', '6', ';'];
    proof {
        assert(p30@ =~= seq!['~']);
        assert(t30@ =~= seq!['&', '#', '1', '2', '6', ';']);
    }
    cur = replace_all(&cur, &p30, &t30);
    string_of(&cur)
}

/// The lower-case form of `s` as the Unicode case mapping gives it.
pub uninterp spec fn lower_of(s: Seq<char>) -> Seq<char>;

/// Relies on `str::to_lowercase`: the result depends on the
/// characters alone.
#[verifier::external_body]
pub(crate) fn to_lower_chars(v: &Vec<char>) -> (r: Vec<char>)
    ensures
        r@ == lower_of(v@),
{
    let s: String = v.iter().collect();
    s.to_lowercase().chars().collect()
}

/// An ASCII letter or digit: what a slug keeps.
pub open spec fn is_alnum(c: char) -> bool {
    ('a' <= c && c <= 'z') || ('A' <= c && c <= 'Z') || ('0' <= c && c <= '9')
}

/// The slug of a lowered text from index `i` on: its alphanumeric
/// runs, joined by single hyphens.  `started` records whether a run
/// has been emitted, `pending` whether a separator is owed before the
/// next one.
pub open spec fn slug_from(t: Seq<char>, i: int, started: bool, pending: bool) -> Seq<char>
    decreases t.len() - i,
{
    if !(0 <= i < t.len()) {
        Seq::empty()
    } else if is_alnum(t[i]) {
        (if pending && started {
            seq!['-']
        } else {
            Seq::empty()
        }) + seq![t[i]] + slug_from(t, i + 1, true, false)
    } else {
        slug_from(t, i + 1, started, true)
    }
}

/// The slug of a string: the text lowered, its non-alphanumeric runs
/// collapsed, and the remaining runs joined by hyphens.
pub open spec fn slug_of(s: Seq<char>) -> Seq<char> {
    slug_from(lower_of(s), 0, false, false)
}

/// Convert a string to slug case, exactly as `slug_of` describes.
pub(crate) fn slug_chars(vc: &Vec<char>) -> (r: Vec<char>)
    ensures
        r@ == slug_of(vc@),
{
    let t = to_lower_chars(vc);
    let mut out: Vec<char> = Vec::new();
    let mut started = false;
    let mut pending = false;
    let mut i: usize = 0;
    while i < t.len()
        invariant
            i <= t@.len(),
            out@ + slug_from(t@, i as int, started, pending) == slug_from(t@, 0, false, false),
        decreases t@.len() - i,
    {
        let c = t[i];
        let ghost out0 = out@;
        let ghost st0 = started;
        let ghost pe0 = pending;
        if ('a' <= c && c <= 'z') || ('A' <= c && c <= 'Z') || ('0' <= c && c <= '9') {
            if pending && started {
                out.push('-');
            }
            out.push(c);
            started = true;
            pending = false;
            proof {
                if pe0 && st0 {
                    assert(out@ =~= out0 + seq!['-'] + seq![c]);
                } else {
                    assert(out@ =~= out0 + seq![c]);
                }
            }
        } else {
            pending = true;
        }
        i = i + 1;
        proof {
            assert(out@ + slug_from(t@, i as int, started, pending) =~= slug_from(
                t@,
                0,
                false,
                false,
            ));
        }
    }
    proof {
        assert(out@ =~= slug_of(vc@));
    }
    out
}

/// Convert a string to slug case, exactly as `slug_of` describes.
pub fn string_to_slug(value: &String) -> (r: String)
    ensures
        r@ == slug_of(value@),
{
    let vc = chars_of(value.as_str());
    let out = slug_chars(&vc);
    string_of(&out)
}

} // verus!
