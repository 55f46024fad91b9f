//! Paths ordered and compared as `std::path::Path` does it: component by
//! component (root, then `.`, then `..`, then normal components by their
//! text), so that `a//b` and `a/./b` are the same path.
use vstd::prelude::*;
use crate::event::{lemma_lex_irreflexive, lemma_lex_transitive, lemma_lex_trichotomy, lex_lt, str_compare};
use crate::text::{split_char, split_seq, str_eq, views};

verus! {

/// The key of one component after the first: `..` sorts before every
/// normal component, and normal components by their text.
pub open spec fn comp_key(part: Seq<char>) -> Seq<char> {
    if part == ".."@ {
        seq!['\u{2}']
    } else {
        seq!['\u{3}'] + part
    }
}

/// The keys of the components of split pieces, empty and `.` pieces
/// dropped.
pub open spec fn rel_keys(parts: Seq<Seq<char>>) -> Seq<Seq<char>>
    decreases parts.len(),
{
    if parts.len() == 0 {
        Seq::empty()
    } else {
        let rest = rel_keys(parts.drop_last());
        let x = parts.last();
        if x.len() == 0 || x == "."@ {
            rest
        } else {
            rest.push(comp_key(x))
        }
    }
}

/// The component keys of a Unix path: a root first when it is absolute,
/// a leading `.` when it starts with one, then its other components.
pub open spec fn path_keys(p: Seq<char>) -> Seq<Seq<char>> {
    let parts = split_seq(p, '/');
    if p.len() > 0 && p[0] == '/' {
        seq![seq!['\u{0}']] + rel_keys(parts)
    } else if parts[0] == "."@ {
        seq![seq!['\u{1}']] + rel_keys(parts.drop_first())
    } else {
        rel_keys(parts)
    }
}

/// Lexicographic order of component keys.
pub open spec fn keys_lt(a: Seq<Seq<char>>, b: Seq<Seq<char>>) -> bool
    decreases a.len(),
{
    if a.len() == 0 {
        b.len() > 0
    } else if b.len() == 0 {
        false
    } else if a[0] == b[0] {
        keys_lt(a.drop_first(), b.drop_first())
    } else {
        lex_lt(a[0], b[0])
    }
}

/// No path key is before itself.
pub proof fn lemma_keys_irreflexive(a: Seq<Seq<char>>)
    ensures
        !keys_lt(a, a),
    decreases a.len(),
{
    if a.len() > 0 {
        lemma_keys_irreflexive(a.drop_first());
    }
}

/// Of two path keys, exactly one is first, or they are equal.
pub proof fn lemma_keys_trichotomy(a: Seq<Seq<char>>, b: Seq<Seq<char>>)
    ensures
        a == b || keys_lt(a, b) || keys_lt(b, a),
        !(keys_lt(a, b) && keys_lt(b, a)),
    decreases a.len(),
{
    if a.len() > 0 && b.len() > 0 {
        if a[0] == b[0] {
            lemma_keys_trichotomy(a.drop_first(), b.drop_first());
            if a.drop_first() == b.drop_first() {
                assert(a == seq![a[0]] + a.drop_first());
                assert(b == seq![b[0]] + b.drop_first());
            }
        } else {
            lemma_lex_trichotomy(a[0], b[0]);
        }
    } else if a.len() == 0 && b.len() == 0 {
        assert(a == b);
    }
}

/// Path key order is transitive.
pub proof fn lemma_keys_transitive(a: Seq<Seq<char>>, b: Seq<Seq<char>>, c: Seq<Seq<char>>)
    requires
        keys_lt(a, b),
        keys_lt(b, c),
    ensures
        keys_lt(a, c),
    decreases a.len(),
{
    if a.len() > 0 && b.len() > 0 && c.len() > 0 {
        if a[0] == b[0] && b[0] == c[0] {
            lemma_keys_transitive(a.drop_first(), b.drop_first(), c.drop_first());
        } else if a[0] == b[0] {
            lemma_lex_trichotomy(b[0], c[0]);
        } else if b[0] == c[0] {
            lemma_lex_trichotomy(a[0], b[0]);
        } else {
            lemma_lex_transitive(a[0], b[0], c[0]);
            lemma_lex_trichotomy(a[0], c[0]);
            if a[0] == c[0] {
                lemma_lex_trichotomy(a[0], b[0]);
            }
        }
    }
}

/// The component keys of a path.
pub fn path_key(p: &str) -> (k: Vec<String>)
    ensures
        views(k@) == path_keys(p@),
{
    let parts = split_char(p, '/');
    let ghost ps = views(parts@);
    proof {
        crate::text::lemma_split_nonempty(p@, '/');
        reveal_strlit(".");
        reveal_strlit("..");
    }
    let cs = crate::text::chars_of(p);
    let rooted = cs.len() > 0 && cs[0] == '/';
    let mut out: Vec<String> = Vec::new();
    let mut k: usize = 0;
    if rooted {
        let mut r = String::new();
        crate::text::push_char(&mut r, '\u{0}');
        out.push(r);
    } else if str_eq(parts[0].as_str(), ".") {
        let mut r = String::new();
        crate::text::push_char(&mut r, '\u{1}');
        out.push(r);
        k = 1;
    }
    let ghost head = views(out@);
    let ghost base = ps.skip(k as int);
    assert(ps.skip(k as int).take(0) =~= Seq::<Seq<char>>::empty());
    while k < parts.len()
        invariant
            1 <= parts.len(),
            k <= parts.len(),
            ps == views(parts@),
            base == ps.skip(if rooted { 0int } else if ps[0] == "."@ { 1int } else { 0int }),
            k >= (if rooted { 0int } else if ps[0] == "."@ { 1int } else { 0int }),
            views(out@) == head + rel_keys(base.take(k - (if rooted { 0int } else if ps[0] == "."@ { 1int } else { 0int }))),
        decreases parts.len() - k,
    {
        let ghost off: int = if rooted { 0int } else if ps[0] == "."@ { 1int } else { 0int };
        assert(base.take(k - off + 1).drop_last() == base.take(k - off));
        assert(base.take(k - off + 1).last() == ps[k as int]);
        let x = parts[k].as_str();
        let ghost before = views(out@);
        if !(x.unicode_len() == 0 || str_eq(x, ".")) {
            let mut key = String::new();
            if str_eq(x, "..") {
                crate::text::push_char(&mut key, '\u{2}');
            } else {
                crate::text::push_char(&mut key, '\u{3}');
                crate::text::push_str(&mut key, x);
            }
            out.push(key);
            assert(views(out@) =~= before.push(comp_key(x@)));
            assert(views(out@) =~= head + rel_keys(base.take(k - off + 1)));
        }
        k += 1;
    }
    proof {
        let off: int = if rooted { 0int } else if ps[0] == "."@ { 1int } else { 0int };
        assert(base.take(ps.len() - off) == base);
        assert(ps.skip(0) == ps);
        if rooted {
            assert(p@.len() > 0 && p@[0] == '/');
            assert(head == seq![seq!['\u{0}']]);
            assert(base == ps);
        } else if ps[0] == "."@ {
            assert(head == seq![seq!['\u{1}']]);
            assert(base == ps.drop_first());
        } else {
            assert(head == Seq::<Seq<char>>::empty());
            assert(base == ps);
            assert(views(out@) == head + rel_keys(ps));
            assert(head + rel_keys(ps) =~= rel_keys(ps));
        }
    }
    out
}

/// The order of two component key lists: -1, 0 or 1.
pub fn keys_compare(a: &Vec<String>, b: &Vec<String>) -> (r: i8)
    ensures
        r == -1 <==> keys_lt(views(a@), views(b@)),
        r == 1 <==> keys_lt(views(b@), views(a@)),
        r == 0 <==> views(a@) == views(b@),
        r == -1 || r == 0 || r == 1,
{
    let ghost va = views(a@);
    let ghost vb = views(b@);
    let mut i: usize = 0;
    assert(va.skip(0) == va);
    assert(vb.skip(0) == vb);
    while i < a.len() && i < b.len()
        invariant
            va == views(a@),
            vb == views(b@),
            i <= a.len(),
            i <= b.len(),
            va.take(i as int) == vb.take(i as int),
            keys_lt(va, vb) == keys_lt(va.skip(i as int), vb.skip(i as int)),
            keys_lt(vb, va) == keys_lt(vb.skip(i as int), va.skip(i as int)),
        decreases a.len() - i,
    {
        let c = str_compare(a[i].as_str(), b[i].as_str());
        assert(va.skip(i as int)[0] == va[i as int]);
        assert(vb.skip(i as int)[0] == vb[i as int]);
        if c != 0 {
            proof {
                lemma_keys_trichotomy(va, vb);
            }
            return c;
        }
        assert(va.skip(i as int).drop_first() == va.skip(i + 1));
        assert(vb.skip(i as int).drop_first() == vb.skip(i + 1));
        assert(va.take(i + 1) == va.take(i as int).push(va[i as int]));
        assert(vb.take(i + 1) == vb.take(i as int).push(vb[i as int]));
        i += 1;
    }
    proof {
        lemma_keys_trichotomy(va, vb);
    }
    if a.len() == b.len() {
        assert(va == va.take(i as int));
        assert(vb == vb.take(i as int));
        proof {
            lemma_keys_irreflexive(va);
        }
        0
    } else if a.len() < b.len() {
        assert(va.skip(i as int).len() == 0);
        -1
    } else {
        assert(vb.skip(i as int).len() == 0);
        1
    }
}

} // verus!
