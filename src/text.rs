//! Text helpers of the emitter: joining, splitting a route template, and
//! writing string literals.
use vstd::prelude::*;

verus! {

/// The text of each string.
pub open spec fn views(v: Seq<String>) -> Seq<Seq<char>> {
    v.map_values(|s: String| s@)
}

/// `items` with `sep` between each two.
pub open spec fn join(items: Seq<Seq<char>>, sep: Seq<char>) -> Seq<char>
    decreases items.len(),
{
    if items.len() == 0 {
        seq![]
    } else if items.len() == 1 {
        items[0]
    } else {
        join(items.drop_last(), sep) + sep + items.last()
    }
}

/// The `/`-separated segments of `t`; there is always at least one.
pub open spec fn split_slash(t: Seq<char>) -> Seq<Seq<char>>
    decreases t.len(),
{
    if t.len() == 0 {
        seq![seq![]]
    } else {
        let init = split_slash(t.drop_last());
        if t.last() == '/' {
            init.push(seq![])
        } else {
            init.update(init.len() - 1, init.last().push(t.last()))
        }
    }
}

pub proof fn lemma_split_slash_nonempty(t: Seq<char>)
    ensures
        split_slash(t).len() >= 1,
    decreases t.len(),
{
    if t.len() > 0 {
        lemma_split_slash_nonempty(t.drop_last());
    }
}

/// Text that a string literal holds unescaped: printable ASCII other than
/// `"`, `\` and `'`.
pub open spec fn plain_literal_text(s: Seq<char>) -> bool {
    forall|i: int|
        0 <= i < s.len() ==> 0x20 <= (#[trigger] s[i]) as u32 <= 0x7e && s[i] != '"' && s[i] != '\\'
            && s[i] != '\''
}

/// `lit` is the source text of a string literal for `s`: quoted, and where
/// `s` needs no escape, `s` itself between the quotes.
pub open spec fn literal_for(s: Seq<char>, lit: Seq<char>) -> bool {
    &&& lit.len() >= 2
    &&& lit[0] == '"'
    &&& lit.last() == '"'
    &&& plain_literal_text(s) ==> lit == seq!['"'] + s + seq!['"']
}

/// Relies on proc_macro2::Literal::string and its `Display`: the source text
/// of a string literal whose value is `s`. Which escapes it writes depends on
/// whether a compiler's proc macro is running, so only what both ways share
/// is stated.
#[verifier::external_body]
pub(crate) fn string_literal(s: &str) -> (r: String)
    ensures
        literal_for(s@, r@),
{
    proc_macro2::Literal::string(s).to_string()
}

/// Joins `items` with `sep` between each two.
pub fn join_with(items: &Vec<String>, sep: &str) -> (r: String)
    ensures
        r@ == join(views(items@), sep@),
{
    let ghost all = views(items@);
    let mut out = String::new();
    let mut i: usize = 0;
    while i < items.len()
        invariant
            i <= items@.len(),
            all == views(items@),
            out@ == join(all.take(i as int), sep@),
        decreases items@.len() - i,
    {
        proof {
            assert(all.take(i + 1).drop_last() =~= all.take(i as int));
            assert(all.take(i + 1).last() == items@[i as int]@);
        }
        if i > 0 {
            out.append(sep);
        } else {
            proof {
                assert(out@ =~= seq![]);
            }
        }
        out.append(items[i].as_str());
        proof {
            if i == 0 {
                assert(out@ =~= all.take(1)[0]);
            }
        }
        i = i + 1;
    }
    proof {
        assert(all.take(i as int) =~= all);
    }
    out
}

/// Splits `t` at each `/`.
pub fn split_segments(t: &str) -> (r: Vec<String>)
    ensures
        views(r@) == split_slash(t@),
{
    let n = t.unicode_len();
    let mut segs: Vec<String> = Vec::new();
    let mut start: usize = 0;
    let mut i: usize = 0;
    proof {
        assert(t@.subrange(0, 0) =~= Seq::<char>::empty());
        assert(views(segs@) =~= Seq::<Seq<char>>::empty());
        assert(views(segs@).push(t@.subrange(0, 0)) =~= split_slash(t@.subrange(0, 0)));
    }
    while i < n
        invariant
            start <= i <= n,
            n == t@.len(),
            views(segs@).push(t@.subrange(start as int, i as int)) == split_slash(t@.subrange(0, i as int)),
        decreases n - i,
    {
        let c = t.get_char(i);
        proof {
            let p = t@.subrange(0, i + 1);
            assert(p.drop_last() =~= t@.subrange(0, i as int));
            assert(p.last() == c);
            lemma_split_slash_nonempty(t@.subrange(0, i as int));
        }
        if c == '/' {
            let seg = String::from_str(t.substring_char(start, i));
            proof {
                assert(views(segs@.push(seg)) =~= views(segs@).push(seg@));
                assert(t@.subrange(i + 1, i + 1) =~= seq![]);
            }
            segs.push(seg);
            start = i + 1;
        } else {
            proof {
                assert(t@.subrange(start as int, i as int).push(c) =~= t@.subrange(start as int, i + 1));
                assert(views(segs@).push(t@.subrange(start as int, i as int)).update(
                    views(segs@).len() as int,
                    t@.subrange(start as int, i + 1),
                ) =~= views(segs@).push(t@.subrange(start as int, i + 1)));
            }
        }
        i = i + 1;
    }
    let last = String::from_str(t.substring_char(start, n));
    proof {
        assert(views(segs@.push(last)) =~= views(segs@).push(last@));
        assert(t@.subrange(0, n as int) =~= t@);
    }
    segs.push(last);
    segs
}

} // verus!
