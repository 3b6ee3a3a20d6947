use vstd::prelude::*;

use crate::text::{chars_to_string, push_dec, spec_dec, str_to_chars};

verus! {

/// The opening tag of the vector root element starts at index `i`.
pub open spec fn has_svg_at(s: Seq<char>, i: int) -> bool {
    &&& 0 <= i
    &&& i + 4 <= s.len()
    &&& s[i] == '<'
    &&& s[i + 1] == 's'
    &&& s[i + 2] == 'v'
    &&& s[i + 3] == 'g'
}

/// The explicit dimension attributes injected into the root element:
/// width, height, and a viewBox spanning exactly that size.
pub open spec fn dimension_attrs(w: u32, h: u32) -> Seq<char> {
    " width=\""@ + spec_dec(w as int) + "\" height=\""@ + spec_dec(h as int)
        + "\" viewBox=\"0 0 "@ + spec_dec(w as int) + " "@ + spec_dec(h as int) + "\""@
}

/// The index of the first opening `<svg` tag. Meaningful only when
/// one exists.
pub open spec fn spec_first_svg(s: Seq<char>) -> int {
    choose|i: int| has_svg_at(s, i) && (forall|j: int| 0 <= j < i ==> !has_svg_at(s, j))
}

/// Wherever an opening tag exists, a first one exists.
pub proof fn lemma_first_svg_exists(s: Seq<char>, j: int)
    requires
        has_svg_at(s, j),
    ensures
        has_svg_at(s, spec_first_svg(s)),
        forall|k: int| 0 <= k < spec_first_svg(s) ==> !has_svg_at(s, k),
    decreases j,
{
    if forall|k: int| 0 <= k < j ==> !has_svg_at(s, k) {
        assert(has_svg_at(s, j) && (forall|k: int| 0 <= k < j ==> !has_svg_at(s, k)));
    } else {
        let k = choose|k: int| 0 <= k < j && has_svg_at(s, k);
        lemma_first_svg_exists(s, k);
    }
}

/// The vector markup with the dimension attributes inserted right
/// after the first `<svg`; markup without an opening tag is left
/// unchanged.
pub open spec fn spec_rewrite(s: Seq<char>, w: u32, h: u32) -> Seq<char> {
    if exists|j: int| has_svg_at(s, j) {
        let i = spec_first_svg(s);
        s.take(i + 4) + dimension_attrs(w, h) + s.skip(i + 4)
    } else {
        s
    }
}

/// The dimension attributes as characters.
fn dimension_attrs_chars(w: u32, h: u32) -> (r: Vec<char>)
    ensures
        r@ == dimension_attrs(w, h),
{
    let mut v: Vec<char> = Vec::new();
    push_lit(" width=\"", &mut v);
    push_dec(w as u64, &mut v);
    push_lit("\" height=\"", &mut v);
    push_dec(h as u64, &mut v);
    push_lit("\" viewBox=\"0 0 ", &mut v);
    push_dec(w as u64, &mut v);
    push_lit(" ", &mut v);
    push_dec(h as u64, &mut v);
    push_lit("\"", &mut v);
    v
}

/// Appends the characters of `lit` to `out`.
fn push_lit(lit: &str, out: &mut Vec<char>)
    ensures
        final(out)@ == old(out)@ + lit@,
{
    let chars = str_to_chars(lit);
    push_range(&chars, 0, chars.len(), out);
    proof {
        assert(chars@.subrange(0, chars@.len() as int) =~= lit@);
    }
}

/// Appends `src[from..to]` to `out`.
fn push_range(src: &Vec<char>, from: usize, to: usize, out: &mut Vec<char>)
    requires
        from <= to <= src@.len(),
    ensures
        final(out)@ == old(out)@ + src@.subrange(from as int, to as int),
{
    let mut i: usize = from;
    while i < to
        invariant
            from <= i <= to <= src@.len(),
            out@ == old(out)@ + src@.subrange(from as int, i as int),
        decreases to - i,
    {
        out.push(src[i]);
        proof {
            assert(old(out)@ + src@.subrange(from as int, i + 1 as int) =~= (old(out)@
                + src@.subrange(from as int, i as int)).push(src@[i as int]));
        }
        i = i + 1;
    }
}

/// Rewrites the vector markup so that its root element carries the
/// explicit requested width, height and viewBox: the dimension
/// attributes are inserted right after the first `<svg`. Markup
/// without such an opening tag is returned unchanged.
pub fn rewrite_svg_dimensions(svg: &str, w: u32, h: u32) -> (r: String)
    ensures
        r@ == spec_rewrite(svg@, w, h),
{
    let chars = str_to_chars(svg);
    let n = chars.len();
    if n < 4 {
        return chars_to_string(&chars);
    }
    let mut i: usize = 0;
    while i <= n - 4
        invariant
            4 <= n == chars@.len(),
            chars@ == svg@,
            i <= n,
            forall|j: int| 0 <= j < i ==> !has_svg_at(svg@, j),
        decreases n - i,
    {
        if chars[i] == '<' && chars[i + 1] == 's' && chars[i + 2] == 'v' && chars[i + 3] == 'g' {
            let mut out: Vec<char> = Vec::new();
            push_range(&chars, 0, i + 4, &mut out);
            let attrs = dimension_attrs_chars(w, h);
            push_range(&attrs, 0, attrs.len(), &mut out);
            push_range(&chars, i + 4, n, &mut out);
            proof {
                assert(attrs@.subrange(0, attrs@.len() as int) =~= dimension_attrs(w, h));
                assert(chars@.subrange(0, i + 4 as int) =~= svg@.take(i + 4 as int));
                assert(chars@.subrange(i + 4 as int, n as int) =~= svg@.skip(i + 4 as int));
                assert(has_svg_at(svg@, i as int));
                lemma_first_svg_exists(svg@, i as int);
                let i0 = spec_first_svg(svg@);
                if i0 < i {
                    assert(!has_svg_at(svg@, i0));
                }
                if i0 > i {
                    assert(!has_svg_at(svg@, i as int));
                }
                assert(i0 == i);
            }
            return chars_to_string(&out);
        }
        proof {
            assert(!has_svg_at(svg@, i as int));
        }
        i = i + 1;
    }
    proof {
        assert(forall|j: int| j >= i ==> !has_svg_at(svg@, j));
    }
    chars_to_string(&chars)
}

} // verus!
