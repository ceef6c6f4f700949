//! Turning the `href`/`src` values found on a page into canonical absolute links.
use vstd::prelude::*;
use crate::text::{
    chars_of, is_ws, lacks, no_edge_ws, remove_char, remove_chars, slice_chars, string_of,
    strip_trailing, strip_trailing_chars, trim, trim_chars, trim_end_ws, trim_start_ws,
};

verus! {

/// The raw link after trimming whitespace, dropping double quotes and trailing slashes.
pub open spec fn clean_link(link: Seq<char>) -> Seq<char> {
    strip_trailing(remove_char(trim(link), '"'), '/')
}

/// The site origin after trimming whitespace and trailing slashes.
pub open spec fn clean_base(base: Seq<char>) -> Seq<char> {
    strip_trailing(trim(base), '/')
}

/// The canonical form of `link` as found on a page of the site whose origin is `base`:
/// a root-relative link is joined to the origin, anything else is kept as cleaned.
pub open spec fn normalized(base: Seq<char>, link: Seq<char>) -> Seq<char> {
    if link.len() == 0 {
        link
    } else {
        let c = clean_link(link);
        if c.len() > 0 && c[0] == '/' {
            clean_base(base) + seq!['/'] + c.drop_first()
        } else {
            c
        }
    }
}

/// Canonical absolute form of `link` relative to the site origin `base_url`.
pub fn normalize_link(base_url: &str, link: &str) -> (r: String)
    ensures
        r@ == normalized(base_url@, link@),
{
    let l = chars_of(link);
    if l.len() == 0 {
        return string_of(&l);
    }
    let b = chars_of(base_url);
    let base = strip_trailing_chars(&trim_chars(&b), '/');
    let c = strip_trailing_chars(&remove_chars(&trim_chars(&l), '"'), '/');
    if c.len() > 0 && c[0] == '/' {
        let mut joined = base;
        joined.push('/');
        let mut i: usize = 1;
        while i < c.len()
            invariant
                1 <= i <= c.len(),
                c@ == clean_link(l@),
                joined@ == clean_base(b@) + seq!['/'] + c@.subrange(1, i as int),
            decreases c.len() - i,
        {
            joined.push(c[i]);
            i = i + 1;
            assert(joined@ =~= clean_base(b@) + seq!['/'] + c@.subrange(1, i as int));
        }
        assert(c@.subrange(1, c.len() as int) =~= c@.drop_first());
        string_of(&joined)
    } else {
        string_of(&c)
    }
}

proof fn lemma_strip_trailing_prefix(s: Seq<char>, c: char)
    ensures
        strip_trailing(s, c).len() <= s.len(),
        forall|i: int| 0 <= i < strip_trailing(s, c).len() ==> strip_trailing(s, c)[i] == s[i],
        strip_trailing(s, c).len() == 0 || strip_trailing(s, c).last() != c,
    decreases s.len(),
{
    if s.len() > 0 && s.last() == c {
        lemma_strip_trailing_prefix(s.drop_last(), c);
        let r = strip_trailing(s, c);
        assert forall|i: int| 0 <= i < r.len() implies r[i] == s[i] by {
            assert(s.drop_last()[i] == s[i]);
        }
    }
}

proof fn lemma_strip_trailing_noop(s: Seq<char>, c: char)
    requires
        s.len() == 0 || s.last() != c,
    ensures
        strip_trailing(s, c) == s,
{
}

proof fn lemma_remove_char_lacks(s: Seq<char>, c: char)
    ensures
        lacks(remove_char(s, c), c),
    decreases s.len(),
{
    if s.len() > 0 {
        lemma_remove_char_lacks(s.drop_last(), c);
    }
}

proof fn lemma_remove_char_noop(s: Seq<char>, c: char)
    requires
        lacks(s, c),
    ensures
        remove_char(s, c) == s,
    decreases s.len(),
{
    if s.len() > 0 {
        lemma_remove_char_noop(s.drop_last(), c);
        assert(s.drop_last().push(s.last()) =~= s);
    }
}

proof fn lemma_trim_start_first(s: Seq<char>)
    ensures
        trim_start_ws(s).len() == 0 || !is_ws(trim_start_ws(s)[0]),
    decreases s.len(),
{
    if s.len() > 0 && is_ws(s[0]) {
        lemma_trim_start_first(s.drop_first());
    }
}

proof fn lemma_trim_noop(s: Seq<char>)
    requires
        no_edge_ws(s),
    ensures
        trim(s) == s,
{
}

/// What cleaning leaves of a link: no double quote and no trailing slash.
proof fn lemma_clean_link_shape(link: Seq<char>)
    ensures
        lacks(clean_link(link), '"'),
        clean_link(link).len() == 0 || clean_link(link).last() != '/',
{
    let q = remove_char(trim(link), '"');
    lemma_remove_char_lacks(trim(link), '"');
    lemma_strip_trailing_prefix(q, '/');
    let c = clean_link(link);
    assert forall|i: int| 0 <= i < c.len() implies c[i] != '"' by {
        assert(c[i] == q[i]);
    }
}

/// Normalizing a normalized link changes nothing. This holds whenever the cleaned link has no
/// whitespace at its ends and, for a root-relative link, the cleaned origin has no double quote
/// and does not itself start with a slash.
pub proof fn lemma_normalize_idempotent(base: Seq<char>, link: Seq<char>)
    requires
        no_edge_ws(clean_link(link)),
        clean_link(link).len() > 0 && clean_link(link)[0] == '/' ==> lacks(clean_base(base), '"')
            && (clean_base(base).len() == 0 || clean_base(base)[0] != '/'),
    ensures
        normalized(base, normalized(base, link)) == normalized(base, link),
{
    let r = normalized(base, link);
    if link.len() == 0 {
        return;
    }
    let c = clean_link(link);
    lemma_clean_link_shape(link);
    if c.len() > 0 && c[0] == '/' {
        let bt = clean_base(base);
        lemma_strip_trailing_prefix(trim(base), '/');
        lemma_trim_start_first(trim_end_ws(base));
        let rest = c.drop_first();
        assert(rest.len() > 0);
        assert(r.last() == c.last());
        assert(r[0] == if bt.len() > 0 { bt[0] } else { '/' });
        assert(!is_ws(r[0]));
        lemma_trim_noop(r);
        assert(lacks(r, '"')) by {
            assert forall|i: int| 0 <= i < r.len() implies r[i] != '"' by {
                if i < bt.len() {
                } else if i > bt.len() {
                    assert(r[i] == c[i - bt.len()]);
                }
            }
        }
        lemma_remove_char_noop(r, '"');
        lemma_strip_trailing_noop(r, '/');
        assert(clean_link(r) == r);
        if bt.len() == 0 {
            assert(r.drop_first() =~= rest);
            assert(bt + seq!['/'] + r.drop_first() =~= r);
        }
    } else if c.len() > 0 {
        lemma_trim_noop(c);
        lemma_remove_char_noop(c, '"');
        lemma_strip_trailing_noop(c, '/');
        assert(clean_link(c) == c);
    }
}

} // verus!
