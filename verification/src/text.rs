//! Text helpers shared by the planner: substring search, upper-casing,
//! path lists and path joining, all stated over sequences of characters.

use vstd::prelude::*;
use vstd::string::*;

verus! {

/// `String::push` appends one character to the end of the string.
pub assume_specification[ String::push ](s: &mut String, c: char)
    ensures
        final(s)@ == old(s)@.push(c),
;

/// `needle` stands in `hay` at position `i`.
pub open spec fn occurs_at(hay: Seq<char>, needle: Seq<char>, i: int) -> bool {
    0 <= i && i + needle.len() <= hay.len() && hay.subrange(i, i + needle.len()) == needle
}

/// `needle` stands somewhere in `hay`.
pub open spec fn has_substring(hay: Seq<char>, needle: Seq<char>) -> bool {
    exists|i: int| occurs_at(hay, needle, i)
}

/// The characters of `s`, in order.
pub fn chars_of(s: &str) -> (v: Vec<char>)
    ensures
        v@ == s@,
{
    let n: usize = s.unicode_len();
    let mut v: Vec<char> = Vec::new();
    let mut i: usize = 0;
    while i < n
        invariant
            n == s@.len(),
            i <= n,
            v@ == s@.subrange(0, i as int),
        decreases n - i,
    {
        v.push(s.get_char(i));
        i += 1;
        assert(v@ =~= s@.subrange(0, i as int));
    }
    assert(v@ =~= s@);
    v
}

fn matches_at(hay: &Vec<char>, needle: &Vec<char>, i: usize) -> (r: bool)
    requires
        i + needle.len() <= hay.len(),
    ensures
        r == occurs_at(hay@, needle@, i as int),
{
    let mut j: usize = 0;
    while j < needle.len()
        invariant
            j <= needle.len(),
            i + needle.len() <= hay.len(),
            forall|k: int| 0 <= k < j ==> hay@[i + k] == needle@[k],
        decreases needle.len() - j,
    {
        if hay[i + j] != needle[j] {
            proof {
                let sub = hay@.subrange(i as int, i + needle@.len());
                assert(sub[j as int] == hay@[i + j]);
            }
            return false;
        }
        j += 1;
    }
    assert(hay@.subrange(i as int, i + needle@.len()) =~= needle@);
    true
}

/// Whether `needle` stands somewhere in `hay`.
pub fn contains(hay: &str, needle: &str) -> (r: bool)
    ensures
        r == has_substring(hay@, needle@),
{
    let h = chars_of(hay);
    let n = chars_of(needle);
    if n.len() > h.len() {
        return false;
    }
    let last: usize = h.len() - n.len();
    let mut i: usize = 0;
    while i < last
        invariant
            last == h.len() - n.len(),
            i <= last,
            h@ == hay@,
            n@ == needle@,
            forall|k: int| 0 <= k < i ==> !occurs_at(hay@, needle@, k),
        decreases last - i,
    {
        if matches_at(&h, &n, i) {
            return true;
        }
        i += 1;
    }
    matches_at(&h, &n, last)
}

/// An ASCII lower-case letter becomes its upper-case form; every other
/// character stays.
pub open spec fn upper_char(c: char) -> char {
    if 'a' <= c && c <= 'z' {
        ((c as u8 - 32) as u8) as char
    } else {
        c
    }
}

/// `upper_char` applied to each character.
pub open spec fn upper(s: Seq<char>) -> Seq<char> {
    s.map_values(|c: char| upper_char(c))
}

/// The upper-case form of one character.
pub fn to_upper_char(c: char) -> (r: char)
    ensures
        r == upper_char(c),
{
    if 'a' <= c && c <= 'z' {
        let b: u8 = c as u8;
        (b - 32) as char
    } else {
        c
    }
}

/// The upper-case form of `s`.
pub fn uppercase(s: &str) -> (r: String)
    ensures
        r@ == upper(s@),
{
    let v = chars_of(s);
    let mut r = String::new();
    let mut i: usize = 0;
    while i < v.len()
        invariant
            i <= v.len(),
            v@ == s@,
            r@ == upper(s@.subrange(0, i as int)),
        decreases v.len() - i,
    {
        r.push(to_upper_char(v[i]));
        i += 1;
        assert(r@ =~= upper(s@.subrange(0, i as int)));
    }
    assert(s@.subrange(0, i as int) =~= s@);
    r
}

/// `item` after `acc`, with one space between them unless `acc` is empty.
pub open spec fn spaced(acc: Seq<char>, item: Seq<char>) -> Seq<char> {
    if acc.len() == 0 {
        item
    } else {
        acc + seq![' '] + item
    }
}

/// `spaced` applied to `acc` and each of `items` in turn.
pub open spec fn spaced_all(acc: Seq<char>, items: Seq<Seq<char>>) -> Seq<char>
    decreases items.len(),
{
    if items.len() == 0 {
        acc
    } else {
        spaced(spaced_all(acc, items.drop_last()), items.last())
    }
}

/// The views of a sequence of strings.
pub open spec fn views(v: Seq<String>) -> Seq<Seq<char>> {
    v.map_values(|s: String| s@)
}

/// The views of a sequence of pairs of strings.
pub open spec fn pair_views(v: Seq<(String, String)>) -> Seq<(Seq<char>, Seq<char>)> {
    v.map_values(|p: (String, String)| (p.0@, p.1@))
}

/// The view of an optional string.
pub open spec fn opt_view(o: Option<String>) -> Option<Seq<char>> {
    match o {
        Some(s) => Some(s@),
        None => None,
    }
}

/// Appends `item` to `acc`, after one space unless `acc` is empty.
pub fn push_spaced(acc: &mut String, item: &str)
    ensures
        final(acc)@ == spaced(old(acc)@, item@),
{
    if acc.as_str().unicode_len() != 0 {
        acc.push(' ');
    }
    acc.append(item);
    assert(final(acc)@ =~= spaced(old(acc)@, item@));
}

/// The pieces of `s` between occurrences of `sep`: one more piece than
/// there are separators, empty pieces included.
pub open spec fn split_list(s: Seq<char>, sep: char) -> Seq<Seq<char>>
    decreases s.len(),
{
    if s.len() == 0 {
        seq![Seq::<char>::empty()]
    } else {
        let init = split_list(s.drop_last(), sep);
        if s.last() == sep {
            init.push(Seq::<char>::empty())
        } else {
            init.drop_last().push(init.last().push(s.last()))
        }
    }
}

/// The pieces of `parts` in order, with `sep` between neighbours.
pub open spec fn join_list(parts: Seq<Seq<char>>, sep: char) -> Seq<char>
    decreases parts.len(),
{
    if parts.len() == 0 {
        Seq::<char>::empty()
    } else if parts.len() == 1 {
        parts[0]
    } else {
        join_list(parts.drop_last(), sep) + seq![sep] + parts.last()
    }
}

/// A split list is never empty.
pub proof fn lemma_split_nonempty(s: Seq<char>, sep: char)
    ensures
        split_list(s, sep).len() >= 1,
    decreases s.len(),
{
    if s.len() != 0 {
        lemma_split_nonempty(s.drop_last(), sep);
    }
}

/// Joining the pieces of a split list with the same separator gives the
/// text back.
pub proof fn lemma_join_split(s: Seq<char>, sep: char)
    ensures
        join_list(split_list(s, sep), sep) == s,
    decreases s.len(),
{
    if s.len() == 0 {
        assert(join_list(split_list(s, sep), sep) =~= s);
    } else {
        let init = split_list(s.drop_last(), sep);
        lemma_split_nonempty(s.drop_last(), sep);
        lemma_join_split(s.drop_last(), sep);
        if s.last() == sep {
            let all = init.push(Seq::<char>::empty());
            assert(all.drop_last() =~= init);
            assert(join_list(all, sep) =~= s.drop_last() + seq![sep]);
            assert(s.drop_last() + seq![sep] =~= s);
        } else {
            let all = init.drop_last().push(init.last().push(s.last()));
            if init.len() == 1 {
                assert(join_list(init, sep) == init[0]);
                assert(join_list(all, sep) =~= init[0].push(s.last()));
            } else {
                assert(all.drop_last() =~= init.drop_last());
                assert(join_list(all, sep) =~= join_list(init.drop_last(), sep) + seq![sep]
                    + init.last().push(s.last()));
                assert(join_list(all, sep) =~= join_list(init, sep).push(s.last()));
            }
            assert(s.drop_last().push(s.last()) =~= s);
        }
    }
}

/// Splits a path list at each `sep`.
pub fn split(s: &str, sep: char) -> (r: Vec<String>)
    ensures
        views(r@) == split_list(s@, sep),
{
    let v = chars_of(s);
    let mut done: Vec<String> = Vec::new();
    let mut piece = String::new();
    let mut i: usize = 0;
    assert(s@.subrange(0, 0) =~= Seq::<char>::empty());
    assert(views(done@).push(piece@) =~= split_list(s@.subrange(0, 0), sep));
    while i < v.len()
        invariant
            i <= v.len(),
            v@ == s@,
            views(done@).push(piece@) == split_list(s@.subrange(0, i as int), sep),
        decreases v.len() - i,
    {
        let ghost before = s@.subrange(0, i as int);
        let ghost now = s@.subrange(0, i + 1);
        assert(now.drop_last() =~= before);
        assert(now.last() == v@[i as int]);
        let ghost init = views(done@).push(piece@);
        assert(init.drop_last() =~= views(done@));
        if v[i] == sep {
            done.push(piece);
            piece = String::new();
            assert(views(done@) =~= init);
        } else {
            piece.push(v[i]);
        }
        i += 1;
    }
    assert(s@.subrange(0, i as int) =~= s@);
    let ghost whole = views(done@).push(piece@);
    done.push(piece);
    assert(views(done@) =~= whole);
    done
}

/// Joins the entries of a path list with `sep`.
pub fn join(parts: &Vec<String>, sep: char) -> (r: String)
    ensures
        r@ == join_list(views(parts@), sep),
{
    let mut r = String::new();
    let mut i: usize = 0;
    assert(views(parts@).subrange(0, 0) =~= Seq::<Seq<char>>::empty());
    while i < parts.len()
        invariant
            i <= parts.len(),
            r@ == join_list(views(parts@).subrange(0, i as int), sep),
        decreases parts.len() - i,
    {
        let ghost now = views(parts@).subrange(0, i + 1);
        assert(now.drop_last() =~= views(parts@).subrange(0, i as int));
        assert(now.last() == parts@[i as int]@);
        if i > 0 {
            r.push(sep);
        }
        r.append(parts[i].as_str());
        i += 1;
        assert(r@ =~= join_list(now, sep));
    }
    assert(views(parts@).subrange(0, i as int) =~= views(parts@));
    r
}

/// `rel` below `base`: `rel` itself where it starts with `/` or `base` is
/// empty, else `base`, one `/` unless `base` ends with one, and `rel`.
pub open spec fn joined_path(base: Seq<char>, rel: Seq<char>) -> Seq<char> {
    if (rel.len() > 0 && rel[0] == '/') || base.len() == 0 {
        rel
    } else if base.last() == '/' {
        base + rel
    } else {
        base + seq!['/'] + rel
    }
}

/// The path of `rel` below the directory `base`.
pub fn join_path(base: &str, rel: &str) -> (r: String)
    ensures
        r@ == joined_path(base@, rel@),
{
    let b = chars_of(base);
    let absolute = rel.unicode_len() > 0 && rel.get_char(0) == '/';
    if absolute || b.len() == 0 {
        return String::from_str(rel);
    }
    let mut r = String::from_str(base);
    if b[b.len() - 1] != '/' {
        r.push('/');
    }
    r.append(rel);
    assert(r@ =~= joined_path(base@, rel@));
    r
}

} // verus!
