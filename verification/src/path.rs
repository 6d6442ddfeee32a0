//! Unix paths as sequences of components.
//!
//! A path is split at every `/`. Empty pieces (repeated or trailing
//! separators) are dropped, and so is every `.` piece that is not the very
//! first piece. A leading `/` gives the root component, written `/`.
//! Nothing else is normalised: `..` stays a component of its own.

use crate::text::{str_equal, to_chars, views};
use vstd::prelude::*;
use vstd::string::*;

verus! {

/// The pieces of `s` between its separators: `k` separators give `k + 1`
/// pieces, some of which may be empty.
pub open spec fn pieces(s: Seq<char>) -> Seq<Seq<char>>
    decreases s.len(),
{
    if s.len() == 0 {
        seq![Seq::empty()]
    } else {
        let rest = pieces(s.drop_last());
        if s.last() == '/' {
            rest.push(Seq::empty())
        } else {
            rest.drop_last().push(rest.last().push(s.last()))
        }
    }
}

/// Whether a piece counts as a component; `first` says that it is the
/// first piece of its path.
pub open spec fn keeps(piece: Seq<char>, first: bool) -> bool {
    piece.len() > 0 && (piece != seq!['.'] || first)
}

/// The pieces that count as components, in order.
pub open spec fn kept(ps: Seq<Seq<char>>) -> Seq<Seq<char>>
    decreases ps.len(),
{
    if ps.len() == 0 {
        Seq::empty()
    } else if keeps(ps.last(), ps.len() == 1) {
        kept(ps.drop_last()).push(ps.last())
    } else {
        kept(ps.drop_last())
    }
}

/// Whether the path starts at the root directory.
pub open spec fn is_rooted(s: Seq<char>) -> bool {
    s.len() > 0 && s[0] == '/'
}

/// The root component of `s`, if it has one.
pub open spec fn root_part(s: Seq<char>) -> Seq<Seq<char>> {
    if is_rooted(s) {
        seq![seq!['/']]
    } else {
        Seq::empty()
    }
}

/// The components of the path `s`.
pub open spec fn components(s: Seq<char>) -> Seq<Seq<char>> {
    root_part(s) + kept(pieces(s))
}

/// Two paths are the same when their components are.
pub open spec fn same_path(a: Seq<char>, b: Seq<char>) -> bool {
    components(a) == components(b)
}

/// `path` lies at or below `base`: the components of `base` are the first
/// components of `path`.
pub open spec fn path_starts_with(path: Seq<char>, base: Seq<char>) -> bool {
    components(base).is_prefix_of(components(path))
}

/// The final component of `s` when it names a file or directory: not the
/// root, not `.` and not `..`.
pub open spec fn file_name(s: Seq<char>) -> Option<Seq<char>> {
    let c = components(s);
    if c.len() == 0 {
        None
    } else if c.last() == seq!['/'] || c.last() == seq!['.'] || c.last() == seq!['.', '.'] {
        None
    } else {
        Some(c.last())
    }
}

/// The index of the last `.` in `name`, or -1 when it has none.
pub open spec fn last_dot(name: Seq<char>) -> int
    decreases name.len(),
{
    if name.len() == 0 {
        -1
    } else if name.last() == '.' {
        name.len() - 1
    } else {
        last_dot(name.drop_last())
    }
}

/// The extension of a file name: what follows its last `.`, unless the
/// name has none or only begins with one.
pub open spec fn name_extension(name: Seq<char>) -> Option<Seq<char>> {
    let d = last_dot(name);
    if d <= 0 {
        None
    } else {
        Some(name.subrange(d + 1, name.len() as int))
    }
}

/// The extension of the file that `s` names, without the dot.
pub open spec fn extension(s: Seq<char>) -> Option<Seq<char>> {
    match file_name(s) {
        Some(name) => name_extension(name),
        None => None,
    }
}

/// A path always has at least one piece.
pub proof fn lemma_pieces_nonempty(s: Seq<char>)
    ensures
        pieces(s).len() >= 1,
    decreases s.len(),
{
    if s.len() > 0 {
        lemma_pieces_nonempty(s.drop_last());
    }
}

/// The pieces of `a`, a separator and `b` are those of `a` followed by
/// those of `b`.
pub proof fn lemma_pieces_joined(a: Seq<char>, b: Seq<char>)
    ensures
        pieces(a + seq!['/'] + b) == pieces(a) + pieces(b),
    decreases b.len(),
{
    let whole = a + seq!['/'] + b;
    let none = Seq::<char>::empty();
    lemma_pieces_nonempty(a);
    if b.len() == 0 {
        assert(whole.drop_last() =~= a);
        assert(pieces(b) =~= seq![none]);
        assert(pieces(a).push(none) =~= pieces(a) + pieces(b));
    } else {
        let b1 = b.drop_last();
        let c = b.last();
        lemma_pieces_joined(a, b1);
        lemma_pieces_nonempty(b1);
        assert(whole.drop_last() =~= a + seq!['/'] + b1);
        assert(whole.last() == c);
        let rest = pieces(a) + pieces(b1);
        if c == '/' {
            assert(rest.push(none) =~= pieces(a) + pieces(b1).push(none));
        } else {
            assert(rest.drop_last() =~= pieces(a) + pieces(b1).drop_last());
            assert(rest.last() == pieces(b1).last());
            assert(rest.drop_last().push(rest.last().push(c)) =~= pieces(a) + pieces(
                b1,
            ).drop_last().push(pieces(b1).last().push(c)));
        }
    }
}

/// A text without separator is one piece.
pub proof fn lemma_pieces_of_name(name: Seq<char>)
    requires
        !name.contains('/'),
    ensures
        pieces(name) == seq![name],
    decreases name.len(),
{
    if name.len() == 0 {
        assert(name =~= Seq::<char>::empty());
        assert(pieces(name) =~= seq![name]);
    } else {
        let init = name.drop_last();
        assert(name.last() == name[name.len() - 1]);
        assert(name.last() != '/');
        assert forall|i: int| 0 <= i < init.len() implies init[i] != '/' by {
            assert(init[i] == name[i]);
        }
        lemma_pieces_of_name(init);
        assert(init.push(name.last()) =~= name);
        assert(seq![init].drop_last().push(seq![init].last().push(name.last())) =~= seq![name]);
    }
}

/// The pieces among `ps` that count as components when other pieces
/// come before them.
pub open spec fn kept_later(ps: Seq<Seq<char>>) -> Seq<Seq<char>> {
    kept(seq![Seq::<char>::empty()] + ps)
}

/// The components among the pieces `x` followed by the pieces `y` are
/// those among `x`, followed by those among `y` that count when they are
/// not first.
pub proof fn lemma_kept_joined(x: Seq<Seq<char>>, y: Seq<Seq<char>>)
    requires
        x.len() >= 1,
    ensures
        kept(x + y) == kept(x) + kept_later(y),
    decreases y.len(),
{
    let none = seq![Seq::<char>::empty()];
    if y.len() == 0 {
        assert(x + y =~= x);
        assert(none + y =~= none);
        assert(kept(none.drop_last()) =~= Seq::<Seq<char>>::empty());
        assert(kept(x) + kept_later(y) =~= kept(x));
    } else {
        let y1 = y.drop_last();
        lemma_kept_joined(x, y1);
        assert((x + y).drop_last() =~= x + y1);
        assert((x + y).last() == y.last());
        assert((none + y).drop_last() =~= none + y1);
        assert((none + y).last() == y.last());
        if keeps(y.last(), false) {
            assert(kept(x + y1).push(y.last()) =~= kept(x) + kept_later(y1).push(y.last()));
        }
    }
}

/// The components of `base`, a separator and `rest` start with those of
/// `base`.
pub proof fn lemma_components_joined(base: Seq<char>, rest: Seq<char>)
    requires
        base.len() > 0,
    ensures
        components(base + seq!['/'] + rest) == components(base) + kept_later(pieces(rest)),
{
    let child = base + seq!['/'] + rest;
    lemma_pieces_joined(base, rest);
    lemma_pieces_nonempty(base);
    lemma_kept_joined(pieces(base), pieces(rest));
    assert(child[0] == base[0]);
    assert(components(child) =~= components(base) + kept_later(pieces(rest)));
}

/// Whatever is written behind a directory and a separator lies at or
/// below that directory.
pub proof fn lemma_child_is_inside(base: Seq<char>, rest: Seq<char>)
    requires
        base.len() > 0,
    ensures
        path_starts_with(base + seq!['/'] + rest, base),
{
    lemma_components_joined(base, rest);
    let child = components(base + seq!['/'] + rest);
    assert(components(base) =~= child.subrange(0, components(base).len() as int));
}

/// A name behind a directory and a separator is the file name of the
/// path, unless it is empty, `.` or `..`.
pub proof fn lemma_file_name_of_child(dir: Seq<char>, name: Seq<char>)
    requires
        dir.len() > 0,
        name.len() > 0,
        !name.contains('/'),
        name != seq!['.'],
        name != seq!['.', '.'],
    ensures
        file_name(dir + seq!['/'] + name) == Some(name),
{
    let none = seq![Seq::<char>::empty()];
    lemma_components_joined(dir, name);
    lemma_pieces_of_name(name);
    let both = none + seq![name];
    assert(both.drop_last() =~= none);
    assert(both.last() == name);
    assert(kept(none.drop_last()) =~= Seq::<Seq<char>>::empty());
    assert(kept(none) =~= Seq::<Seq<char>>::empty());
    assert(kept(both) =~= seq![name]);
    let c = components(dir + seq!['/'] + name);
    assert(c =~= components(dir) + seq![name]);
    assert(c.last() == name);
    if name == seq!['/'] {
        assert(name[0] == '/');
        assert(name.contains('/'));
    }
}

/// The extension of a stem, a dot and a text without dot is that text.
pub proof fn lemma_extension_of_suffixed(stem: Seq<char>, ext: Seq<char>)
    requires
        stem.len() > 0,
        !ext.contains('.'),
    ensures
        last_dot(stem + seq!['.'] + ext) == stem.len(),
        name_extension(stem + seq!['.'] + ext) == Some(ext),
    decreases ext.len(),
{
    let whole = stem + seq!['.'] + ext;
    if ext.len() == 0 {
        assert(whole.last() == '.');
    } else {
        let init = ext.drop_last();
        assert(ext.last() == ext[ext.len() - 1]);
        assert(whole.last() == ext.last());
        assert forall|i: int| 0 <= i < init.len() implies init[i] != '.' by {
            assert(init[i] == ext[i]);
        }
        lemma_extension_of_suffixed(stem, init);
        assert(whole.drop_last() =~= stem + seq!['.'] + init);
    }
    assert(whole.subrange(stem.len() as int + 1, whole.len() as int) =~= ext);
}

fn push_piece<'a>(
    out: &mut Vec<&'a str>,
    path: &'a str,
    chars: &Vec<char>,
    start: usize,
    end: usize,
)
    requires
        start <= end <= path@.len(),
        chars@ == path@,
    ensures
        views(final(out)@) == if keeps(path@.subrange(start as int, end as int), start == 0) {
            views(old(out)@).push(path@.subrange(start as int, end as int))
        } else {
            views(old(out)@)
        },
{
    let ghost piece = path@.subrange(start as int, end as int);
    let is_dot: bool = end - start == 1 && chars[start] == '.';
    proof {
        if is_dot {
            assert(piece =~= seq!['.']);
        } else if piece.len() == 1 {
            assert(piece[0] != '.');
        }
    }
    if end > start && (!is_dot || start == 0) {
        let ghost before = out@;
        out.push(path.substring_char(start, end));
        proof {
            assert(views(out@) =~= views(before).push(piece));
        }
    }
}

/// Splits `path` into its components.
pub fn split_components<'a>(path: &'a str) -> (r: Vec<&'a str>)
    ensures
        views(r@) == components(path@),
{
    let chars: Vec<char> = to_chars(path);
    let n: usize = chars.len();
    let mut out: Vec<&'a str> = Vec::new();
    if n > 0 && chars[0] == '/' {
        out.push("/");
        proof {
            reveal_strlit("/");
            assert("/"@ =~= seq!['/']);
            assert(views(out@) =~= root_part(path@));
        }
    } else {
        proof {
            assert(views(out@) =~= root_part(path@));
        }
    }
    let mut start: usize = 0;
    let mut i: usize = 0;
    proof {
        assert(path@.take(0) =~= Seq::<char>::empty());
        assert(pieces(path@.take(0)).drop_last() =~= Seq::<Seq<char>>::empty());
        assert(path@.subrange(0, 0) =~= Seq::<char>::empty());
    }
    while i < n
        invariant
            start <= i <= n,
            chars@ == path@,
            n == path@.len(),
            pieces(path@.take(i as int)).len() >= 1,
            pieces(path@.take(i as int)).last() == path@.subrange(start as int, i as int),
            (start == 0) == (pieces(path@.take(i as int)).len() == 1),
            views(out@) == root_part(path@) + kept(pieces(path@.take(i as int)).drop_last()),
        decreases n - i,
    {
        let ghost before = pieces(path@.take(i as int));
        let ghost next = pieces(path@.take(i + 1));
        proof {
            assert(path@.take(i + 1).drop_last() =~= path@.take(i as int));
            assert(path@.take(i + 1).last() == path@[i as int]);
        }
        if chars[i] == '/' {
            push_piece(&mut out, path, &chars, start, i);
            proof {
                assert(next == before.push(Seq::empty()));
                assert(next.drop_last() =~= before);
                assert(path@.subrange(i + 1, i + 1) =~= Seq::<char>::empty());
            }
            start = i + 1;
        } else {
            proof {
                assert(next == before.drop_last().push(before.last().push(path@[i as int])));
                assert(next.drop_last() =~= before.drop_last());
                assert(path@.subrange(start as int, i + 1) =~= path@.subrange(
                    start as int,
                    i as int,
                ).push(path@[i as int]));
            }
        }
        i = i + 1;
    }
    proof {
        assert(path@.take(n as int) =~= path@);
    }
    push_piece(&mut out, path, &chars, start, n);
    out
}

/// Whether `base` holds the first components of `full`.
pub fn components_start_with(full: &Vec<&str>, base: &Vec<&str>) -> (r: bool)
    ensures
        r == views(base@).is_prefix_of(views(full@)),
{
    if base.len() > full.len() {
        return false;
    }
    let mut i: usize = 0;
    while i < base.len()
        invariant
            i <= base.len() <= full.len(),
            forall|k: int| 0 <= k < i ==> views(base@)[k] == views(full@)[k],
        decreases base.len() - i,
    {
        if !str_equal(base[i], full[i]) {
            proof {
                assert(views(base@)[i as int] != views(full@)[i as int]);
                assert(views(full@).subrange(0, base.len() as int)[i as int] == views(full@)[i as int]);
            }
            return false;
        }
        i = i + 1;
    }
    proof {
        assert(views(base@) =~= views(full@).subrange(0, base.len() as int));
    }
    true
}

/// Whether `a` and `b` name the same path.
pub fn paths_equal(a: &str, b: &str) -> (r: bool)
    ensures
        r == same_path(a@, b@),
{
    let x: Vec<&str> = split_components(a);
    let y: Vec<&str> = split_components(b);
    let r = x.len() == y.len() && components_start_with(&x, &y);
    proof {
        let vx = views(x@);
        let vy = views(y@);
        assert(vx.len() == x.len() && vy.len() == y.len());
        if x.len() == y.len() {
            assert(vx.subrange(0, vy.len() as int) =~= vx);
        }
    }
    r
}

/// Whether `path` lies at or below `base`, component by component.
pub fn starts_with(path: &str, base: &str) -> (r: bool)
    ensures
        r == path_starts_with(path@, base@),
{
    let x: Vec<&str> = split_components(path);
    let y: Vec<&str> = split_components(base);
    components_start_with(&x, &y)
}

/// The extension of a file name, without the dot.
pub fn extension_of_name<'a>(name: &'a str) -> (r: Option<&'a str>)
    ensures
        match r {
            Some(e) => name_extension(name@) == Some(e@),
            None => name_extension(name@).is_none(),
        },
{
    let chars: Vec<char> = to_chars(name);
    let n: usize = chars.len();
    let mut i: usize = n;
    proof {
        assert(name@.take(n as int) =~= name@);
    }
    while i > 0 && chars[i - 1] != '.'
        invariant
            i <= n,
            chars@ == name@,
            n == name@.len(),
            last_dot(name@) == last_dot(name@.take(i as int)),
        decreases i,
    {
        proof {
            assert(name@.take(i as int).drop_last() =~= name@.take(i - 1));
        }
        i = i - 1;
    }
    if i <= 1 {
        None
    } else {
        Some(name.substring_char(i, n))
    }
}

/// The extension of the file that `path` names, without the dot.
pub fn path_extension<'a>(path: &'a str) -> (r: Option<&'a str>)
    ensures
        match r {
            Some(e) => extension(path@) == Some(e@),
            None => extension(path@).is_none(),
        },
{
    let c: Vec<&'a str> = split_components(path);
    if c.len() == 0 {
        return None;
    }
    let last: &'a str = c[c.len() - 1];
    proof {
        reveal_strlit("/");
        reveal_strlit(".");
        reveal_strlit("..");
        assert("/"@ =~= seq!['/']);
        assert("."@ =~= seq!['.']);
        assert(".."@ =~= seq!['.', '.']);
        assert(views(c@).last() == last@);
    }
    if str_equal(last, "/") || str_equal(last, ".") || str_equal(last, "..") {
        None
    } else {
        extension_of_name(last)
    }
}

} // verus!
