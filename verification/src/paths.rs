//! Comparing file paths by their components.

use vstd::prelude::*;
use vstd::string::*;

use crate::text::{chars_of, find_char, position_of, same_text, text_of};

verus! {

/// The names in a path: what stands between separators, without empty pieces and without
/// the pieces that mean the directory itself.
pub open spec fn path_names(path: Seq<char>) -> Seq<Seq<char>>
    decreases path.len(),
{
    let end = position_of(path, '/');
    if path.len() == 0 || !(0 <= end <= path.len()) {
        Seq::empty()
    } else {
        let piece = path.take(end);
        let names = if end < path.len() {
            path_names(path.skip(end + 1))
        } else {
            Seq::empty()
        };
        if piece.len() == 0 || piece == "."@ {
            names
        } else {
            seq![piece] + names
        }
    }
}

/// A path starts at the root.
pub open spec fn is_rooted(path: Seq<char>) -> bool {
    path.len() > 0 && path[0] == '/'
}

/// A path starts with the piece that means the directory itself.
pub open spec fn starts_here(path: Seq<char>) -> bool {
    path.take(position_of(path, '/')) == "."@
}

/// Two paths have the same components: both or neither start at the root or at the
/// directory itself, and they have the same names. Repeated and trailing separators do not
/// matter, nor does a later piece that means the directory itself.
pub open spec fn is_same_path(a: Seq<char>, b: Seq<char>) -> bool {
    &&& is_rooted(a) == is_rooted(b)
    &&& starts_here(a) == starts_here(b)
    &&& path_names(a) == path_names(b)
}

/// The views of several texts.
pub open spec fn views_of(texts: Seq<String>) -> Seq<Seq<char>> {
    Seq::new(texts.len(), |i: int| texts[i]@)
}

fn names_of(path: &str) -> (names: Vec<String>)
    ensures
        views_of(names@) == path_names(path@),
{
    let chars = chars_of(path);
    let total: usize = chars.len();
    let mut names: Vec<String> = Vec::new();
    let mut at: usize = 0;
    proof {
        assert(chars@.subrange(0, total as int) =~= path@);
        assert(views_of(names@) + path_names(path@) =~= path_names(path@));
    }
    while at < total
        invariant
            chars@ == path@,
            total == path@.len(),
            at <= total,
            path_names(path@) == views_of(names@) + path_names(
                chars@.subrange(at as int, total as int),
            ),
        decreases total - at,
    {
        let end: usize = find_char(&chars, at, total, '/');
        let piece = text_of(&chars, at, end);
        let ghost rest = chars@.subrange(at as int, total as int);
        let ghost before = views_of(names@);
        proof {
            assert(rest.take(end - at) =~= piece@);
            if end < total {
                assert(rest.skip(end - at + 1) =~= chars@.subrange(end + 1, total as int));
            } else {
                assert(chars@.subrange(total as int, total as int) =~= Seq::<char>::empty());
            }
        }
        if piece.as_str().unicode_len() > 0 && !same_text(piece.as_str(), ".") {
            names.push(piece);
            proof {
                assert(views_of(names@) =~= before.push(piece@));
                let next = if end < total {
                    path_names(chars@.subrange(end + 1, total as int))
                } else {
                    Seq::empty()
                };
                assert(before + (seq![piece@] + next) =~= before.push(piece@) + next);
            }
        }
        at = if end < total {
            end + 1
        } else {
            total
        };
    }
    proof {
        assert(chars@.subrange(total as int, total as int) =~= Seq::<char>::empty());
        assert(views_of(names@) + Seq::<Seq<char>>::empty() =~= views_of(names@));
    }
    names
}

fn same_names(a: &Vec<String>, b: &Vec<String>) -> (same: bool)
    ensures
        same == (views_of(a@) == views_of(b@)),
{
    if a.len() != b.len() {
        proof {
            assert(views_of(a@).len() != views_of(b@).len());
        }
        return false;
    }
    let mut i: usize = 0;
    while i < a.len()
        invariant
            a@.len() == b@.len(),
            i <= a@.len(),
            forall|j: int| 0 <= j < i ==> #[trigger] a@[j]@ == b@[j]@,
        decreases a@.len() - i,
    {
        if !same_text(a[i].as_str(), b[i].as_str()) {
            proof {
                assert(views_of(a@)[i as int] != views_of(b@)[i as int]);
            }
            return false;
        }
        i = i + 1;
    }
    proof {
        assert(views_of(a@) =~= views_of(b@));
    }
    true
}

fn rooted(path: &str) -> (b: bool)
    ensures
        b == is_rooted(path@),
{
    path.unicode_len() > 0 && path.get_char(0) == '/'
}

fn here(path: &str) -> (b: bool)
    ensures
        b == starts_here(path@),
{
    let chars = chars_of(path);
    let end: usize = find_char(&chars, 0, chars.len(), '/');
    proof {
        assert(chars@.subrange(0, chars@.len() as int) =~= path@);
        assert(chars@.subrange(0, end as int) =~= path@.take(end as int));
    }
    let first = text_of(&chars, 0, end);
    same_text(first.as_str(), ".")
}

/// Tells whether two paths have the same components.
pub fn same_path(a: &str, b: &str) -> (same: bool)
    ensures
        same == is_same_path(a@, b@),
{
    rooted(a) == rooted(b) && here(a) == here(b) && same_names(&names_of(a), &names_of(b))
}

proof fn lemma_no_separator(path: Seq<char>)
    requires
        forall|i: int| 0 <= i < path.len() ==> #[trigger] path[i] != '/',
    ensures
        position_of(path, '/') == path.len(),
    decreases path.len(),
{
    if path.len() > 0 {
        assert forall|i: int| 0 <= i < path.len() - 1 implies #[trigger] path.drop_first()[i]
            != '/' by {
            assert(path.drop_first()[i] == path[i + 1]);
        }
        lemma_no_separator(path.drop_first());
    }
}

proof fn lemma_first_separator(piece: Seq<char>, rest: Seq<char>)
    requires
        forall|i: int| 0 <= i < piece.len() ==> #[trigger] piece[i] != '/',
    ensures
        position_of(piece + "/"@ + rest, '/') == piece.len(),
    decreases piece.len(),
{
    reveal_strlit("/");
    let path = piece + "/"@ + rest;
    if piece.len() > 0 {
        assert(path.drop_first() =~= piece.drop_first() + "/"@ + rest);
        assert forall|i: int| 0 <= i < piece.len() - 1 implies #[trigger] piece.drop_first()[i]
            != '/' by {
            assert(piece.drop_first()[i] == piece[i + 1]);
        }
        lemma_first_separator(piece.drop_first(), rest);
        assert(path[0] == piece[0]);
    } else {
        assert(path[0] == '/');
    }
}

/// A path is the same path with a separator more at its start of a piece or with the piece that
/// means the directory itself in between, and another one with another name in front.
pub proof fn law_separators_do_not_matter(piece: Seq<char>, rest: Seq<char>)
    requires
        forall|i: int| 0 <= i < piece.len() ==> #[trigger] piece[i] != '/',
        piece.len() > 0,
        piece != "."@,
    ensures
        path_names(piece) == seq![piece],
        path_names(piece + "/"@ + rest) == seq![piece] + path_names(rest),
        path_names("/"@ + rest) == path_names(rest),
        path_names("."@ + "/"@ + rest) == path_names(rest),
{
    reveal_strlit("/");
    reveal_strlit(".");
    lemma_no_separator(piece);
    assert(piece.take(piece.len() as int) =~= piece);
    assert(seq![piece] + Seq::<Seq<char>>::empty() =~= seq![piece]);
    let path = piece + "/"@ + rest;
    lemma_first_separator(piece, rest);
    assert(path.take(piece.len() as int) =~= piece);
    assert(path.skip(piece.len() as int + 1) =~= rest);
    let rooted = "/"@ + rest;
    assert(rooted[0] == '/');
    assert(rooted.skip(1) =~= rest);
    let here = "."@ + "/"@ + rest;
    lemma_first_separator("."@, rest);
    assert(here.take(1) =~= "."@);
    assert(here.skip(2) =~= rest);
}

/// Being the same path holds of every path with itself, both ways round, and from one to the
/// next; an absolute path is never the same as a relative one.
pub proof fn law_same_path_is_an_equivalence(a: &str, b: &str, c: &str, same: (bool, bool, bool, bool, bool))
    requires
        call_ensures(same_path, (a, a), same.0),
        call_ensures(same_path, (a, b), same.1),
        call_ensures(same_path, (b, a), same.2),
        call_ensures(same_path, (b, c), same.3),
        call_ensures(same_path, (a, c), same.4),
    ensures
        same.0,
        same.1 == same.2,
        same.1 && same.3 ==> same.4,
        a@.len() > 0 && a@[0] == '/' && (b@.len() == 0 || b@[0] != '/') ==> !same.1,
        same.1 ==> path_names(a@) == path_names(b@),
{
}

} // verus!
