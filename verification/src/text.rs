//! Facts about text as sequences of characters: where one text occurs inside
//! another, and how a directory and a relative name make a path.

use vstd::prelude::*;
use vstd::string::*;

verus! {

/// `part` stands in `whole` from position `at` on, character for character.
pub open spec fn occurs_at(part: Seq<char>, whole: Seq<char>, at: int) -> bool {
    &&& 0 <= at
    &&& at + part.len() <= whole.len()
    &&& whole.subrange(at, at + part.len()) =~= part
}

/// `part` is a substring of `whole`.
pub open spec fn occurs_in(part: Seq<char>, whole: Seq<char>) -> bool {
    exists|at: int| occurs_at(part, whole, at)
}

/// A text occurs in whatever is written around it.
pub proof fn lemma_occurs_between(before: Seq<char>, part: Seq<char>, after: Seq<char>)
    ensures
        occurs_in(part, before + part + after),
{
    assert(occurs_at(part, before + part + after, before.len() as int));
}

/// A text occurs at the end of whatever is written before it.
pub proof fn lemma_occurs_at_end(before: Seq<char>, part: Seq<char>)
    ensures
        occurs_in(part, before + part),
{
    assert(occurs_at(part, before + part, before.len() as int));
}

/// Occurring in is transitive: a part of a part is a part.
pub proof fn lemma_occurs_in_transitive(inner: Seq<char>, middle: Seq<char>, outer: Seq<char>)
    requires
        occurs_in(inner, middle),
        occurs_in(middle, outer),
    ensures
        occurs_in(inner, outer),
{
    let i = choose|at: int| occurs_at(inner, middle, at);
    let j = choose|at: int| occurs_at(middle, outer, at);
    let found = outer.subrange(j, j + middle.len());
    assert(found.subrange(i, i + inner.len()) =~= outer.subrange(j + i, j + i + inner.len()));
    assert(occurs_at(inner, outer, j + i));
}

/// The path of `name` inside the directory `base`: the two joined by one `/`,
/// which is left out where `base` is empty or already ends in one.
pub open spec fn joined_path(base: Seq<char>, name: Seq<char>) -> Seq<char> {
    if base.len() == 0 || base.last() == '/' {
        base + name
    } else {
        base + "/"@ + name
    }
}

/// Joins a directory and a name under it into one path.
///
/// `name` is taken as relative to `base`, whatever it holds.
pub fn join_path(base: &str, name: &str) -> (path: String)
    ensures
        path@ == joined_path(base@, name@),
{
    let length: usize = base.unicode_len();
    let mut path = String::from_str(base);
    if length > 0 && base.get_char(length - 1) != '/' {
        path.append("/");
    }
    path.append(name);
    path
}

} // verus!
