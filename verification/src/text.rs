//! Strings and lists of strings, as the contracts speak of them.
use vstd::prelude::*;
use vstd::string::StringExecFns;

verus! {

/// The texts of a list of strings.
pub open spec fn texts(strings: Seq<String>) -> Seq<Seq<char>> {
    Seq::new(strings.len(), |i: int| strings[i]@)
}

/// The text of a string that may be there.
pub open spec fn text_of(string: Option<&String>) -> Option<Seq<char>> {
    match string {
        Some(string) => Some(string@),
        None => None,
    }
}

/// The text of a string that may be there, and is held.
pub open spec fn held_text(string: Option<String>) -> Option<Seq<char>> {
    match string {
        Some(string) => Some(string@),
        None => None,
    }
}

/// Whether `text` reads `literal`.
pub(crate) fn says(text: &String, literal: &str) -> (same: bool)
    ensures
        same == (text@ == literal@),
{
    let other = String::from_str(literal);
    *text == other
}

/// Puts copies of the strings of `source`, from the one at `from` on, after
/// the strings of `target`.
pub(crate) fn extend_from(target: &mut Vec<String>, source: &Vec<String>, from: usize)
    requires
        from <= source.len(),
    ensures
        texts(final(target)@) == texts(old(target)@) + texts(source@).skip(from as int),
{
    let mut at: usize = from;
    while at < source.len()
        invariant
            from <= at <= source.len(),
            texts(target@) == texts(old(target)@) + texts(source@).subrange(
                from as int,
                at as int,
            ),
        decreases source.len() - at,
    {
        let ghost before = target@;
        let next = source[at].clone();
        target.push(next);
        assert(texts(target@) =~= texts(before).push(next@));
        at += 1;
    }
}

} // verus!
