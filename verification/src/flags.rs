//! Listing the names of the flags set in a flag word.
//!
//! A flag word lists as the names of its set flags, in the order the flags
//! are declared, or as the single entry `(empty)` when none is set.

use vstd::prelude::*;

verus! {

/// The names, in table order, of those of the first `n` flags of `table`
/// whose bits `bits` all has.
pub open spec fn set_flag_names(bits: u32, table: spec_fn(int) -> (u32, Seq<char>), n: int) -> Seq<
    Seq<char>,
>
    decreases n,
{
    if n <= 0 {
        seq![]
    } else {
        let prev = set_flag_names(bits, table, n - 1);
        let (mask, name) = table(n - 1);
        if bits & mask == mask {
            prev.push(name)
        } else {
            prev
        }
    }
}

/// The listing of `bits` against the `n` flags of `table`: the names of the
/// flags set, or `(empty)` when there is none.
pub open spec fn flag_list(bits: u32, table: spec_fn(int) -> (u32, Seq<char>), n: int) -> Seq<
    Seq<char>,
> {
    let names = set_flag_names(bits, table, n);
    if names.len() == 0 {
        seq!["(empty)"@]
    } else {
        names
    }
}

/// The texts of a list of strings.
pub open spec fn texts(v: Seq<String>) -> Seq<Seq<char>> {
    v.map_values(|s: String| s@)
}

/// Appending a string appends its text.
pub proof fn lemma_texts_push(v: Seq<String>, s: String)
    ensures
        texts(v.push(s)) == texts(v).push(s@),
{
    assert(texts(v.push(s)) =~= texts(v).push(s@));
}

/// The list `(empty)`.
pub fn empty_list() -> (r: Vec<String>)
    ensures
        texts(r@) == seq!["(empty)"@],
{
    let mut v: Vec<String> = Vec::new();
    let s: String = "(empty)".to_owned();
    proof {
        lemma_texts_push(v@, s);
        assert(texts(v@) =~= Seq::<Seq<char>>::empty());
    }
    v.push(s);
    proof {
        assert(seq!["(empty)"@] =~= Seq::<Seq<char>>::empty().push("(empty)"@));
    }
    v
}

} // verus!
