//! Numbered resource labels.
//!
//! Per-level resources (mip views, per-level binding sets) are registered
//! under a family prefix with the level's digit appended. The lemmas here
//! are what registration needs: two labels of one family with different
//! levels differ, and appending one suffix to two different equal-length
//! labels keeps them different.

use vstd::prelude::*;

verus! {

/// The digit character of a single-digit level index.
pub open spec fn digit_char(i: int) -> char {
    if i == 0 {
        '0'
    } else if i == 1 {
        '1'
    } else if i == 2 {
        '2'
    } else if i == 3 {
        '3'
    } else if i == 4 {
        '4'
    } else if i == 5 {
        '5'
    } else if i == 6 {
        '6'
    } else if i == 7 {
        '7'
    } else if i == 8 {
        '8'
    } else {
        '9'
    }
}

/// The label of member `i` of the family `prefix`.
pub open spec fn numbered(prefix: Seq<char>, i: int) -> Seq<char> {
    prefix.push(digit_char(i))
}

/// Builds the label of member `i` of the family `prefix`.
pub fn numbered_label(prefix: &str, i: u32) -> (r: String)
    requires
        i <= 9,
    ensures
        r@ == numbered(prefix@, i as int),
{
    let d: &str = if i == 0 {
        "0"
    } else if i == 1 {
        "1"
    } else if i == 2 {
        "2"
    } else if i == 3 {
        "3"
    } else if i == 4 {
        "4"
    } else if i == 5 {
        "5"
    } else if i == 6 {
        "6"
    } else if i == 7 {
        "7"
    } else if i == 8 {
        "8"
    } else {
        "9"
    };
    proof {
        reveal_strlit("0");
        reveal_strlit("1");
        reveal_strlit("2");
        reveal_strlit("3");
        reveal_strlit("4");
        reveal_strlit("5");
        reveal_strlit("6");
        reveal_strlit("7");
        reveal_strlit("8");
        reveal_strlit("9");
        assert(d@ =~= seq![digit_char(i as int)]);
    }
    let r = prefix.to_owned().concat(d);
    proof {
        assert(r@ =~= numbered(prefix@, i as int));
    }
    r
}

/// Different single-digit levels give different family labels.
pub proof fn lemma_numbered_distinct(prefix: Seq<char>, i: int, j: int)
    requires
        0 <= i <= 9,
        0 <= j <= 9,
        i != j,
    ensures
        numbered(prefix, i) != numbered(prefix, j),
{
    assert(digit_char(i) != digit_char(j));
    assert(numbered(prefix, i)[prefix.len() as int] == digit_char(i));
    assert(numbered(prefix, j)[prefix.len() as int] == digit_char(j));
}

/// A family label is one longer than its prefix, so it differs from any
/// label of another length.
pub proof fn lemma_numbered_len(prefix: Seq<char>, i: int)
    ensures
        numbered(prefix, i).len() == prefix.len() + 1,
{
}

/// Appending one suffix to two different labels of equal length keeps them
/// different.
pub proof fn lemma_suffix_keeps_distinct(a: Seq<char>, b: Seq<char>, s: Seq<char>)
    requires
        a.len() == b.len(),
        a != b,
    ensures
        a + s != b + s,
{
    if a + s == b + s {
        assert forall|i: int| 0 <= i < a.len() implies a[i] == b[i] by {
            assert((a + s)[i] == a[i]);
            assert((b + s)[i] == b[i]);
        }
        assert(a =~= b);
    }
}

} // verus!
