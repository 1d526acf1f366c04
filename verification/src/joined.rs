//! Names that are joined to one text, and when two pairs of names make the same one.
use vstd::prelude::*;

use crate::seq_facts::lemma_common_prefix;

verus! {

/// Two names as one text, with a separator between them.
pub open spec fn joined(first: Seq<char>, second: Seq<char>) -> Seq<char> {
    first + "_"@ + second
}

/// A joined text begins with the first name, goes on with one separator and ends with the second
/// name; nothing is added, cut or changed.
pub proof fn law_joined_text(first: Seq<char>, second: Seq<char>)
    ensures
        ({
            let text = joined(first, second);
            let n = first.len() as int;
            &&& text.len() == n + 1 + second.len()
            &&& text.take(n) == first
            &&& text[n] == '_'
            &&& text.skip(n + 1) == second
        }),
{
    reveal_strlit("_");
    let text = joined(first, second);
    let n = first.len() as int;
    assert(text.take(n) =~= first);
    assert(text.skip(n + 1) =~= second);
}

/// The first name goes on where the other first name ends: behind a separator it has a text that
/// the other pair has at the start of its second name, before this second name.
pub open spec fn runs_over(
    first: Seq<char>,
    second: Seq<char>,
    other_first: Seq<char>,
    other_second: Seq<char>,
) -> bool {
    exists|middle: Seq<char>|
        first == #[trigger] joined(other_first, middle) && other_second == joined(middle, second)
}

/// Two pairs of names that are the same, or in which a separator inside a name cannot be told from
/// the one between them.
pub open spec fn alike_when_joined(
    first: Seq<char>,
    second: Seq<char>,
    other_first: Seq<char>,
    other_second: Seq<char>,
) -> bool {
    ||| first == other_first && second == other_second
    ||| runs_over(first, second, other_first, other_second)
    ||| runs_over(other_first, other_second, first, second)
}

/// Two pairs of names make the same text exactly if they are [`alike_when_joined`].
pub proof fn law_joined_names(
    first: Seq<char>,
    second: Seq<char>,
    other_first: Seq<char>,
    other_second: Seq<char>,
)
    ensures
        joined(first, second) == joined(other_first, other_second) <==> alike_when_joined(
            first,
            second,
            other_first,
            other_second,
        ),
{
    if joined(first, second) == joined(other_first, other_second) {
        if first.len() >= other_first.len() {
            lemma_longer_first_name(first, second, other_first, other_second);
        } else {
            lemma_longer_first_name(other_first, other_second, first, second);
        }
    }
    if runs_over(first, second, other_first, other_second) {
        lemma_running_over(first, second, other_first, other_second);
    }
    if runs_over(other_first, other_second, first, second) {
        lemma_running_over(other_first, other_second, first, second);
    }
}

/// Two pairs of names behind one prefix make the same single constraint exactly if they are
/// [`alike_when_joined`].
pub(crate) proof fn lemma_joined_behind_prefix(
    prefix: Seq<char>,
    first: Seq<char>,
    second: Seq<char>,
    other_first: Seq<char>,
    other_second: Seq<char>,
)
    ensures
        seq![prefix + first + "_"@ + second] == seq![prefix + other_first + "_"@ + other_second]
            <==> alike_when_joined(first, second, other_first, other_second),
{
    let one = seq![prefix + first + "_"@ + second];
    let other = seq![prefix + other_first + "_"@ + other_second];
    law_joined_names(first, second, other_first, other_second);
    lemma_common_prefix(prefix, joined(first, second), joined(other_first, other_second));
    assert(one[0] =~= prefix + joined(first, second));
    assert(other[0] =~= prefix + joined(other_first, other_second));
    assert(one[0] == other[0] ==> one =~= other);
}

proof fn lemma_longer_first_name(
    first: Seq<char>,
    second: Seq<char>,
    other_first: Seq<char>,
    other_second: Seq<char>,
)
    requires
        first.len() >= other_first.len(),
        joined(first, second) == joined(other_first, other_second),
    ensures
        first == other_first && second == other_second || runs_over(
            first,
            second,
            other_first,
            other_second,
        ),
{
    reveal_strlit("_");
    let whole = joined(first, second);
    let other_whole = joined(other_first, other_second);
    let n = other_first.len() as int;
    assert(whole.take(first.len() as int) =~= first);
    assert(other_whole.take(n) =~= other_first);
    assert(other_whole.skip(n + 1) =~= other_second);
    assert(first.take(n) =~= whole.take(n));
    if first.len() == n {
        assert(first =~= other_first);
        assert(whole.skip(n + 1) =~= second);
    } else {
        let middle = first.skip(n + 1);
        assert(first[n] == whole[n] && whole[n] == other_whole[n]);
        assert(first =~= joined(other_first, middle));
        assert(whole.skip(n + 1) =~= joined(middle, second));
    }
}

proof fn lemma_running_over(
    first: Seq<char>,
    second: Seq<char>,
    other_first: Seq<char>,
    other_second: Seq<char>,
)
    requires
        runs_over(first, second, other_first, other_second),
    ensures
        joined(first, second) == joined(other_first, other_second),
{
    let middle = choose|middle: Seq<char>|
        first == #[trigger] joined(other_first, middle) && other_second == joined(middle, second);
    assert(joined(joined(other_first, middle), second) =~= joined(
        other_first,
        joined(middle, second),
    ));
}

} // verus!
