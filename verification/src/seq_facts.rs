//! Facts about sequences: joined texts and rows of events.
use vstd::prelude::*;

verus! {

/// Two texts behind the same prefix are equal exactly if they are equal without it.
pub(crate) proof fn lemma_common_prefix(prefix: Seq<char>, a: Seq<char>, b: Seq<char>)
    ensures
        prefix + a == prefix + b <==> a == b,
{
    assert((prefix + a).skip(prefix.len() as int) =~= a);
    assert((prefix + b).skip(prefix.len() as int) =~= b);
}

/// Two texts before the same suffix are equal exactly if they are equal without it.
pub(crate) proof fn lemma_common_suffix(a: Seq<char>, b: Seq<char>, suffix: Seq<char>)
    ensures
        a + suffix == b + suffix <==> a == b,
{
    if a + suffix == b + suffix {
        assert((a + suffix).len() == (b + suffix).len());
        assert((a + suffix).take(a.len() as int) =~= a);
        assert((b + suffix).take(b.len() as int) =~= b);
    }
}

/// A text that was put together of four parts can be taken apart again.
pub(crate) proof fn lemma_four_parts(
    prefix: Seq<char>,
    first: Seq<char>,
    separator: Seq<char>,
    second: Seq<char>,
)
    ensures
        ({
            let text = prefix + first + separator + second;
            let start = prefix.len() as int;
            let middle = start + first.len();
            let end = middle + separator.len();
            &&& text.len() == end + second.len()
            &&& text.take(start) == prefix
            &&& text.subrange(start, middle) == first
            &&& text.subrange(middle, end) == separator
            &&& text.skip(end) == second
        }),
{
    let text = prefix + first + separator + second;
    let start = prefix.len() as int;
    let middle = start + first.len();
    let end = middle + separator.len();
    assert(text.take(start) =~= prefix);
    assert(text.subrange(start, middle) =~= first);
    assert(text.subrange(middle, end) =~= separator);
    assert(text.skip(end) =~= second);
}

/// What came before the last event has come.
pub(crate) proof fn lemma_seen_stays_seen<A>(events: Seq<A>)
    requires
        events.len() > 0,
    ensures
        events.contains(events.last()),
        forall|event: A| #[trigger]
            events.drop_last().contains(event) ==> events.contains(event),
{
    assert(events.contains(events[events.len() - 1]));
    assert forall|event: A| #[trigger] events.drop_last().contains(event) implies events.contains(
        event,
    ) by {
        let i = choose|i: int| 0 <= i < events.len() - 1 && events.drop_last()[i] == event;
        assert(events[i] == event);
    }
}

} // verus!
