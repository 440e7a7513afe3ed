use vstd::prelude::*;

use crate::error::{details, message_of, render};

verus! {

/// The line that the details trail shows for one frame.
pub open spec fn detail_line(m: Seq<char>) -> Seq<char> {
    "  "@ + m + "\n"@
}

/// The detail lines of the older frames `fs`, listed from the newest frame
/// down to the root cause.
pub open spec fn detail_lines(fs: Seq<Seq<char>>) -> Seq<Seq<char>> {
    Seq::new(fs.len(), |i: int| detail_line(fs[fs.len() - 1 - i]))
}

/// An error built from a single message renders as exactly that message,
/// with no details section.
pub proof fn lemma_single_frame_round_trip(m: Seq<char>)
    ensures
        message_of(Some(seq![m])) == m,
{
}

/// Wrapping an error built from `m1` with the context `m2` renders as `m2`,
/// a `Details:` line, and `m1` indented by two spaces on the last line.
pub proof fn lemma_wrap_once_render(m1: Seq<char>, m2: Seq<char>)
    ensures
        message_of(Some(seq![m1, m2])) == m2 + "\nDetails:\n  "@ + m1 + "\n"@,
{
    let fs = seq![m1, m2];
    reveal_strlit("\nDetails:\n  ");
    reveal_strlit("\nDetails:\n");
    reveal_strlit("  ");
    reveal_strlit("\n");
    assert(fs.drop_last() =~= seq![m1]);
    assert(seq![m1].drop_last() =~= Seq::<Seq<char>>::empty());
    assert(details(Seq::<Seq<char>>::empty()) == Seq::<char>::empty());
    assert(details(seq![m1]) =~= "  "@ + m1 + "\n"@);
    assert(message_of(Some(fs)) =~= m2 + "\nDetails:\n  "@ + m1 + "\n"@);
}

/// The details trail of `fs` is the detail lines of its frames, newest first.
pub proof fn lemma_details_lines(fs: Seq<Seq<char>>)
    ensures
        details(fs) == detail_lines(fs).flatten(),
    decreases fs.len(),
{
    if fs.len() > 0 {
        lemma_details_lines(fs.drop_last());
        let ls = detail_lines(fs);
        assert(ls.drop_first() =~= detail_lines(fs.drop_last()));
        assert(ls.first() == detail_line(fs.last()));
        assert(details(fs) =~= ls.first() + ls.drop_first().flatten());
    }
}

/// After a chain of wraps that attached `ms[1]`, ..., `ms[k-1]` in turn to an
/// error built from the root message `ms[0]`, the rendered message starts
/// with the newest context `ms[k-1]`; when there was at least one wrap, the
/// headline is followed by `Details:` and one indented line for each of
/// `ms[k-2]`, ..., `ms[0]`, in that order.
pub proof fn lemma_chain_render(ms: Seq<Seq<char>>)
    requires
        ms.len() >= 1,
    ensures
        message_of(Some(ms)).take(ms.last().len() as int) == ms.last(),
        ms.len() == 1 ==> message_of(Some(ms)) == ms.last(),
        ms.len() > 1 ==> message_of(Some(ms)) == ms.last() + "\nDetails:\n"@ + detail_lines(
            ms.drop_last(),
        ).flatten(),
{
    lemma_details_lines(ms.drop_last());
    assert(render(ms).take(ms.last().len() as int) =~= ms.last());
}

} // verus!
