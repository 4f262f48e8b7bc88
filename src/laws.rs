use vstd::prelude::*;

use crate::number::Number;
use crate::operation::Operation;
use crate::state::StateView;

verus! {

/// `=` leaves nothing pending, so a second `=` that the host hands the same
/// result again (the number that the shown text reads as, and its text)
/// changes nothing: pressing `=` twice shows the same result both times.
pub proof fn equals_twice_is_equals_once(s: StateView, value: Number, text: Seq<char>)
    ensures
        s.equals(value, text).operation == Operation::NoOp,
        s.equals(value, text).equals(value, text) == s.equals(value, text),
{
}

/// The readout is never empty: each transition keeps it so, given that the
/// texts the host formats are not empty.
pub proof fn transitions_keep_readout(
    s: StateView,
    digit: char,
    op: Operation,
    value: Number,
    text: Seq<char>,
)
    requires
        s.wf(),
        text.len() > 0,
    ensures
        StateView::fresh(s.memory, s.has_memory).wf(),
        s.enter_digit(digit).wf(),
        s.select_operation(op, value, text).wf(),
        s.equals(value, text).wf(),
        s.clear().wf(),
        s.memory_store(value).wf(),
        s.memory_recall(text).wf(),
        s.memory_clear().wf(),
{
}

} // verus!
