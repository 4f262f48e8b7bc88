use vstd::prelude::*;

use crate::number::Number;
use crate::operation::Operation;
use crate::text::{push_char, single};

verus! {

/// A character that a digit key enters: `0` to `9`, or the decimal point.
pub open spec fn is_entry_char(c: char) -> bool {
    ('0' <= c && c <= '9') || c == '.'
}

/// The complete state of the calculator.
///
/// Every transition takes the state by value and returns the next one. The
/// numeric work (reading `display` as a number, applying an operator,
/// formatting a result) belongs to the host, which hands its results to the
/// transitions that need them.
#[derive(Clone, Debug)]
pub struct CalculatorState {
    /// The text shown in the readout, or being typed.
    pub display: String,
    /// The left-hand operand carried across chained operators.
    pub accumulator: Number,
    /// The operator awaiting its right-hand operand.
    pub operation: Operation,
    /// Whether the next digit starts a new number instead of extending `display`.
    pub clear_on_next_digit: bool,
    /// The memory register.
    pub memory: Number,
    /// Whether `memory` holds a stored value.
    pub has_memory: bool,
}

/// The mathematical value of a `CalculatorState`: the readout as a sequence
/// of characters, every other field as it is.
pub struct StateView {
    pub display: Seq<char>,
    pub accumulator: Number,
    pub operation: Operation,
    pub clear_on_next_digit: bool,
    pub memory: Number,
    pub has_memory: bool,
}

impl View for CalculatorState {
    type V = StateView;

    open spec fn view(&self) -> StateView {
        StateView {
            display: self.display@,
            accumulator: self.accumulator,
            operation: self.operation,
            clear_on_next_digit: self.clear_on_next_digit,
            memory: self.memory,
            has_memory: self.has_memory,
        }
    }
}

impl StateView {
    /// The readout is never empty.
    pub open spec fn wf(self) -> bool {
        self.display.len() > 0
    }

    /// The state at start-up, with the given memory register.
    pub open spec fn fresh(memory: Number, has_memory: bool) -> StateView {
        StateView {
            display: seq!['0'],
            accumulator: Number::spec_zero(),
            operation: Operation::NoOp,
            clear_on_next_digit: false,
            memory,
            has_memory,
        }
    }

    /// The state after entering `digit`: it replaces a stale or placeholder
    /// readout and extends any other.
    pub open spec fn enter_digit(self, digit: char) -> StateView {
        if self.clear_on_next_digit || self.display == seq!['0'] {
            StateView { display: seq![digit], clear_on_next_digit: false, ..self }
        } else {
            StateView { display: self.display.push(digit), ..self }
        }
    }

    /// The state after selecting `op`, where `value` is the host's result of
    /// applying the pending operator to `accumulator` and the number in
    /// `display`, and `text` is that result formatted. With no operator
    /// pending, that result is the number in `display`, and the readout stays.
    pub open spec fn select_operation(self, op: Operation, value: Number, text: Seq<char>) -> StateView {
        StateView {
            display: if self.operation == Operation::NoOp { self.display } else { text },
            accumulator: value,
            operation: op,
            clear_on_next_digit: true,
            ..self
        }
    }

    /// The state after `=`, with `value` and `text` as for `select_operation`.
    pub open spec fn equals(self, value: Number, text: Seq<char>) -> StateView {
        StateView {
            display: text,
            accumulator: value,
            operation: Operation::NoOp,
            clear_on_next_digit: true,
            ..self
        }
    }

    /// The state after clearing: fresh, but for the memory register.
    pub open spec fn clear(self) -> StateView {
        StateView::fresh(self.memory, self.has_memory)
    }

    /// The state after storing `value`, the number in `display`, to memory.
    pub open spec fn memory_store(self, value: Number) -> StateView {
        StateView { memory: value, has_memory: true, clear_on_next_digit: true, ..self }
    }

    /// The state after recalling memory, where `text` is `memory` formatted.
    /// With nothing stored, nothing changes.
    pub open spec fn memory_recall(self, text: Seq<char>) -> StateView {
        if self.has_memory {
            StateView { display: text, clear_on_next_digit: true, ..self }
        } else {
            self
        }
    }

    /// The state after clearing memory.
    pub open spec fn memory_clear(self) -> StateView {
        StateView { memory: Number::spec_zero(), has_memory: false, ..self }
    }
}

impl CalculatorState {
    /// The state at start-up: readout `0`, nothing pending, memory empty.
    pub fn new() -> (r: CalculatorState)
        ensures
            r@ == StateView::fresh(Number::spec_zero(), false),
    {
        CalculatorState {
            display: single('0'),
            accumulator: Number::zero(),
            operation: Operation::NoOp,
            clear_on_next_digit: false,
            memory: Number::zero(),
            has_memory: false,
        }
    }

    /// Enters a digit or the decimal point. Several decimal points are not
    /// refused: such a readout later reads as zero.
    pub fn enter_digit(self, digit: char) -> (r: CalculatorState)
        requires
            is_entry_char(digit),
        ensures
            r@ == self@.enter_digit(digit),
            r@.wf(),
    {
        let mut s = self;
        if s.clear_on_next_digit {
            s.display = single(digit);
            s.clear_on_next_digit = false;
        } else if s.display == single('0') {
            s.display = single(digit);
        } else {
            push_char(&mut s.display, digit);
        }
        s
    }

    /// Selects an operator. `value` is the host's result of applying the
    /// pending operator to `accumulator` and the number in `display` (that
    /// number itself when none is pending), and `text` is `value` formatted.
    /// With an operator pending the result is shown; either way it becomes
    /// the left-hand operand of `op`.
    pub fn select_operation(self, op: Operation, value: Number, text: String) -> (r: CalculatorState)
        ensures
            r@ == self@.select_operation(op, value, text@),
    {
        let mut s = self;
        if s.operation != Operation::NoOp {
            s.display = text;
        }
        s.accumulator = value;
        s.operation = op;
        s.clear_on_next_digit = true;
        s
    }

    /// Completes the pending operation, with `value` and `text` as for
    /// `select_operation`: the result is shown and nothing stays pending.
    pub fn equals(self, value: Number, text: String) -> (r: CalculatorState)
        ensures
            r@ == self@.equals(value, text@),
    {
        let mut s = self;
        s.display = text;
        s.accumulator = value;
        s.operation = Operation::NoOp;
        s.clear_on_next_digit = true;
        s
    }

    /// Resets everything to its start-up value but the memory register.
    pub fn clear(self) -> (r: CalculatorState)
        ensures
            r@ == self@.clear(),
            r.display@ == seq!['0'],
            r.accumulator == Number::spec_zero(),
            r.operation == Operation::NoOp,
            !r.clear_on_next_digit,
            r.memory == self.memory,
            r.has_memory == self.has_memory,
    {
        let mut s = CalculatorState::new();
        s.memory = self.memory;
        s.has_memory = self.has_memory;
        s
    }

    /// Stores `value`, the host's reading of `display` as a number (zero
    /// where it does not read as one), in the memory register.
    pub fn memory_store(self, value: Number) -> (r: CalculatorState)
        ensures
            r@ == self@.memory_store(value),
    {
        let mut s = self;
        s.memory = value;
        s.has_memory = true;
        s.clear_on_next_digit = true;
        s
    }

    /// Shows the memory register, where `text` is `memory` formatted by the
    /// host. With nothing stored the state is returned unchanged.
    pub fn memory_recall(self, text: String) -> (r: CalculatorState)
        ensures
            r@ == self@.memory_recall(text@),
            !self.has_memory ==> r@ == self@,
    {
        let mut s = self;
        if s.has_memory {
            s.display = text;
            s.clear_on_next_digit = true;
        }
        s
    }

    /// Empties the memory register; nothing else changes.
    pub fn memory_clear(self) -> (r: CalculatorState)
        ensures
            r@ == self@.memory_clear(),
    {
        let mut s = self;
        s.memory = Number::zero();
        s.has_memory = false;
        s
    }
}

impl Default for CalculatorState {
    fn default() -> (r: CalculatorState)
        ensures
            r@ == StateView::fresh(Number::spec_zero(), false),
    {
        CalculatorState::new()
    }
}

} // verus!
