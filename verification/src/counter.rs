//! The counter widget's state, the transitions its two buttons trigger,
//! and the strings it renders.

use vstd::prelude::*;
use crate::text::decimal;
use crate::text::i64_to_decimal;

verus! {

/// The widget's state: a caption taken from the host element's text when
/// the widget was mounted, and the current count.
#[derive(Clone)]
pub struct Counter {
    pub caption: String,
    pub count: i32,
}

/// A click on one of the widget's two buttons.
#[derive(Clone, Copy, PartialEq, Eq, Structural)]
pub enum Msg {
    Increment,
    Decrement,
}

/// The state that a click leads to from `c`, when the count stays in range.
pub open spec fn spec_step(c: Counter, msg: Msg) -> Counter {
    match msg {
        Msg::Increment => Counter { caption: c.caption, count: (c.count + 1) as i32 },
        Msg::Decrement => Counter { caption: c.caption, count: (c.count - 1) as i32 },
    }
}

/// The heading the widget displays: the caption, a separator, then the
/// count in decimal.
pub open spec fn spec_heading(caption: Seq<char>, count: int) -> Seq<char> {
    caption + ": "@ + decimal(count)
}

/// Everything the widget renders: the heading and the labels on its two
/// buttons.
pub struct CounterView {
    pub heading: String,
    pub up_label: String,
    pub down_label: String,
}

impl Counter {
    /// A freshly mounted widget: the host element's text becomes the
    /// caption and the count starts at zero.
    pub fn new(inner_text: String) -> (c: Counter)
        ensures
            c.caption == inner_text,
            c.count == 0,
    {
        Counter { caption: inner_text, count: 0 }
    }

    /// A click on the up button: the count rises by one.
    pub fn increment(&mut self)
        requires
            old(self).count < i32::MAX,
        ensures
            final(self).caption == old(self).caption,
            final(self).count == old(self).count + 1,
    {
        self.count = self.count + 1;
    }

    /// A click on the down button: the count falls by one.
    pub fn decrement(&mut self)
        requires
            old(self).count > i32::MIN,
        ensures
            final(self).caption == old(self).caption,
            final(self).count == old(self).count - 1,
    {
        self.count = self.count - 1;
    }

    /// Applies one click to the widget's state.
    pub fn step(&mut self, msg: Msg)
        requires
            msg is Increment ==> old(self).count < i32::MAX,
            msg is Decrement ==> old(self).count > i32::MIN,
        ensures
            *final(self) == spec_step(*old(self), msg),
    {
        match msg {
            Msg::Increment => self.increment(),
            Msg::Decrement => self.decrement(),
        }
    }

    /// The heading string in the widget's current state.
    pub fn heading(&self) -> (s: String)
        ensures
            s@ == spec_heading(self.caption@, self.count as int),
    {
        let mut s = self.caption.clone();
        s.append(": ");
        let digits = i64_to_decimal(self.count as i64);
        s.append(digits.as_str());
        proof {
            assert(s@ =~= spec_heading(self.caption@, self.count as int));
        }
        s
    }

    /// Everything the widget displays in its current state, ready for the
    /// embedding code to place into the DOM.
    pub fn render(&self) -> (v: CounterView)
        ensures
            v.heading@ == spec_heading(self.caption@, self.count as int),
            v.up_label@ == "Up high!"@,
            v.down_label@ == "Down low!"@,
    {
        CounterView {
            heading: self.heading(),
            up_label: String::from_str("Up high!"),
            down_label: String::from_str("Down low!"),
        }
    }
}

/// A click up followed by a click down, or down followed by up, leaves
/// the widget exactly as it was.
pub proof fn lemma_step_round_trip(c: Counter)
    ensures
        c.count < i32::MAX ==> spec_step(spec_step(c, Msg::Increment), Msg::Decrement) == c,
        c.count > i32::MIN ==> spec_step(spec_step(c, Msg::Decrement), Msg::Increment) == c,
{
}

} // verus!
