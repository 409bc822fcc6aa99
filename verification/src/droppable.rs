//! A named counter, used to watch how long a value lives.

use crate::text::{decimal, push_decimal};
use vstd::prelude::*;
use vstd::string::StringExecFns;

verus! {

/// The line that describes a counter called `name` at `ticks`.
pub open spec fn description(name: Seq<char>, ticks: int) -> Seq<char> {
    "(> Still here "@ + name + " | tick "@ + decimal(ticks) + ")"@
}

/// The line that reports the end of a counter called `name` at `ticks`.
pub open spec fn farewell(name: Seq<char>, ticks: int) -> Seq<char> {
    "(> Dropping "@ + name + " | tick "@ + decimal(ticks) + ")"@
}

/// A name and the number of ticks counted under it.
pub struct Droppable {
    name: String,
    tick: i32,
}

impl Droppable {
    /// The name given at construction.
    pub closed spec fn spec_name(&self) -> Seq<char> {
        self.name@
    }

    /// The number of ticks counted so far.
    pub closed spec fn spec_ticks(&self) -> i32 {
        self.tick
    }

    /// A counter called `name`, at zero.
    pub fn new(name: &str) -> (counter: Self)
        ensures
            counter.spec_name() == name@,
            counter.spec_ticks() == 0,
    {
        Droppable { name: String::from_str(name), tick: 0 }
    }

    /// Counts one tick.
    pub fn tick(&mut self)
        requires
            old(self).spec_ticks() < i32::MAX,
        ensures
            final(self).spec_ticks() == old(self).spec_ticks() + 1,
            final(self).spec_name() == old(self).spec_name(),
    {
        self.tick += 1;
    }

    /// The number of ticks counted so far.
    #[verifier::when_used_as_spec(spec_ticks)]
    pub fn ticks(&self) -> (ticks: i32)
        ensures
            ticks == self.spec_ticks(),
    {
        self.tick
    }

    /// The name given at construction.
    pub fn name(&self) -> (name: &str)
        ensures
            name@ == self.spec_name(),
    {
        self.name.as_str()
    }

    /// `opening`, then the name and the ticks.
    fn compose(&self, opening: &str) -> (line: String)
        ensures
            line@ == opening@ + self.spec_name() + " | tick "@ + decimal(self.spec_ticks() as int) + ")"@,
    {
        let mut line = String::from_str(opening);
        line.append(self.name.as_str());
        line.append(" | tick ");
        push_decimal(&mut line, self.tick as i64);
        line.append(")");
        proof {
            assert(line@ =~= opening@ + self.spec_name() + " | tick "@ + decimal(self.spec_ticks() as int)
                + ")"@);
        }
        line
    }

    /// The line that says the counter is still there: its name and its ticks.
    pub fn describe(&self) -> (line: String)
        ensures
            line@ == description(self.spec_name(), self.spec_ticks() as int),
    {
        self.compose("(> Still here ")
    }

    /// The line to print when the counter goes away.
    pub fn farewell(&self) -> (line: String)
        ensures
            line@ == farewell(self.spec_name(), self.spec_ticks() as int),
    {
        self.compose("(> Dropping ")
    }
}

impl Default for Droppable {
    /// The counter called "default", at zero.
    fn default() -> (counter: Self)
        ensures
            counter.spec_name() == "default"@,
            counter.spec_ticks() == 0,
    {
        Droppable { name: String::from_str("default"), tick: 0 }
    }
}

} // verus!
