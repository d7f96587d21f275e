//! Tracer description.
//!
//! A [`Tracer`] only carries the name and default filter for the
//! process-wide trace subscriber; installing the subscriber touches global
//! process state and is done outside the library.

use vstd::prelude::*;

verus! {

/// Name and default environment filter of the trace subscriber.
pub struct Tracer<'a> {
    name: &'a str,
    env_filter: &'a str,
}

impl<'a> Tracer<'a> {
    /// The subscriber name.
    pub closed spec fn spec_name(self) -> Seq<char> {
        self.name@
    }

    /// The default filter directive.
    pub closed spec fn spec_env_filter(self) -> Seq<char> {
        self.env_filter@
    }

    /// Creates a new tracer description.
    pub fn new(name: &'a str, env_filter: &'a str) -> (r: Self)
        ensures
            r.spec_name() == name@,
            r.spec_env_filter() == env_filter@,
    {
        Self { name, env_filter }
    }

    /// The subscriber name.
    pub fn name(&self) -> (r: &'a str)
        ensures
            r@ == self.spec_name(),
    {
        self.name
    }

    /// The default filter directive.
    pub fn env_filter(&self) -> (r: &'a str)
        ensures
            r@ == self.spec_env_filter(),
    {
        self.env_filter
    }
}

} // verus!
