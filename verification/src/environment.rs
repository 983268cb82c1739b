//! The mutable variable store threaded through evaluation: one flat mapping
//! from variable name to [`Value`] per call frame. Each function call gets a
//! fresh, isolated environment; only `main`'s environment lives for a whole
//! run.
//!
//! The store keeps its bindings as a vector of pairs to which assignments
//! append; a lookup scans from the end, so the most recent binding for a name
//! wins. Abstractly the store is the finite map [`bindings_map`] computes,
//! and every operation is specified against that map.

use vstd::prelude::*;

use crate::ast::Value;
use crate::errors::{EvalError, EvalErrorSpec};

verus! {

/// The finite map a sequence of bindings denotes: later pairs shadow earlier
/// ones with the same name.
pub open spec fn bindings_map(s: Seq<(String, Value)>) -> Map<Seq<char>, Value>
    decreases s.len(),
{
    if s.len() == 0 {
        Map::empty()
    } else {
        bindings_map(s.drop_last()).insert(s.last().0@, s.last().1)
    }
}

/// A mutable mapping from variable name to [`Value`], owned by exactly one
/// call frame at a time.
#[derive(Debug)]
pub struct Environment {
    pub bindings: Vec<(String, Value)>,
}

impl View for Environment {
    type V = Map<Seq<char>, Value>;

    open spec fn view(&self) -> Map<Seq<char>, Value> {
        bindings_map(self.bindings@)
    }
}

impl Environment {
    /// A fresh environment that binds nothing.
    pub fn new() -> (r: Environment)
        ensures
            r@ == Map::<Seq<char>, Value>::empty(),
    {
        let r = Environment { bindings: Vec::new() };
        proof {
            assert(r@ =~= Map::<Seq<char>, Value>::empty());
        }
        r
    }

    /// Insert or overwrite the binding for `name`; this never fails.
    pub fn define_or_assign(&mut self, name: &String, value: Value)
        ensures
            final(self)@ == old(self)@.insert(name@, value),
    {
        self.bindings.push((name.clone(), value));
        proof {
            assert(self.bindings@.drop_last() =~= old(self).bindings@);
            assert(self.bindings@.last().0@ == name@);
        }
    }

    /// Read the binding for `name`, failing with
    /// [`EvalError::UndefinedVariable`] when the environment does not bind
    /// it.
    pub fn lookup(&self, name: &String) -> (r: Result<Value, EvalError>)
        ensures
            match r {
                Ok(v) => self@.contains_key(name@) && v == self@[name@],
                Err(e) => !self@.contains_key(name@) && e@ == (EvalErrorSpec::UndefinedVariable {
                    name: name@,
                }),
            },
    {
        let mut i: usize = self.bindings.len();
        proof {
            assert(self.bindings@.take(i as int) =~= self.bindings@);
        }
        while i > 0
            invariant
                i <= self.bindings.len(),
                self@.contains_key(name@) == bindings_map(
                    self.bindings@.take(i as int),
                ).contains_key(name@),
                self@.contains_key(name@) ==> bindings_map(self.bindings@.take(i as int))[name@]
                    == self@[name@],
            decreases i,
        {
            i = i - 1;
            proof {
                assert(self.bindings@.take(i as int + 1).drop_last() =~= self.bindings@.take(
                    i as int,
                ));
                assert(self.bindings@.take(i as int + 1).last() == self.bindings@[i as int]);
            }
            if self.bindings[i].0 == *name {
                return Ok(self.bindings[i].1);
            }
        }
        proof {
            assert(self.bindings@.take(0) =~= Seq::<(String, Value)>::empty());
        }
        Err(EvalError::UndefinedVariable { name: name.clone() })
    }
}

} // verus!
