//! An ordered list of named stage options, as handed to pipeline stages.

use vstd::prelude::*;
use vstd::string::StringExecFns;

verus! {

/// An ordered collection of `(name, value)` option pairs.
#[derive(Debug, Default)]
pub struct Options {
    entries: Vec<(String, String)>,
}

impl Options {
    /// The option pairs, in insertion order, as character sequences.
    pub closed spec fn view(self) -> Seq<(Seq<char>, Seq<char>)> {
        self.entries@.map(|i: int, e: (String, String)| (e.0@, e.1@))
    }

    /// An empty option list.
    pub fn new() -> (r: Options)
        ensures
            r@ == Seq::<(Seq<char>, Seq<char>)>::empty(),
    {
        let r = Options { entries: Vec::new() };
        proof {
            assert(r@ =~= Seq::<(Seq<char>, Seq<char>)>::empty());
        }
        r
    }

    /// How many options are held.
    pub fn len(&self) -> (r: usize)
        ensures
            r == self@.len(),
    {
        self.entries.len()
    }

    /// Append one named option.
    pub fn add(&mut self, name: &str, value: &str)
        ensures
            final(self)@ == old(self)@.push((name@, value@)),
    {
        self.entries.push((name.to_owned(), value.to_owned()));
        proof {
            assert(self@ =~= old(self)@.push((name@, value@)));
        }
    }

    /// The option pair at `i`.
    pub fn get(&self, i: usize) -> (r: (&String, &String))
        requires
            i < self@.len(),
        ensures
            (r.0@, r.1@) == self@[i as int],
    {
        let e = &self.entries[i];
        (&e.0, &e.1)
    }
}

} // verus!
