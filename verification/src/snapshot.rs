//! The variables that a configuration is resolved from: names with the text
//! they hold, taken once and not changed while it is read.

use crate::text::same_text;
use vstd::prelude::*;

verus! {

/// Variables as a configuration is resolved from them: names, each with
/// the text it holds.
pub type Variables = Map<Seq<char>, Seq<char>>;

/// The text that a list of settings gives to `name`: that of the last
/// setting that names it.
spec fn setting(entries: Seq<(String, String)>, name: Seq<char>) -> Option<Seq<char>>
    decreases entries.len(),
{
    if entries.len() == 0 {
        None
    } else if entries.last().0@ == name {
        Some(entries.last().1@)
    } else {
        setting(entries.drop_last(), name)
    }
}

/// A set of variables. A variable that is not in it is not set, which is no
/// fault.
pub struct EnvSnapshot {
    entries: Vec<(String, String)>,
}

impl View for EnvSnapshot {
    type V = Variables;

    closed spec fn view(&self) -> Variables {
        Map::new(
            |name: Seq<char>| setting(self.entries@, name) is Some,
            |name: Seq<char>| setting(self.entries@, name).unwrap(),
        )
    }
}

impl EnvSnapshot {
    /// The snapshot in which no variable is set.
    pub fn new() -> (env: EnvSnapshot)
        ensures
            env@ == Variables::empty(),
    {
        let env = EnvSnapshot { entries: Vec::new() };
        assert(env@ =~= Variables::empty());
        env
    }

    /// Sets the variable `name` to `value`, whether or not it was set.
    pub fn set(&mut self, name: &str, value: &str)
        ensures
            final(self)@ == old(self)@.insert(name@, value@),
    {
        self.entries.push((name.to_owned(), value.to_owned()));
        proof {
            assert(self.entries@.drop_last() =~= old(self).entries@);
            assert(self@ =~= old(self)@.insert(name@, value@));
        }
    }

    /// The text of the variable `name`, where it is set.
    pub fn get(&self, name: &str) -> (r: Option<&str>)
        ensures
            match r {
                Some(text) => self@.contains_key(name@) && self@[name@] == text@,
                None => !self@.contains_key(name@),
            },
    {
        let mut i: usize = self.entries.len();
        assert(self.entries@.take(i as int) =~= self.entries@);
        while i > 0
            invariant
                i <= self.entries@.len(),
                setting(self.entries@, name@) == setting(self.entries@.take(i as int), name@),
            decreases i,
        {
            i -= 1;
            assert(self.entries@.take(i + 1).drop_last() =~= self.entries@.take(i as int));
            if same_text(self.entries[i].0.as_str(), name) {
                return Some(self.entries[i].1.as_str());
            }
        }
        None
    }
}

} // verus!
