use vstd::prelude::*;

use crate::errors::Error;
use crate::utils::str_eq;

verus! {

/// Where contract and trait text comes from. Text always arrives held in
/// memory: the contract's own source, and each known trait definition under
/// its fully qualified identifier. A front end that works from files reads
/// them into this form before resolution. When two entries carry the same
/// identifier, the first one wins every lookup.
pub enum Source {
    Mem { contract_source: String, traits: Vec<(String, String)> },
}

/// Copies a trait map entry by entry.
fn copy_map(entries: &Vec<(String, String)>) -> (r: Vec<(String, String)>)
    ensures
        r@ == entries@,
{
    let mut r: Vec<(String, String)> = Vec::new();
    let mut i: usize = 0;
    while i < entries.len()
        invariant
            i <= entries.len(),
            r@ == entries@.take(i as int),
        decreases entries.len() - i,
    {
        r.push((entries[i].0.clone(), entries[i].1.clone()));
        proof {
            assert(r@ =~= entries@.take(i as int + 1));
        }
        i = i + 1;
    }
    proof {
        assert(entries@.take(entries@.len() as int) =~= entries@);
    }
    r
}

/// The text stored under `key`, taking the first entry whose identifier
/// matches the key exactly.
pub open spec fn lookup(entries: Seq<(String, String)>, key: Seq<char>) -> Option<Seq<char>>
    decreases entries.len(),
{
    if entries.len() == 0 {
        Option::None
    } else if entries[0].0@ == key {
        Option::Some(entries[0].1@)
    } else {
        lookup(entries.skip(1), key)
    }
}

impl Source {
    /// The unit's own text.
    pub open spec fn text(self) -> Seq<char> {
        match self {
            Source::Mem { contract_source, .. } => contract_source@,
        }
    }

    /// The trait definitions the unit carries.
    pub open spec fn trait_map(self) -> Seq<(String, String)> {
        match self {
            Source::Mem { traits, .. } => traits@,
        }
    }

    /// Reads the unit's own text.
    pub fn read_contract(&self) -> (r: Result<String, Error>)
        ensures
            r matches Ok(t) && t@ == self.text(),
    {
        match self {
            Source::Mem { contract_source, .. } => Ok(contract_source.clone()),
        }
    }

    /// Locates a declared trait's text by exact identifier lookup, and reports
    /// the failing identifier when no entry matches.
    pub fn read_trait(&self, identifier: &str) -> (r: Result<String, Error>)
        ensures
            lookup(self.trait_map(), identifier@) matches Some(t) ==> (r matches Ok(s) && s@
                == t),
            lookup(self.trait_map(), identifier@) is None ==> (r matches Err(e) && e matches
                Error::ReadTrait { path, identifier: id } && path is None && id@ == identifier@),
    {
        match self {
            Source::Mem { contract_source: _src, traits } => {
                let mut i: usize = 0;
                proof {
                    assert(traits@.skip(0) =~= traits@);
                }
                while i < traits.len()
                    invariant
                        i <= traits.len(),
                        self.trait_map() == traits@,
                        lookup(traits@, identifier@) == lookup(
                            traits@.skip(i as int),
                            identifier@,
                        ),
                    decreases traits.len() - i,
                {
                    proof {
                        assert(traits@.skip(i as int).len() == traits@.len() - i);
                        assert(traits@.skip(i as int)[0] == traits@[i as int]);
                        assert(traits@.skip(i as int).skip(1) =~= traits@.skip(i as int + 1));
                    }
                    if str_eq(traits[i].0.as_str(), identifier) {
                        proof {
                            assert(lookup(traits@.skip(i as int), identifier@) matches Some(t)
                                && t == traits@[i as int].1@);
                            assert(self.trait_map() =~= traits@);
                            assert(lookup(self.trait_map(), identifier@) == Some::<Seq<char>>(
                                traits@[i as int].1@,
                            ));
                        }
                        return Ok(traits[i].1.clone());
                    }
                    i = i + 1;
                }
                proof {
                    assert(traits@.skip(traits@.len() as int).len() == 0);
                    assert(self.trait_map() =~= traits@);
                    assert(lookup(self.trait_map(), identifier@) is None);
                }
                Err(
                    Error::ReadTrait {
                        path: None,
                        identifier: identifier.to_owned(),
                    },
                )
            },
        }
    }

    /// A new unit scoped to one declared trait's text. The nested unit keeps
    /// the same in-memory mapping, so traits it declares in turn are resolved
    /// from the mapping passed down, and fail when it lacks them.
    pub fn nest(&self, identifier: &str) -> (r: Result<Source, Error>)
        ensures
            lookup(self.trait_map(), identifier@) matches Some(t) ==> (r matches Ok(s)
                && s.text() == t && s.trait_map() == self.trait_map()),
            lookup(self.trait_map(), identifier@) is None ==> (r matches Err(e) && e matches
                Error::ReadTrait { path, identifier: id } && path is None && id@ == identifier@),
    {
        let contract_source = match self.read_trait(identifier) {
            Ok(t) => t,
            Err(e) => {
                return Err(e);
            },
        };
        match self {
            Source::Mem { traits, .. } => {
                let traits = copy_map(traits);
                let nested = Source::Mem { contract_source, traits };
                proof {
                    assert(self.trait_map() =~= nested.trait_map());
                }
                Ok(nested)
            },
        }
    }
}

} // verus!
