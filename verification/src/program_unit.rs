//! The bookkeeping of one shader program: the registry that remembers,
//! by name, where the program's uniforms and attributes were resolved.
//! The graphics layer resolves a name to a location (or to -1 when the
//! name is unknown); the registry records the outcome and answers later
//! lookups.

use vstd::prelude::*;
use vstd::string::StringExecFns;
use crate::shader_program::ShaderError;

verus! {

/// The location registered under `name`, scanning the entries newest
/// first, so a re-registered name answers with its latest location.
pub open spec fn spec_lookup(entries: Seq<(String, i32)>, name: Seq<char>) -> Option<i32>
    decreases entries.len(),
{
    if entries.len() == 0 {
        None
    } else if entries[entries.len() - 1].0@ == name {
        Some(entries[entries.len() - 1].1)
    } else {
        spec_lookup(entries.drop_last(), name)
    }
}

/// Registering one more entry answers for its own name and leaves every
/// other name as it was.
proof fn lemma_lookup_push(entries: Seq<(String, i32)>, e: (String, i32), name: Seq<char>)
    ensures
        spec_lookup(entries.push(e), name) == (if e.0@ == name {
            Some(e.1)
        } else {
            spec_lookup(entries, name)
        }),
{
    let s = entries.push(e);
    assert(s[s.len() - 1] == e);
    assert(s.drop_last() =~= entries);
}

/// One shader program's name-to-location registry, uniforms and
/// attributes apart.
pub struct ProgramUnit {
    uniforms: Vec<(String, i32)>,
    attributes: Vec<(String, i32)>,
}

impl ProgramUnit {
    /// The location registered for the uniform `name`, if any.
    pub closed spec fn spec_uniform(&self, name: Seq<char>) -> Option<i32> {
        spec_lookup(self.uniforms@, name)
    }

    /// The location registered for the attribute `name`, if any.
    pub closed spec fn spec_attribute(&self, name: Seq<char>) -> Option<i32> {
        spec_lookup(self.attributes@, name)
    }

    /// A fresh registry with nothing registered.
    pub fn new() -> (u: ProgramUnit)
        ensures
            forall|name: Seq<char>| #[trigger] u.spec_uniform(name) is None,
            forall|name: Seq<char>| #[trigger] u.spec_attribute(name) is None,
    {
        ProgramUnit { uniforms: Vec::new(), attributes: Vec::new() }
    }

    /// Records where the graphics layer resolved the uniform `name`.  A
    /// location of -1 means the program has no such uniform: the lookup
    /// error is reported and nothing is recorded.
    pub fn add_uniform(&mut self, name: &str, location: i32) -> (r: Result<i32, ShaderError>)
        ensures
            location == -1 ==> *final(self) == *old(self) && (r matches Err(
                ShaderError::Lookup(s),
            ) && s@ == "'couldn't find uniform named '"@ + name@ + "'"@),
            location != -1 ==> {
                &&& r == Result::<i32, ShaderError>::Ok(location)
                &&& final(self).spec_uniform(name@) == Some(location)
                &&& forall|other: Seq<char>|
                    other != name@ ==> #[trigger] final(self).spec_uniform(other) == old(
                        self,
                    ).spec_uniform(other)
                &&& forall|other: Seq<char>| #[trigger]
                    final(self).spec_attribute(other) == old(self).spec_attribute(other)
            },
    {
        if location == -1 {
            return Err(
                ShaderError::Lookup(
                    String::from_str("'couldn't find uniform named '").concat(name).concat("'"),
                ),
            );
        }
        let entry = (name.to_owned(), location);
        proof {
            assert forall|other: Seq<char>| true implies #[trigger] spec_lookup(
                self.uniforms@.push(entry),
                other,
            ) == (if entry.0@ == other {
                Some(entry.1)
            } else {
                spec_lookup(self.uniforms@, other)
            }) by {
                lemma_lookup_push(self.uniforms@, entry, other);
            }
        }
        self.uniforms.push(entry);
        Ok(location)
    }

    /// Records where the graphics layer resolved the attribute `name`,
    /// under the same protocol as `add_uniform`.
    pub fn add_attribute(&mut self, name: &str, location: i32) -> (r: Result<i32, ShaderError>)
        ensures
            location == -1 ==> *final(self) == *old(self) && (r matches Err(
                ShaderError::Lookup(s),
            ) && s@ == "'couldn't find attribute named '"@ + name@ + "'"@),
            location != -1 ==> {
                &&& r == Result::<i32, ShaderError>::Ok(location)
                &&& final(self).spec_attribute(name@) == Some(location)
                &&& forall|other: Seq<char>|
                    other != name@ ==> #[trigger] final(self).spec_attribute(other) == old(
                        self,
                    ).spec_attribute(other)
                &&& forall|other: Seq<char>| #[trigger]
                    final(self).spec_uniform(other) == old(self).spec_uniform(other)
            },
    {
        if location == -1 {
            return Err(
                ShaderError::Lookup(
                    String::from_str("'couldn't find attribute named '").concat(name).concat("'"),
                ),
            );
        }
        let entry = (name.to_owned(), location);
        proof {
            assert forall|other: Seq<char>| true implies #[trigger] spec_lookup(
                self.attributes@.push(entry),
                other,
            ) == (if entry.0@ == other {
                Some(entry.1)
            } else {
                spec_lookup(self.attributes@, other)
            }) by {
                lemma_lookup_push(self.attributes@, entry, other);
            }
        }
        self.attributes.push(entry);
        Ok(location)
    }

    /// The location recorded for the uniform `name`, or a message that
    /// it was never registered.
    pub fn get_uniform(&self, name: &str) -> (r: Result<i32, String>)
        ensures
            self.spec_uniform(name@) matches Some(id) ==> r == Result::<i32, String>::Ok(id),
            self.spec_uniform(name@) is None ==> (r matches Err(s) && s@ == "Uniform '"@ + name@
                + "' not found"@),
    {
        match lookup(&self.uniforms, name) {
            Some(id) => Ok(id),
            None => Err(
                String::from_str("Uniform '").concat(name).concat("' not found"),
            ),
        }
    }

    /// The location recorded for the attribute `name`, or a message that
    /// it was never registered.
    pub fn get_attribute(&self, name: &str) -> (r: Result<i32, String>)
        ensures
            self.spec_attribute(name@) matches Some(id) ==> r == Result::<i32, String>::Ok(id),
            self.spec_attribute(name@) is None ==> (r matches Err(s) && s@ == "Attribute '"@
                + name@ + "' not found"@),
    {
        match lookup(&self.attributes, name) {
            Some(id) => Ok(id),
            None => Err(
                String::from_str("Attribute '").concat(name).concat("' not found"),
            ),
        }
    }
}

/// Scans a registry newest-entry first for `name`.
fn lookup(entries: &Vec<(String, i32)>, name: &str) -> (r: Option<i32>)
    ensures
        r == spec_lookup(entries@, name@),
{
    let key: String = name.to_owned();
    let mut i: usize = entries.len();
    assert(entries@.subrange(0, i as int) =~= entries@);
    while i > 0
        invariant
            i <= entries@.len(),
            key@ == name@,
            spec_lookup(entries@.subrange(0, i as int), name@) == spec_lookup(entries@, name@),
        decreases i,
    {
        i = i - 1;
        let ghost prefix = entries@.subrange(0, i as int + 1);
        assert(prefix[prefix.len() - 1] == entries@[i as int]);
        if entries[i].0.eq(&key) {
            return Some(entries[i].1);
        }
        assert(prefix.drop_last() =~= entries@.subrange(0, i as int));
    }
    assert(entries@.subrange(0, 0) =~= Seq::<(String, i32)>::empty());
    None
}

} // verus!
