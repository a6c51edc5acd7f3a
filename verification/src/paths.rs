//! Places in the file system, as the library speaks of them: a base that the
//! caller names and the names that lead from it. The library never touches
//! the file system; its caller turns a location into a path.

use vstd::prelude::*;
use vstd::string::StringExecFns;

verus! {

/// A place in the file system: `base`, and below it one directory or file
/// name after the other.
#[derive(Debug, Clone, PartialEq, Eq)]
pub struct Location {
    pub base: String,
    pub parts: Vec<String>,
}

/// What a [`Location`] holds, as mathematical values.
pub struct LocationView {
    pub base: Seq<char>,
    pub parts: Seq<Seq<char>>,
}

impl View for Location {
    type V = LocationView;

    open spec fn view(&self) -> LocationView {
        LocationView {
            base: self.base@,
            parts: Seq::new(self.parts@.len(), |i: int| self.parts@[i]@),
        }
    }
}

impl LocationView {
    /// The location one name further down.
    pub open spec fn join(self, name: Seq<char>) -> LocationView {
        LocationView { base: self.base, parts: self.parts.push(name) }
    }
}

/// The location of `base` itself.
pub open spec fn at(base: Seq<char>) -> LocationView {
    LocationView { base, parts: Seq::empty() }
}

impl Location {
    /// The location of `base` itself.
    pub fn new(base: &str) -> (location: Location)
        ensures
            location@ == at(base@),
    {
        let location = Location { base: String::from_str(base), parts: Vec::new() };
        assert(location@.parts =~= Seq::<Seq<char>>::empty());
        location
    }

    /// A copy of the location.
    pub fn clone_location(&self) -> (location: Location)
        ensures
            location@ == self@,
    {
        let mut parts: Vec<String> = Vec::new();
        let mut next: usize = 0;
        while next < self.parts.len()
            invariant
                next <= self.parts@.len(),
                parts@.len() == next,
                forall|i: int| 0 <= i < next ==> (#[trigger] parts@[i])@ == self.parts@[i]@,
            decreases self.parts@.len() - next,
        {
            parts.push(self.parts[next].clone());
            next = next + 1;
        }
        let location = Location { base: self.base.clone(), parts };
        assert(location@.parts =~= self@.parts);
        location
    }

    /// The location one name further down.
    pub fn join(self, name: &str) -> (location: Location)
        ensures
            location@ == self@.join(name@),
    {
        let mut parts = self.parts;
        parts.push(String::from_str(name));
        let location = Location { base: self.base, parts };
        assert(location@.parts =~= self@.parts.push(name@));
        location
    }
}

/// Where a copied file arrives: at `destination` itself where that is a file
/// already, and under its own name inside `destination` otherwise.
pub fn copy_file_destination(destination: &str, destination_is_file: bool, file_name: &str) -> (
    location: Location
)
    ensures
        location@ == if destination_is_file {
            at(destination@)
        } else {
            at(destination@).join(file_name@)
        },
{
    if destination_is_file {
        Location::new(destination)
    } else {
        Location::new(destination).join(file_name)
    }
}

/// Where a copied directory arrives: under its own name inside
/// `destination`.
pub fn copy_dir_destination(destination: &str, directory_name: &str) -> (location: Location)
    ensures
        location@ == at(destination@).join(directory_name@),
{
    Location::new(destination).join(directory_name)
}

} // verus!
