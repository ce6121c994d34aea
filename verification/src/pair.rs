//! Declared pairs of paths and the checks a pair has to pass.

use vstd::prelude::*;
use vstd::string::*;
use crate::error::SetupError;
use crate::reconciler::Side;

verus! {

/// What the filesystem holds at a path.
#[derive(Debug, Clone, Copy, PartialEq, Eq, Structural)]
pub enum Presence {
    /// Nothing.
    Missing,
    /// A directory.
    Directory,
    /// Something that is no directory.
    File,
}

impl Presence {
    /// What is found at a path, from the two questions that a filesystem
    /// answers: is it a directory, and is there anything at all. A directory
    /// is a directory whatever the second answer is.
    pub fn of(is_directory: bool, exists: bool) -> (presence: Presence)
        ensures
            presence == (if is_directory {
                Presence::Directory
            } else if exists {
                Presence::File
            } else {
                Presence::Missing
            }),
    {
        if is_directory {
            Presence::Directory
        } else if exists {
            Presence::File
        } else {
            Presence::Missing
        }
    }
}

/// What is known of one path: whether it is absolute and what is found there.
#[derive(Debug, Clone, Copy, PartialEq, Eq, Structural)]
pub struct PathFacts {
    pub absolute: bool,
    pub presence: Presence,
}

/// `Path::is_absolute`. What counts as absolute is the platform's matter, so
/// nothing is said of the answer.
#[verifier::external_body]
fn path_is_absolute(path: &str) -> (absolute: bool)
{
    std::path::Path::new(path).is_absolute()
}

/// `==` on two `Path`s. It may hold of paths that are written differently,
/// and which those are is the platform's matter, so nothing is said of the
/// answer.
#[verifier::external_body]
fn same_path(first: &str, second: &str) -> (same: bool)
{
    std::path::Path::new(first) == std::path::Path::new(second)
}

/// The first thing wrong with a pair, as the text shown to the user, or `None`
/// for a pair that can be reconciled. Both paths must be absolute, then neither
/// may be a directory, then they must differ, then both must exist. `same`
/// says that the two paths name the same place though written differently.
pub open spec fn complaint(
    side_a: Seq<char>,
    facts_a: PathFacts,
    side_b: Seq<char>,
    facts_b: PathFacts,
    same: bool,
) -> Option<Seq<char>> {
    if !facts_a.absolute {
        Some("Path must be absolute: "@ + side_a)
    } else if !facts_b.absolute {
        Some("Path must be absolute: "@ + side_b)
    } else if facts_a.presence is Directory {
        Some("Path \""@ + side_a + "\" is a directory!"@)
    } else if facts_b.presence is Directory {
        Some("Path \""@ + side_b + "\" is a directory!"@)
    } else if same || side_a == side_b {
        Some("Duplicated path: "@ + side_a)
    } else if facts_a.presence is Missing {
        Some("File \""@ + side_a + "\" does not exist!"@)
    } else if facts_b.presence is Missing {
        Some("File \""@ + side_b + "\" does not exist!"@)
    } else {
        None
    }
}

/// Two paths whose files are kept the same. The paths differ.
#[derive(Debug, PartialEq, Eq)]
pub struct FilePair {
    side_a: String,
    side_b: String,
}

impl View for FilePair {
    type V = (Seq<char>, Seq<char>);

    closed spec fn view(&self) -> (Seq<char>, Seq<char>) {
        (self.side_a@, self.side_b@)
    }
}

impl Clone for FilePair {
    fn clone(&self) -> (copy: FilePair)
        ensures
            copy@ == self@,
    {
        proof {
            use_type_invariant(self);
        }
        FilePair { side_a: self.side_a.clone(), side_b: self.side_b.clone() }
    }
}

impl FilePair {
    #[verifier::type_invariant]
    spec fn sides_differ(&self) -> bool {
        self.side_a@ != self.side_b@
    }

    /// Whether `result` is what the checks give for these paths and facts.
    pub open spec fn judged(
        result: Result<FilePair, SetupError>,
        side_a: Seq<char>,
        facts_a: PathFacts,
        side_b: Seq<char>,
        facts_b: PathFacts,
        same: bool,
    ) -> bool {
        match complaint(side_a, facts_a, side_b, facts_b, same) {
            Some(text) => result matches Err(SetupError::ConfigLoadError(message)) && message@
                == text,
            None => result matches Ok(pair) && pair@ == (side_a, side_b),
        }
    }

    /// Makes a pair of two paths of which the facts are known already. `same`
    /// is whether the two paths name the same place.
    pub fn checked(
        side_a: String,
        facts_a: PathFacts,
        side_b: String,
        facts_b: PathFacts,
        same: bool,
    ) -> (result: Result<FilePair, SetupError>)
        ensures
            FilePair::judged(result, side_a@, facts_a, side_b@, facts_b, same),
    {
        if !facts_a.absolute {
            Err(must_be_absolute(side_a.as_str()))
        } else if !facts_b.absolute {
            Err(must_be_absolute(side_b.as_str()))
        } else if facts_a.presence == Presence::Directory {
            Err(is_a_directory(side_a.as_str()))
        } else if facts_b.presence == Presence::Directory {
            Err(is_a_directory(side_b.as_str()))
        } else if same || side_a == side_b {
            Err(
                SetupError::ConfigLoadError(
                    String::from_str("Duplicated path: ").concat(side_a.as_str()),
                ),
            )
        } else if facts_a.presence == Presence::Missing {
            Err(does_not_exist(side_a.as_str()))
        } else if facts_b.presence == Presence::Missing {
            Err(does_not_exist(side_b.as_str()))
        } else {
            Ok(FilePair { side_a, side_b })
        }
    }

    /// Makes a pair of two paths, given what the filesystem holds at each.
    /// Whether a path is absolute and whether the two name the same place is
    /// asked of the platform; the result is what `checked` gives for the
    /// answers.
    pub fn new(side_a: String, presence_a: Presence, side_b: String, presence_b: Presence) -> (result:
        Result<FilePair, SetupError>)
        ensures
            exists|absolute_a: bool, absolute_b: bool, same: bool|
                #![trigger FilePair::judged(
                    result,
                    side_a@,
                    PathFacts { absolute: absolute_a, presence: presence_a },
                    side_b@,
                    PathFacts { absolute: absolute_b, presence: presence_b },
                    same,
                )]
                FilePair::judged(
                    result,
                    side_a@,
                    PathFacts { absolute: absolute_a, presence: presence_a },
                    side_b@,
                    PathFacts { absolute: absolute_b, presence: presence_b },
                    same,
                ),
    {
        let facts_a = PathFacts { absolute: path_is_absolute(side_a.as_str()), presence: presence_a };
        let facts_b = PathFacts { absolute: path_is_absolute(side_b.as_str()), presence: presence_b };
        let same = same_path(side_a.as_str(), side_b.as_str());
        FilePair::checked(side_a, facts_a, side_b, facts_b, same)
    }

    /// The path of side A.
    pub fn side_a(&self) -> (path: &str)
        ensures
            path@ == self@.0,
            self@.0 != self@.1,
    {
        proof {
            use_type_invariant(self);
        }
        self.side_a.as_str()
    }

    /// The path of side B.
    pub fn side_b(&self) -> (path: &str)
        ensures
            path@ == self@.1,
            self@.0 != self@.1,
    {
        proof {
            use_type_invariant(self);
        }
        self.side_b.as_str()
    }

    /// The path of `side`.
    pub fn path(&self, side: Side) -> (path: &str)
        ensures
            path@ == (match side {
                Side::A => self@.0,
                Side::B => self@.1,
            }),
    {
        match side {
            Side::A => self.side_a.as_str(),
            Side::B => self.side_b.as_str(),
        }
    }
}

fn must_be_absolute(path: &str) -> (error: SetupError)
    ensures
        error matches SetupError::ConfigLoadError(message) && message@
            == "Path must be absolute: "@ + path@,
{
    SetupError::ConfigLoadError(String::from_str("Path must be absolute: ").concat(path))
}

fn is_a_directory(path: &str) -> (error: SetupError)
    ensures
        error matches SetupError::ConfigLoadError(message) && message@ == "Path \""@ + path@
            + "\" is a directory!"@,
{
    SetupError::ConfigLoadError(
        String::from_str("Path \"").concat(path).concat("\" is a directory!"),
    )
}

fn does_not_exist(path: &str) -> (error: SetupError)
    ensures
        error matches SetupError::ConfigLoadError(message) && message@ == "File \""@ + path@
            + "\" does not exist!"@,
{
    SetupError::ConfigLoadError(
        String::from_str("File \"").concat(path).concat("\" does not exist!"),
    )
}

} // verus!
