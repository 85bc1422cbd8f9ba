//! Namespaces: the letters that the configuration language writes them with,
//! and the feature indices that the letters stand for.

use vstd::prelude::*;
use crate::error::ErrorKind;
use crate::gather::{
    gathered, lemma_gathered_failure, lemma_gathered_steps, lemma_gathered_values,
};

verus! {

/// A namespace as the configuration language sees it: the letter it is written
/// with and the feature index that the letter stands for.
#[derive(Clone, Copy, Debug, PartialEq, Eq, Structural)]
pub struct NamespaceEntry {
    pub letter: char,
    pub index: u32,
}

/// The namespaces of the input, in the order in which they were declared.
#[derive(Clone, Debug, PartialEq, Eq)]
pub struct NamespaceMap {
    pub entries: Vec<NamespaceEntry>,
}

/// The namespaces that transforms define, in the order in which they were registered.
#[derive(Clone, Debug, PartialEq, Eq)]
pub struct NamespaceTransforms {
    pub v: Vec<NamespaceEntry>,
}

impl View for NamespaceMap {
    type V = Seq<NamespaceEntry>;

    open spec fn view(&self) -> Seq<NamespaceEntry> {
        self.entries@
    }
}

impl View for NamespaceTransforms {
    type V = Seq<NamespaceEntry>;

    open spec fn view(&self) -> Seq<NamespaceEntry> {
        self.v@
    }
}

/// `entries[i]` is the first entry written with `letter`.
pub open spec fn is_first_entry(entries: Seq<NamespaceEntry>, letter: char, i: int) -> bool {
    &&& 0 <= i < entries.len()
    &&& entries[i].letter == letter
    &&& forall|j: int| 0 <= j < i ==> (#[trigger] entries[j]).letter != letter
}

/// The index of the first entry written with `letter`, if there is one.
pub open spec fn lookup(entries: Seq<NamespaceEntry>, letter: char) -> Option<u32> {
    if exists|i: int| is_first_entry(entries, letter, i) {
        Some(entries[choose|i: int| is_first_entry(entries, letter, i)].index)
    } else {
        None
    }
}

/// The feature index that `letter` stands for: that of the input's namespace of
/// this letter, else that of the transformed namespace of this letter.
pub open spec fn namespace_id(
    transforms: Seq<NamespaceEntry>,
    vw: Seq<NamespaceEntry>,
    letter: char,
) -> Option<u32> {
    match lookup(vw, letter) {
        Some(index) => Some(index),
        None => lookup(transforms, letter),
    }
}

/// What one letter resolves to.
pub open spec fn resolved(
    transforms: Seq<NamespaceEntry>,
    vw: Seq<NamespaceEntry>,
    letter: char,
) -> Result<u32, ErrorKind> {
    match namespace_id(transforms, vw, letter) {
        Some(index) => Ok(index),
        None => Err(ErrorKind::UnknownNamespace { letter }),
    }
}

/// What each of `letters` resolves to, in their order.
pub open spec fn resolutions(
    transforms: Seq<NamespaceEntry>,
    vw: Seq<NamespaceEntry>,
    letters: Seq<char>,
) -> Seq<Result<u32, ErrorKind>> {
    Seq::new(letters.len(), |i: int| resolved(transforms, vw, letters[i]))
}

/// The feature indices of `letters`, letter by letter and in their order; or
/// the error of the first letter that names no namespace.
pub open spec fn indices_of(
    transforms: Seq<NamespaceEntry>,
    vw: Seq<NamespaceEntry>,
    letters: Seq<char>,
) -> Result<Seq<u32>, ErrorKind> {
    match gathered(resolutions(transforms, vw, letters)) {
        Ok(indices) => Ok(indices),
        Err((_, kind)) => Err(kind),
    }
}

/// As many indices come out as letters went in.
pub proof fn lemma_indices_length(
    transforms: Seq<NamespaceEntry>,
    vw: Seq<NamespaceEntry>,
    letters: Seq<char>,
)
    ensures
        indices_of(transforms, vw, letters) matches Ok(indices) ==> indices.len() == letters.len(),
{
    lemma_gathered_steps(resolutions(transforms, vw, letters));
}

impl NamespaceMap {
    /// A map without namespaces.
    pub fn new() -> (r: NamespaceMap)
        ensures
            r@ == Seq::<NamespaceEntry>::empty(),
    {
        NamespaceMap { entries: Vec::new() }
    }

    /// Declares one more namespace, behind those that are there.
    pub fn add(&mut self, letter: char, index: u32)
        ensures
            final(self)@ == old(self)@.push(NamespaceEntry { letter, index }),
    {
        self.entries.push(NamespaceEntry { letter, index });
    }
}

impl NamespaceTransforms {
    /// A registry without transforms.
    pub fn new() -> (r: NamespaceTransforms)
        ensures
            r@ == Seq::<NamespaceEntry>::empty(),
    {
        NamespaceTransforms { v: Vec::new() }
    }
}

/// Finds the first entry written with `letter`.
pub fn find_entry(entries: &Vec<NamespaceEntry>, letter: char) -> (r: Option<u32>)
    ensures
        r == lookup(entries@, letter),
{
    let mut i: usize = 0;
    while i < entries.len()
        invariant
            i <= entries.len(),
            forall|j: int| 0 <= j < i ==> (#[trigger] entries@[j]).letter != letter,
        decreases entries.len() - i,
    {
        if entries[i].letter == letter {
            proof {
                assert(is_first_entry(entries@, letter, i as int));
                let k = choose|k: int| is_first_entry(entries@, letter, k);
                assert(is_first_entry(entries@, letter, k));
                assert(k == i);
            }
            return Some(entries[i].index);
        }
        i += 1;
    }
    None
}

/// Resolves one letter to its feature index.
pub fn get_namespace_id(transforms: &NamespaceTransforms, vw: &NamespaceMap, letter: char) -> (r:
    Result<u32, ErrorKind>)
    ensures
        r == resolved(transforms@, vw@, letter),
{
    match find_entry(&vw.entries, letter) {
        Some(index) => Ok(index),
        None => match find_entry(&transforms.v, letter) {
            Some(index) => Ok(index),
            None => Err(ErrorKind::UnknownNamespace { letter }),
        },
    }
}

/// Resolves `letters`, in their order.
pub fn get_namespace_ids(
    transforms: &NamespaceTransforms,
    vw: &NamespaceMap,
    letters: &Vec<char>,
) -> (r: Result<Vec<u32>, ErrorKind>)
    ensures
        match r {
            Ok(indices) => indices_of(transforms@, vw@, letters@) == Ok::<
                Seq<u32>,
                ErrorKind,
            >(indices@),
            Err(kind) => indices_of(transforms@, vw@, letters@) == Err::<
                Seq<u32>,
                ErrorKind,
            >(kind),
        },
{
    let ghost results = resolutions(transforms@, vw@, letters@);
    let mut indices: Vec<u32> = Vec::new();
    let mut i: usize = 0;
    while i < letters.len()
        invariant
            i <= letters.len(),
            results == resolutions(transforms@, vw@, letters@),
            indices@.len() == i,
            forall|j: int|
                0 <= j < i ==> #[trigger] results[j] == Ok::<u32, ErrorKind>(indices@[j]),
        decreases letters.len() - i,
    {
        match get_namespace_id(transforms, vw, letters[i]) {
            Ok(index) => {
                indices.push(index);
            },
            Err(kind) => {
                proof {
                    assert(results[i as int] == Err::<u32, ErrorKind>(kind));
                    lemma_gathered_failure(results, i as int);
                }
                return Err(kind);
            },
        }
        i += 1;
    }
    proof {
        lemma_gathered_values(results, indices@);
    }
    Ok(indices)
}

} // verus!
