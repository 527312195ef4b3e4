//! A directory of prerecorded sounds, played by name or at random.

use crate::audio_cache::{join, join_path};
use crate::text::{contains, contains_text};
use rand::seq::SliceRandom;
use vstd::prelude::*;

verus! {

/// Relies on rand's `SliceRandom::choose` with the thread-local generator:
/// one of the paths, or none when there are none. Which one is left to chance.
#[verifier::external_body]
fn choose_path(paths: &Vec<String>) -> (r: Option<String>)
    ensures
        r.is_none() == (paths@.len() == 0),
        r.is_some() ==> exists|i: int| 0 <= i < paths@.len() && paths@[i]@ == r.unwrap()@,
{
    paths.as_slice().choose(&mut rand::thread_rng()).cloned()
}

/// Sounds whose path holds this word are left out of random picks.
pub open spec fn excluded_word() -> Seq<char> {
    "astromech"@
}

/// The paths that random picks may choose from, in order.
pub open spec fn pickable(paths: Seq<String>, k: int) -> Seq<Seq<char>>
    decreases k,
{
    if k <= 0 {
        Seq::empty()
    } else if contains_text(paths[k - 1]@, excluded_word()) {
        pickable(paths, k - 1)
    } else {
        pickable(paths, k - 1).push(paths[k - 1]@)
    }
}

/// The sounds kept in one directory tree.
#[derive(Debug, Clone)]
pub struct AudioRepository {
    dir_path: String,
}

impl AudioRepository {
    /// The root directory of the sounds.
    pub closed spec fn root(&self) -> Seq<char> {
        self.dir_path@
    }

    /// A repository rooted at `dir_path`.
    pub fn new(dir_path: String) -> (r: AudioRepository)
        ensures
            r.root() == dir_path@,
    {
        AudioRepository { dir_path }
    }

    /// The path of the sound `sound_name`, or of the subdirectory of that name.
    pub fn file_path(&self, sound_name: &str) -> (r: String)
        ensures
            r@ == join_path(self.root(), sound_name@),
    {
        join(self.dir_path.as_str(), sound_name)
    }

    /// The paths that a random pick over the whole tree may choose: all but
    /// those whose path holds the excluded word.
    pub fn pickable_paths(paths: &Vec<String>) -> (r: Vec<String>)
        ensures
            r@.len() == pickable(paths@, paths@.len() as int).len(),
            forall|i: int| 0 <= i < r@.len() ==> r@[i]@ == pickable(paths@, paths@.len() as int)[i],
    {
        let word = String::from_str("astromech");
        let mut out: Vec<String> = Vec::new();
        let mut i: usize = 0;
        while i < paths.len()
            invariant
                word@ == excluded_word(),
                i <= paths@.len(),
                out@.len() == pickable(paths@, i as int).len(),
                forall|j: int| 0 <= j < out@.len() ==> out@[j]@ == pickable(paths@, i as int)[j],
            decreases paths@.len() - i,
        {
            if !contains(paths[i].as_str(), word.as_str()) {
                out.push(paths[i].clone());
            }
            i = i + 1;
        }
        out
    }

    /// One of `paths` at random, or none when there are none.
    pub fn pick_random(paths: &Vec<String>) -> (r: Option<String>)
        ensures
            paths@.len() == 0 ==> r is None,
            paths@.len() > 0 ==> (r matches Some(p) && exists|i: int| 0 <= i < paths@.len() && paths@[i]@ == p@),
    {
        choose_path(paths)
    }
}

} // verus!
