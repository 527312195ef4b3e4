//! Where cached artifacts live: one file per cache key in a flat directory,
//! or nowhere when caching is disabled.

use vstd::prelude::*;

verus! {

/// The extension of every cached audio file.
pub const AUDIO_FILE_EXTENSION: &'static str = "mp3";

/// The file name of the entry for `key`.
pub open spec fn entry_file_name(key: Seq<char>) -> Seq<char> {
    key + seq!['.', 'm', 'p', '3']
}

/// `name` inside the directory `dir`: no separator is added after an empty
/// directory or after one that already ends in a slash.
pub open spec fn join_path(dir: Seq<char>, name: Seq<char>) -> Seq<char> {
    if dir.len() == 0 || dir.last() == '/' {
        dir + name
    } else {
        dir + seq!['/'] + name
    }
}

/// The path of the entry for `key` inside the directory `dir`.
pub open spec fn entry_path_in(dir: Seq<char>, key: Seq<char>) -> Seq<char> {
    join_path(dir, entry_file_name(key))
}

/// The text of `name` inside the directory `dir`.
pub fn join(dir: &str, name: &str) -> (r: String)
    ensures
        r@ == join_path(dir@, name@),
{
    let mut path = dir.to_owned();
    let n = dir.unicode_len();
    if n != 0 && dir.get_char(n - 1) != '/' {
        proof { reveal_strlit("/"); }
        path.append("/");
    }
    path.append(name);
    path
}

/// Why a cache could not be set up.
#[derive(Debug, Clone, Copy, PartialEq, Eq, Structural)]
pub enum CacheError {
    DirectoryUnavailable,
}

/// A content-addressed store of synthesized audio. Without a directory it
/// is the null cache: every lookup misses and every store does nothing.
#[derive(Debug, Clone)]
pub struct AudioCache {
    cache_dir_path: Option<String>,
}

impl AudioCache {
    /// The directory this cache writes to, if caching is enabled.
    pub closed spec fn directory(&self) -> Option<Seq<char>> {
        match self.cache_dir_path {
            Some(p) => Some(p@),
            None => None,
        }
    }

    /// A cache kept in `cache_dir_path`. `directory_ready` tells whether the
    /// directory tree exists after it was created; without it the service
    /// cannot start.
    pub fn new(cache_dir_path: String, directory_ready: bool) -> (r: Result<AudioCache, CacheError>)
        ensures
            directory_ready ==> (r matches Ok(c) && c.directory() == Some(cache_dir_path@)),
            !directory_ready ==> r == Err::<AudioCache, CacheError>(CacheError::DirectoryUnavailable),
    {
        if directory_ready {
            Ok(AudioCache { cache_dir_path: Some(cache_dir_path) })
        } else {
            Err(CacheError::DirectoryUnavailable)
        }
    }

    /// The null cache.
    pub fn new_without_cache() -> (r: AudioCache)
        ensures
            r.directory() == None::<Seq<char>>,
    {
        AudioCache { cache_dir_path: None }
    }

    /// Whether lookups and stores reach a directory.
    pub fn is_enabled(&self) -> (r: bool)
        ensures
            r == self.directory().is_some(),
    {
        self.cache_dir_path.is_some()
    }

    /// The file that holds the entry for `key`, or `None` for the null cache,
    /// where the lookup is a miss and the store a no-op.
    pub fn entry_path(&self, key: &str) -> (r: Option<String>)
        ensures
            match self.directory() {
                Some(dir) => (r matches Some(p) && p@ == entry_path_in(dir, key@)),
                None => r.is_none(),
            },
    {
        match &self.cache_dir_path {
            None => None,
            Some(dir) => {
                let mut file = key.to_owned();
                proof {
                    reveal_strlit(".");
                    reveal_strlit("mp3");
                }
                file.append(".");
                file.append(AUDIO_FILE_EXTENSION);
                let path = join(dir.as_str(), file.as_str());
                Some(path)
            },
        }
    }
}

} // verus!
