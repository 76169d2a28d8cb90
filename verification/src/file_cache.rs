//! The session cache: the files already fetched in this process, by
//! specifier. Local files are never kept, so that a change on disk is seen by
//! the next fetch.

use crate::file::{some_file_view, File, FileView};
use crate::specifier::{has_supported_scheme, is_file, Specifier};
use crate::string_map::StringMap;
use vstd::prelude::*;

verus! {

/// The map in which each file stands as its plain value.
pub open spec fn file_views(map: Map<Seq<char>, File>) -> Map<Seq<char>, FileView> {
    Map::new(|key: Seq<char>| map.contains_key(key), |key: Seq<char>| map[key]@)
}

/// What a session cache with the content `session` holds under `specifier`.
pub open spec fn cached(session: Map<Seq<char>, FileView>, specifier: Seq<char>) -> Option<
    FileView,
> {
    if session.contains_key(specifier) {
        Some(session[specifier])
    } else {
        None
    }
}

/// The content of a session cache after `file` was put under `specifier`:
/// nothing changes where the specifier names a local file.
pub open spec fn with_file(
    session: Map<Seq<char>, FileView>,
    specifier: Seq<char>,
    file: FileView,
) -> Map<Seq<char>, FileView> {
    if is_file(specifier) {
        session
    } else {
        session.insert(specifier, file)
    }
}

/// Whether no key of `session` names a local file.
pub open spec fn holds_no_local_file(session: Map<Seq<char>, FileView>) -> bool {
    forall|key: Seq<char>| session.contains_key(key) ==> !is_file(key)
}

/// Whether `session` holds, under every specifier with a supported scheme, a
/// file whose own specifier has a supported scheme.
pub open spec fn serves_supported(session: Map<Seq<char>, FileView>) -> bool {
    forall|key: Seq<char>|
        session.contains_key(key) && has_supported_scheme(key) ==> has_supported_scheme(
            #[trigger] session[key].specifier,
        )
}

/// Putting a file into a session cache never brings a local file into it.
pub proof fn lemma_with_file_holds_no_local_file(
    session: Map<Seq<char>, FileView>,
    specifier: Seq<char>,
    file: FileView,
)
    requires
        holds_no_local_file(session),
    ensures
        holds_no_local_file(with_file(session, specifier, file)),
{
}

/// What was put under a specifier that names no local file is what is found
/// there afterwards.
pub proof fn lemma_with_file_then_cached(
    session: Map<Seq<char>, FileView>,
    specifier: Seq<char>,
    file: FileView,
)
    requires
        !is_file(specifier),
    ensures
        cached(with_file(session, specifier, file), specifier) == Some(file),
{
}

/// Simple struct implementing in-process caching to prevent multiple
/// fs reads/net fetches for same file.
#[derive(Debug)]
pub struct FileCache {
    files: StringMap<File>,
}

impl View for FileCache {
    type V = Map<Seq<char>, FileView>;

    closed spec fn view(&self) -> Map<Seq<char>, FileView> {
        file_views(self.files.map())
    }
}

impl FileCache {
    #[verifier::type_invariant]
    spec fn is_sound(&self) -> bool {
        &&& holds_no_local_file(file_views(self.files.map()))
        &&& serves_supported(file_views(self.files.map()))
    }

    /// The cache without any file.
    pub fn new() -> (cache: FileCache)
        ensures
            cache@ == Map::<Seq<char>, FileView>::empty(),
    {
        let cache = FileCache { files: StringMap::new() };
        assert(cache@ =~= Map::<Seq<char>, FileView>::empty());
        cache
    }

    /// The file under `specifier`, where there is one. There is never one
    /// under a specifier that names a local file, and what is under a
    /// specifier with a supported scheme is a file under such a specifier.
    pub fn get(&self, specifier: &Specifier) -> (r: Option<File>)
        ensures
            some_file_view(r) == cached(self@, specifier@),
            holds_no_local_file(self@),
            serves_supported(self@),
            is_file(specifier@) ==> r is None,
    {
        proof {
            use_type_invariant(self);
        }
        match self.files.get(specifier.as_str()) {
            Some(file) => Some(file.clone()),
            None => None,
        }
    }

    /// Whether there is a file under `specifier`. There is never one under a
    /// specifier that names a local file.
    pub fn contains(&self, specifier: &Specifier) -> (r: bool)
        ensures
            r == self@.contains_key(specifier@),
            is_file(specifier@) ==> !r,
    {
        self.get(specifier).is_some()
    }

    /// Puts `file` under `specifier`, unless the specifier names a local
    /// file, and returns what was there.
    pub(crate) fn insert(&mut self, specifier: Specifier, file: File) -> (prior: Option<File>)
        requires
            has_supported_scheme(specifier@) ==> has_supported_scheme(file@.specifier),
        ensures
            final(self)@ == with_file(old(self)@, specifier@, file@),
            some_file_view(prior) == if is_file(specifier@) {
                None
            } else {
                cached(old(self)@, specifier@)
            },
    {
        proof {
            use_type_invariant(&*self);
        }
        if specifier.is_local() {
            return None;
        }
        let mut taken = FileCache::new();
        std::mem::swap(self, &mut taken);
        let FileCache { files } = taken;
        let mut files = files;
        let key = specifier.as_str().to_owned();
        let prior = files.insert(key, file);
        proof {
            assert(file_views(files.map()) =~= with_file(old(self)@, specifier@, file@));
        }
        *self = FileCache { files };
        prior
    }

    /// How many files the cache holds.
    pub fn len(&self) -> (n: usize)
        ensures
            self@.dom().finite(),
            n == self@.dom().len(),
    {
        let n = self.files.len();
        assert(self@.dom() =~= self.files.map().dom());
        n
    }
}

} // verus!
