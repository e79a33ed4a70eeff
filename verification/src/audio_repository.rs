use vstd::prelude::*;

verus! {

/// The extension that `Path::new(path).extension()` finds, as text.
pub uninterp spec fn path_extension_of(path: Seq<char>) -> Option<Seq<char>>;

/// Whether a path is absolute on Unix: it starts at the root.
pub open spec fn is_absolute(path: Seq<char>) -> bool {
    path.len() > 0 && path[0] == '/'
}

/// The text of `Path::new(base).join(rel)` on Unix: an absolute `rel`
/// replaces `base`; otherwise `rel` is appended to `base`, with a `/` in
/// between unless `base` is empty or already ends in one.
pub open spec fn joined_path(base: Seq<char>, rel: Seq<char>) -> Seq<char> {
    if is_absolute(rel) {
        rel
    } else if base.len() == 0 || base.last() == '/' {
        base + rel
    } else {
        base + seq!['/'] + rel
    }
}

/// `std::path::Path::join` on Unix, taken as text: an absolute path
/// replaces the base, a relative one is appended with a separator where
/// one is needed.
#[verifier::external_body]
fn join_path(base: &str, rel: &str) -> (joined: String)
    ensures
        joined@ == joined_path(base@, rel@),
{
    std::path::Path::new(base).join(rel).to_string_lossy().into_owned()
}

/// `std::path::Path::extension`, taken as text. Its documentation says that
/// a file name without an embedded `.` has no extension; the rest is left to
/// the name.
#[verifier::external_body]
fn extension_of(path: &str) -> (ext: Option<String>)
    ensures
        ext matches Some(e) ==> path_extension_of(path@) == Some(e@),
        ext is None ==> path_extension_of(path@) is None,
        !path@.contains('.') ==> ext is None,
{
    match std::path::Path::new(path).extension() {
        Some(e) => e.to_str().map(String::from),
        None => None,
    }
}

/// Why no audio file can be given for an identifier.
#[derive(Debug, Clone)]
pub enum RepositoryError {
    /// The directory holds no file with the audio extension.
    NoAudioFiles(String),
}

/// The mathematical value of a [`SimpleAudioRepository`].
pub struct RepositoryView {
    pub base_dir: Seq<char>,
    pub audio_extension: Seq<char>,
}

/// Whether `exts[i]` is the first entry equal to `Some(wanted)`.
pub open spec fn is_first_match(exts: Seq<Option<Seq<char>>>, wanted: Seq<char>, i: int) -> bool {
    &&& 0 <= i < exts.len()
    &&& exts[i] == Some(wanted)
    &&& forall|j: int| 0 <= j < i ==> exts[j] != Some(wanted)
}

/// Whether no entry of `exts` is `Some(wanted)`.
pub open spec fn no_match(exts: Seq<Option<Seq<char>>>, wanted: Seq<char>) -> bool {
    forall|j: int| 0 <= j < exts.len() ==> exts[j] != Some(wanted)
}

/// The extensions of `paths`, by [`path_extension_of`].
pub open spec fn extensions_of(paths: Seq<String>) -> Seq<Option<Seq<char>>> {
    paths.map_values(|p: String| path_extension_of(p@))
}

/// `Option<String>` taken by its view.
pub open spec fn opt_string_view(o: Option<String>) -> Option<Seq<char>> {
    match o {
        Some(s) => Some(s@),
        None => None,
    }
}

/// The position of the first of `extensions` that is `wanted`.
pub fn first_with_extension(extensions: &Vec<Option<String>>, wanted: &str) -> (r: Option<usize>)
    ensures
        r matches Some(i) ==> is_first_match(extensions@.map_values(|e: Option<String>| opt_string_view(e)), wanted@, i as int),
        r is None ==> no_match(extensions@.map_values(|e: Option<String>| opt_string_view(e)), wanted@),
{
    let ghost exts = extensions@.map_values(|e: Option<String>| opt_string_view(e));
    let w = wanted.to_string();
    let mut i: usize = 0;
    while i < extensions.len()
        invariant
            i <= extensions.len(),
            exts == extensions@.map_values(|e: Option<String>| opt_string_view(e)),
            w@ == wanted@,
            forall|j: int| 0 <= j < i ==> exts[j] != Some(wanted@),
        decreases extensions.len() - i,
    {
        assert(exts[i as int] == opt_string_view(extensions@[i as int]));
        match &extensions[i] {
            Some(e) => {
                if e.eq(&w) {
                    return Some(i);
                }
            },
            None => {},
        }
        i = i + 1;
    }
    None
}

/// A repository that keeps the audio of an identifier in the directory of
/// that name under a base directory, as its first `.ogg` file.
pub struct SimpleAudioRepository {
    base_dir: String,
    audio_extension: String,
}

impl View for SimpleAudioRepository {
    type V = RepositoryView;

    closed spec fn view(&self) -> RepositoryView {
        RepositoryView { base_dir: self.base_dir@, audio_extension: self.audio_extension@ }
    }
}

impl SimpleAudioRepository {
    /// A repository under `base_dir` whose audio files end in `.ogg`.
    pub fn new(base_dir: String) -> (r: SimpleAudioRepository)
        ensures
            r@ == (RepositoryView { base_dir: base_dir@, audio_extension: "ogg"@ }),
    {
        SimpleAudioRepository { base_dir, audio_extension: String::from_str("ogg") }
    }

    /// The directory that holds the audio of `id`: an absolute `id` names
    /// it outright, a relative one lies under the base directory.
    pub fn dir_from_id(&self, id: &str) -> (dir: String)
        ensures
            dir@ == joined_path(self@.base_dir, id@),
    {
        join_path(self.base_dir.as_str(), id)
    }

    /// The position of the first of `paths`, the entries of directory `dir`
    /// in the order they were listed, that has the audio extension.
    pub fn first_audio_file_in_dir(&self, dir: &str, paths: &Vec<String>) -> (r: Result<usize, RepositoryError>)
        ensures
            r matches Ok(i) ==> is_first_match(extensions_of(paths@), self@.audio_extension, i as int),
            r matches Err(RepositoryError::NoAudioFiles(d)) ==> d@ == dir@
                && no_match(extensions_of(paths@), self@.audio_extension),
    {
        let mut extensions: Vec<Option<String>> = Vec::new();
        let mut k: usize = 0;
        while k < paths.len()
            invariant
                k <= paths.len(),
                extensions@.len() == k,
                forall|j: int| 0 <= j < k ==> opt_string_view(#[trigger] extensions@[j]) == path_extension_of(paths@[j]@),
            decreases paths.len() - k,
        {
            let e = extension_of(paths[k].as_str());
            extensions.push(e);
            k = k + 1;
        }
        assert(extensions@.map_values(|e: Option<String>| opt_string_view(e)) =~= extensions_of(paths@));
        match first_with_extension(&extensions, self.audio_extension.as_str()) {
            Some(i) => {
                Ok(i)
            },
            None => Err(RepositoryError::NoAudioFiles(dir.to_string())),
        }
    }

    /// The path of the README file that marks the stub directory of `id`.
    pub fn readme_path_for_id(&self, id: &str) -> (p: String)
        ensures
            p@ == joined_path(joined_path(self@.base_dir, id@), "README.md"@),
    {
        let dir = self.dir_from_id(id);
        join_path(dir.as_str(), "README.md")
    }
}

/// A joined path ends with the path that was joined; a relative one lies
/// under the base, which the joined path starts with, followed by a
/// separator wherever the base is not empty.
pub proof fn lemma_joined_path_keeps_both_parts(base: Seq<char>, rel: Seq<char>)
    ensures
        ({
            let j = joined_path(base, rel);
            &&& j.len() >= rel.len()
            &&& j.subrange(j.len() - rel.len(), j.len() as int) == rel
            &&& !is_absolute(rel) ==> j.len() >= base.len() && j.subrange(0, base.len() as int) == base
            &&& !is_absolute(rel) && base.len() > 0 ==> j[j.len() - rel.len() - 1] == '/'
            &&& is_absolute(rel) ==> j == rel
        }),
{
    let j = joined_path(base, rel);
    if !is_absolute(rel) {
        if base.len() == 0 || base.last() == '/' {
            assert(j == base + rel);
            assert(j.subrange(j.len() - rel.len(), j.len() as int) =~= rel);
            assert(j.subrange(0, base.len() as int) =~= base);
        } else {
            assert(j == base + seq!['/'] + rel);
            assert(j.subrange(j.len() - rel.len(), j.len() as int) =~= rel);
            assert(j.subrange(0, base.len() as int) =~= base);
        }
    } else {
        assert(j.subrange(j.len() - rel.len(), j.len() as int) =~= rel);
    }
}

} // verus!
