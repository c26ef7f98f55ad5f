//! A snapshot of the files of a project: which paths exist, what they hold,
//! and what the directories list. Detection and planning read only this.
use vstd::prelude::*;
use crate::text::{chars_of, eq_str, views};

verus! {

/// One probed path of the project, relative to its root.
#[derive(Debug)]
pub struct ProjectFile {
    /// Path relative to the project root (e.g. `package.json`, `config/routes.rb`).
    pub path: String,
    /// The file's text, or `None` when the file exists but could not be read as text.
    pub content: Option<String>,
}

/// The entry names of one directory of the project.
#[derive(Debug)]
pub struct DirListing {
    /// Directory relative to the project root (`.` for the root).
    pub dir: String,
    /// Names of the entries in that directory, in listing order.
    pub entries: Vec<String>,
}

/// What is known about a project on disk. A path that is not among `files` is
/// taken not to be a regular file, and a directory that is not among
/// `listings` lists nothing.
#[derive(Debug)]
pub struct ProjectFiles {
    /// Root path of the project, as given.
    pub root: String,
    /// Whether the root path exists.
    pub exists: bool,
    /// The regular files found at the probed paths.
    pub files: Vec<ProjectFile>,
    /// Directory listings.
    pub listings: Vec<DirListing>,
}

pub struct ProjectView {
    pub root: Seq<char>,
    pub exists: bool,
    pub files: Seq<(Seq<char>, Option<Seq<char>>)>,
    pub listings: Seq<(Seq<char>, Seq<Seq<char>>)>,
}

pub open spec fn content_view(c: Option<String>) -> Option<Seq<char>> {
    match c {
        Some(s) => Some(s@),
        None => None,
    }
}

impl View for ProjectFiles {
    type V = ProjectView;

    open spec fn view(&self) -> ProjectView {
        ProjectView {
            root: self.root@,
            exists: self.exists,
            files: self.files@.map_values(|f: ProjectFile| (f.path@, content_view(f.content))),
            listings: self.listings@.map_values(|d: DirListing| (d.dir@, views(d.entries@))),
        }
    }
}

/// The first record for `path`: `Some(content)` when the file exists.
pub open spec fn file_record(files: Seq<(Seq<char>, Option<Seq<char>>)>, path: Seq<char>) -> Option<
    Option<Seq<char>>,
>
    decreases files.len(),
{
    if files.len() == 0 {
        None
    } else if files[0].0 == path {
        Some(files[0].1)
    } else {
        file_record(files.drop_first(), path)
    }
}

/// Whether `path` is a regular file of the project.
pub open spec fn has(p: ProjectView, path: Seq<char>) -> bool {
    file_record(p.files, path) is Some
}

/// The text of `path`, when it exists and reads as text.
pub open spec fn text(p: ProjectView, path: Seq<char>) -> Option<Seq<char>> {
    match file_record(p.files, path) {
        Some(Some(c)) => Some(c),
        _ => None,
    }
}

/// The first listing recorded for `dir`.
pub open spec fn listing(ls: Seq<(Seq<char>, Seq<Seq<char>>)>, dir: Seq<char>) -> Seq<Seq<char>>
    decreases ls.len(),
{
    if ls.len() == 0 {
        Seq::empty()
    } else if ls[0].0 == dir {
        ls[0].1
    } else {
        listing(ls.drop_first(), dir)
    }
}

/// `root` joined with a relative `name`.
pub open spec fn joined(root: Seq<char>, name: Seq<char>) -> Seq<char> {
    if root.len() > 0 && root.last() == '/' {
        root + name
    } else {
        root + "/"@ + name
    }
}

impl ProjectFiles {
    /// The first record for `path`, as an index into `files`.
    fn record_index(&self, path: &str) -> (r: Option<usize>)
        ensures
            r matches Some(i) ==> i < self@.files.len() && file_record(self@.files, path@) == Some(
                self@.files[i as int].1,
            ),
            r is None ==> file_record(self@.files, path@) is None,
    {
        let ghost fs = self@.files;
        let mut i: usize = 0;
        assert(fs.skip(0) =~= fs);
        while i < self.files.len()
            invariant
                i <= fs.len(),
                fs == self@.files,
                file_record(fs, path@) == file_record(fs.skip(i as int), path@),
            decreases fs.len() - i,
        {
            proof {
                assert(fs.skip(i as int)[0] == fs[i as int]);
                assert(fs.skip(i as int).drop_first() =~= fs.skip(i + 1));
            }
            if eq_str(self.files[i].path.as_str(), path) {
                return Some(i);
            }
            i = i + 1;
        }
        proof {
            assert(fs.skip(i as int).len() == 0);
        }
        None
    }

    /// Whether `path` is a regular file of the project.
    pub fn has_file(&self, path: &str) -> (b: bool)
        ensures
            b == has(self@, path@),
    {
        proof {
            assert(self@.files.skip(0) =~= self@.files);
        }
        self.record_index(path).is_some()
    }

    /// The text of `path`, when it exists and reads as text.
    pub fn text_of(&self, path: &str) -> (r: Option<&String>)
        ensures
            r is Some <==> text(self@, path@) is Some,
            r matches Some(s) ==> s@ == text(self@, path@)->0,
    {
        proof {
            assert(self@.files.skip(0) =~= self@.files);
        }
        match self.record_index(path) {
            Some(i) => match &self.files[i].content {
                Some(c) => Some(c),
                None => None,
            },
            None => None,
        }
    }

    /// The entries listed for `dir`.
    pub fn entries_of(&self, dir: &str) -> (r: &[String])
        ensures
            views(r@) == listing(self@.listings, dir@),
    {
        let ghost ls = self@.listings;
        let mut i: usize = 0;
        assert(ls.skip(0) =~= ls);
        while i < self.listings.len()
            invariant
                i <= ls.len(),
                ls == self@.listings,
                listing(ls, dir@) == listing(ls.skip(i as int), dir@),
            decreases ls.len() - i,
        {
            proof {
                assert(ls.skip(i as int)[0] == ls[i as int]);
                assert(ls.skip(i as int).drop_first() =~= ls.skip(i + 1));
            }
            if eq_str(self.listings[i].dir.as_str(), dir) {
                return self.listings[i].entries.as_slice();
            }
            i = i + 1;
        }
        proof {
            assert(ls.skip(i as int).len() == 0);
        }
        let empty: &[String] = &[];
        assert(views(empty@) =~= Seq::<Seq<char>>::empty());
        empty
    }

    /// The root joined with a relative `name`.
    pub fn join(&self, name: &str) -> (r: String)
        ensures
            r@ == joined(self@.root, name@),
    {
        let mut r = self.root.clone();
        let rc = chars_of(self.root.as_str());
        if rc.len() > 0 && rc[rc.len() - 1] == '/' {
            r.append(name);
        } else {
            r.append("/");
            r.append(name);
        }
        r
    }
}

} // verus!

verus! {

/// The index of the last `c` in `s`.
pub open spec fn last_index_of(s: Seq<char>, c: char) -> Option<int>
    decreases s.len(),
{
    if s.len() == 0 {
        None
    } else if s.last() == c {
        Some(s.len() - 1)
    } else {
        last_index_of(s.drop_last(), c)
    }
}

/// The extension of a file name, as `Path::extension` splits it: the part
/// after the last `.`, unless that dot starts the name.
pub open spec fn extension(name: Seq<char>) -> Option<Seq<char>> {
    if name == seq!['.', '.'] {
        None
    } else {
        match last_index_of(name, '.') {
            Some(i) => if i > 0 {
                Some(name.skip(i + 1))
            } else {
                None
            },
            None => None,
        }
    }
}

/// The stem of a file name, as `Path::file_stem` splits it.
pub open spec fn stem(name: Seq<char>) -> Seq<char> {
    if name == seq!['.', '.'] {
        name
    } else {
        match last_index_of(name, '.') {
            Some(i) => if i > 0 {
                name.take(i)
            } else {
                name
            },
            None => name,
        }
    }
}

pub fn last_index(s: &[char], c: char) -> (r: Option<usize>)
    ensures
        match r {
            Some(i) => last_index_of(s@, c) == Some(i as int) && i < s@.len(),
            None => last_index_of(s@, c) is None,
        },
{
    let mut i: usize = s.len();
    assert(s@.take(s@.len() as int) =~= s@);
    while i > 0
        invariant
            i <= s@.len(),
            last_index_of(s@, c) == last_index_of(s@.take(i as int), c),
        decreases i,
    {
        proof {
            assert(s@.take(i as int).drop_last() =~= s@.take(i - 1));
        }
        if s[i - 1] == c {
            return Some(i - 1);
        }
        i = i - 1;
    }
    None
}

fn is_dot_dot(n: &[char]) -> (b: bool)
    ensures
        b == (n@ == seq!['.', '.']),
{
    let r = n.len() == 2 && n[0] == '.' && n[1] == '.';
    if r {
        assert(n@ =~= seq!['.', '.']);
    }
    r
}

/// The extension of a file name (see [`extension`]).
pub fn extension_of(name: &[char]) -> (r: Option<Vec<char>>)
    ensures
        match r {
            Some(e) => extension(name@) == Some(e@),
            None => extension(name@) is None,
        },
{
    if is_dot_dot(name) {
        return None;
    }
    match last_index(name, '.') {
        Some(i) => if i > 0 {
            let n = name.len();
            assert(i < n);
            Some(crate::text::slice(name, i + 1, n))
        } else {
            None
        },
        None => None,
    }
}

/// The stem of a file name (see [`stem`]).
pub fn stem_of(name: &[char]) -> (r: Vec<char>)
    ensures
        r@ == stem(name@),
{
    if is_dot_dot(name) {
        return crate::text::slice(name, 0, name.len());
    }
    match last_index(name, '.') {
        Some(i) => if i > 0 {
            crate::text::slice(name, 0, i)
        } else {
            crate::text::slice(name, 0, name.len())
        },
        None => crate::text::slice(name, 0, name.len()),
    }
}

} // verus!
