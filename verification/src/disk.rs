//! An explicit model of the slice of the file system the store touches: a
//! sequence of (path, content) files, a writability flag standing for the
//! permissions of the location the roots point at, and a lock flag standing
//! for files that exist but cannot be opened. Read and write are verified
//! against this model; moving its bytes to and from a real disk is plain
//! I/O glue outside the library.

use vstd::prelude::*;

verus! {

/// The first file content stored under `path`, if any.
pub open spec fn find_entry(entries: Seq<(Seq<char>, Seq<char>)>, path: Seq<char>) -> Option<
    Seq<char>,
>
    decreases entries.len(),
{
    if entries.len() == 0 {
        None
    } else if entries[0].0 == path {
        Some(entries[0].1)
    } else {
        find_entry(entries.drop_first(), path)
    }
}

/// `entries` with the first file stored under `path` replaced by `content`;
/// unchanged when no file is stored under `path`.
pub open spec fn put_entry(
    entries: Seq<(Seq<char>, Seq<char>)>,
    path: Seq<char>,
    content: Seq<char>,
) -> Seq<(Seq<char>, Seq<char>)>
    decreases entries.len(),
{
    if entries.len() == 0 {
        entries
    } else if entries[0].0 == path {
        seq![(path, content)] + entries.drop_first()
    } else {
        seq![entries[0]] + put_entry(entries.drop_first(), path, content)
    }
}

pub proof fn lemma_find_entry_at_index(
    entries: Seq<(Seq<char>, Seq<char>)>,
    path: Seq<char>,
    i: int,
)
    requires
        0 <= i < entries.len(),
        entries[i].0 == path,
        forall|j: int| 0 <= j < i ==> entries[j].0 != path,
    ensures
        find_entry(entries, path) == Some(entries[i].1),
    decreases i,
{
    if i > 0 {
        lemma_find_entry_at_index(entries.drop_first(), path, i - 1);
    }
}

pub proof fn lemma_find_entry_absent(entries: Seq<(Seq<char>, Seq<char>)>, path: Seq<char>)
    requires
        forall|j: int| 0 <= j < entries.len() ==> entries[j].0 != path,
    ensures
        find_entry(entries, path) is None,
    decreases entries.len(),
{
    if entries.len() > 0 {
        lemma_find_entry_absent(entries.drop_first(), path);
    }
}

/// Looking a path up after appending a file: an existing file shadows the
/// appended one; otherwise the appended file is found under its path.
pub proof fn lemma_find_entry_push(
    entries: Seq<(Seq<char>, Seq<char>)>,
    pr: (Seq<char>, Seq<char>),
    q: Seq<char>,
)
    ensures
        find_entry(entries.push(pr), q) == (match find_entry(entries, q) {
            Some(c) => Some(c),
            None => if q == pr.0 {
                Some(pr.1)
            } else {
                None
            },
        }),
    decreases entries.len(),
{
    if entries.len() == 0 {
        assert(entries.push(pr)[0] == pr);
        assert(entries.push(pr).drop_first() =~= Seq::<(Seq<char>, Seq<char>)>::empty());
    } else {
        assert(entries.push(pr)[0] == entries[0]);
        assert(entries.push(pr).drop_first() =~= entries.drop_first().push(pr));
        lemma_find_entry_push(entries.drop_first(), pr, q);
    }
}

/// Looking a path up after replacing the file under `path`: `path` now maps
/// to the new content, every other path is untouched; replacement keeps the
/// number of files.
pub proof fn lemma_find_entry_put(
    entries: Seq<(Seq<char>, Seq<char>)>,
    path: Seq<char>,
    content: Seq<char>,
    q: Seq<char>,
)
    ensures
        put_entry(entries, path, content).len() == entries.len(),
        find_entry(put_entry(entries, path, content), q) == (if find_entry(entries, path) is Some
            && q == path {
            Some(content)
        } else {
            find_entry(entries, q)
        }),
    decreases entries.len(),
{
    if entries.len() == 0 {
    } else if entries[0].0 == path {
        let put = seq![(path, content)] + entries.drop_first();
        assert(put[0] == (path, content));
        assert(put.drop_first() =~= entries.drop_first());
    } else {
        let put = seq![entries[0]] + put_entry(entries.drop_first(), path, content);
        assert(put[0] == entries[0]);
        assert(put.drop_first() =~= put_entry(entries.drop_first(), path, content));
        lemma_find_entry_put(entries.drop_first(), path, content, q);
    }
}

/// Replacing the content of a file that was just appended under a fresh path
/// is the same as appending the new content directly.
pub proof fn lemma_put_entry_after_push(
    entries: Seq<(Seq<char>, Seq<char>)>,
    path: Seq<char>,
    c0: Seq<char>,
    c1: Seq<char>,
)
    requires
        find_entry(entries, path) is None,
    ensures
        put_entry(entries.push((path, c0)), path, c1) == entries.push((path, c1)),
    decreases entries.len(),
{
    if entries.len() == 0 {
        assert(entries.push((path, c0))[0] == (path, c0));
        assert(put_entry(entries.push((path, c0)), path, c1) =~= entries.push((path, c1)));
    } else {
        assert(entries.push((path, c0))[0] == entries[0]);
        assert(entries[0].0 != path);
        assert(entries.push((path, c0)).drop_first() =~= entries.drop_first().push((path, c0)));
        lemma_put_entry_after_push(entries.drop_first(), path, c0, c1);
        assert(put_entry(entries.push((path, c0)), path, c1) =~= entries.push((path, c1)));
    }
}

proof fn lemma_put_entry_at_index(
    entries: Seq<(Seq<char>, Seq<char>)>,
    path: Seq<char>,
    content: Seq<char>,
    i: int,
)
    requires
        0 <= i < entries.len(),
        entries[i].0 == path,
        forall|j: int| 0 <= j < i ==> entries[j].0 != path,
    ensures
        put_entry(entries, path, content) == entries.update(i, (path, content)),
    decreases i,
{
    if i == 0 {
        assert(put_entry(entries, path, content) =~= entries.update(0, (path, content)));
    } else {
        assert(entries[0].0 != path);
        assert(entries.drop_first()[i - 1].0 == path);
        lemma_put_entry_at_index(entries.drop_first(), path, content, i - 1);
        assert(entries.update(i, (path, content)).drop_first() =~= entries.drop_first().update(
            i - 1,
            (path, content),
        ));
        assert(put_entry(entries, path, content) =~= entries.update(i, (path, content)));
    }
}

/// What one attempt to open a file for read and write, without creating it,
/// can end in.
pub enum OpenOutcome {
    /// The file exists and was opened; its full content follows.
    Found(String),
    /// No file exists under the path.
    Missing,
    /// The file exists but opening it failed.
    Refused,
}

/// The modelled disk.
pub struct Disk {
    files: Vec<(String, String)>,
    writable: bool,
    locked: bool,
}

impl Disk {
    /// The files on the disk, in the order they were created.
    pub closed spec fn entries(self) -> Seq<(Seq<char>, Seq<char>)> {
        self.files@.map_values(|pr: (String, String)| (pr.0@, pr.1@))
    }

    /// Whether files and directories can be created or written here.
    pub closed spec fn writable(self) -> bool {
        self.writable
    }

    /// Whether opening existing files fails here.
    pub closed spec fn locked(self) -> bool {
        self.locked
    }

    /// The content of the file under `path`, if any.
    pub open spec fn file(self, path: Seq<char>) -> Option<Seq<char>> {
        find_entry(self.entries(), path)
    }

    /// How many files the disk holds.
    pub open spec fn file_count(self) -> nat {
        self.entries().len()
    }

    /// An empty disk that accepts writes and opens.
    pub fn new() -> (d: Disk)
        ensures
            d.entries() == Seq::<(Seq<char>, Seq<char>)>::empty(),
            d.writable(),
            !d.locked(),
    {
        let d = Disk { files: Vec::new(), writable: true, locked: false };
        proof {
            assert(d.entries() =~= Seq::<(Seq<char>, Seq<char>)>::empty());
        }
        d
    }

    /// An empty disk with the given permission flags.
    pub fn new_with(writable: bool, locked: bool) -> (d: Disk)
        ensures
            d.entries() == Seq::<(Seq<char>, Seq<char>)>::empty(),
            d.writable() == writable,
            d.locked() == locked,
    {
        let d = Disk { files: Vec::new(), writable, locked };
        proof {
            assert(d.entries() =~= Seq::<(Seq<char>, Seq<char>)>::empty());
        }
        d
    }

    /// Change whether the disk accepts writes; the files are untouched.
    /// Models permissions changing underneath the store.
    pub fn set_writable(&mut self, writable: bool)
        ensures
            final(self).entries() == old(self).entries(),
            final(self).writable() == writable,
            final(self).locked() == old(self).locked(),
    {
        self.writable = writable;
    }

    /// Change whether opening existing files fails; the files are untouched.
    /// Models permissions changing underneath the store.
    pub fn set_locked(&mut self, locked: bool)
        ensures
            final(self).entries() == old(self).entries(),
            final(self).writable() == old(self).writable(),
            final(self).locked() == locked,
    {
        self.locked = locked;
    }

    /// The index of the file under `path`, scanning from the front.
    fn find_index(&self, path: &String) -> (r: Option<usize>)
        ensures
            match r {
                Some(i) => i < self.files@.len() && self.files@[i as int].0@ == path@ && (forall|
                    j: int,
                |
                    0 <= j < i ==> self.files@[j].0@ != path@) && self.file(path@) == Some(
                    self.files@[i as int].1@,
                ),
                None => self.file(path@) is None,
            },
    {
        let mut i: usize = 0;
        while i < self.files.len()
            invariant
                i <= self.files@.len(),
                forall|j: int| 0 <= j < i ==> self.files@[j].0@ != path@,
            decreases self.files@.len() - i,
        {
            if self.files[i].0.eq(path) {
                proof {
                    assert(self.entries()[i as int] == (
                        self.files@[i as int].0@,
                        self.files@[i as int].1@,
                    ));
                    assert(forall|j: int|
                        0 <= j < i ==> self.entries()[j].0 != path@ && self.entries()[j]
                            == (self.files@[j].0@, self.files@[j].1@));
                    lemma_find_entry_at_index(self.entries(), path@, i as int);
                }
                return Some(i);
            }
            i += 1;
        }
        proof {
            assert(forall|j: int|
                0 <= j < self.entries().len() ==> self.entries()[j] == (
                    self.files@[j].0@,
                    self.files@[j].1@,
                ) && self.entries()[j].0 != path@);
            lemma_find_entry_absent(self.entries(), path@);
        }
        None
    }

    /// One attempt to open the file under `path` for read and write, without
    /// creating it; on success the full content is read along.
    pub fn open_file(&self, path: &String) -> (r: OpenOutcome)
        ensures
            match r {
                OpenOutcome::Found(content) => self.file(path@) == Some(content@)
                    && !self.locked(),
                OpenOutcome::Missing => self.file(path@) is None,
                OpenOutcome::Refused => self.file(path@) is Some && self.locked(),
            },
    {
        match self.find_index(path) {
            None => OpenOutcome::Missing,
            Some(i) => {
                if self.locked {
                    OpenOutcome::Refused
                } else {
                    OpenOutcome::Found(self.files[i].1.clone())
                }
            },
        }
    }

    /// Creating the directory tree `path` points into: idempotent, fails
    /// exactly where the disk refuses writes.
    pub fn create_dir_tree(&self, path: &String) -> (ok: bool)
        ensures
            ok == self.writable(),
    {
        let _ = path;
        self.writable
    }

    /// Store `content` under `path`: replace the existing file or create a
    /// new one. Fails, changing nothing, exactly where the disk refuses
    /// writes.
    pub fn write_file(&mut self, path: &String, content: String) -> (ok: bool)
        ensures
            final(self).writable() == old(self).writable(),
            final(self).locked() == old(self).locked(),
            !old(self).writable() ==> !ok && final(self).entries() == old(self).entries(),
            old(self).writable() ==> ok && final(self).entries() == (if old(self).file(path@)
                is Some {
                put_entry(old(self).entries(), path@, content@)
            } else {
                old(self).entries().push((path@, content@))
            }),
    {
        if !self.writable {
            return false;
        }
        match self.find_index(path) {
            Some(i) => {
                let ghost pre = self.entries();
                self.files[i] = (path.clone(), content);
                proof {
                    lemma_put_entry_at_index(pre, path@, content@, i as int);
                    assert(self.entries() =~= pre.update(i as int, (path@, content@)));
                }
            },
            None => {
                let ghost pre = self.entries();
                self.files.push((path.clone(), content));
                proof {
                    assert(self.entries() =~= pre.push((path@, content@)));
                }
            },
        }
        true
    }

    /// The content of the file under `path`, if any; for looking at the disk
    /// from outside.
    pub fn file_content(&self, path: &String) -> (r: Option<String>)
        ensures
            match r {
                Some(content) => self.file(path@) == Some(content@),
                None => self.file(path@) is None,
            },
    {
        match self.find_index(path) {
            Some(i) => Some(self.files[i].1.clone()),
            None => None,
        }
    }

    /// How many files the disk holds.
    pub fn num_files(&self) -> (n: usize)
        ensures
            n == self.file_count(),
    {
        self.files.len()
    }

    /// Whether files and directories can be created or written here.
    pub fn is_writable(&self) -> (b: bool)
        ensures
            b == self.writable(),
    {
        self.writable
    }

    /// Whether opening existing files fails here.
    pub fn is_locked(&self) -> (b: bool)
        ensures
            b == self.locked(),
    {
        self.locked
    }
}

} // verus!
