//! The file list offered by `@` mentions: a breadth-first walk of the
//! working directory that skips hidden and build directories, stops five
//! levels down and after 500 files, and returns the relative paths sorted.
//! The walk decides; the caller lists each directory it is asked for.
use vstd::prelude::*;
use crate::sort::{sort_texts, sorted_texts};
use crate::text::{string_from_str, text_equals, views};

verus! {

/// The most files a mention list holds.
pub const MAX_MENTION_FILES: usize = 500;

/// How many directory levels the walk goes down.
pub const MAX_MENTION_DEPTH: usize = 5;

/// Directories that hold tooling or build output rather than sources.
pub open spec fn excluded_dir(name: Seq<char>) -> bool {
    name == ".git"@ || name == "target"@ || name == "node_modules"@ || name == "__pycache__"@ || name
        == ".cargo"@ || name == ".next"@ || name == ".nuxt"@ || name == "dist"@ || name == "build"@ || name
        == "out"@ || name == ".cache"@ || name == "vendor"@ || name == ".venv"@ || name == "venv"@ || name
        == "env"@
}

/// The walk enters a directory unless it is excluded or hidden.
pub open spec fn descend_into(name: Seq<char>) -> bool {
    !excluded_dir(name) && !(name.len() > 0 && name[0] == '.')
}

/// Tells whether the walk enters a directory of this name.
pub fn should_descend(name: &str) -> (b: bool)
    ensures
        b == descend_into(name@),
{
    let excluded = text_equals(name, ".git") || text_equals(name, "target") || text_equals(name, "node_modules")
        || text_equals(name, "__pycache__") || text_equals(name, ".cargo") || text_equals(name, ".next")
        || text_equals(name, ".nuxt") || text_equals(name, "dist") || text_equals(name, "build")
        || text_equals(name, "out") || text_equals(name, ".cache") || text_equals(name, "vendor")
        || text_equals(name, ".venv") || text_equals(name, "venv") || text_equals(name, "env");
    if excluded {
        return false;
    }
    let cs = crate::text::chars_of(name);
    !(cs.len() > 0 && cs[0] == '.')
}

/// An entry of a listed directory: its name, its path, whether it is a
/// directory or a file, and its path relative to the walk's root (none when
/// it could not be made relative).
pub struct DirEntry {
    pub name: String,
    pub path: String,
    pub is_dir: bool,
    pub is_file: bool,
    pub relative: Option<String>,
}

/// A directory entry as the contracts see it.
pub struct EntryView {
    pub name: Seq<char>,
    pub path: Seq<char>,
    pub is_dir: bool,
    pub is_file: bool,
    pub relative: Option<Seq<char>>,
}

pub open spec fn entry_view(e: DirEntry) -> EntryView {
    EntryView {
        name: e.name@,
        path: e.path@,
        is_dir: e.is_dir,
        is_file: e.is_file,
        relative: match e.relative {
            Some(r) => Some(r@),
            None => None,
        },
    }
}

pub open spec fn entries_view(v: Seq<DirEntry>) -> Seq<EntryView> {
    v.map_values(|e: DirEntry| entry_view(e))
}

/// Takes a listed directory at `depth` into the walk, entry by entry:
/// directories to enter join the queue one level deeper, files join the
/// list, and the walk ends as soon as the list is full.
pub open spec fn scan_entries(
    queue: Seq<(Seq<char>, nat)>,
    files: Seq<Seq<char>>,
    depth: nat,
    entries: Seq<EntryView>,
) -> (Seq<(Seq<char>, nat)>, Seq<Seq<char>>, bool)
    decreases entries.len(),
{
    if entries.len() == 0 {
        (queue, files, false)
    } else {
        let e = entries[0];
        let rest = entries.drop_first();
        if e.is_dir {
            if descend_into(e.name) {
                scan_entries(queue.push((e.path, depth + 1)), files, depth, rest)
            } else {
                scan_entries(queue, files, depth, rest)
            }
        } else if e.is_file {
            match e.relative {
                Some(r) => if files.len() + 1 >= MAX_MENTION_FILES {
                    (queue, files.push(r), true)
                } else {
                    scan_entries(queue, files.push(r), depth, rest)
                },
                None => scan_entries(queue, files, depth, rest),
            }
        } else {
            scan_entries(queue, files, depth, rest)
        }
    }
}

/// The paths of the files among the entries that the list takes: those
/// with a path relative to the root, in order.
pub open spec fn file_paths(entries: Seq<EntryView>) -> Seq<Seq<char>>
    decreases entries.len(),
{
    if entries.len() == 0 {
        Seq::empty()
    } else {
        let e = entries[0];
        let rest = file_paths(entries.drop_first());
        if !e.is_dir && e.is_file && e.relative is Some {
            seq![e.relative.unwrap()] + rest
        } else {
            rest
        }
    }
}

/// The directories among the entries that the walk enters, one level
/// below `depth`, in order.
pub open spec fn entered_dirs(entries: Seq<EntryView>, depth: nat) -> Seq<(Seq<char>, nat)>
    decreases entries.len(),
{
    if entries.len() == 0 {
        Seq::empty()
    } else {
        let e = entries[0];
        let rest = entered_dirs(entries.drop_first(), depth);
        if e.is_dir && descend_into(e.name) {
            seq![(e.path, depth + 1)] + rest
        } else {
            rest
        }
    }
}

/// Taking a listing into the walk misses nothing: unless the list fills
/// up, every file of the listing with a relative path joins the list and
/// every directory to enter joins the queue, both in listing order; when it
/// fills up, the list holds exactly the limit, its first files in order.
pub proof fn lemma_scan_misses_nothing(queue: Seq<(Seq<char>, nat)>, files: Seq<Seq<char>>, depth: nat, entries: Seq<EntryView>)
    requires
        files.len() < MAX_MENTION_FILES,
    ensures
        !scan_entries(queue, files, depth, entries).2 ==> {
            &&& scan_entries(queue, files, depth, entries).1 == files + file_paths(entries)
            &&& scan_entries(queue, files, depth, entries).0 == queue + entered_dirs(entries, depth)
        },
        scan_entries(queue, files, depth, entries).2 ==> {
            &&& MAX_MENTION_FILES - files.len() <= file_paths(entries).len()
            &&& scan_entries(queue, files, depth, entries).1.len() == MAX_MENTION_FILES
            &&& scan_entries(queue, files, depth, entries).1 == files + file_paths(entries).take(
                MAX_MENTION_FILES - files.len(),
            )
        },
    decreases entries.len(),
{
    if entries.len() == 0 {
        assert(files + Seq::<Seq<char>>::empty() =~= files);
        assert(queue + Seq::<(Seq<char>, nat)>::empty() =~= queue);
    } else {
        let e = entries[0];
        let rest = entries.drop_first();
        if e.is_dir {
            if descend_into(e.name) {
                let q2 = queue.push((e.path, depth + 1));
                lemma_scan_misses_nothing(q2, files, depth, rest);
                assert(q2 + entered_dirs(rest, depth) =~= queue + (seq![(e.path, depth + 1)] + entered_dirs(rest, depth)));
            } else {
                lemma_scan_misses_nothing(queue, files, depth, rest);
            }
        } else if e.is_file {
            match e.relative {
                Some(r) => {
                    let f2 = files.push(r);
                    let fp = file_paths(entries);
                    assert(fp == seq![r] + file_paths(rest));
                    if files.len() + 1 >= MAX_MENTION_FILES {
                        assert(fp.take(MAX_MENTION_FILES - files.len()) =~= seq![r]);
                        assert(f2 =~= files + seq![r]);
                    } else {
                        lemma_scan_misses_nothing(queue, f2, depth, rest);
                        assert(f2 + file_paths(rest) =~= files + fp);
                        if scan_entries(queue, f2, depth, rest).2 {
                            assert(f2 + file_paths(rest).take(MAX_MENTION_FILES - f2.len()) =~= files + fp.take(
                                MAX_MENTION_FILES - files.len(),
                            ));
                        }
                    }
                },
                None => {
                    lemma_scan_misses_nothing(queue, files, depth, rest);
                },
            }
        } else {
            lemma_scan_misses_nothing(queue, files, depth, rest);
        }
    }
}

/// The first queued directory from `head` on that is not too deep.
pub open spec fn next_shallow(queue: Seq<(Seq<char>, nat)>, head: nat) -> Option<nat>
    decreases queue.len() - head,
{
    if head >= queue.len() {
        None
    } else if queue[head as int].1 < MAX_MENTION_DEPTH {
        Some(head)
    } else {
        next_shallow(queue, head + 1)
    }
}

/// The state of a walk: the directories seen so far (those before `head`
/// were listed or skipped), the files found and whether the list is full.
pub struct MentionScan {
    pub queue: Vec<(String, usize)>,
    pub head: usize,
    pub files: Vec<String>,
    pub full: bool,
}

pub open spec fn queue_view(q: Seq<(String, usize)>) -> Seq<(Seq<char>, nat)> {
    q.map_values(|d: (String, usize)| (d.0@, d.1 as nat))
}

impl MentionScan {
    pub open spec fn queued(&self) -> Seq<(Seq<char>, nat)> {
        queue_view(self.queue@)
    }

    pub open spec fn found(&self) -> Seq<Seq<char>> {
        views(self.files@)
    }

    /// The walk's bounds: the head within the queue and at most the file
    /// limit found.
    pub open spec fn wf(&self) -> bool {
        &&& self.head <= self.queue@.len()
        &&& self.files@.len() <= MAX_MENTION_FILES
        &&& (self.full <==> self.files@.len() == MAX_MENTION_FILES)
        &&& forall|i: int| 0 <= i < self.queue@.len() ==> (#[trigger] self.queue@[i]).1 <= MAX_MENTION_DEPTH
    }

    /// A walk that starts at the root directory.
    pub fn new(root: String) -> (s: Self)
        ensures
            s.wf(),
            s.queued() == seq![(root@, 0nat)],
            s.head == 0,
            s.found() == Seq::<Seq<char>>::empty(),
            !s.full,
    {
        let mut queue: Vec<(String, usize)> = Vec::new();
        queue.push((root, 0));
        let s = MentionScan { queue, head: 0, files: Vec::new(), full: false };
        assert(s.queued() =~= seq![(s.queue@[0].0@, 0nat)]);
        assert(s.found() =~= Seq::<Seq<char>>::empty());
        s
    }

    /// The next directory to list and its depth; directories five levels
    /// down are passed over. None when the walk is over.
    pub fn next_dir(&mut self) -> (r: Option<(String, usize)>)
        requires
            old(self).wf(),
        ensures
            final(self).wf(),
            final(self).queued() == old(self).queued(),
            final(self).found() == old(self).found(),
            final(self).full == old(self).full,
            old(self).full ==> r is None,
            !old(self).full ==> match next_shallow(old(self).queued(), old(self).head as nat) {
                Some(k) => r matches Some(d) && d.0@ == old(self).queued()[k as int].0 && d.1 == old(self).queued()[k as int].1
                    && final(self).head == k + 1,
                None => r is None && final(self).head == old(self).queue@.len(),
            },
    {
        if self.full {
            return None;
        }
        let ghost q = self.queued();
        let ghost start = self.head as nat;
        while self.head < self.queue.len()
            invariant
                self.wf(),
                self.queued() == q,
                !self.full,
                start <= self.head,
                next_shallow(q, start) == next_shallow(q, self.head as nat),
                self.found() == old(self).found(),
                self.full == old(self).full,
                q == old(self).queued(),
                start == old(self).head,
            decreases self.queue.len() - self.head,
        {
            let depth = self.queue[self.head].1;
            if depth < MAX_MENTION_DEPTH {
                let dir = self.queue[self.head].0.clone();
                let k = self.head;
                self.head = self.head + 1;
                proof {
                    assert(q[k as int] == (self.queue@[k as int].0@, self.queue@[k as int].1 as nat));
                }
                return Some((dir, depth));
            }
            self.head = self.head + 1;
        }
        None
    }

    /// Takes the listing of a directory at `depth` into the walk. Returns
    /// whether the file list is now full, which ends the walk.
    pub fn add_entries(&mut self, depth: usize, entries: Vec<DirEntry>) -> (full: bool)
        requires
            old(self).wf(),
            !old(self).full,
            depth < MAX_MENTION_DEPTH,
        ensures
            final(self).wf(),
            final(self).head == old(self).head,
            full == final(self).full,
            (final(self).queued(), final(self).found(), final(self).full) == scan_entries(
                old(self).queued(),
                old(self).found(),
                depth as nat,
                entries_view(entries@),
            ),
    {
        let ghost all = entries_view(entries@);
        let mut i: usize = 0;
        assert(all.skip(0) =~= all);
        while i < entries.len()
            invariant
                self.wf(),
                !self.full,
                depth < MAX_MENTION_DEPTH,
                self.head == old(self).head,
                all == entries_view(entries@),
                i <= entries.len(),
                scan_entries(old(self).queued(), old(self).found(), depth as nat, all) == scan_entries(
                    self.queued(),
                    self.found(),
                    depth as nat,
                    all.skip(i as int),
                ),
            decreases entries.len() - i,
        {
            let ghost rest = all.skip(i as int);
            proof {
                assert(rest[0] == entry_view(entries@[i as int]));
                assert(rest.drop_first() =~= all.skip(i + 1));
            }
            let e = &entries[i];
            if e.is_dir {
                if should_descend(e.name.as_str()) {
                    let p = e.path.clone();
                    let ghost before = self.queued();
                    self.queue.push((p, depth + 1));
                    assert(self.queued() =~= before.push((e.path@, depth as nat + 1)));
                }
            } else if e.is_file {
                match &e.relative {
                    Some(r) => {
                        let ghost before = self.found();
                        self.files.push(r.clone());
                        assert(self.found() =~= before.push(r@));
                        if self.files.len() >= MAX_MENTION_FILES {
                            self.full = true;
                            return true;
                        }
                    },
                    None => {},
                }
            }
            i = i + 1;
        }
        proof {
            assert(all.skip(i as int) =~= Seq::<EntryView>::empty());
        }
        false
    }

    /// The files found, sorted.
    pub fn finish(self) -> (r: Vec<String>)
        ensures
            sorted_texts(views(r@)),
            views(r@).to_multiset() == self.found().to_multiset(),
    {
        sort_texts(self.files)
    }
}

} // verus!
