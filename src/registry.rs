use vstd::prelude::*;

use crate::message::{FileMessage, FileMessageView};
use crate::text::{decimal, decimal_text};

verus! {

/// Whether no two entries carry the same file name.
pub open spec fn names_unique(s: Seq<FileMessageView>) -> bool {
    forall|i: int, j: int|
        0 <= i < s.len() && 0 <= j < s.len() && i != j ==> #[trigger] s[i].file_name
            != #[trigger] s[j].file_name
}

/// Whether some entry carries the file name `name`.
pub open spec fn has_name(s: Seq<FileMessageView>, name: Seq<char>) -> bool {
    exists|i: int| 0 <= i < s.len() && #[trigger] s[i].file_name == name
}

/// `s` with `f` in place of the entry of the same name, or with `f`
/// appended where there is none.
pub open spec fn upserted(s: Seq<FileMessageView>, f: FileMessageView) -> Seq<FileMessageView> {
    if has_name(s, f.file_name) {
        let i = choose|i: int| 0 <= i < s.len() && #[trigger] s[i].file_name == f.file_name;
        s.update(i, f)
    } else {
        s.push(f)
    }
}

/// The registry built from an empty one by the given files, in order.
pub open spec fn registry_of(files: Seq<FileMessageView>) -> Seq<FileMessageView>
    decreases files.len(),
{
    if files.len() == 0 {
        seq![]
    } else {
        upserted(registry_of(files.drop_last()), files.last())
    }
}

/// One line of a listing: `<uploader>: <size> bytes -> <file name>`.
pub open spec fn listing_line(f: FileMessageView) -> Seq<char> {
    f.username + ": "@ + decimal(f.file_size as nat) + " bytes -> "@ + f.file_name + "\n"@
}

/// The lines of all entries, in order.
pub open spec fn listing(s: Seq<FileMessageView>) -> Seq<char>
    decreases s.len(),
{
    if s.len() == 0 {
        seq![]
    } else {
        listing(s.drop_last()) + listing_line(s.last())
    }
}

/// The entry named `name` in a registry that has one.
pub open spec fn entry_named(s: Seq<FileMessageView>, name: Seq<char>) -> FileMessageView {
    s[choose|i: int| 0 <= i < s.len() && #[trigger] s[i].file_name == name]
}

/// The last of `files` named `name`.
pub open spec fn latest_named(files: Seq<FileMessageView>, name: Seq<char>) -> FileMessageView
    decreases files.len(),
{
    if files.len() == 0 {
        arbitrary()
    } else if files.last().file_name == name {
        files.last()
    } else {
        latest_named(files.drop_last(), name)
    }
}

proof fn lemma_entry_named_at(s: Seq<FileMessageView>, i: int)
    requires
        names_unique(s),
        0 <= i < s.len(),
    ensures
        entry_named(s, s[i].file_name) == s[i],
{
    let name = s[i].file_name;
    assert(has_name(s, name));
    let k = choose|k: int| 0 <= k < s.len() && #[trigger] s[k].file_name == name;
    assert(k == i);
}

/// Building a registry from a sequence of observed files keeps one entry
/// per name; it has an entry for a name exactly when some observed file
/// had it, and that entry is the last such file.
pub proof fn lemma_registry_of(files: Seq<FileMessageView>, name: Seq<char>)
    ensures
        names_unique(registry_of(files)),
        has_name(registry_of(files), name) <==> has_name(files, name),
        has_name(files, name) ==> entry_named(registry_of(files), name) == latest_named(files, name),
        registry_of(files).len() == 0 <==> files.len() == 0,
    decreases files.len(),
{
    if files.len() > 0 {
        let prev = files.drop_last();
        let f = files.last();
        let r = registry_of(prev);
        lemma_registry_of(prev, name);
        lemma_registry_of(prev, f.file_name);
        assert(has_name(files, name) <==> has_name(prev, name) || f.file_name == name) by {
            if has_name(files, name) {
                let j = choose|j: int| 0 <= j < files.len() && #[trigger] files[j].file_name == name;
                if j < prev.len() {
                    assert(prev[j].file_name == name);
                }
            }
            if has_name(prev, name) {
                let j = choose|j: int| 0 <= j < prev.len() && #[trigger] prev[j].file_name == name;
                assert(files[j].file_name == name);
            }
            if f.file_name == name {
                assert(files[files.len() - 1].file_name == name);
            }
        }
        let u = upserted(r, f);
        if has_name(r, f.file_name) {
            let i = choose|i: int| 0 <= i < r.len() && #[trigger] r[i].file_name == f.file_name;
            assert(u == r.update(i, f));
            assert forall|a: int, b: int|
                0 <= a < u.len() && 0 <= b < u.len() && a != b implies #[trigger] u[a].file_name
                != #[trigger] u[b].file_name by {
                assert(u[a].file_name == r[a].file_name);
                assert(u[b].file_name == r[b].file_name);
            }
            assert(has_name(u, name) <==> has_name(r, name)) by {
                if has_name(u, name) {
                    let j = choose|j: int| 0 <= j < u.len() && #[trigger] u[j].file_name == name;
                    assert(r[j].file_name == name);
                }
                if has_name(r, name) {
                    let j = choose|j: int| 0 <= j < r.len() && #[trigger] r[j].file_name == name;
                    assert(u[j].file_name == name);
                }
            }
            if has_name(files, name) {
                if f.file_name == name {
                    lemma_entry_named_at(u, i);
                } else {
                    let j = choose|j: int| 0 <= j < r.len() && #[trigger] r[j].file_name == name;
                    lemma_entry_named_at(r, j);
                    assert(u[j] == r[j]);
                    lemma_entry_named_at(u, j);
                }
            }
        } else {
            assert(u == r.push(f));
            assert forall|a: int, b: int|
                0 <= a < u.len() && 0 <= b < u.len() && a != b implies #[trigger] u[a].file_name
                != #[trigger] u[b].file_name by {
                if a < r.len() && b < r.len() {
                    assert(u[a] == r[a] && u[b] == r[b]);
                } else if a < r.len() {
                    assert(u[a] == r[a]);
                    assert(r[a].file_name != f.file_name);
                } else if b < r.len() {
                    assert(u[b] == r[b]);
                    assert(r[b].file_name != f.file_name);
                }
            }
            assert(has_name(u, name) <==> has_name(r, name) || f.file_name == name) by {
                if has_name(u, name) {
                    let j = choose|j: int| 0 <= j < u.len() && #[trigger] u[j].file_name == name;
                    if j < r.len() {
                        assert(r[j].file_name == name);
                    }
                }
                if has_name(r, name) {
                    let j = choose|j: int| 0 <= j < r.len() && #[trigger] r[j].file_name == name;
                    assert(u[j].file_name == name);
                }
                if f.file_name == name {
                    assert(u[r.len() as int].file_name == name);
                }
            }
            if has_name(files, name) {
                if f.file_name == name {
                    lemma_entry_named_at(u, r.len() as int);
                } else {
                    let j = choose|j: int| 0 <= j < r.len() && #[trigger] r[j].file_name == name;
                    lemma_entry_named_at(r, j);
                    assert(u[j] == r[j]);
                    lemma_entry_named_at(u, j);
                }
            }
        }
    }
}

/// A connection's own catalogue of files: for each file name, the most
/// recent file message with that name that the connection has observed.
pub struct FileRegistry {
    entries: Vec<FileMessage>,
}

impl View for FileRegistry {
    type V = Seq<FileMessageView>;

    closed spec fn view(&self) -> Seq<FileMessageView> {
        self.entries@.map_values(|f: FileMessage| f@)
    }
}

impl FileRegistry {
    pub open spec fn wf(&self) -> bool {
        names_unique(self@)
    }

    /// An empty registry.
    pub fn new() -> (r: FileRegistry)
        ensures
            r.wf(),
            r@ == Seq::<FileMessageView>::empty(),
    {
        let r = FileRegistry { entries: Vec::new() };
        assert(r@ =~= Seq::<FileMessageView>::empty());
        r
    }

    /// The number of entries.
    pub fn len(&self) -> (r: usize)
        ensures
            r == self@.len(),
    {
        self.entries.len()
    }

    /// The position of the entry named `name`, if there is one.
    fn position(&self, name: &String) -> (r: Option<usize>)
        requires
            self.wf(),
        ensures
            r matches Some(i) ==> i < self@.len() && self@[i as int].file_name == name@,
            r is None ==> !has_name(self@, name@),
    {
        let mut i: usize = 0;
        while i < self.entries.len()
            invariant
                i <= self.entries@.len(),
                forall|j: int| 0 <= j < i ==> self@[j].file_name != name@,
            decreases self.entries@.len() - i,
        {
            if self.entries[i].file_name == *name {
                return Some(i);
            }
            i = i + 1;
        }
        None
    }

    /// The entry named `name`, if there is one.
    pub fn lookup(&self, name: &String) -> (r: Option<&FileMessage>)
        requires
            self.wf(),
        ensures
            r is Some <==> has_name(self@, name@),
            r matches Some(f) ==> exists|i: int|
                0 <= i < self@.len() && #[trigger] self@[i] == f@ && f@.file_name == name@,
    {
        match self.position(name) {
            Some(i) => Some(&self.entries[i]),
            None => None,
        }
    }

    /// Records `f`, replacing the entry of the same name if there is one.
    pub fn upsert(&mut self, f: FileMessage)
        requires
            old(self).wf(),
        ensures
            final(self).wf(),
            final(self)@ == upserted(old(self)@, f@),
    {
        let ghost fv = f@;
        match self.position(&f.file_name) {
            Some(i) => {
                self.entries.set(i, f);
                assert(self@ =~= old(self)@.update(i as int, fv));
            },
            None => {
                self.entries.push(f);
                assert(self@ =~= old(self)@.push(fv));
            },
        }
    }

    /// One line per entry, in order: uploader, declared size and file name.
    pub fn listing(&self) -> (r: String)
        ensures
            r@ == listing(self@),
    {
        let mut out = String::new();
        let mut i: usize = 0;
        while i < self.entries.len()
            invariant
                i <= self.entries@.len(),
                out@ == listing(self@.subrange(0, i as int)),
            decreases self.entries@.len() - i,
        {
            let f = &self.entries[i];
            out.append(f.username.as_str());
            out.append(": ");
            let size = decimal_text(f.file_size as u64);
            out.append(size.as_str());
            out.append(" bytes -> ");
            out.append(f.file_name.as_str());
            out.append("\n");
            assert(self@.subrange(0, i + 1).drop_last() =~= self@.subrange(0, i as int));
            i = i + 1;
        }
        assert(self@.subrange(0, self@.len() as int) =~= self@);
        out
    }
}

} // verus!
