//! The registry of environments: one directory per environment, directly
//! under the root.

use crate::notice::{Notice, NoticeView, Tone};
use crate::text::{lemma_texts_push, texts};
use vstd::prelude::*;

verus! {

/// What kind of thing a directory entry is.
#[derive(Clone, Copy, Debug, PartialEq, Eq, Structural)]
pub enum EntryKind {
    Directory,
    /// A file, a link or anything else that is no directory.
    Other,
    /// The kind could not be found out.
    Unknown,
}

/// One entry of the root directory, as far as it could be read.
#[derive(Clone, Debug, PartialEq, Eq)]
pub struct DirEntry {
    /// The name of the entry; `None` where it is not valid Unicode or the
    /// entry could not be read at all.
    pub name: Option<String>,
    pub kind: EntryKind,
}

/// The mathematical value of a [`DirEntry`].
pub struct DirEntryView {
    pub name: Option<Seq<char>>,
    pub kind: EntryKind,
}

impl View for DirEntry {
    type V = DirEntryView;

    open spec fn view(&self) -> DirEntryView {
        DirEntryView {
            name: match self.name {
                Some(name) => Some(name@),
                None => None,
            },
            kind: self.kind,
        }
    }
}

impl DeepView for DirEntry {
    type V = DirEntryView;

    open spec fn deep_view(&self) -> DirEntryView {
        self@
    }
}

/// Whether an entry stands for an environment: a directory with a readable
/// name.
pub open spec fn is_environment(entry: DirEntryView) -> bool {
    entry.kind is Directory && entry.name is Some
}

/// The names of the environments among `entries`, in the order of the
/// entries.
pub open spec fn names_of(entries: Seq<DirEntryView>) -> Seq<Seq<char>>
    decreases entries.len(),
{
    if entries.len() == 0 {
        Seq::empty()
    } else {
        let before = names_of(entries.drop_last());
        if is_environment(entries.last()) {
            before.push(entries.last().name->0)
        } else {
            before
        }
    }
}

/// The names that a reading of the root gives: those of its environments,
/// and none where the root could not be read.
pub open spec fn listed(read: Option<Seq<DirEntryView>>) -> Seq<Seq<char>> {
    match read {
        Some(entries) => names_of(entries),
        None => Seq::empty(),
    }
}

/// One status line per name, in order.
pub open spec fn name_lines(names: Seq<Seq<char>>) -> Seq<NoticeView> {
    Seq::new(names.len(), |i: int| NoticeView { tone: Tone::Success, text: names[i] })
}

/// The status lines that report a reading of the root.
pub open spec fn listing_lines(read: Option<Seq<DirEntryView>>) -> Seq<NoticeView> {
    let header = NoticeView { tone: Tone::Info, text: "Listing virtual environments"@ };
    match read {
        None => seq![
            header,
            NoticeView { tone: Tone::Failure, text: "Error reading virtual environments directory"@ },
        ],
        Some(entries) => if names_of(entries).len() == 0 {
            seq![header, NoticeView { tone: Tone::Warning, text: "No virtual environments found"@ }]
        } else {
            seq![header] + name_lines(names_of(entries))
        },
    }
}

/// The names of the environments among the entries of the root, in the
/// order of the entries. Entries that are no directories, and entries
/// whose name or kind could not be read, are left out.
pub fn list_names(entries: &Vec<DirEntry>) -> (names: Vec<String>)
    ensures
        texts(names@) == names_of(entries.deep_view()),
{
    let mut names: Vec<String> = Vec::new();
    let mut i: usize = 0;
    assert(texts(names@) =~= Seq::empty());
    assert(entries.deep_view().take(0) =~= Seq::empty());
    while i < entries.len()
        invariant
            i <= entries.len(),
            texts(names@) == names_of(entries.deep_view().take(i as int)),
        decreases entries.len() - i,
    {
        proof {
            let all = entries.deep_view();
            assert(all.take(i + 1).drop_last() =~= all.take(i as int));
            assert(all.take(i + 1).last() == entries@[i as int]@);
        }
        let entry = &entries[i];
        match (&entry.name, entry.kind) {
            (Some(name), EntryKind::Directory) => {
                proof {
                    lemma_texts_push(names@, *name);
                }
                names.push(name.clone());
            },
            _ => {},
        }
        i += 1;
    }
    assert(entries.deep_view().take(entries.len() as int) =~= entries.deep_view());
    names
}

/// What a listing came to.
#[derive(Clone, Debug, PartialEq, Eq)]
pub struct Listing {
    /// The names of the environments, in the order in which the file system
    /// gave them.
    pub names: Vec<String>,
    /// The status lines to show, in order; none for a quiet listing.
    pub notices: Vec<Notice>,
}

/// Makes a listing of what was read of the root: `None` stands for a root
/// that could not be read, which gives no names and is no error.
pub fn listing(verbose: bool, read: &Option<Vec<DirEntry>>) -> (listing: Listing)
    ensures
        texts(listing.names@) == listed(read.deep_view()),
        listing.notices.deep_view() == if verbose {
            listing_lines(read.deep_view())
        } else {
            Seq::empty()
        },
{
    let mut notices: Vec<Notice> = Vec::new();
    if verbose {
        notices.push(Notice::new(Tone::Info, "Listing virtual environments"));
    }
    match read {
        None => {
            if verbose {
                notices.push(
                    Notice::new(Tone::Failure, "Error reading virtual environments directory"),
                );
                assert(notices.deep_view() =~= listing_lines(read.deep_view()));
            } else {
                assert(notices.deep_view() =~= Seq::empty());
            }
            let names: Vec<String> = Vec::new();
            assert(texts(names@) =~= Seq::empty());
            Listing { names, notices }
        },
        Some(entries) => {
            let names = list_names(entries);
            if !verbose {
                assert(notices.deep_view() =~= Seq::empty());
            } else if names.len() == 0 {
                notices.push(Notice::new(Tone::Warning, "No virtual environments found"));
                assert(notices.deep_view() =~= listing_lines(read.deep_view()));
            } else {
                let ghost header = notices.deep_view();
                let mut i: usize = 0;
                assert(name_lines(texts(names@)).take(0) =~= Seq::empty());
                assert(notices.deep_view() =~= header + name_lines(texts(names@)).take(0));
                while i < names.len()
                    invariant
                        i <= names.len(),
                        notices.deep_view() == header + name_lines(texts(names@)).take(i as int),
                    decreases names.len() - i,
                {
                    let ghost shown = notices.deep_view();
                    let line = Notice::new(Tone::Success, names[i].as_str());
                    notices.push(line);
                    proof {
                        let lines = name_lines(texts(names@));
                        assert(lines.take(i + 1) =~= lines.take(i as int).push(line@));
                        assert(notices.deep_view() =~= shown.push(line@));
                        assert(notices.deep_view() =~= header + lines.take(i + 1));
                    }
                    i += 1;
                }
                assert(name_lines(texts(names@)).take(names.len() as int) =~= name_lines(
                    texts(names@),
                ));
                assert(header =~= seq![
                    NoticeView { tone: Tone::Info, text: "Listing virtual environments"@ },
                ]);
            }
            Listing { names, notices }
        },
    }
}

} // verus!
