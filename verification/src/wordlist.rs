//! Wordlist resolution.
//!
//! A wordlist is a plain-text file in the configured wordlist directory.
//! Whenever the operator asks for or changes the selection, the directory
//! is listed afresh — never cached — and only readable regular files with
//! Unicode names are offered.  The surrounding process reads the directory
//! and hands the raw entries here as plain values.

use vstd::prelude::*;
use crate::text::strip_prefix_of;

verus! {

/// One entry of a directory listing, as far as the process could read it.
#[derive(Debug, Clone, PartialEq, Eq)]
pub enum DirEntry {
    /// The entry or its metadata could not be read.
    Unreadable,
    /// A readable entry: whether it is a regular file, and its name when
    /// the name is valid Unicode.
    Entry { is_file: bool, name: Option<String> },
}

/// The snapshot handed back for a wordlist query: the names on offer and
/// the current selection.
#[derive(Debug, Clone, PartialEq, Eq)]
pub struct Wordlist {
    pub options: Vec<String>,
    pub current: Option<String>,
}

/// The name begins with a dot, marking the file as hidden.
pub open spec fn spec_hidden(name: Seq<char>) -> bool {
    name.len() > 0 && name.first() == '.'
}

/// Whether a directory entry is offered as an option: it was readable, is
/// a regular file, has a Unicode name, and, when hidden files are skipped,
/// does not begin with a dot.
pub open spec fn spec_offered(e: DirEntry, skip_hidden: bool) -> bool {
    match e {
        DirEntry::Unreadable => false,
        DirEntry::Entry { is_file, name } => is_file && name is Some && (skip_hidden
            ==> !spec_hidden(name->Some_0@)),
    }
}

/// The name an offered entry contributes.
pub open spec fn spec_entry_name(e: DirEntry) -> Seq<char> {
    match e {
        DirEntry::Unreadable => Seq::empty(),
        DirEntry::Entry { is_file: _, name } => if name is Some {
            name->Some_0@
        } else {
            Seq::empty()
        },
    }
}

/// The names that a run of directory entries offers, in order.
pub open spec fn spec_listing(entries: Seq<DirEntry>, skip_hidden: bool) -> Seq<Seq<char>>
    decreases entries.len(),
{
    if entries.len() == 0 {
        Seq::empty()
    } else if spec_offered(entries.first(), skip_hidden) {
        seq![spec_entry_name(entries.first())] + spec_listing(entries.drop_first(), skip_hidden)
    } else {
        spec_listing(entries.drop_first(), skip_hidden)
    }
}

/// Appending one entry extends the listing by its name exactly when the
/// entry is offered.
pub proof fn lemma_listing_push(entries: Seq<DirEntry>, e: DirEntry, skip_hidden: bool)
    ensures
        spec_listing(entries.push(e), skip_hidden) == if spec_offered(e, skip_hidden) {
            spec_listing(entries, skip_hidden).push(spec_entry_name(e))
        } else {
            spec_listing(entries, skip_hidden)
        },
    decreases entries.len(),
{
    let pushed = entries.push(e);
    if entries.len() == 0 {
        assert(pushed.first() == e);
        assert(pushed.drop_first() =~= Seq::<DirEntry>::empty());
        assert(spec_listing(pushed.drop_first(), skip_hidden) =~= Seq::<Seq<char>>::empty());
        if spec_offered(e, skip_hidden) {
            assert(spec_listing(pushed, skip_hidden) =~= seq![spec_entry_name(e)]);
            assert(spec_listing(entries, skip_hidden).push(spec_entry_name(e))
                =~= seq![spec_entry_name(e)]);
        } else {
            assert(spec_listing(pushed, skip_hidden) =~= Seq::<Seq<char>>::empty());
            assert(spec_listing(entries, skip_hidden) =~= Seq::<Seq<char>>::empty());
        }
    } else {
        assert(pushed.first() == entries.first());
        assert(pushed.drop_first() =~= entries.drop_first().push(e));
        lemma_listing_push(entries.drop_first(), e, skip_hidden);
        if spec_offered(e, skip_hidden) {
            if spec_offered(entries.first(), skip_hidden) {
                assert(seq![spec_entry_name(entries.first())] + spec_listing(
                    entries.drop_first(),
                    skip_hidden,
                ).push(spec_entry_name(e)) =~= (seq![spec_entry_name(entries.first())]
                    + spec_listing(entries.drop_first(), skip_hidden)).push(spec_entry_name(e)));
            }
        }
    }
}

/// Whether the file name begins with a dot.
fn is_hidden_name(name: &String) -> (r: bool)
    ensures
        r == spec_hidden(name@),
{
    let stripped = strip_prefix_of(name.as_str(), ".");
    proof {
        reveal_strlit(".");
        assert("."@ =~= seq!['.']);
        if name@.len() > 0 && name@.first() == '.' {
            assert(name@.subrange(0, 1) =~= seq!['.']);
        }
        if name@.len() >= 1 && name@.subrange(0, 1) == "."@ {
            assert(name@.subrange(0, 1)[0] == name@[0]);
        }
    }
    match stripped {
        Some(_) => true,
        None => false,
    }
}

/// The names of the entries that are offered, in order.
fn listed_names(entries: &Vec<DirEntry>, skip_hidden: bool) -> (names: Vec<String>)
    ensures
        names.deep_view() == spec_listing(entries@, skip_hidden),
{
    let mut names: Vec<String> = Vec::new();
    let mut i: usize = 0;
    while i < entries.len()
        invariant
            i <= entries.len(),
            names.deep_view() == spec_listing(entries@.take(i as int), skip_hidden),
        decreases entries.len() - i,
    {
        proof {
            assert(entries@.take(i + 1) =~= entries@.take(i as int).push(entries@[i as int]));
            lemma_listing_push(entries@.take(i as int), entries@[i as int], skip_hidden);
        }
        match &entries[i] {
            DirEntry::Unreadable => {},
            DirEntry::Entry { is_file, name } => {
                if *is_file {
                    if let Some(n) = name {
                        if !(skip_hidden && is_hidden_name(n)) {
                            names.push(n.clone());
                        }
                    }
                }
            },
        }
        i = i + 1;
    }
    proof {
        assert(entries@.take(entries@.len() as int) =~= entries@);
    }
    names
}

/// The wordlist options a directory offers: readable regular files with
/// Unicode names, in listing order.
pub fn list_wordlists(entries: &Vec<DirEntry>) -> (names: Vec<String>)
    ensures
        names.deep_view() == spec_listing(entries@, false),
{
    listed_names(entries, false)
}

/// Like [`list_wordlists`], but additionally skipping hidden files, whose
/// names begin with a dot.
pub fn list_directory(entries: &Vec<DirEntry>) -> (names: Vec<String>)
    ensures
        names.deep_view() == spec_listing(entries@, true),
{
    listed_names(entries, true)
}

/// `name` is one of the offered options.
pub open spec fn contains_name(options: Seq<Seq<char>>, name: Seq<char>) -> bool {
    exists|i: int| 0 <= i < options.len() && options[i] == name
}

/// Whether `name` occurs among `options`.
pub fn name_in_options(options: &Vec<String>, name: &String) -> (r: bool)
    ensures
        r == contains_name(options.deep_view(), name@),
{
    let mut i: usize = 0;
    while i < options.len()
        invariant
            i <= options.len(),
            forall|k: int| 0 <= k < i ==> options.deep_view()[k] != name@,
        decreases options.len() - i,
    {
        if options[i].eq(name) {
            proof {
                assert(options.deep_view()[i as int] == name@);
            }
            return true;
        }
        i = i + 1;
    }
    false
}

} // verus!
