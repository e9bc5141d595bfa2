//! Directory listings: the entries' flags and their order, and the home
//! directory.
use vstd::prelude::*;

use crate::pty::{home_directory, lower_of, lowercase};
use crate::records::FileEntry;

verus! {

/// A name is hidden when it starts with a dot.
pub open spec fn hidden_name(name: Seq<char>) -> bool {
    name.len() > 0 && name[0] == '.'
}

/// The listing entry for a file or directory.
pub fn file_entry(name: String, path: String, is_dir: bool) -> (r: FileEntry)
    ensures
        r.name@ == name@,
        r.path@ == path@,
        r.is_dir == is_dir,
        r.is_hidden == hidden_name(name@),
{
    let is_hidden = name.as_str().unicode_len() > 0 && name.as_str().get_char(0) == '.';
    FileEntry { name, path, is_dir, is_hidden }
}

/// The current user's home directory.
pub fn get_home_dir() -> (r: Result<String, String>)
    ensures
        r matches Err(e) ==> e@ == "Could not determine home directory"@,
{
    match home_directory() {
        Some(home) => Ok(home),
        None => Err(String::from_str("Could not determine home directory")),
    }
}

/// Text order: by character code, a prefix before its extensions (the
/// order of Rust strings, since UTF-8 keeps the order of code points).
pub open spec fn text_le(a: Seq<char>, b: Seq<char>) -> bool
    decreases a.len(),
{
    if a.len() == 0 {
        true
    } else if b.len() == 0 {
        false
    } else if a[0] != b[0] {
        (a[0] as u32) <= (b[0] as u32)
    } else {
        text_le(a.drop_first(), b.drop_first())
    }
}

/// Of two texts, one comes no later than the other.
pub proof fn lemma_text_le_total(a: Seq<char>, b: Seq<char>)
    ensures
        text_le(a, b) || text_le(b, a),
    decreases a.len(),
{
    if a.len() > 0 && b.len() > 0 {
        if a[0] == b[0] {
            lemma_text_le_total(a.drop_first(), b.drop_first());
        }
    }
}

/// Whether text `a` comes no later than text `b`.
pub fn text_le_exec(a: &str, b: &str) -> (r: bool)
    ensures
        r == text_le(a@, b@),
{
    let na = a.unicode_len();
    let nb = b.unicode_len();
    let mut i: usize = 0;
    assert(a@.skip(0) =~= a@ && b@.skip(0) =~= b@);
    while i < na && i < nb
        invariant
            na == a@.len(),
            nb == b@.len(),
            i <= na,
            i <= nb,
            text_le(a@, b@) == text_le(a@.skip(i as int), b@.skip(i as int)),
        decreases na - i,
    {
        let ca = a.get_char(i);
        let cb = b.get_char(i);
        assert(a@.skip(i as int)[0] == ca && b@.skip(i as int)[0] == cb);
        if ca != cb {
            return (ca as u32) <= (cb as u32);
        }
        assert(a@.skip(i as int).drop_first() =~= a@.skip(i + 1));
        assert(b@.skip(i as int).drop_first() =~= b@.skip(i + 1));
        i = i + 1;
    }
    na <= nb
}

/// Listing order: directories before files, then by lowercased name.
pub open spec fn listed_before(a: FileEntry, b: FileEntry) -> bool {
    if a.is_dir != b.is_dir {
        a.is_dir
    } else {
        text_le(lower_of(a.name@), lower_of(b.name@))
    }
}

/// Whether entry `a` goes no later than entry `b`, given their lowercased
/// names.
fn goes_before(a: &FileEntry, a_key: &str, b: &FileEntry, b_key: &str) -> (r: bool)
    requires
        a_key@ == lower_of(a.name@),
        b_key@ == lower_of(b.name@),
    ensures
        r == listed_before(*a, *b),
{
    if a.is_dir != b.is_dir {
        a.is_dir
    } else {
        text_le_exec(a_key, b_key)
    }
}

/// A directory listing in listing order.
pub fn sort_entries(entries: Vec<FileEntry>) -> (r: Vec<FileEntry>)
    ensures
        r@.to_multiset() =~= entries@.to_multiset(),
        forall|i: int| 0 <= i < r@.len() - 1 ==> listed_before(#[trigger] r@[i], r@[i + 1]),
{
    broadcast use vstd::seq_lib::group_to_multiset_ensures;
    let ghost all = entries@;
    let mut rest = entries;
    let mut out: Vec<FileEntry> = Vec::new();
    let mut keys: Vec<String> = Vec::new();
    while rest.len() > 0
        invariant
            out@.to_multiset().add(rest@.to_multiset()) =~= all.to_multiset(),
            keys@.len() == out@.len(),
            forall|j: int| 0 <= j < out@.len() ==> (#[trigger] keys@[j])@ == lower_of(out@[j].name@),
            forall|j: int| 0 <= j < out@.len() - 1 ==> listed_before(#[trigger] out@[j], out@[j + 1]),
        decreases rest@.len(),
    {
        let ghost before = rest@;
        let e = rest.remove(0);
        assert(before.remove(0) =~= rest@);
        proof {
            vstd::seq_lib::to_multiset_remove(before, 0);
            vstd::seq_lib::to_multiset_contains(before, e);
            assert(before.contains(e)) by {
                assert(before[0] == e);
            }
        }
        let key = lowercase(e.name.as_str());
        let mut p: usize = out.len();
        while p > 0 && !goes_before(&out[p - 1], keys[p - 1].as_str(), &e, key.as_str())
            invariant
                p <= out@.len(),
                keys@.len() == out@.len(),
                forall|j: int| 0 <= j < out@.len() ==> (#[trigger] keys@[j])@ == lower_of(out@[j].name@),
                forall|j: int| p <= j < out@.len() ==> !listed_before(#[trigger] out@[j], e),
                key@ == lower_of(e.name@),
            decreases p,
        {
            p = p - 1;
        }
        proof {
            if p < out@.len() {
                assert(!listed_before(out@[p as int], e));
                lemma_text_le_total(lower_of(out@[p as int].name@), lower_of(e.name@));
                assert(listed_before(e, out@[p as int]));
            }
            vstd::seq_lib::to_multiset_insert(out@, p as int, e);
        }
        let ghost old_out = out@;
        out.insert(p, e);
        keys.insert(p, key);
        assert forall|j: int| 0 <= j < out@.len() - 1 implies listed_before(#[trigger] out@[j], out@[j + 1]) by {
            if j < p - 1 {
                assert(out@[j] == old_out[j] && out@[j + 1] == old_out[j + 1]);
            } else if j > p {
                assert(out@[j] == old_out[j - 1] && out@[j + 1] == old_out[j]);
            }
        }
        assert forall|j: int| 0 <= j < out@.len() implies (#[trigger] keys@[j])@ == lower_of(out@[j].name@) by {
            if j < p {
                assert(out@[j] == old_out[j]);
            } else if j > p {
                assert(out@[j] == old_out[j - 1]);
            }
        }
    }
    out
}

} // verus!
