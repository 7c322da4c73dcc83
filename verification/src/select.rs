//! The selector: one file of a directory per calendar day, in rotation.

use crate::clock::local_day_of_year;
use vstd::prelude::*;

verus! {

/// The position chosen on day `day_of_year` among `count` candidates:
/// the day of the year modulo the number of candidates.
pub open spec fn selection_index(day_of_year: nat, count: nat) -> nat
    recommends
        count > 0,
{
    day_of_year % count
}

/// The file chosen for one day, with the listing and the day that led to it.
#[derive(Debug, PartialEq, Eq)]
pub struct Selection {
    /// The candidates, in the order of the listing.
    pub files: Vec<String>,
    /// The day of the year that was used, counted from one.
    pub day_of_year: u32,
    /// The position of the chosen file among the candidates, counted from
    /// zero.
    pub index: usize,
    /// The chosen file.
    pub path: String,
}

impl Selection {
    /// There are candidates, the index is the one that the day and their
    /// number determine, and the path is the candidate at that index.
    pub open spec fn wf(&self) -> bool {
        &&& self.files.len() > 0
        &&& self.index == selection_index(self.day_of_year as nat, self.files.len() as nat)
        &&& self.path@ == self.files[self.index as int]@
    }

    /// This selection is the choice among `files` on day `day_of_year`.
    pub open spec fn picks(&self, files: Seq<Seq<char>>, day_of_year: nat) -> bool {
        &&& self.wf()
        &&& self.files.deep_view() == files
        &&& self.day_of_year == day_of_year
    }
}

/// `c` is one of the characters that glob reads as syntax: `?`, `*`, `[`
/// and `]`.
pub open spec fn is_glob_syntax(c: char) -> bool {
    c == '?' || c == '*' || c == '[' || c == ']'
}

/// `text` as a glob pattern that matches `text` itself and nothing else: each
/// character that glob reads as syntax stands in brackets, every other
/// character stays as it is.
pub open spec fn glob_escaped(text: Seq<char>) -> Seq<char>
    decreases text.len(),
{
    if text.len() == 0 {
        Seq::empty()
    } else if is_glob_syntax(text.last()) {
        glob_escaped(text.drop_last()) + seq!['[', text.last(), ']']
    } else {
        glob_escaped(text.drop_last()).push(text.last())
    }
}

/// The glob pattern that matches every direct entry of the directory that
/// the pattern `folder` matches.
pub open spec fn listing_pattern(folder: Seq<char>) -> Seq<char> {
    folder + seq!['/', '*']
}

/// The paths of a listing, in order, without the entries that could not be
/// read.
pub open spec fn readable(entries: Seq<Option<String>>) -> Seq<Seq<char>> {
    entries.filter(|e: Option<String>| e is Some).map_values(|e: Option<String>| e->0@)
}

/// Picks the file for day `day_of_year` from `files`, which are taken in the
/// order given. An empty listing yields no file.
pub fn select(files: Vec<String>, day_of_year: u32) -> (r: Option<Selection>)
    ensures
        files.len() == 0 <==> r is None,
        r matches Some(s) ==> s.picks(files.deep_view(), day_of_year as nat),
{
    let count = files.len();
    if count == 0 {
        None
    } else {
        let index = day_of_year as usize % count;
        let path = files[index].clone();
        Some(Selection { files, day_of_year, index, path })
    }
}

/// Keeps the paths of a listing and drops the entries that could not be read.
pub fn readable_paths(entries: &Vec<Option<String>>) -> (files: Vec<String>)
    ensures
        files.deep_view() == readable(entries@),
{
    let mut files: Vec<String> = Vec::new();
    let mut i: usize = 0;
    while i < entries.len()
        invariant
            i <= entries.len(),
            files.deep_view() == readable(entries@.take(i as int)),
        decreases entries.len() - i,
    {
        proof {
            broadcast use Seq::lemma_filter_push;
            assert(entries@.take(i + 1) == entries@.take(i as int).push(entries@[i as int]));
        }
        match &entries[i] {
            Some(path) => {
                files.push(path.clone());
                assert(readable(entries@.take(i + 1)) == readable(entries@.take(i as int)).push(
                    path@,
                ));
            },
            None => {},
        }
        i += 1;
    }
    assert(entries@.take(i as int) == entries@);
    files
}

/// Picks the file for day `day_of_year` from a directory listing: the choice
/// among the entries that could be read, in the order of the listing.
pub fn select_from_listing(
    entries: &Vec<Option<String>>,
    day_of_year: u32,
) -> (r: Option<Selection>)
    ensures
        readable(entries@).len() == 0 <==> r is None,
        r matches Some(s) ==> s.picks(readable(entries@), day_of_year as nat),
{
    select(readable_paths(entries), day_of_year)
}

/// glob's `PatternError`, the error of a pattern that does not parse. It is
/// carried through as it is; nothing is read from it.
#[verifier::external_type_specification]
#[verifier::external_body]
pub struct ExPatternError(glob::PatternError);

/// Escapes `text` with `glob::Pattern::escape`. Trusted: as glob's source
/// shows, each of `?`, `*`, `[` and `]` is put in brackets and every other
/// character is copied, in order.
#[verifier::external_body]
fn escape_glob_syntax(text: &str) -> (escaped: String)
    ensures
        escaped@ == glob_escaped(text@),
{
    glob::Pattern::escape(text)
}

/// Whether `glob::glob` takes `pattern`: whether the text parses as a glob
/// pattern, as a whole and path component by path component. glob settles
/// this from the text of the pattern, with the path separators of the
/// platform that it is built for, before it looks at the disk. Its grammar
/// is not written out here.
pub uninterp spec fn glob_accepts(pattern: Seq<char>) -> bool;

/// Lists what matches `pattern` on disk with `glob::glob`, one item for each
/// one that the iterator yields and in its order: the path as text, or
/// nothing for an entry that glob reports as unreadable. Trusted. glob
/// refuses a pattern that does not parse with its `PatternError`, and fails in
/// no other way: that is all that is claimed. Nothing is claimed of the
/// entries, which depend on what is on disk.
#[verifier::external_body]
fn glob_entries(pattern: &str) -> (r: Result<Vec<Option<String>>, glob::PatternError>)
    ensures
        r is Ok <==> glob_accepts(pattern@),
{
    let paths = glob::glob(pattern)?;
    Ok(paths.map(|entry| entry.ok().map(|path| path.to_string_lossy().into_owned())).collect())
}

/// Picks today's file from the direct entries of the directory `folder`.
///
/// The name of the directory is read as it is written: characters that glob
/// reads as syntax are escaped before the listing pattern is built, so the
/// pattern handed to glob is the escaped name followed by `/*`. Should glob
/// refuse that pattern, there is no file.
///
/// The directory is listed as it is now and the day of the year is read from
/// the local clock, so the contract states what holds of every outcome: a
/// chosen file comes with the listing and the day that led to it, the day is a
/// day of the year, the index is the day modulo the number of candidates, and
/// the file is the candidate at that index. An empty, missing or unreadable
/// directory yields no file.
pub fn get_next_file(folder: &str) -> (r: Option<Selection>)
    ensures
        !glob_accepts(listing_pattern(glob_escaped(folder@))) ==> r is None,
        r matches Some(s) ==> s.wf() && 1 <= s.day_of_year <= 366,
{
    let pattern = escape_glob_syntax(folder).concat("/*");
    proof {
        reveal_strlit("/*");
        assert(pattern@ == listing_pattern(glob_escaped(folder@)));
    }
    match glob_entries(pattern.as_str()) {
        Ok(entries) => select_from_listing(&entries, local_day_of_year()),
        Err(_) => None,
    }
}

/// A name without glob syntax is its own pattern: escaping changes nothing.
pub proof fn plain_name_is_its_own_pattern(text: Seq<char>)
    requires
        forall|i: int| 0 <= i < text.len() ==> !is_glob_syntax(#[trigger] text[i]),
    ensures
        glob_escaped(text) == text,
    decreases text.len(),
{
    if text.len() > 0 {
        plain_name_is_its_own_pattern(text.drop_last());
        assert(text.drop_last().push(text.last()) == text);
    }
}

/// The choice is a function of the listing and the day: two selections made
/// from the same non-empty listing on the same day name the same position,
/// the day modulo the number of files, and the same file.
pub proof fn selection_is_determined(
    files: Seq<Seq<char>>,
    day_of_year: nat,
    a: Selection,
    b: Selection,
)
    requires
        a.picks(files, day_of_year),
        b.picks(files, day_of_year),
    ensures
        a.index == day_of_year % files.len(),
        a.index == b.index,
        a.path@ == files[a.index as int],
        a.path@ == b.path@,
{
    assert(0 <= day_of_year % files.len() < files.len()) by (nonlinear_arith)
        requires
            files.len() > 0,
    ;
}

/// Rotation: from one day to the next the chosen position advances by one
/// and wraps at the number of files.
pub proof fn selection_rotates(day_of_year: nat, count: nat)
    requires
        count > 0,
    ensures
        selection_index(day_of_year + 1, count) == (selection_index(day_of_year, count) + 1)
            % count,
{
    vstd::arithmetic::div_mod::lemma_add_mod_noop(day_of_year as int, 1, count as int);
    if count > 1 {
        vstd::arithmetic::div_mod::lemma_small_mod(1, count);
    }
}

} // verus!
