//! From the stored file lists of a profile or an asset to the absolute paths
//! of the files that exist.
//!
//! Looking at the disk is the caller's part. The caller asks
//! `lookup_candidates` which locations matter, finds out which of them exist,
//! and hands the answer back as a `FileSnapshot`.

use vstd::prelude::*;
use crate::bridge::{json_decode_string_array, json_string_array};
use crate::errors::{ValidationError, ValidationErrorView};
use crate::locator::Platform;
use crate::models::opt_text;
use crate::text::{
    append_all, begins_with, blank, chars_of, decimal_digits, decimal_of_u64, file_name_of, is_blank,
    is_path_separator, last_component, replace_char, replaced, slice_of, split, split_on,
    starts_with, string_of, string_views, trim, trimmed, views,
};

verus! {

/// Stored paths that begin so lie below the application's data directory.
pub const APP_RELATIVE_PREFIX: &'static str = "files/";

/// Where authorization documents are kept, below the data directory.
pub const AUTH_DOCS_DIR: &'static str = "files/ip_assets/auth_docs/";

/// Where proofs of ownership are kept, below the data directory.
pub const PROOF_DOCS_DIR: &'static str = "files/ip_assets/proof_docs/";

/// Where identity documents are kept, below the data directory.
pub const ID_CARDS_DIR: &'static str = "files/profiles/id_cards/";

/// What is known of the disk: the platform whose paths it holds, the
/// application's data directory, where there is one, and the paths that were
/// found to exist.
#[derive(Clone, Debug, PartialEq, Eq)]
pub struct FileSnapshot {
    pub platform: Platform,
    pub app_data_dir: Option<String>,
    pub present: Vec<String>,
}

/// A `FileSnapshot` as plain values.
pub struct FileSnapshotView {
    pub platform: Platform,
    pub app_data_dir: Option<Seq<char>>,
    pub present: Seq<Seq<char>>,
}

impl View for FileSnapshot {
    type V = FileSnapshotView;

    open spec fn view(&self) -> FileSnapshotView {
        FileSnapshotView {
            platform: self.platform,
            app_data_dir: opt_text(self.app_data_dir),
            present: string_views(self.present@),
        }
    }
}

// ---------------------------------------------------------------------------
// The model
// ---------------------------------------------------------------------------

/// `rel` below `dir`.
pub open spec fn join_path(dir: Seq<char>, rel: Seq<char>) -> Seq<char> {
    if dir.len() == 0 || is_path_separator(dir.last()) {
        dir + rel
    } else {
        dir + seq!['/'] + rel
    }
}

/// `path` with backslashes for slashes.
pub open spec fn windows_form(path: Seq<char>) -> Seq<char> {
    replaced(path, '/', '\\')
}

/// `path` as the platform writes it: with backslashes for slashes on
/// Windows, and as it stands elsewhere.
pub open spec fn native_form(path: Seq<char>, platform: Platform) -> Seq<char> {
    match platform {
        Platform::Windows => windows_form(path),
        _ => path,
    }
}

/// Each piece without its surrounding whitespace.
pub open spec fn all_trimmed(pieces: Seq<Seq<char>>) -> Seq<Seq<char>> {
    Seq::new(pieces.len(), |i: int| trimmed(pieces[i]))
}

/// The paths that a stored list names. A list that is absent or blank names
/// none; one that starts with `[` is a JSON array of strings; any other is a
/// list of names separated by commas.
pub open spec fn declared_paths(stored: Option<Seq<char>>) -> Result<
    Seq<Seq<char>>,
    ValidationErrorView,
> {
    match stored {
        None => Ok(Seq::empty()),
        Some(text) => {
            if is_blank(text) {
                Ok(Seq::empty())
            } else if begins_with(trimmed(text), seq!['[']) {
                match json_string_array(text) {
                    Ok(paths) => Ok(paths),
                    Err(detail) => Err(ValidationErrorView::MalformedFileList(detail)),
                }
            } else {
                Ok(all_trimmed(split_on(text, ',')))
            }
        },
    }
}

/// The places below the data directory where a file of that name may have
/// been filed, in the order in which they are tried.
pub open spec fn filed_locations(dir: Seq<char>, name: Seq<char>) -> Seq<Seq<char>> {
    seq![
        join_path(dir, AUTH_DOCS_DIR@ + name),
        join_path(dir, PROOF_DOCS_DIR@ + name),
        join_path(dir, ID_CARDS_DIR@ + name),
    ]
}

/// A stored path that is absolute and lies outside the data directory is
/// looked for below the data directory too.
pub open spec fn searches_filed_copy(path: Seq<char>, app_data_dir: Option<Seq<char>>) -> bool {
    &&& !begins_with(path, APP_RELATIVE_PREFIX@)
    &&& app_data_dir matches Some(dir) && !begins_with(path, dir)
    &&& last_component(path).len() > 0
}

/// The locations whose existence decides what `path` resolves to.
pub open spec fn candidates_of(path: Seq<char>, app_data_dir: Option<Seq<char>>) -> Seq<
    Seq<char>,
> {
    if begins_with(path, APP_RELATIVE_PREFIX@) {
        match app_data_dir {
            Some(dir) => seq![join_path(dir, path)],
            None => Seq::empty(),
        }
    } else if searches_filed_copy(path, app_data_dir) {
        seq![path] + filed_locations(app_data_dir->0, last_component(path))
    } else {
        seq![path]
    }
}

/// The first of `locations` that is among `present`.
pub open spec fn first_present(locations: Seq<Seq<char>>, present: Seq<Seq<char>>) -> Option<
    Seq<char>,
>
    decreases locations.len(),
{
    if locations.len() == 0 {
        None
    } else if present.contains(locations[0]) {
        Some(locations[0])
    } else {
        first_present(locations.drop_first(), present)
    }
}

/// What one stored path resolves to, or `None` where the file is missing.
///
/// A path below `files/` is taken relative to the data directory. Any other
/// path is taken as it stands, and must exist; where it lies outside the data
/// directory and a file of the same name has been filed below it, the filed
/// copy is preferred. The result is written as the platform of the snapshot
/// writes paths.
pub open spec fn resolve_one(path: Seq<char>, snapshot: FileSnapshotView) -> Option<Seq<char>> {
    if begins_with(path, APP_RELATIVE_PREFIX@) {
        match snapshot.app_data_dir {
            Some(dir) => if snapshot.present.contains(join_path(dir, path)) {
                Some(native_form(join_path(dir, path), snapshot.platform))
            } else {
                None
            },
            None => None,
        }
    } else if !snapshot.present.contains(path) {
        None
    } else if searches_filed_copy(path, snapshot.app_data_dir) {
        match first_present(
            filed_locations(snapshot.app_data_dir->0, last_component(path)),
            snapshot.present,
        ) {
            Some(filed) => Some(native_form(filed, snapshot.platform)),
            None => Some(native_form(path, snapshot.platform)),
        }
    } else {
        Some(native_form(path, snapshot.platform))
    }
}

/// The resolved paths of those among `paths` that are not blank and whose
/// file exists, in the order of `paths`.
pub open spec fn resolve_all(paths: Seq<Seq<char>>, snapshot: FileSnapshotView) -> Seq<Seq<char>>
    decreases paths.len(),
{
    if paths.len() == 0 {
        Seq::empty()
    } else {
        let before = resolve_all(paths.drop_last(), snapshot);
        if is_blank(paths.last()) {
            before
        } else {
            match resolve_one(paths.last(), snapshot) {
                Some(found) => before.push(found),
                None => before,
            }
        }
    }
}

/// The candidates of all of `paths` that are not blank, in order.
pub open spec fn candidates_of_all(paths: Seq<Seq<char>>, app_data_dir: Option<Seq<char>>) -> Seq<
    Seq<char>,
>
    decreases paths.len(),
{
    if paths.len() == 0 {
        Seq::empty()
    } else {
        let before = candidates_of_all(paths.drop_last(), app_data_dir);
        if is_blank(paths.last()) {
            before
        } else {
            before + candidates_of(paths.last(), app_data_dir)
        }
    }
}

/// The absolute paths that a stored list resolves to.
pub open spec fn absolute_file_paths(stored: Option<Seq<char>>, snapshot: FileSnapshotView)
    -> Result<Seq<Seq<char>>, ValidationErrorView> {
    match declared_paths(stored) {
        Ok(paths) => Ok(resolve_all(paths, snapshot)),
        Err(e) => Err(e),
    }
}

/// The locations that the caller has to look at for a stored list.
pub open spec fn lookup_candidates_of(stored: Option<Seq<char>>, app_data_dir: Option<Seq<char>>)
    -> Result<Seq<Seq<char>>, ValidationErrorView> {
    match declared_paths(stored) {
        Ok(paths) => Ok(candidates_of_all(paths, app_data_dir)),
        Err(e) => Err(e),
    }
}

// ---------------------------------------------------------------------------
// The code
// ---------------------------------------------------------------------------

/// Tests whether `item` is among `list`.
pub fn contains_path(list: &Vec<String>, item: &String) -> (found: bool)
    ensures
        found == string_views(list@).contains(item@),
{
    let mut i: usize = 0;
    while i < list.len()
        invariant
            i <= list.len(),
            forall|j: int| 0 <= j < i ==> string_views(list@)[j] != item@,
        decreases list.len() - i,
    {
        if list[i] == *item {
            assert(string_views(list@)[i as int] == item@);
            return true;
        }
        i = i + 1;
    }
    false
}

/// `rel` below `dir`.
pub fn join(dir: &Vec<char>, rel: &Vec<char>) -> (out: Vec<char>)
    ensures
        out@ == join_path(dir@, rel@),
{
    let mut out: Vec<char> = Vec::new();
    let mut i: usize = 0;
    while i < dir.len()
        invariant
            i <= dir.len(),
            out@ == dir@.take(i as int),
        decreases dir.len() - i,
    {
        out.push(dir[i]);
        assert(dir@.take(i as int).push(dir@[i as int]) =~= dir@.take(i + 1));
        i = i + 1;
    }
    assert(dir@.take(dir.len() as int) =~= dir@);
    if dir.len() > 0 && !(dir[dir.len() - 1] == '/' || dir[dir.len() - 1] == '\\') {
        out.push('/');
        assert(out@ =~= dir@ + seq!['/']);
    }
    let ghost head = out@;
    let mut k: usize = 0;
    while k < rel.len()
        invariant
            k <= rel.len(),
            out@ == head + rel@.take(k as int),
        decreases rel.len() - k,
    {
        out.push(rel[k]);
        assert((head + rel@.take(k as int)).push(rel@[k as int]) =~= head + rel@.take(k + 1));
        k = k + 1;
    }
    assert(rel@.take(rel.len() as int) =~= rel@);
    out
}

/// `tail` behind the text of `head`.
fn literal_then(head: &str, tail: &Vec<char>) -> (out: Vec<char>)
    ensures
        out@ == head@ + tail@,
{
    let mut out = chars_of(head);
    let mut k: usize = 0;
    while k < tail.len()
        invariant
            k <= tail.len(),
            out@ == head@ + tail@.take(k as int),
        decreases tail.len() - k,
    {
        out.push(tail[k]);
        assert((head@ + tail@.take(k as int)).push(tail@[k as int]) =~= head@ + tail@.take(
            k + 1,
        ));
        k = k + 1;
    }
    assert(tail@.take(tail.len() as int) =~= tail@);
    out
}

/// Reads a stored list.
pub fn parse_declared_paths(stored: &Option<String>) -> (r: Result<Vec<String>, ValidationError>)
    ensures
        match r {
            Ok(paths) => declared_paths(opt_text(*stored)) == Ok::<
                Seq<Seq<char>>,
                ValidationErrorView,
            >(string_views(paths@)),
            Err(e) => declared_paths(opt_text(*stored)) == Err::<
                Seq<Seq<char>>,
                ValidationErrorView,
            >(e@),
        },
{
    let text = match stored {
        Some(text) => text,
        None => {
            let none: Vec<String> = Vec::new();
            assert(string_views(none@) =~= Seq::<Seq<char>>::empty());
            return Ok(none);
        },
    };
    let chars = chars_of(text.as_str());
    let core = trim(&chars);
    if core.len() == 0 {
        let none: Vec<String> = Vec::new();
        assert(string_views(none@) =~= Seq::<Seq<char>>::empty());
        return Ok(none);
    }
    if core[0] == '[' {
        assert(trimmed(text@).subrange(0, 1) =~= seq!['[']);
        return match json_decode_string_array(text.as_str()) {
            Ok(paths) => Ok(paths),
            Err(detail) => Err(ValidationError::MalformedFileList(detail)),
        };
    }
    assert(!begins_with(trimmed(text@), seq!['['])) by {
        if begins_with(trimmed(text@), seq!['[']) {
            assert(trimmed(text@).subrange(0, 1)[0] == '[');
        }
    }
    let pieces = split(&chars, ',');
    let mut out: Vec<String> = Vec::new();
    let mut i: usize = 0;
    while i < pieces.len()
        invariant
            i <= pieces.len(),
            views(pieces@) == split_on(text@, ','),
            string_views(out@) == all_trimmed(split_on(text@, ',')).take(i as int),
        decreases pieces.len() - i,
    {
        let piece = trim(&pieces[i]);
        let s = string_of(&piece);
        proof {
            let all = all_trimmed(split_on(text@, ','));
            assert(views(pieces@)[i as int] == pieces@[i as int]@);
            assert(string_views(out@.push(s)) =~= string_views(out@).push(s@));
            assert(all.take(i as int).push(all[i as int]) =~= all.take(i + 1));
        }
        out.push(s);
        i = i + 1;
    }
    proof {
        let all = all_trimmed(split_on(text@, ','));
        assert(all.take(pieces.len() as int) =~= all);
    }
    Ok(out)
}

/// Tests whether `path` is also looked for below the data directory.
fn wants_filed_copy(path: &Vec<char>, app_data_dir: &Option<String>) -> (b: bool)
    ensures
        b == searches_filed_copy(path@, opt_text(*app_data_dir)),
{
    let prefix = chars_of(APP_RELATIVE_PREFIX);
    if starts_with(path, &prefix) {
        return false;
    }
    match app_data_dir {
        Some(dir) => {
            let dir_chars = chars_of(dir.as_str());
            if starts_with(path, &dir_chars) {
                false
            } else {
                file_name_of(path).len() > 0
            }
        },
        None => false,
    }
}

/// The three places where a file named `name` may have been filed.
fn filed_copies(dir: &Vec<char>, name: &Vec<char>) -> (out: Vec<String>)
    ensures
        string_views(out@) == filed_locations(dir@, name@),
{
    let auth = string_of(&join(dir, &literal_then(AUTH_DOCS_DIR, name)));
    let proof_docs = string_of(&join(dir, &literal_then(PROOF_DOCS_DIR, name)));
    let cards = string_of(&join(dir, &literal_then(ID_CARDS_DIR, name)));
    let mut out: Vec<String> = Vec::new();
    out.push(auth);
    out.push(proof_docs);
    out.push(cards);
    assert(string_views(out@) =~= filed_locations(dir@, name@));
    out
}

/// The locations whose existence decides what `path` resolves to.
pub fn candidates(path: &str, app_data_dir: &Option<String>) -> (out: Vec<String>)
    ensures
        string_views(out@) == candidates_of(path@, opt_text(*app_data_dir)),
{
    let chars = chars_of(path);
    let prefix = chars_of(APP_RELATIVE_PREFIX);
    let mut out: Vec<String> = Vec::new();
    if starts_with(&chars, &prefix) {
        match app_data_dir {
            Some(dir) => {
                let joined = string_of(&join(&chars_of(dir.as_str()), &chars));
                out.push(joined);
                assert(string_views(out@) =~= seq![join_path(dir@, path@)]);
            },
            None => {
                assert(string_views(out@) =~= Seq::<Seq<char>>::empty());
            },
        }
        out
    } else if wants_filed_copy(&chars, app_data_dir) {
        let dir = match app_data_dir {
            Some(dir) => chars_of(dir.as_str()),
            None => Vec::new(),
        };
        let copies = filed_copies(&dir, &file_name_of(&chars));
        out.push(string_of(&chars));
        let mut i: usize = 0;
        while i < copies.len()
            invariant
                i <= copies.len(),
                string_views(out@) == seq![path@] + string_views(copies@).take(i as int),
            decreases copies.len() - i,
        {
            let copy = copies[i].clone();
            proof {
                let all = string_views(copies@);
                assert(string_views(out@.push(copy)) =~= string_views(out@).push(copy@));
                assert((seq![path@] + all.take(i as int)).push(all[i as int]) =~= seq![path@]
                    + all.take(i + 1));
            }
            out.push(copy);
            i = i + 1;
        }
        assert(string_views(copies@).take(copies.len() as int) =~= string_views(copies@));
        out
    } else {
        out.push(string_of(&chars));
        assert(string_views(out@) =~= seq![path@]);
        out
    }
}

/// The first of `locations` that the snapshot holds.
fn first_found(locations: &Vec<String>, present: &Vec<String>) -> (r: Option<usize>)
    ensures
        match r {
            Some(i) => i < locations.len() && first_present(
                string_views(locations@),
                string_views(present@),
            ) == Some(locations@[i as int]@),
            None => first_present(string_views(locations@), string_views(present@)) is None,
        },
{
    let mut i: usize = 0;
    assert(string_views(locations@).skip(0) =~= string_views(locations@));
    while i < locations.len()
        invariant
            i <= locations.len(),
            first_present(string_views(locations@), string_views(present@)) == first_present(
                string_views(locations@).skip(i as int),
                string_views(present@),
            ),
        decreases locations.len() - i,
    {
        proof {
            let rest = string_views(locations@).skip(i as int);
            assert(rest[0] == locations@[i as int]@);
            assert(rest.drop_first() =~= string_views(locations@).skip(i + 1));
        }
        if contains_path(present, &locations[i]) {
            return Some(i);
        }
        i = i + 1;
    }
    None
}

/// Writes `path` as the platform writes it.
pub fn to_native(path: &Vec<char>, platform: Platform) -> (out: String)
    ensures
        out@ == native_form(path@, platform),
{
    match platform {
        Platform::Windows => string_of(&replace_char(path, '/', '\\')),
        _ => string_of(path),
    }
}

/// What one stored path resolves to.
pub fn resolve_path(path: &str, snapshot: &FileSnapshot) -> (r: Option<String>)
    ensures
        opt_text(r) == resolve_one(path@, snapshot@),
{
    let chars = chars_of(path);
    let prefix = chars_of(APP_RELATIVE_PREFIX);
    if starts_with(&chars, &prefix) {
        match &snapshot.app_data_dir {
            Some(dir) => {
                let joined = join(&chars_of(dir.as_str()), &chars);
                if contains_path(&snapshot.present, &string_of(&joined)) {
                    Some(to_native(&joined, snapshot.platform))
                } else {
                    None
                }
            },
            None => None,
        }
    } else if !contains_path(&snapshot.present, &string_of(&chars)) {
        None
    } else if wants_filed_copy(&chars, &snapshot.app_data_dir) {
        let dir = match &snapshot.app_data_dir {
            Some(dir) => chars_of(dir.as_str()),
            None => Vec::new(),
        };
        let copies = filed_copies(&dir, &file_name_of(&chars));
        match first_found(&copies, &snapshot.present) {
            Some(i) => {
                let filed = chars_of(copies[i].as_str());
                Some(to_native(&filed, snapshot.platform))
            },
            None => Some(to_native(&chars, snapshot.platform)),
        }
    } else {
        Some(to_native(&chars, snapshot.platform))
    }
}

/// Resolves a stored list against what is known of the disk: the absolute
/// paths of the listed files that exist, written as the platform writes
/// them, in the order of the list. Blank entries and missing files are left
/// out.
pub fn get_absolute_file_paths(stored: &Option<String>, snapshot: &FileSnapshot) -> (r: Result<
    Vec<String>,
    ValidationError,
>)
    ensures
        match r {
            Ok(paths) => absolute_file_paths(opt_text(*stored), snapshot@) == Ok::<
                Seq<Seq<char>>,
                ValidationErrorView,
            >(string_views(paths@)),
            Err(e) => absolute_file_paths(opt_text(*stored), snapshot@) == Err::<
                Seq<Seq<char>>,
                ValidationErrorView,
            >(e@),
        },
{
    let declared = match parse_declared_paths(stored) {
        Ok(declared) => declared,
        Err(e) => {
            return Err(e);
        },
    };
    let mut out: Vec<String> = Vec::new();
    let mut i: usize = 0;
    assert(string_views(declared@).take(0) =~= Seq::<Seq<char>>::empty());
    assert(string_views(out@) =~= Seq::<Seq<char>>::empty());
    while i < declared.len()
        invariant
            i <= declared.len(),
            string_views(out@) == resolve_all(string_views(declared@).take(i as int), snapshot@),
        decreases declared.len() - i,
    {
        proof {
            let all = string_views(declared@);
            assert(all.take(i + 1).drop_last() =~= all.take(i as int));
            assert(all.take(i + 1).last() == declared@[i as int]@);
        }
        if !blank(&chars_of(declared[i].as_str())) {
            if let Some(found) = resolve_path(declared[i].as_str(), snapshot) {
                assert(string_views(out@.push(found)) =~= string_views(out@).push(found@));
                out.push(found);
            }
        }
        i = i + 1;
    }
    assert(string_views(declared@).take(declared.len() as int) =~= string_views(declared@));
    Ok(out)
}

/// The locations that the caller has to look at before a stored list can be
/// resolved, in the order of the list.
pub fn lookup_candidates(stored: &Option<String>, app_data_dir: &Option<String>) -> (r: Result<
    Vec<String>,
    ValidationError,
>)
    ensures
        match r {
            Ok(paths) => lookup_candidates_of(opt_text(*stored), opt_text(*app_data_dir)) == Ok::<
                Seq<Seq<char>>,
                ValidationErrorView,
            >(string_views(paths@)),
            Err(e) => lookup_candidates_of(opt_text(*stored), opt_text(*app_data_dir)) == Err::<
                Seq<Seq<char>>,
                ValidationErrorView,
            >(e@),
        },
{
    let declared = match parse_declared_paths(stored) {
        Ok(declared) => declared,
        Err(e) => {
            return Err(e);
        },
    };
    let mut out: Vec<String> = Vec::new();
    let mut i: usize = 0;
    assert(string_views(declared@).take(0) =~= Seq::<Seq<char>>::empty());
    assert(string_views(out@) =~= Seq::<Seq<char>>::empty());
    while i < declared.len()
        invariant
            i <= declared.len(),
            string_views(out@) == candidates_of_all(
                string_views(declared@).take(i as int),
                opt_text(*app_data_dir),
            ),
        decreases declared.len() - i,
    {
        proof {
            let all = string_views(declared@);
            assert(all.take(i + 1).drop_last() =~= all.take(i as int));
            assert(all.take(i + 1).last() == declared@[i as int]@);
        }
        if !blank(&chars_of(declared[i].as_str())) {
            append_all(&mut out, candidates(declared[i].as_str(), app_data_dir));
        }
        i = i + 1;
    }
    assert(string_views(declared@).take(declared.len() as int) =~= string_views(declared@));
    Ok(out)
}

// ---------------------------------------------------------------------------
// Looking at the disk
// ---------------------------------------------------------------------------

/// Those of `candidates` whose look at the disk found something, in order.
pub open spec fn found_among(candidates: Seq<Seq<char>>, found: Seq<bool>) -> Seq<Seq<char>>
    decreases candidates.len(),
{
    if candidates.len() == 0 {
        Seq::empty()
    } else {
        let before = found_among(candidates.drop_last(), found);
        if candidates.len() <= found.len() && found[candidates.len() - 1] {
            before.push(candidates.last())
        } else {
            before
        }
    }
}

/// Keeps those of `candidates` whose look at the disk found something;
/// `found` holds the outcome for each candidate, in the same order.
pub fn present_among(candidates: &Vec<String>, found: &Vec<bool>) -> (present: Vec<String>)
    ensures
        string_views(present@) == found_among(string_views(candidates@), found@),
{
    let mut present: Vec<String> = Vec::new();
    let mut i: usize = 0;
    assert(string_views(candidates@).take(0) =~= Seq::<Seq<char>>::empty());
    assert(string_views(present@) =~= Seq::<Seq<char>>::empty());
    while i < candidates.len()
        invariant
            i <= candidates.len(),
            string_views(present@) == found_among(string_views(candidates@).take(i as int), found@),
        decreases candidates.len() - i,
    {
        proof {
            let all = string_views(candidates@);
            assert(all.take(i + 1).drop_last() =~= all.take(i as int));
            assert(all.take(i + 1).last() == candidates@[i as int]@);
        }
        if i < found.len() && found[i] {
            let item = candidates[i].clone();
            assert(string_views(present@.push(item)) =~= string_views(present@).push(item@));
            present.push(item);
        }
        i = i + 1;
    }
    assert(string_views(candidates@).take(candidates.len() as int) =~= string_views(candidates@));
    present
}

/// Two lists of existing paths say the same of every one of `locations`.
pub open spec fn agree_on(a: Seq<Seq<char>>, b: Seq<Seq<char>>, locations: Seq<Seq<char>>) -> bool {
    forall|i: int|
        0 <= i < locations.len() ==> a.contains(#[trigger] locations[i]) == b.contains(
            locations[i],
        )
}

/// What is kept of the candidates says of each candidate what the looks at
/// the disk said; so it agrees, on the candidates, with every list of
/// existing paths that the looks were true to.
pub proof fn lemma_found_among_agrees(
    candidates: Seq<Seq<char>>,
    found: Seq<bool>,
    disk: Seq<Seq<char>>,
)
    requires
        found.len() == candidates.len(),
        forall|i: int| 0 <= i < candidates.len() ==> found[i] == disk.contains(candidates[i]),
    ensures
        forall|x: Seq<char>|
            found_among(candidates, found).contains(x) <==> candidates.contains(x)
                && disk.contains(x),
        agree_on(found_among(candidates, found), disk, candidates),
    decreases candidates.len(),
{
    let kept = found_among(candidates, found);
    if candidates.len() == 0 {
        assert forall|x: Seq<char>| kept.contains(x) <==> candidates.contains(x) && disk.contains(
            x,
        ) by {}
    } else {
        let shorter = candidates.drop_last();
        let fewer = found.drop_last();
        let before = found_among(shorter, found);
        lemma_found_among_ignores_the_rest(shorter, found, fewer);
        lemma_found_among_agrees(shorter, fewer, disk);
        let last = candidates.last();
        let n = candidates.len() - 1;
        assert(before == found_among(shorter, fewer));
        assert forall|x: Seq<char>| kept.contains(x) <==> candidates.contains(x) && disk.contains(
            x,
        ) by {
            assert(before.contains(x) <==> shorter.contains(x) && disk.contains(x));
            if kept.contains(x) {
                let k = choose|k: int| 0 <= k < kept.len() && kept[k] == x;
                if found[n] && k == kept.len() - 1 {
                    assert(x == last);
                    assert(candidates[n] == x);
                    assert(disk.contains(candidates[n]));
                } else {
                    assert(before[k] == x);
                    assert(before.contains(x));
                    let j = choose|j: int| 0 <= j < shorter.len() && shorter[j] == x;
                    assert(candidates[j] == x);
                }
            }
            if candidates.contains(x) && disk.contains(x) {
                let j = choose|j: int| 0 <= j < candidates.len() && candidates[j] == x;
                if j == n {
                    assert(found[n]);
                    assert(kept[kept.len() - 1] == x);
                } else {
                    assert(shorter[j] == x);
                    assert(shorter.contains(x));
                    assert(before.contains(x));
                    let k = choose|k: int| 0 <= k < before.len() && before[k] == x;
                    assert(kept[k] == x);
                }
            }
        }
    }
    assert forall|i: int| 0 <= i < candidates.len() implies kept.contains(
        #[trigger] candidates[i],
    ) == disk.contains(candidates[i]) by {
        assert(candidates.contains(candidates[i]));
    }
}

/// What is kept of the candidates depends on the outcomes of their own looks
/// only.
pub proof fn lemma_found_among_ignores_the_rest(
    candidates: Seq<Seq<char>>,
    found: Seq<bool>,
    fewer: Seq<bool>,
)
    requires
        candidates.len() <= fewer.len() <= found.len(),
        forall|i: int| 0 <= i < candidates.len() ==> found[i] == fewer[i],
    ensures
        found_among(candidates, found) == found_among(candidates, fewer),
    decreases candidates.len(),
{
    if candidates.len() > 0 {
        lemma_found_among_ignores_the_rest(candidates.drop_last(), found, fewer);
    }
}

/// Agreement on a list is agreement on each of its parts.
pub proof fn lemma_agree_on_parts(
    a: Seq<Seq<char>>,
    b: Seq<Seq<char>>,
    head: Seq<Seq<char>>,
    tail: Seq<Seq<char>>,
)
    requires
        agree_on(a, b, head + tail),
    ensures
        agree_on(a, b, head),
        agree_on(a, b, tail),
{
    let whole = head + tail;
    assert forall|i: int| 0 <= i < head.len() implies a.contains(#[trigger] head[i])
        == b.contains(head[i]) by {
        assert(whole[i] == head[i]);
    }
    assert forall|i: int| 0 <= i < tail.len() implies a.contains(#[trigger] tail[i])
        == b.contains(tail[i]) by {
        assert(whole[head.len() + i] == tail[i]);
    }
}

/// The first of the locations that exists is the same for two lists of
/// existing paths that agree on the locations.
pub proof fn lemma_first_present_agrees(
    locations: Seq<Seq<char>>,
    a: Seq<Seq<char>>,
    b: Seq<Seq<char>>,
)
    requires
        agree_on(a, b, locations),
    ensures
        first_present(locations, a) == first_present(locations, b),
    decreases locations.len(),
{
    if locations.len() > 0 {
        assert(a.contains(locations[0]) == b.contains(locations[0]));
        assert(locations =~= seq![locations[0]] + locations.drop_first());
        lemma_agree_on_parts(a, b, seq![locations[0]], locations.drop_first());
        lemma_first_present_agrees(locations.drop_first(), a, b);
    }
}

/// The first of the locations that exists is one of the paths that exist.
pub proof fn lemma_first_present_is_present(locations: Seq<Seq<char>>, present: Seq<Seq<char>>)
    ensures
        first_present(locations, present) matches Some(found) ==> present.contains(found)
            && locations.contains(found),
    decreases locations.len(),
{
    if locations.len() > 0 {
        if present.contains(locations[0]) {
            assert(locations.contains(locations[0]));
        } else {
            lemma_first_present_is_present(locations.drop_first(), present);
            if let Some(found) = first_present(locations.drop_first(), present) {
                let k = choose|k: int|
                    0 <= k < locations.drop_first().len() && locations.drop_first()[k] == found;
                assert(locations[k + 1] == found);
            }
        }
    }
}

/// What a path resolves to is a path that was found to exist, written as the
/// platform writes it; on a platform other than Windows it is that very
/// path.
pub proof fn lemma_resolved_path_was_found(path: Seq<char>, snapshot: FileSnapshotView)
    requires
        resolve_one(path, snapshot) is Some,
    ensures
        exists|found: Seq<char>|
            snapshot.present.contains(found) && resolve_one(path, snapshot) == Some(
                native_form(found, snapshot.platform),
            ),
        snapshot.platform != Platform::Windows ==> snapshot.present.contains(
            resolve_one(path, snapshot)->0,
        ),
{
    if begins_with(path, APP_RELATIVE_PREFIX@) {
        let found = join_path(snapshot.app_data_dir->0, path);
        assert(snapshot.present.contains(found) && resolve_one(path, snapshot) == Some(
            native_form(found, snapshot.platform),
        ));
    } else if searches_filed_copy(path, snapshot.app_data_dir) {
        let filed = filed_locations(snapshot.app_data_dir->0, last_component(path));
        lemma_first_present_is_present(filed, snapshot.present);
        match first_present(filed, snapshot.present) {
            Some(found) => {
                assert(snapshot.present.contains(found) && resolve_one(path, snapshot) == Some(
                    native_form(found, snapshot.platform),
                ));
            },
            None => {
                assert(snapshot.present.contains(path) && resolve_one(path, snapshot) == Some(
                    native_form(path, snapshot.platform),
                ));
            },
        }
    } else {
        assert(snapshot.present.contains(path) && resolve_one(path, snapshot) == Some(
            native_form(path, snapshot.platform),
        ));
    }
}

/// What a path resolves to depends on the disk through its candidates only:
/// two snapshots with the same data directory that agree on the candidates
/// of the path resolve it alike.
pub proof fn lemma_resolve_one_reads_candidates_only(
    path: Seq<char>,
    first: FileSnapshotView,
    second: FileSnapshotView,
)
    requires
        first.platform == second.platform,
        first.app_data_dir == second.app_data_dir,
        agree_on(first.present, second.present, candidates_of(path, first.app_data_dir)),
    ensures
        resolve_one(path, first) == resolve_one(path, second),
{
    let candidates = candidates_of(path, first.app_data_dir);
    if begins_with(path, APP_RELATIVE_PREFIX@) {
        if let Some(dir) = first.app_data_dir {
            assert(candidates[0] == join_path(dir, path));
        }
    } else if searches_filed_copy(path, first.app_data_dir) {
        let filed = filed_locations(first.app_data_dir->0, last_component(path));
        assert(candidates[0] == path);
        lemma_agree_on_parts(first.present, second.present, seq![path], filed);
        lemma_first_present_agrees(filed, first.present, second.present);
    } else {
        assert(candidates[0] == path);
    }
}

/// What a list of paths resolves to depends on the disk through the
/// candidates of the paths only.
pub proof fn lemma_resolve_all_reads_candidates_only(
    paths: Seq<Seq<char>>,
    first: FileSnapshotView,
    second: FileSnapshotView,
)
    requires
        first.platform == second.platform,
        first.app_data_dir == second.app_data_dir,
        agree_on(first.present, second.present, candidates_of_all(paths, first.app_data_dir)),
    ensures
        resolve_all(paths, first) == resolve_all(paths, second),
    decreases paths.len(),
{
    if paths.len() > 0 {
        let before = candidates_of_all(paths.drop_last(), first.app_data_dir);
        if is_blank(paths.last()) {
            lemma_resolve_all_reads_candidates_only(paths.drop_last(), first, second);
        } else {
            lemma_agree_on_parts(
                first.present,
                second.present,
                before,
                candidates_of(paths.last(), first.app_data_dir),
            );
            lemma_resolve_all_reads_candidates_only(paths.drop_last(), first, second);
            lemma_resolve_one_reads_candidates_only(paths.last(), first, second);
        }
    }
}

/// What a stored list resolves to depends on the disk through the locations
/// that `lookup_candidates` names: it is enough to look at those.
pub proof fn lemma_lookup_candidates_suffice(
    stored: Option<Seq<char>>,
    first: FileSnapshotView,
    second: FileSnapshotView,
)
    requires
        first.platform == second.platform,
        first.app_data_dir == second.app_data_dir,
        lookup_candidates_of(stored, first.app_data_dir) matches Ok(candidates) ==> agree_on(
            first.present,
            second.present,
            candidates,
        ),
    ensures
        absolute_file_paths(stored, first) == absolute_file_paths(stored, second),
{
    if let Ok(paths) = declared_paths(stored) {
        lemma_resolve_all_reads_candidates_only(paths, first, second);
    }
}

// ---------------------------------------------------------------------------
// Filing a copy
// ---------------------------------------------------------------------------

/// The directory below the data directory in which all copies are filed.
pub const FILES_DIR: &'static str = "files";

/// What separates the parts of a stored path.
pub const STORED_SEPARATOR: &'static str = "/";

/// What separates the stem of a name from the instant that makes it unique.
pub const UNIQUE_SEPARATOR: &'static str = "_";

/// The index of the dot that sets the extension off, or the length of the
/// name where it has no extension. A dot at the start sets nothing off.
pub open spec fn extension_dot(name: Seq<char>) -> int
    decreases name.len(),
{
    if name.len() <= 1 {
        name.len() as int
    } else if name.last() == '.' {
        name.len() - 1
    } else {
        let before = extension_dot(name.drop_last());
        if before == name.len() - 1 {
            name.len() as int
        } else {
            before
        }
    }
}

/// The name under which a copy is filed where its own name is taken: the
/// stem, the instant in seconds, and the extension.
pub open spec fn unique_name_of(name: Seq<char>, instant_secs: u64) -> Seq<char> {
    let dot = extension_dot(name);
    name.take(dot) + UNIQUE_SEPARATOR@ + decimal_digits(instant_secs as nat) + name.skip(dot)
}

/// The name under which a copy is filed: its own, unless that is taken.
pub open spec fn stored_name_of(name: Seq<char>, taken: bool, instant_secs: u64) -> Seq<char> {
    if taken {
        unique_name_of(name, instant_secs)
    } else {
        name
    }
}

/// The stored path of a copy: relative to the data directory, with slashes.
pub open spec fn relative_storage_path_of(
    category: Seq<char>,
    subcategory: Seq<char>,
    name: Seq<char>,
) -> Seq<char> {
    FILES_DIR@ + STORED_SEPARATOR@ + category + STORED_SEPARATOR@ + subcategory
        + STORED_SEPARATOR@ + name
}

/// Finds the dot that sets the extension of `name` off.
pub fn find_extension_dot(name: &Vec<char>) -> (dot: usize)
    ensures
        dot == extension_dot(name@),
        dot <= name.len(),
{
    if name.len() <= 1 {
        return name.len();
    }
    let mut found: usize = 1;
    let mut i: usize = 1;
    assert(name@.take(1).len() == 1);
    while i < name.len()
        invariant
            1 <= i <= name.len(),
            found == extension_dot(name@.take(i as int)),
            found <= i,
        decreases name.len() - i,
    {
        proof {
            let next = name@.take(i + 1);
            assert(next.drop_last() =~= name@.take(i as int));
            assert(next.last() == name@[i as int]);
        }
        if name[i] == '.' {
            found = i;
        } else if found == i {
            found = i + 1;
        }
        i = i + 1;
    }
    assert(name@.take(name.len() as int) =~= name@);
    found
}

/// The name under which a copy is filed where its own name is taken.
pub fn unique_file_name(name: &str, instant_secs: u64) -> (unique: String)
    ensures
        unique@ == unique_name_of(name@, instant_secs),
{
    let chars = chars_of(name);
    let dot = find_extension_dot(&chars);
    let mut unique = string_of(&slice_of(&chars, 0, dot));
    unique.append(UNIQUE_SEPARATOR);
    unique.append(string_of(&decimal_of_u64(instant_secs)).as_str());
    unique.append(string_of(&slice_of(&chars, dot, chars.len())).as_str());
    proof {
        assert(name@.take(dot as int) =~= name@.subrange(0, dot as int));
        assert(name@.skip(dot as int) =~= name@.subrange(dot as int, name@.len() as int));
    }
    unique
}

/// The name under which a copy is filed: its own, unless that is taken.
pub fn stored_file_name(name: &str, taken: bool, instant_secs: u64) -> (stored: String)
    ensures
        stored@ == stored_name_of(name@, taken, instant_secs),
{
    if taken {
        unique_file_name(name, instant_secs)
    } else {
        String::from_str(name)
    }
}

/// The stored path of a copy.
pub fn relative_storage_path(category: &str, subcategory: &str, name: &str) -> (path: String)
    ensures
        path@ == relative_storage_path_of(category@, subcategory@, name@),
{
    let mut path = String::from_str(FILES_DIR);
    path.append(STORED_SEPARATOR);
    path.append(category);
    path.append(STORED_SEPARATOR);
    path.append(subcategory);
    path.append(STORED_SEPARATOR);
    path.append(name);
    path
}

/// The absolute path of a stored path, below the data directory.
pub fn get_app_file_path(app_data_dir: &str, relative_path: &str) -> (path: String)
    ensures
        path@ == join_path(app_data_dir@, relative_path@),
{
    string_of(&join(&chars_of(app_data_dir), &chars_of(relative_path)))
}

} // verus!
