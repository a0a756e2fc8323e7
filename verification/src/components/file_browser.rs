//! The directory browser: the snapshot of one directory, the marked entries,
//! and the rules by which the browser moves from one directory to another.

use crate::text::{decimal, find_last, from_chars, push_decimal, text_of, to_chars};
use crate::utilities::path_map::{distinct_paths, lemma_upserted, pairs_map, upserted, PathMap};
use crate::utilities::slot::Slot;
use vstd::prelude::*;
use vstd::string::StringExecFns;

verus! {

/// The absolute path of an entry.
pub type FileAbsolutePath = String;

/// The name of an entry as it stands on disk.
pub type FileName = String;

/// The name proposed for an entry.
pub type FileNewName = String;

/// The marked entries: absolute path to name on disk.
pub type SelectionSet = PathMap;

/// The names proposed for the marked entries: absolute path to new name.
pub type ProposedRenames = PathMap;

/// What a file-system object is.
#[derive(Debug, Clone, Copy, PartialEq, Eq, Structural)]
pub enum EntryKind {
    File,
    Folder,
    Symlink,
    Unknown,
}

/// What the file system reports of one object, as plain values. Times are in
/// seconds since the Unix epoch and absent where the file system gives none.
#[derive(Debug, Clone, Copy, PartialEq, Eq, Structural)]
pub struct Metadata {
    pub size: u64,
    pub is_dir: bool,
    pub is_file: bool,
    pub is_symlink: bool,
    pub modified: Option<i64>,
    pub created: Option<i64>,
}

/// One child of a directory as it was enumerated: its name, absent where the
/// name cannot be written as text, and its metadata, absent where reading it
/// failed.
pub struct Listed {
    pub name: Option<String>,
    pub metadata: Option<Metadata>,
}

/// One file-system object inside a snapshot.
pub struct Entry {
    pub name: FileName,
    pub absolute_path: FileAbsolutePath,
    pub size_bytes: u64,
    pub kind: EntryKind,
    pub modified_at: Option<i64>,
    pub created_at: Option<i64>,
    pub mime_hint: String,
    pub metadata_read: bool,
}

/// An entry as a plain value.
pub struct EntryView {
    pub name: Seq<char>,
    pub absolute_path: Seq<char>,
    pub size_bytes: u64,
    pub kind: EntryKind,
    pub modified_at: Option<i64>,
    pub created_at: Option<i64>,
    pub mime_hint: Seq<char>,
    pub metadata_read: bool,
}

impl View for Entry {
    type V = EntryView;

    open spec fn view(&self) -> EntryView {
        EntryView {
            name: self.name@,
            absolute_path: self.absolute_path@,
            size_bytes: self.size_bytes,
            kind: self.kind,
            modified_at: self.modified_at,
            created_at: self.created_at,
            mime_hint: self.mime_hint@,
            metadata_read: self.metadata_read,
        }
    }
}

/// The path of `leaf` inside `directory`.
pub open spec fn joined(directory: Seq<char>, leaf: Seq<char>) -> Seq<char> {
    directory + seq!['/'] + leaf
}

/// The extension of a leaf name, without its dot: what follows the last `.`,
/// unless the name has no `.`, or its only `.` is its first character, or the
/// name is `..`.
pub open spec fn path_extension(name: Seq<char>) -> Option<Seq<char>> {
    match name.index_of_last('.') {
        Some(dot) => if dot == 0 || name == seq!['.', '.'] {
            None
        } else {
            Some(name.skip(dot + 1))
        },
        None => None,
    }
}

/// The media type that `mime_db::lookup` finds for an extension.
pub uninterp spec fn mime_type_of(extension: Seq<char>) -> Option<Seq<char>>;

/// `mime_db::lookup` searches a fixed table: what it finds is a function of
/// the extension alone.
#[verifier::external_body]
fn lookup_mime(extension: &str) -> (found: Option<String>)
    ensures
        text_of(found) == mime_type_of(extension@),
{
    mime_db::lookup(extension).map(str::to_owned)
}

/// The label for a file's type, given what the lookup of its extension
/// found: the media type, or `Unknown`.
pub open spec fn type_label(found: Option<Seq<char>>) -> Seq<char> {
    match found {
        Some(media_type) => media_type,
        None => "Unknown"@,
    }
}

/// The label for the type of the file called `name`.
pub open spec fn file_type(name: Seq<char>) -> Seq<char> {
    match path_extension(name) {
        Some(extension) => type_label(mime_type_of(extension)),
        None => "Unknown"@,
    }
}

/// What a file-system object is, by its metadata.
pub open spec fn kind_of(metadata: Metadata) -> EntryKind {
    if metadata.is_dir {
        EntryKind::Folder
    } else if metadata.is_file {
        EntryKind::File
    } else if metadata.is_symlink {
        EntryKind::Symlink
    } else {
        EntryKind::Unknown
    }
}

/// The entry for one enumerated child of `directory`. A name that cannot be
/// written as text becomes the empty name. Without metadata the entry has no
/// times, size 0 and kind `Unknown`.
pub open spec fn entry_of(
    directory: Seq<char>,
    name: Option<Seq<char>>,
    metadata: Option<Metadata>,
) -> EntryView {
    let name = match name {
        Some(name) => name,
        None => Seq::empty(),
    };
    match metadata {
        Some(metadata) => EntryView {
            name,
            absolute_path: joined(directory, name),
            size_bytes: metadata.size,
            kind: kind_of(metadata),
            modified_at: metadata.modified,
            created_at: metadata.created,
            mime_hint: if kind_of(metadata) == EntryKind::File {
                file_type(name)
            } else {
                Seq::empty()
            },
            metadata_read: true,
        },
        None => EntryView {
            name,
            absolute_path: joined(directory, name),
            size_bytes: 0,
            kind: EntryKind::Unknown,
            modified_at: None,
            created_at: None,
            mime_hint: Seq::empty(),
            metadata_read: false,
        },
    }
}

/// The quotient of `numerator` by `denominator`, rounded to the nearest whole
/// number; a tie goes to the even neighbour.
pub open spec fn rounded_half_even(numerator: nat, denominator: nat) -> nat
    recommends
        denominator > 0,
{
    let quotient = numerator / denominator;
    let rest = numerator % denominator;
    if 2 * rest > denominator || (2 * rest == denominator && quotient % 2 == 1) {
        quotient + 1
    } else {
        quotient
    }
}

/// The distance between neighbouring double-precision numbers at `size`: 1
/// up to 2^53, and twice as much with every further binary digit.
pub open spec fn float_step(size: nat) -> nat
    decreases size,
{
    if size < 0x20_0000_0000_0000 {
        1
    } else {
        2 * float_step(size / 2)
    }
}

/// The double-precision number nearest to `size`; a tie goes to the
/// neighbour with the even significand. Sizes are shown from this number.
pub open spec fn nearest_float(size: nat) -> nat {
    rounded_half_even(size, float_step(size)) * float_step(size)
}

/// The position of the unit a size is shown in: the largest of B, KB, MB,
/// GB, TB and PB in which the size is at least 1.
pub open spec fn unit_index(size: nat) -> nat {
    if size < 0x400 {
        0
    } else if size < 0x10_0000 {
        1
    } else if size < 0x4000_0000 {
        2
    } else if size < 0x100_0000_0000 {
        3
    } else if size < 0x4_0000_0000_0000 {
        4
    } else {
        5
    }
}

/// The number of bytes in one unit: 1024 to the power of the unit's
/// position.
pub open spec fn unit_bytes(unit: nat) -> nat {
    if unit == 0 {
        1
    } else if unit == 1 {
        0x400
    } else if unit == 2 {
        0x10_0000
    } else if unit == 3 {
        0x4000_0000
    } else if unit == 4 {
        0x100_0000_0000
    } else {
        0x4_0000_0000_0000
    }
}

/// The name of a unit.
pub open spec fn unit_name(unit: nat) -> Seq<char> {
    if unit == 0 {
        "B"@
    } else if unit == 1 {
        "KB"@
    } else if unit == 2 {
        "MB"@
    } else if unit == 3 {
        "GB"@
    } else if unit == 4 {
        "TB"@
    } else {
        "PB"@
    }
}

/// A size in tenths of its unit, rounded to the nearest tenth.
pub open spec fn size_tenths(size: nat) -> nat {
    rounded_half_even(nearest_float(size) * 10, unit_bytes(unit_index(size)))
}

/// A size as it is shown: the number of units with one decimal, and the
/// unit's name.
pub open spec fn size_label(size: nat) -> Seq<char> {
    decimal(size_tenths(size) / 10) + seq!['.'] + decimal(size_tenths(size) % 10) + unit_name(
        unit_index(size),
    )
}

/// The double-precision number nearest to `size`.
fn to_nearest_float(size: u64) -> (nearest: u128)
    ensures
        nearest == nearest_float(size as nat),
        nearest <= 0x2_0000_0000_0000_0000,
{
    let mut step: u64 = 1;
    let mut rest: u64 = size;
    while rest >= 0x20_0000_0000_0000
        invariant
            step >= 1,
            rest as nat * step as nat <= size as nat,
            step == 1 || rest >= 0x10_0000_0000_0000,
            float_step(size as nat) == step as nat * float_step(rest as nat),
        decreases rest,
    {
        assert(step < 0x800) by (nonlinear_arith)
            requires
                rest >= 0x20_0000_0000_0000,
                rest as nat * step as nat <= size as nat,
                size < 0x1_0000_0000_0000_0000,
        ;
        assert((rest / 2) as nat * (step * 2) as nat <= rest as nat * step as nat)
            by (nonlinear_arith)
            requires
                step < 0x800,
        ;
        assert(step as nat * (2 * float_step((rest / 2) as nat)) == (step * 2) as nat
            * float_step((rest / 2) as nat)) by (nonlinear_arith)
            requires
                step < 0x800,
        ;
        rest = rest / 2;
        step = step * 2;
    }
    assert(step <= 0x1000) by (nonlinear_arith)
        requires
            step == 1 || rest >= 0x10_0000_0000_0000,
            rest as nat * step as nat <= size as nat,
            size < 0x1_0000_0000_0000_0000,
    ;
    assert(float_step(size as nat) == step as nat) by {
        assert(float_step(rest as nat) == 1);
    }
    let quotient = size / step;
    let remainder = size % step;
    let rounded: u128 = if 2 * remainder > step || (2 * remainder == step && quotient % 2 == 1) {
        quotient as u128 + 1
    } else {
        quotient as u128
    };
    assert(rounded * step as u128 <= size as u128 + step as u128) by (nonlinear_arith)
        requires
            rounded <= quotient as u128 + 1,
            quotient == size / step,
            step >= 1,
    ;
    rounded * step as u128
}

/// A size as it is shown: scaled to the largest unit in which it is at least
/// 1, with one decimal, followed by the unit.
pub fn format_size(size: u64) -> (label: String)
    ensures
        label@ == size_label(size as nat),
{
    let nearest = to_nearest_float(size);
    let (divisor, unit): (u128, &str) = if size < 0x400 {
        (1, "B")
    } else if size < 0x10_0000 {
        (0x400, "KB")
    } else if size < 0x4000_0000 {
        (0x10_0000, "MB")
    } else if size < 0x100_0000_0000 {
        (0x4000_0000, "GB")
    } else if size < 0x4_0000_0000_0000 {
        (0x100_0000_0000, "TB")
    } else {
        (0x4_0000_0000_0000, "PB")
    };
    let scaled = nearest * 10;
    let quotient = scaled / divisor;
    let rest = scaled % divisor;
    let tenths = if 2 * rest > divisor || (2 * rest == divisor && quotient % 2 == 1) {
        quotient + 1
    } else {
        quotient
    };
    let mut label = String::new();
    push_decimal(&mut label, tenths / 10);
    label.push('.');
    push_decimal(&mut label, tenths % 10);
    label.append(unit);
    label
}

/// The path of `leaf` inside `directory`.
pub fn join_path(directory: &str, leaf: &str) -> (path: String)
    ensures
        path@ == joined(directory@, leaf@),
{
    let mut path = directory.to_owned();
    path.push('/');
    path.append(leaf);
    path
}

/// The extension of the leaf name `name`, if it has one.
pub fn file_extension(name: &str) -> (found: Option<String>)
    ensures
        text_of(found) == path_extension(name@),
{
    let chars = to_chars(name);
    match find_last(&chars, '.') {
        Some(dot) => {
            proof {
                chars@.index_of_last_ensures('.');
            }
            if dot == 0 {
                None
            } else if chars.len() == 2 && chars[0] == '.' {
                assert(chars@ == seq!['.', '.']);
                None
            } else {
                Some(from_chars(&chars, dot + 1, chars.len()))
            }
        },
        None => None,
    }
}

/// The label for a file's type, given what the lookup of its extension
/// found.
pub fn label_file_type(found: Option<String>) -> (label: String)
    ensures
        label@ == type_label(text_of(found)),
{
    match found {
        Some(media_type) => media_type,
        None => "Unknown".to_owned(),
    }
}

/// The label for the type of the file called `name`: the media type of its
/// extension, or `Unknown`.
pub fn format_file_type(name: &str) -> (label: String)
    ensures
        label@ == file_type(name@),
{
    match file_extension(name) {
        Some(extension) => label_file_type(lookup_mime(extension.as_str())),
        None => "Unknown".to_owned(),
    }
}

impl Metadata {
    /// What the object is: a folder, else a file, else a symlink, else
    /// unknown.
    pub fn kind(&self) -> (kind: EntryKind)
        ensures
            kind == kind_of(*self),
    {
        if self.is_dir {
            EntryKind::Folder
        } else if self.is_file {
            EntryKind::File
        } else if self.is_symlink {
            EntryKind::Symlink
        } else {
            EntryKind::Unknown
        }
    }
}

impl Entry {
    /// The entry for one enumerated child of `directory`.
    pub fn from_listing(directory: &str, listed: &Listed) -> (entry: Entry)
        ensures
            entry@ == entry_of(directory@, text_of(listed.name), listed.metadata),
    {
        let name = match &listed.name {
            Some(name) => name.clone(),
            None => String::new(),
        };
        let absolute_path = join_path(directory, name.as_str());
        match listed.metadata {
            Some(metadata) => {
                let kind = metadata.kind();
                let mime_hint = if kind == EntryKind::File {
                    format_file_type(name.as_str())
                } else {
                    String::new()
                };
                Entry {
                    name,
                    absolute_path,
                    size_bytes: metadata.size,
                    kind,
                    modified_at: metadata.modified,
                    created_at: metadata.created,
                    mime_hint,
                    metadata_read: true,
                }
            },
            None => Entry {
                name,
                absolute_path,
                size_bytes: 0,
                kind: EntryKind::Unknown,
                modified_at: None,
                created_at: None,
                mime_hint: String::new(),
                metadata_read: false,
            },
        }
    }

    /// The path to move to when the entry is activated: its own path for a
    /// folder, none for anything else.
    pub fn activation_target(&self) -> (target: Option<String>)
        ensures
            text_of(target) == if self.kind == EntryKind::Folder {
                Some(self.absolute_path@)
            } else {
                None
            },
    {
        if self.kind == EntryKind::Folder {
            Some(self.absolute_path.clone())
        } else {
            None
        }
    }

    /// The name shown as the new name of the entry: the proposed one where
    /// `proposed` holds one for its path, its own name where not.
    pub fn new_name(&self, proposed: &ProposedRenames) -> (shown: String)
        ensures
            shown@ == if proposed@.contains_key(self.absolute_path@) {
                proposed@[self.absolute_path@]
            } else {
                self.name@
            },
    {
        match proposed.get(self.absolute_path.as_str()) {
            Some(new_name) => new_name.clone(),
            None => self.name.clone(),
        }
    }

    /// The text shown for the entry's size; `--` where its metadata could
    /// not be read.
    pub fn size_label(&self) -> (label: String)
        ensures
            label@ == if self.metadata_read {
                size_label(self.size_bytes as nat)
            } else {
                "--"@
            },
    {
        if self.metadata_read {
            format_size(self.size_bytes)
        } else {
            "--".to_owned()
        }
    }

    /// The text shown for the entry's kind: `Folder`, the media type of a
    /// file, `symlink`, or nothing.
    pub fn kind_label(&self) -> (label: String)
        ensures
            label@ == match self.kind {
                EntryKind::Folder => "Folder"@,
                EntryKind::File => self.mime_hint@,
                EntryKind::Symlink => "symlink"@,
                EntryKind::Unknown => Seq::<char>::empty(),
            },
    {
        match self.kind {
            EntryKind::Folder => "Folder".to_owned(),
            EntryKind::File => self.mime_hint.clone(),
            EntryKind::Symlink => "symlink".to_owned(),
            EntryKind::Unknown => String::new(),
        }
    }
}

/// The snapshot of one directory as a plain value.
pub struct SnapshotView {
    pub directory_path: Seq<char>,
    pub entries: Seq<EntryView>,
}

/// Whether every entry's absolute path is its name joined to the directory
/// the snapshot was taken of.
pub open spec fn rooted(snapshot: SnapshotView) -> bool {
    forall|i: int|
        0 <= i < snapshot.entries.len() ==> (#[trigger] snapshot.entries[i]).absolute_path
            == joined(snapshot.directory_path, snapshot.entries[i].name)
}

/// The entries that a listing of `directory` gives, in the order of the
/// listing.
pub open spec fn entries_of(directory: Seq<char>, listing: Seq<Listed>) -> Seq<EntryView> {
    Seq::new(
        listing.len(),
        |i: int| entry_of(directory, text_of(listing[i].name), listing[i].metadata),
    )
}

/// The `(absolute path, name)` pairs of the entries at the marked
/// positions, each path once, in the order in which the marks first name
/// them. A mark beyond the last entry stands for nothing.
pub open spec fn selection_pairs(entries: Seq<EntryView>, marked: Seq<usize>) -> Seq<
    (Seq<char>, Seq<char>),
>
    decreases marked.len(),
{
    if marked.len() == 0 {
        Seq::empty()
    } else {
        let front = selection_pairs(entries, marked.drop_last());
        let mark = marked.last() as int;
        if mark < entries.len() {
            upserted(front, entries[mark].absolute_path, entries[mark].name)
        } else {
            front
        }
    }
}

/// The selection set of the marked entries: absolute path to name.
pub open spec fn selection_of(entries: Seq<EntryView>, marked: Seq<usize>) -> Map<
    Seq<char>,
    Seq<char>,
> {
    pairs_map(selection_pairs(entries, marked))
}

/// The pairs of a selection hold each path once, and one more mark adds its
/// entry to the selection set.
pub proof fn lemma_selection_step(entries: Seq<EntryView>, marked: Seq<usize>)
    ensures
        distinct_paths(selection_pairs(entries, marked)),
        marked.len() > 0 && marked.last() < entries.len() ==> selection_of(entries, marked)
            == selection_of(entries, marked.drop_last()).insert(
            entries[marked.last() as int].absolute_path,
            entries[marked.last() as int].name,
        ),
        marked.len() > 0 && marked.last() >= entries.len() ==> selection_of(entries, marked)
            == selection_of(entries, marked.drop_last()),
    decreases marked.len(),
{
    if marked.len() > 0 {
        let front = selection_pairs(entries, marked.drop_last());
        lemma_selection_step(entries, marked.drop_last());
        let mark = marked.last() as int;
        if mark < entries.len() {
            lemma_upserted(front, entries[mark].absolute_path, entries[mark].name);
        }
    }
}

/// Two names that give the same path in one directory are the same name.
pub proof fn lemma_joined_is_injective(directory: Seq<char>, first: Seq<char>, second: Seq<char>)
    requires
        joined(directory, first) == joined(directory, second),
    ensures
        first == second,
{
    let offset = directory.len() + 1;
    assert(joined(directory, first).skip(offset as int) == first);
    assert(joined(directory, second).skip(offset as int) == second);
}

/// In a rooted snapshot every absolute path starts with the path of the
/// directory.
pub proof fn lemma_rooted_paths_start_with_directory(snapshot: SnapshotView, index: int)
    requires
        rooted(snapshot),
        0 <= index < snapshot.entries.len(),
    ensures
        snapshot.directory_path.is_prefix_of(snapshot.entries[index].absolute_path),
{
    let path = snapshot.entries[index].absolute_path;
    assert(path.subrange(0, snapshot.directory_path.len() as int) == snapshot.directory_path);
}

/// In a rooted snapshot two entries with different names have different
/// absolute paths: where no name occurs twice, no path does.
pub proof fn lemma_distinct_names_have_distinct_paths(
    snapshot: SnapshotView,
    first: int,
    second: int,
)
    requires
        rooted(snapshot),
        0 <= first < snapshot.entries.len(),
        0 <= second < snapshot.entries.len(),
        snapshot.entries[first].name != snapshot.entries[second].name,
    ensures
        snapshot.entries[first].absolute_path != snapshot.entries[second].absolute_path,
{
    if snapshot.entries[first].absolute_path == snapshot.entries[second].absolute_path {
        lemma_joined_is_injective(
            snapshot.directory_path,
            snapshot.entries[first].name,
            snapshot.entries[second].name,
        );
    }
}

/// With no entry marked the selection set is the empty mapping.
pub proof fn lemma_no_marks_select_nothing(entries: Seq<EntryView>)
    ensures
        selection_of(entries, Seq::<usize>::empty()) == Map::<Seq<char>, Seq<char>>::empty(),
{
}

/// The paths of the selection set are the absolute paths of the marked
/// entries of the snapshot, and no others.
pub proof fn lemma_selection_paths(entries: Seq<EntryView>, marked: Seq<usize>, path: Seq<char>)
    ensures
        selection_of(entries, marked).contains_key(path) <==> exists|k: int|
            0 <= k < marked.len() && marked[k] < entries.len() && (
            #[trigger] entries[marked[k] as int]).absolute_path == path,
    decreases marked.len(),
{
    if marked.len() > 0 {
        let front = marked.drop_last();
        let mark = marked.last() as int;
        lemma_selection_paths(entries, front, path);
        lemma_selection_step(entries, marked);
        if selection_of(entries, marked).contains_key(path) {
            if mark < entries.len() && entries[mark].absolute_path == path {
                assert(marked[marked.len() - 1] == marked.last());
            } else {
                let k = choose|k: int|
                    0 <= k < front.len() && front[k] < entries.len() && (
                    #[trigger] entries[front[k] as int]).absolute_path == path;
                assert(marked[k] == front[k]);
            }
        }
        if exists|k: int|
            0 <= k < marked.len() && marked[k] < entries.len() && (
            #[trigger] entries[marked[k] as int]).absolute_path == path {
            let k = choose|k: int|
                0 <= k < marked.len() && marked[k] < entries.len() && (
                #[trigger] entries[marked[k] as int]).absolute_path == path;
            if k < marked.len() - 1 {
                assert(front[k] == marked[k]);
            }
        }
    }
}

/// In a rooted snapshot the selection set maps the absolute path of every
/// marked entry to the name of that entry.
pub proof fn lemma_selection_names(snapshot: SnapshotView, marked: Seq<usize>, k: int)
    requires
        rooted(snapshot),
        0 <= k < marked.len(),
        marked[k] < snapshot.entries.len(),
    ensures
        selection_of(snapshot.entries, marked).contains_key(
            snapshot.entries[marked[k] as int].absolute_path,
        ),
        selection_of(snapshot.entries, marked)[snapshot.entries[marked[k] as int].absolute_path]
            == snapshot.entries[marked[k] as int].name,
    decreases marked.len(),
{
    let entries = snapshot.entries;
    let front = marked.drop_last();
    let mark = marked.last() as int;
    let wanted = entries[marked[k] as int];
    lemma_selection_step(entries, marked);
    if mark < entries.len() {
        let pair = (entries[mark].absolute_path, entries[mark].name);
        if pair.0 == wanted.absolute_path {
            lemma_joined_is_injective(snapshot.directory_path, entries[mark].name, wanted.name);
        } else {
            assert(front[k] == marked[k]);
            lemma_selection_names(snapshot, front, k);
        }
    } else {
        assert(front[k] == marked[k]);
        lemma_selection_names(snapshot, front, k);
    }
}

/// With every entry of a rooted snapshot marked, the selection set is the
/// full set of the entries' `(absolute path, name)` pairs.
pub proof fn lemma_all_marks_select_everything(snapshot: SnapshotView, marked: Seq<usize>)
    requires
        rooted(snapshot),
        snapshot.entries.len() <= usize::MAX,
        forall|i: usize| i < snapshot.entries.len() ==> #[trigger] marked.contains(i),
    ensures
        forall|i: int|
            0 <= i < snapshot.entries.len() ==> selection_of(
                snapshot.entries,
                marked,
            ).contains_key((#[trigger] snapshot.entries[i]).absolute_path) && selection_of(
                snapshot.entries,
                marked,
            )[snapshot.entries[i].absolute_path] == snapshot.entries[i].name,
        forall|path: Seq<char>| #[trigger]
            selection_of(snapshot.entries, marked).contains_key(path) ==> exists|i: int|
                0 <= i < snapshot.entries.len() && (#[trigger] snapshot.entries[i]).absolute_path
                    == path,
{
    assert forall|i: int| 0 <= i < snapshot.entries.len() implies selection_of(
        snapshot.entries,
        marked,
    ).contains_key((#[trigger] snapshot.entries[i]).absolute_path) && selection_of(
        snapshot.entries,
        marked,
    )[snapshot.entries[i].absolute_path] == snapshot.entries[i].name by {
        assert(marked.contains(i as usize));
        let k = choose|k: int| 0 <= k < marked.len() && marked[k] == i as usize;
        lemma_selection_names(snapshot, marked, k);
    }
    assert forall|path: Seq<char>| #[trigger]
        selection_of(snapshot.entries, marked).contains_key(path) implies exists|i: int|
        0 <= i < snapshot.entries.len() && (#[trigger] snapshot.entries[i]).absolute_path
            == path by {
        lemma_selection_paths(snapshot.entries, marked, path);
        let k = choose|k: int|
            0 <= k < marked.len() && marked[k] < snapshot.entries.len() && (
            #[trigger] snapshot.entries[marked[k] as int]).absolute_path == path;
        assert(snapshot.entries[marked[k] as int].absolute_path == path);
    }
}

/// The position of the first entry with the absolute path `path`.
pub open spec fn index_of_path(entries: Seq<EntryView>, path: Seq<char>) -> Option<int>
    decreases entries.len(),
{
    if entries.len() == 0 {
        None
    } else {
        match index_of_path(entries.drop_last(), path) {
            Some(index) => Some(index),
            None => if entries.last().absolute_path == path {
                Some(entries.len() - 1)
            } else {
                None
            },
        }
    }
}

/// The position found among the first entries is the position among all.
pub proof fn lemma_index_of_path_stays(entries: Seq<EntryView>, path: Seq<char>, count: int)
    requires
        0 <= count <= entries.len(),
        index_of_path(entries.take(count), path) is Some,
    ensures
        index_of_path(entries, path) == index_of_path(entries.take(count), path),
    decreases entries.len() - count,
{
    if count < entries.len() {
        assert(entries.take(count + 1).drop_last() == entries.take(count));
        lemma_index_of_path_stays(entries, path, count + 1);
    } else {
        assert(entries.take(count) == entries);
    }
}

/// The position found for a path is that of an entry with that path.
pub proof fn lemma_index_of_path(entries: Seq<EntryView>, path: Seq<char>)
    ensures
        match index_of_path(entries, path) {
            Some(index) => 0 <= index < entries.len() && entries[index].absolute_path == path,
            None => forall|i: int|
                0 <= i < entries.len() ==> (#[trigger] entries[i]).absolute_path != path,
        },
    decreases entries.len(),
{
    if entries.len() > 0 {
        lemma_index_of_path(entries.drop_last(), path);
        if index_of_path(entries, path) is None {
            assert forall|i: int| 0 <= i < entries.len() implies (
            #[trigger] entries[i]).absolute_path != path by {
                if i < entries.len() - 1 {
                    assert(entries.drop_last()[i] == entries[i]);
                }
            }
        }
    }
}

/// A point-in-time enumeration of the entries of one directory.
pub struct DirectorySnapshot {
    directory_path: String,
    entries: Vec<Entry>,
}

impl View for DirectorySnapshot {
    type V = SnapshotView;

    closed spec fn view(&self) -> SnapshotView {
        SnapshotView {
            directory_path: self.directory_path@,
            entries: self.entries@.map_values(|entry: Entry| entry@),
        }
    }
}

impl DirectorySnapshot {
    #[verifier::type_invariant]
    spec fn well_formed(self) -> bool {
        rooted(self@)
    }

    /// The snapshot of `directory_path` with no entry.
    pub fn empty(directory_path: &str) -> (snapshot: Self)
        ensures
            snapshot@.directory_path == directory_path@,
            snapshot@.entries == Seq::<EntryView>::empty(),
    {
        let snapshot = DirectorySnapshot {
            directory_path: directory_path.to_owned(),
            entries: Vec::new(),
        };
        snapshot
    }

    /// The snapshot that the enumerated children of `directory_path` give:
    /// one entry for each child, in the order of the listing.
    pub fn build(directory_path: &str, listing: &Vec<Listed>) -> (snapshot: Self)
        ensures
            snapshot@.directory_path == directory_path@,
            snapshot@.entries == entries_of(directory_path@, listing@),
            rooted(snapshot@),
    {
        let mut entries: Vec<Entry> = Vec::new();
        let mut i: usize = 0;
        while i < listing.len()
            invariant
                i <= listing@.len(),
                entries@.len() == i,
                forall|j: int|
                    0 <= j < i ==> (#[trigger] entries@[j])@ == entry_of(
                        directory_path@,
                        text_of(listing@[j].name),
                        listing@[j].metadata,
                    ),
            decreases listing@.len() - i,
        {
            entries.push(Entry::from_listing(directory_path, &listing[i]));
            i = i + 1;
        }
        let snapshot = DirectorySnapshot { directory_path: directory_path.to_owned(), entries };
        snapshot
    }

    /// The directory the snapshot was taken of.
    pub fn directory_path(&self) -> (path: &String)
        ensures
            path@ == self@.directory_path,
    {
        &self.directory_path
    }

    /// The number of entries.
    pub fn len(&self) -> (count: usize)
        ensures
            count == self@.entries.len(),
            rooted(self@),
    {
        proof {
            use_type_invariant(self);
        }
        self.entries.len()
    }

    /// The entry at `index`.
    pub fn entry(&self, index: usize) -> (entry: &Entry)
        requires
            index < self@.entries.len(),
        ensures
            entry@ == self@.entries[index as int],
            entry@.absolute_path == joined(self@.directory_path, entry@.name),
    {
        proof {
            use_type_invariant(self);
        }
        &self.entries[index]
    }

    /// The selection set of the entries at the marked positions. A mark
    /// beyond the last entry is passed over.
    pub fn selection(&self, marked: &Vec<usize>) -> (selected: SelectionSet)
        ensures
            selected.entries() == selection_pairs(self@.entries, marked@),
            selected@ == selection_of(self@.entries, marked@),
    {
        let mut selected = PathMap::new();
        let mut k: usize = 0;
        while k < marked.len()
            invariant
                k <= marked@.len(),
                selected.entries() == selection_pairs(self@.entries, marked@.take(k as int)),
            decreases marked@.len() - k,
        {
            let mark = marked[k];
            proof {
                let done = marked@.take(k as int + 1);
                assert(done.drop_last() == marked@.take(k as int));
            }
            if mark < self.entries.len() {
                let entry = &self.entries[mark];
                selected.insert(entry.absolute_path.clone(), entry.name.clone());
            }
            k = k + 1;
        }
        proof {
            assert(marked@.take(k as int) == marked@);
        }
        selected
    }

    /// The position of the first entry with the absolute path `path`, if
    /// the snapshot holds one.
    pub fn position(&self, path: &str) -> (found: Option<usize>)
        ensures
            match found {
                Some(index) => index_of_path(self@.entries, path@) == Some(index as int),
                None => index_of_path(self@.entries, path@) is None,
            },
    {
        let wanted = path.to_owned();
        let mut i: usize = 0;
        while i < self.entries.len()
            invariant
                i <= self.entries@.len(),
                wanted@ == path@,
                index_of_path(self@.entries.take(i as int), path@) is None,
            decreases self.entries@.len() - i,
        {
            proof {
                let done = self@.entries.take(i as int + 1);
                assert(done.drop_last() == self@.entries.take(i as int));
            }
            if self.entries[i].absolute_path == wanted {
                proof {
                    lemma_index_of_path_stays(self@.entries, path@, i as int + 1);
                }
                return Some(i);
            }
            i = i + 1;
        }
        assert(self@.entries.take(i as int) == self@.entries);
        None
    }
}

/// Why the browser could not do what was asked.
#[derive(Debug, Clone, Copy, PartialEq, Eq, Structural)]
pub enum BrowserError {
    /// The path does not resolve to an existing directory.
    InvalidPath,
    /// The directory could not be enumerated.
    EnumerationFailed,
}

/// Where the browser stands between two directories.
#[derive(Debug, Clone, Copy, PartialEq, Eq, Structural)]
pub enum NavigationState {
    /// Nothing is asked for and the snapshot is current.
    Idle,
    /// A move to another directory waits for the next cycle.
    NavigationRequested,
    /// The directory has changed and its snapshot is still to be rebuilt.
    SnapshotRebuilding,
}

/// The view of an optional mapping.
pub open spec fn mapping_of(mapping: Option<PathMap>) -> Option<Map<Seq<char>, Seq<char>>> {
    match mapping {
        Some(mapping) => Some(mapping@),
        None => None,
    }
}

/// The pairs of an optional mapping.
pub open spec fn pairs_in(mapping: Option<PathMap>) -> Option<Seq<(Seq<char>, Seq<char>)>> {
    match mapping {
        Some(mapping) => Some(mapping.entries()),
        None => None,
    }
}

/// The browser as a plain value.
pub struct BrowserView {
    /// The directory that is shown.
    pub directory_path: Seq<char>,
    /// The text of the editable path field.
    pub working_path: Seq<char>,
    /// The directory changed since the snapshot was built.
    pub path_changed: bool,
    /// No snapshot was built yet.
    pub is_first_load: bool,
    /// The entries last enumerated.
    pub snapshot: SnapshotView,
    /// The navigation message that waits, if any.
    pub navigation: Option<Seq<char>>,
    /// The selection set that waits for the pipeline, if any: its
    /// `(absolute path, name)` pairs in their order.
    pub selected_files: Option<Seq<(Seq<char>, Seq<char>)>>,
    /// The proposed names that wait for the browser, if any.
    pub new_names: Option<Map<Seq<char>, Seq<char>>>,
}

impl BrowserView {
    /// Where the browser stands: a waiting message comes first, then a
    /// rebuild that is due.
    pub open spec fn state(self) -> NavigationState {
        if self.navigation is Some {
            NavigationState::NavigationRequested
        } else if self.path_changed || self.is_first_load {
            NavigationState::SnapshotRebuilding
        } else {
            NavigationState::Idle
        }
    }

    /// The browser after it has moved to `path`: the path field follows and
    /// a rebuild is due.
    pub open spec fn moved_to(self, path: Seq<char>) -> BrowserView {
        BrowserView { directory_path: path, working_path: path, path_changed: true, ..self }
    }

    /// Whether the snapshot has to be rebuilt when the directory holds
    /// `children` objects: the directory changed, or nothing was loaded yet,
    /// or the snapshot is empty while the directory is not.
    pub open spec fn rebuild_due(self, children: nat) -> bool {
        self.path_changed || self.is_first_load || (children > 0 && self.snapshot.entries.len()
            == 0)
    }
}

/// A move into another directory passes through every state in turn: the
/// request waits, then the browser has moved and its snapshot is due, then
/// the rebuilt snapshot leaves the browser idle.
pub proof fn lemma_navigation_runs_through_the_states(
    before: BrowserView,
    path: Seq<char>,
    entries: Seq<EntryView>,
)
    requires
        before.navigation is None,
    ensures
        ({
            let requested = BrowserView { navigation: Some(path), ..before };
            let moved = BrowserView { navigation: None, ..requested.moved_to(path) };
            let rebuilt = BrowserView {
                path_changed: false,
                is_first_load: false,
                snapshot: SnapshotView { directory_path: path, entries },
                ..moved
            };
            &&& requested.state() == NavigationState::NavigationRequested
            &&& requested.directory_path == before.directory_path
            &&& requested.snapshot == before.snapshot
            &&& moved.state() == NavigationState::SnapshotRebuilding
            &&& moved.directory_path == path
            &&& moved.snapshot == before.snapshot
            &&& rebuilt.state() == NavigationState::Idle
            &&& rebuilt.snapshot.directory_path == rebuilt.directory_path
        }),
{
}

/// The state of the directory browser.
pub struct FileBrowser {
    directory_path: String,
    path_changed: bool,
    working_path: String,
    is_first_load: bool,
    snapshot: DirectorySnapshot,
    navigation: Slot<String>,
    selected_files: Slot<SelectionSet>,
    new_names: Slot<ProposedRenames>,
}

impl View for FileBrowser {
    type V = BrowserView;

    closed spec fn view(&self) -> BrowserView {
        BrowserView {
            directory_path: self.directory_path@,
            working_path: self.working_path@,
            path_changed: self.path_changed,
            is_first_load: self.is_first_load,
            snapshot: self.snapshot@,
            navigation: text_of(self.navigation@),
            selected_files: pairs_in(self.selected_files@),
            new_names: mapping_of(self.new_names@),
        }
    }
}

impl FileBrowser {
    /// A browser that shows `home_path` and has loaded nothing yet.
    pub fn new(home_path: &str) -> (browser: Self)
        ensures
            browser@ == (BrowserView {
                directory_path: home_path@,
                working_path: home_path@,
                path_changed: false,
                is_first_load: true,
                snapshot: SnapshotView {
                    directory_path: home_path@,
                    entries: Seq::<EntryView>::empty(),
                },
                navigation: None,
                selected_files: None,
                new_names: None,
            }),
    {
        FileBrowser {
            directory_path: home_path.to_owned(),
            path_changed: false,
            working_path: home_path.to_owned(),
            is_first_load: true,
            snapshot: DirectorySnapshot::empty(home_path),
            navigation: Slot::new(),
            selected_files: Slot::new(),
            new_names: Slot::new(),
        }
    }

    /// The directory that is shown.
    pub fn get_path(&self) -> (path: String)
        ensures
            path@ == self@.directory_path,
    {
        self.directory_path.clone()
    }

    /// The text of the editable path field.
    pub fn working_path(&self) -> (path: String)
        ensures
            path@ == self@.working_path,
    {
        self.working_path.clone()
    }

    /// Where the browser stands between two directories.
    pub fn state(&self) -> (state: NavigationState)
        ensures
            state == self@.state(),
    {
        if self.navigation.is_pending() {
            NavigationState::NavigationRequested
        } else if self.path_changed || self.is_first_load {
            NavigationState::SnapshotRebuilding
        } else {
            NavigationState::Idle
        }
    }

    /// The entries last enumerated.
    pub fn snapshot(&self) -> (snapshot: &DirectorySnapshot)
        ensures
            snapshot@ == self@.snapshot,
    {
        &self.snapshot
    }

    /// The path that names the parent of the directory that is shown: the
    /// directory with `..` joined to it.
    pub fn parent_path(&self) -> (path: String)
        ensures
            path@ == joined(self@.directory_path, ".."@),
    {
        join_path(self.directory_path.as_str(), "..")
    }

    /// Asks for a move into a folder that was activated. `resolved` is the
    /// canonical path of the folder where it exists. The request waits in
    /// the navigation slot for the next cycle; a folder that does not
    /// resolve, or resolves to the empty path, changes nothing.
    pub fn navigate_to(&mut self, resolved: Option<String>) -> (outcome: Result<(), BrowserError>)
        ensures
            match resolved {
                Some(path) if path@.len() > 0 => outcome is Ok && final(self)@ == (BrowserView {
                    navigation: Some(path@),
                    ..old(self)@
                }),
                _ => outcome == Err::<(), BrowserError>(BrowserError::InvalidPath) && final(self)@
                    == old(self)@,
            },
    {
        match resolved {
            Some(path) => {
                if path.as_str().is_empty() {
                    Err(BrowserError::InvalidPath)
                } else {
                    self.navigation.publish(path);
                    Ok(())
                }
            },
            None => Err(BrowserError::InvalidPath),
        }
    }

    /// Takes the waiting navigation message, if there is one, and moves to
    /// its directory.
    pub fn take_navigation(&mut self) -> (moved: bool)
        ensures
            match old(self)@.navigation {
                Some(path) => moved && final(self)@ == (BrowserView {
                    navigation: None,
                    ..old(self)@.moved_to(path)
                }),
                None => !moved && final(self)@ == old(self)@,
            },
    {
        match self.navigation.take() {
            Some(path) => {
                self.directory_path = path.clone();
                self.working_path = path;
                self.path_changed = true;
                true
            },
            None => false,
        }
    }

    /// Moves to a directory chosen on the spot: the parent, or one picked in
    /// a dialog. `resolved` is its path where it exists; without one nothing
    /// changes.
    pub fn open_directory(&mut self, resolved: Option<String>) -> (outcome: Result<
        (),
        BrowserError,
    >)
        ensures
            match resolved {
                Some(path) => outcome is Ok && final(self)@ == old(self)@.moved_to(path@),
                None => outcome == Err::<(), BrowserError>(BrowserError::InvalidPath) && final(self)@ == old(self)@,
            },
    {
        match resolved {
            Some(path) => {
                self.directory_path = path.clone();
                self.working_path = path;
                self.path_changed = true;
                Ok(())
            },
            None => Err(BrowserError::InvalidPath),
        }
    }

    /// Puts `text` in the editable path field.
    pub fn set_working_path(&mut self, text: String)
        ensures
            final(self)@ == (BrowserView { working_path: text@, ..old(self)@ }),
    {
        self.working_path = text;
    }

    /// Commits the path field. Where its path exists the browser moves
    /// there; where it does not, the field goes back to the directory that
    /// is shown.
    pub fn commit_working_path(&mut self, exists: bool) -> (outcome: Result<(), BrowserError>)
        ensures
            exists ==> outcome is Ok && final(self)@ == (BrowserView {
                directory_path: old(self)@.working_path,
                path_changed: true,
                ..old(self)@
            }),
            !exists ==> outcome == Err::<(), BrowserError>(BrowserError::InvalidPath) && final(self)@ == (BrowserView { working_path: old(self)@.directory_path, ..old(self)@ }),
    {
        if exists {
            self.directory_path = self.working_path.clone();
            self.path_changed = true;
            Ok(())
        } else {
            self.working_path = self.directory_path.clone();
            Err(BrowserError::InvalidPath)
        }
    }

    /// Whether the snapshot has to be rebuilt, given the number of objects
    /// that the directory holds now.
    pub fn rebuild_due(&self, children: usize) -> (due: bool)
        ensures
            due == self@.rebuild_due(children as nat),
    {
        self.path_changed || self.is_first_load || (children > 0 && self.snapshot.len() == 0)
    }

    /// Replaces the snapshot by the one that `listing` gives for the
    /// directory that is shown. Without a listing the enumeration has
    /// failed: the error is returned and the browser keeps its snapshot.
    pub fn rebuild(&mut self, listing: Option<&Vec<Listed>>) -> (outcome: Result<
        (),
        BrowserError,
    >)
        ensures
            match listing {
                Some(listing) => outcome is Ok && final(self)@ == (BrowserView {
                    path_changed: false,
                    is_first_load: false,
                    snapshot: SnapshotView {
                        directory_path: old(self)@.directory_path,
                        entries: entries_of(old(self)@.directory_path, listing@),
                    },
                    ..old(self)@
                }),
                None => outcome == Err::<(), BrowserError>(BrowserError::EnumerationFailed)
                    && final(self)@ == old(self)@,
            },
    {
        match listing {
            Some(listing) => {
                self.snapshot = DirectorySnapshot::build(self.directory_path.as_str(), listing);
                self.path_changed = false;
                self.is_first_load = false;
                Ok(())
            },
            None => Err(BrowserError::EnumerationFailed),
        }
    }

    /// Computes the selection set of the entries at the marked positions
    /// and leaves it for the pipeline, in place of one not yet taken.
    pub fn publish_selection(&mut self, marked: &Vec<usize>)
        ensures
            final(self)@ == (BrowserView {
                selected_files: Some(selection_pairs(old(self)@.snapshot.entries, marked@)),
                ..old(self)@
            }),
    {
        let selected = self.snapshot.selection(marked);
        self.selected_files.publish(selected);
    }

    /// Takes the selection set that waits for the pipeline, if any.
    pub fn take_selection(&mut self) -> (selected: Option<SelectionSet>)
        ensures
            pairs_in(selected) == old(self)@.selected_files,
            final(self)@ == (BrowserView { selected_files: None, ..old(self)@ }),
    {
        self.selected_files.take()
    }

    /// Leaves the proposed names for the browser, in place of any not yet
    /// taken.
    pub fn publish_new_names(&mut self, proposed: ProposedRenames)
        ensures
            final(self)@ == (BrowserView { new_names: Some(proposed@), ..old(self)@ }),
    {
        self.new_names.publish(proposed);
    }

    /// Takes the proposed names that wait for the browser, if any.
    pub fn take_new_names(&mut self) -> (proposed: Option<ProposedRenames>)
        ensures
            mapping_of(proposed) == old(self)@.new_names,
            final(self)@ == (BrowserView { new_names: None, ..old(self)@ }),
    {
        self.new_names.take()
    }
}

} // verus!
