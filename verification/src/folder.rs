//! A model of the storage folder, and what the store's commands guarantee on
//! it.
//!
//! The folder is taken to be a map from file names to file contents, and the
//! host is taken to carry out each plan of the store as it is given, with no
//! I/O failure. This is how a directory behaves for documents with valid
//! names, whose files lie directly in it. What is read back is the encoded
//! form that was written: encoding and decoding are the host's.

use vstd::prelude::*;
use crate::document::{
    document_name_of,
    file_name_of,
    is_document_file,
    lemma_document_name_of_file_name,
    lemma_file_name_injective,
    lemma_file_name_of_document_name,
    valid_name,
    WritingFileView,
};
use crate::store::{
    delete_reply_of,
    lemma_listed_names_empty,
    lemma_listed_names_push,
    listed_names,
    load_reply_of,
    not_found_message,
    save_reply_of,
    saved_message,
    DeletePlanView,
    SavePlanView,
};

verus! {

/// The files that lie directly in the storage folder, each with its
/// contents, by file name.
pub struct Folder {
    pub files: Map<Seq<char>, Seq<char>>,
}

/// A command run to its end: the folder that it leaves and its answer.
pub struct Outcome {
    pub folder: Folder,
    pub answer: Result<Seq<char>, Seq<char>>,
}

impl Folder {
    /// The folder in which nothing was saved yet.
    pub open spec fn empty() -> Folder {
        Folder { files: Map::empty() }
    }

    /// Whether the file of the document called `name` exists. This is what
    /// the host finds when it looks for the file.
    pub open spec fn holds(self, name: Seq<char>) -> bool {
        self.files.contains_key(file_name_of(name))
    }

    /// The folder after the host carried out `plan`.
    pub open spec fn written(self, plan: SavePlanView) -> Folder {
        Folder { files: self.files.insert(plan.file_name, plan.contents) }
    }

    /// The folder after the host carried out `plan`.
    pub open spec fn removed(self, plan: DeletePlanView) -> Folder {
        Folder { files: self.files.remove(plan.file_name) }
    }

    /// Whether `entries` is what the host may read as the folder's entries:
    /// every file once, in any order.
    pub open spec fn enumerated_by(self, entries: Seq<Seq<char>>) -> bool {
        entries.no_duplicates() && entries.to_set() == self.files.dom()
    }

    /// Saving the document called `name`, given how its encoding went.
    pub open spec fn save(self, name: Seq<char>, serialized: Result<Seq<char>, Seq<char>>) -> Outcome {
        match save_reply_of(name, serialized) {
            Ok(plan) => Outcome { folder: self.written(plan), answer: Ok(plan.confirmation) },
            Err(message) => Outcome { folder: self, answer: Err(message) },
        }
    }

    /// Loading the document called `name`: the encoded form that is read, or
    /// the message of the failure.
    pub open spec fn load(self, name: Seq<char>) -> Result<Seq<char>, Seq<char>> {
        match load_reply_of(name, self.holds(name)) {
            Ok(file_name) => Ok(self.files[file_name]),
            Err(message) => Err(message),
        }
    }

    /// Deleting the document called `name`.
    pub open spec fn delete(self, name: Seq<char>) -> Outcome {
        match delete_reply_of(name, self.holds(name)) {
            Ok(plan) => Outcome { folder: self.removed(plan), answer: Ok(plan.confirmation) },
            Err(message) => Outcome { folder: self, answer: Err(message) },
        }
    }

    /// The folder after the documents called `names` were saved one after
    /// the other, the `i`-th with the encoded form `encoded[i]`.
    pub open spec fn save_all(self, names: Seq<Seq<char>>, encoded: Seq<Seq<char>>) -> Folder
        decreases names.len(),
    {
        if names.len() == 0 {
            self
        } else {
            self.save_all(names.drop_last(), encoded.drop_last()).save(
                names.last(),
                Ok(encoded.last()),
            ).folder
        }
    }
}

/// Round trip: once a valid document was saved, the save answers with its
/// confirmation, and loading the document's name at once reads exactly the
/// encoded form that was saved.
pub proof fn lemma_load_after_save(folder: Folder, file: WritingFileView, encoded: Seq<char>)
    requires
        file.valid(),
    ensures
        folder.save(file.name, Ok(encoded)).answer == Ok::<Seq<char>, Seq<char>>(
            saved_message(file.name),
        ),
        folder.save(file.name, Ok(encoded)).folder.load(file.name) == Ok::<Seq<char>, Seq<char>>(
            encoded,
        ),
{
}

/// Round trip of the document itself: where the host's decoder reads
/// `encoded` as `file`, what it decodes from a load that follows the save is
/// `file` again, equal in all five fields.
pub proof fn lemma_document_round_trip(
    folder: Folder,
    file: WritingFileView,
    encoded: Seq<char>,
    decode: spec_fn(Seq<char>) -> Option<WritingFileView>,
)
    requires
        file.valid(),
        decode(encoded) == Some(file),
    ensures
        match folder.save(file.name, Ok(encoded)).folder.load(file.name) {
            Ok(contents) => decode(contents) == Some(file),
            Err(_) => false,
        },
{
    lemma_load_after_save(folder, file, encoded);
}

/// A document that could not be encoded is not saved: the folder stays as it
/// was and the encoder's message is the answer.
pub proof fn lemma_failed_encoding_saves_nothing(folder: Folder, name: Seq<char>, cause: Seq<char>)
    ensures
        folder.save(name, Err(cause)) == (Outcome { folder, answer: Err(cause) }),
{
}

/// After a delete that succeeded, loading the same name fails as not found,
/// and so does a second delete, which leaves the folder as it is.
pub proof fn lemma_not_found_after_delete(folder: Folder, name: Seq<char>)
    requires
        valid_name(name),
        folder.delete(name).answer is Ok,
    ensures
        ({
            let after = folder.delete(name).folder;
            &&& after.load(name) == Err::<Seq<char>, Seq<char>>(not_found_message())
            &&& after.delete(name) == (Outcome { folder: after, answer: Err(not_found_message()) })
        }),
{
}

/// A delete succeeds exactly when the document's file exists, and a load
/// fails exactly when it does not, and then as not found.
pub proof fn lemma_found_iff_held(folder: Folder, name: Seq<char>)
    ensures
        folder.delete(name).answer is Ok <==> folder.holds(name),
        folder.load(name) is Ok <==> folder.holds(name),
        !folder.holds(name) ==> folder.load(name) == Err::<Seq<char>, Seq<char>>(
            not_found_message(),
        ),
        !folder.holds(name) ==> folder.delete(name).answer == Err::<Seq<char>, Seq<char>>(
            not_found_message(),
        ),
{
}

/// Overwriting: when two documents of the same name are saved one after the
/// other, the folder is the one that the second save alone would have left,
/// and loading the name reads the second encoded form. Nothing of the first
/// is kept.
pub proof fn lemma_save_overwrites(
    folder: Folder,
    first: WritingFileView,
    first_encoded: Seq<char>,
    second: WritingFileView,
    second_encoded: Seq<char>,
)
    requires
        first.valid(),
        second.valid(),
        first.name == second.name,
    ensures
        ({
            let after = folder.save(first.name, Ok(first_encoded)).folder.save(
                second.name,
                Ok(second_encoded),
            ).folder;
            &&& after == folder.save(second.name, Ok(second_encoded)).folder
            &&& after.load(first.name) == Ok::<Seq<char>, Seq<char>>(second_encoded)
        }),
{
    let once = folder.save(second.name, Ok(second_encoded)).folder;
    let twice = folder.save(first.name, Ok(first_encoded)).folder.save(
        second.name,
        Ok(second_encoded),
    ).folder;
    assert(twice.files =~= once.files);
}

/// One file per name: saving or deleting a document changes what is stored
/// under its own name only.
pub proof fn lemma_other_documents_kept(
    folder: Folder,
    name: Seq<char>,
    serialized: Result<Seq<char>, Seq<char>>,
    other: Seq<char>,
)
    requires
        valid_name(name),
        valid_name(other),
        other != name,
    ensures
        folder.save(name, serialized).folder.holds(other) == folder.holds(other),
        folder.save(name, serialized).folder.load(other) == folder.load(other),
        folder.delete(name).folder.holds(other) == folder.holds(other),
        folder.delete(name).folder.load(other) == folder.load(other),
{
    if file_name_of(other) == file_name_of(name) {
        lemma_file_name_injective(other, name);
    }
}

/// A name is listed exactly when its document's file is among the entries.
pub proof fn lemma_listed_iff_entry(entries: Seq<Seq<char>>, name: Seq<char>)
    ensures
        listed_names(entries).contains(name) <==> entries.contains(file_name_of(name)),
    decreases entries.len(),
{
    if entries.len() == 0 {
        lemma_listed_names_empty();
    } else {
        let seen = entries.drop_last();
        let last = entries.last();
        assert(entries =~= seen.push(last));
        lemma_listed_iff_entry(seen, name);
        lemma_listed_names_push(seen, last);
        lemma_document_name_of_file_name(name);
        if is_document_file(last) {
            lemma_file_name_of_document_name(last);
        }
        let listed = listed_names(seen);
        if listed_names(entries).contains(name) {
            let i = choose|i: int| 0 <= i < listed_names(entries).len() && listed_names(entries)[i] == name;
            if i < listed.len() {
                assert(listed[i] == name);
                let j = choose|j: int| 0 <= j < seen.len() && seen[j] == file_name_of(name);
                assert(entries[j] == file_name_of(name));
            } else {
                assert(document_name_of(last) == Some(name));
                assert(entries[entries.len() - 1] == file_name_of(name));
            }
        }
        if entries.contains(file_name_of(name)) {
            let j = choose|j: int| 0 <= j < entries.len() && entries[j] == file_name_of(name);
            if j < seen.len() {
                assert(seen[j] == file_name_of(name));
                let i = choose|i: int| 0 <= i < listed.len() && listed[i] == name;
                assert(listed_names(entries)[i] == name);
            } else {
                assert(last == file_name_of(name));
                assert(listed_names(entries)[listed.len() as int] == name);
            }
        }
    }
}

/// A listing shows exactly the documents that the folder holds: a name is
/// listed when, and only when, a load of it finds its file.
pub proof fn lemma_listed_iff_held(folder: Folder, entries: Seq<Seq<char>>, name: Seq<char>)
    requires
        folder.enumerated_by(entries),
    ensures
        listed_names(entries).contains(name) <==> folder.holds(name),
        listed_names(entries).contains(name) <==> folder.load(name) is Ok,
{
    lemma_listed_iff_entry(entries, name);
    assert(entries.contains(file_name_of(name)) <==> entries.to_set().contains(
        file_name_of(name),
    ));
}

/// Entries that are pairwise different list names that are pairwise
/// different.
pub proof fn lemma_listing_has_no_duplicates(entries: Seq<Seq<char>>)
    requires
        entries.no_duplicates(),
    ensures
        listed_names(entries).no_duplicates(),
    decreases entries.len(),
{
    if entries.len() == 0 {
        lemma_listed_names_empty();
    } else {
        let seen = entries.drop_last();
        let last = entries.last();
        assert(entries =~= seen.push(last));
        lemma_listing_has_no_duplicates(seen);
        lemma_listed_names_push(seen, last);
        if is_document_file(last) {
            let name = document_name_of(last)->0;
            lemma_file_name_of_document_name(last);
            lemma_listed_iff_entry(seen, name);
            if seen.contains(last) {
                let j = choose|j: int| 0 <= j < seen.len() && seen[j] == last;
                assert(entries[j] == entries[entries.len() - 1]);
            }
            assert(!listed_names(seen).contains(name));
        }
    }
}

/// The files of a folder into which documents were saved are the files that
/// it had and the files of these documents.
pub proof fn lemma_files_after_saves(
    folder: Folder,
    names: Seq<Seq<char>>,
    encoded: Seq<Seq<char>>,
    file_name: Seq<char>,
)
    requires
        names.len() == encoded.len(),
    ensures
        folder.save_all(names, encoded).files.contains_key(file_name)
            <==> folder.files.contains_key(file_name) || exists|i: int|
            0 <= i < names.len() && file_name == file_name_of(#[trigger] names[i]),
    decreases names.len(),
{
    if names.len() > 0 {
        let before = names.drop_last();
        lemma_files_after_saves(folder, before, encoded.drop_last(), file_name);
        if exists|i: int| 0 <= i < before.len() && file_name == file_name_of(#[trigger] before[i]) {
            let i = choose|i: int|
                0 <= i < before.len() && file_name == file_name_of(#[trigger] before[i]);
            assert(names[i] == before[i]);
        }
        if exists|i: int| 0 <= i < names.len() && file_name == file_name_of(#[trigger] names[i]) {
            let i = choose|i: int|
                0 <= i < names.len() && file_name == file_name_of(#[trigger] names[i]);
            if i < before.len() {
                assert(before[i] == names[i]);
            }
        }
    }
}

/// Listing: after documents with valid names were saved into an empty
/// folder, in whatever order, a listing of the folder shows exactly their
/// names, each once. So where the names are pairwise different, the listing
/// is as long as there are documents.
pub proof fn lemma_list_after_saves(
    names: Seq<Seq<char>>,
    encoded: Seq<Seq<char>>,
    entries: Seq<Seq<char>>,
)
    requires
        names.len() == encoded.len(),
        forall|i: int| 0 <= i < names.len() ==> valid_name(#[trigger] names[i]),
        Folder::empty().save_all(names, encoded).enumerated_by(entries),
    ensures
        listed_names(entries).to_set() == names.to_set(),
        listed_names(entries).no_duplicates(),
        names.no_duplicates() ==> listed_names(entries).len() == names.len(),
{
    let folder = Folder::empty().save_all(names, encoded);
    let listed = listed_names(entries);
    assert forall|name: Seq<char>| listed.contains(name) <==> names.contains(name) by {
        lemma_listed_iff_entry(entries, name);
        lemma_files_after_saves(Folder::empty(), names, encoded, file_name_of(name));
        assert(entries.contains(file_name_of(name)) <==> entries.to_set().contains(
            file_name_of(name),
        ));
        if folder.files.contains_key(file_name_of(name)) {
            let i = choose|i: int|
                0 <= i < names.len() && file_name_of(name) == file_name_of(#[trigger] names[i]);
            lemma_file_name_injective(name, names[i]);
        }
        if names.contains(name) {
            let i = choose|i: int| 0 <= i < names.len() && names[i] == name;
            assert(file_name_of(name) == file_name_of(names[i]));
        }
    }
    assert(listed.to_set() =~= names.to_set());
    lemma_listing_has_no_duplicates(entries);
    if names.no_duplicates() {
        listed.unique_seq_to_set();
        names.unique_seq_to_set();
    }
}

} // verus!
