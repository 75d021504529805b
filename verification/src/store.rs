//! The document store: what each command does to the storage folder and what
//! it answers.
//!
//! Every document is one file, directly in the storage folder. The functions
//! here decide which file a command touches, what is written to it and which
//! message the command answers with. The host resolves the folder, looks
//! whether a file exists, and reads, writes, lists and removes files; an I/O
//! error that it meets is the command's answer as it stands.
//!
//! A document's name is used as it is given. Whether a name keeps its file
//! directly in the folder is for the caller to ask, with
//! [`is_valid_name`](crate::document::is_valid_name).

use vstd::prelude::*;
use vstd::string::*;
use crate::document::{
    document_name,
    document_name_of,
    document_file_name,
    document_stem,
    file_name_of,
    is_document_file,
    WritingFile,
};

verus! {

/// What saving a document asks of the host: write `contents` to the file
/// called `file_name`, replacing what it held, and then answer with
/// `confirmation`.
#[derive(Debug, PartialEq, Eq)]
pub struct SavePlan {
    pub file_name: String,
    pub contents: String,
    pub confirmation: String,
}

/// The mathematical value of a [`SavePlan`].
pub struct SavePlanView {
    pub file_name: Seq<char>,
    pub contents: Seq<char>,
    pub confirmation: Seq<char>,
}

impl View for SavePlan {
    type V = SavePlanView;

    open spec fn view(&self) -> SavePlanView {
        SavePlanView {
            file_name: self.file_name@,
            contents: self.contents@,
            confirmation: self.confirmation@,
        }
    }
}

/// What deleting a document asks of the host: remove the file called
/// `file_name`, and then answer with `confirmation`.
#[derive(Debug, PartialEq, Eq)]
pub struct DeletePlan {
    pub file_name: String,
    pub confirmation: String,
}

/// The mathematical value of a [`DeletePlan`].
pub struct DeletePlanView {
    pub file_name: Seq<char>,
    pub confirmation: Seq<char>,
}

impl View for DeletePlan {
    type V = DeletePlanView;

    open spec fn view(&self) -> DeletePlanView {
        DeletePlanView { file_name: self.file_name@, confirmation: self.confirmation@ }
    }
}

/// The mathematical value of a command's reply: that of the value it
/// succeeded with, or the text of the message it failed with.
pub open spec fn reply_view<T: View>(reply: Result<T, String>) -> Result<T::V, Seq<char>> {
    match reply {
        Ok(value) => Ok(value@),
        Err(message) => Err(message@),
    }
}

/// The name of the storage folder inside the application's data directory.
pub open spec fn user_folder() -> Seq<char> {
    "user_data"@
}

/// The answer of a command whose document has no file.
pub open spec fn not_found_message() -> Seq<char> {
    "File not found"@
}

/// The answer of a successful save of the document called `name`.
pub open spec fn saved_message(name: Seq<char>) -> Seq<char> {
    "File '"@ + name + "' saved successfully!"@
}

/// The answer of a successful delete of the document called `name`.
pub open spec fn deleted_message(name: Seq<char>) -> Seq<char> {
    "File '"@ + name + "' deleted successfully!"@
}

/// What a save of the document called `name` decides, given how its encoding
/// went: an encoded document is written to the document's file, and a
/// failure of the encoder is the answer.
pub open spec fn save_reply_of(name: Seq<char>, serialized: Result<Seq<char>, Seq<char>>) -> Result<
    SavePlanView,
    Seq<char>,
> {
    match serialized {
        Ok(contents) => Ok(
            SavePlanView {
                file_name: file_name_of(name),
                contents,
                confirmation: saved_message(name),
            },
        ),
        Err(cause) => Err(cause),
    }
}

/// What a load of the document called `name` decides, given whether the
/// document's file exists: the file to read, or the answer "not found".
pub open spec fn load_reply_of(name: Seq<char>, exists: bool) -> Result<Seq<char>, Seq<char>> {
    if exists {
        Ok(file_name_of(name))
    } else {
        Err(not_found_message())
    }
}

/// What a delete of the document called `name` decides, given whether the
/// document's file exists: the file to remove, or the answer "not found".
pub open spec fn delete_reply_of(name: Seq<char>, exists: bool) -> Result<
    DeletePlanView,
    Seq<char>,
> {
    if exists {
        Ok(DeletePlanView { file_name: file_name_of(name), confirmation: deleted_message(name) })
    } else {
        Err(not_found_message())
    }
}

/// The document names that a listing of the storage folder shows, given the
/// names of the folder's entries: each entry that is a document file gives
/// its document's name, in the order of the entries; other entries give
/// nothing.
pub open spec fn listed_names(entries: Seq<Seq<char>>) -> Seq<Seq<char>> {
    entries.filter(|file_name: Seq<char>| is_document_file(file_name)).map_values(
        |file_name: Seq<char>| document_stem(file_name),
    )
}

/// No entries, no names.
pub proof fn lemma_listed_names_empty()
    ensures
        listed_names(Seq::empty()) == Seq::<Seq<char>>::empty(),
{
    reveal_with_fuel(Seq::filter, 1);
    assert(listed_names(Seq::empty()) =~= Seq::<Seq<char>>::empty());
}

/// A listing grows by one entry at its end: a document file adds its
/// document's name, any other entry adds nothing.
pub proof fn lemma_listed_names_push(entries: Seq<Seq<char>>, file_name: Seq<char>)
    ensures
        listed_names(entries.push(file_name)) == match document_name_of(file_name) {
            Some(name) => listed_names(entries).push(name),
            None => listed_names(entries),
        },
{
    let is_document = |file_name: Seq<char>| is_document_file(file_name);
    let stem = |file_name: Seq<char>| document_stem(file_name);
    let last = seq![file_name];
    assert(entries.push(file_name) =~= entries + last);
    Seq::filter_distributes_over_add(entries, last, is_document);
    assert(last.filter(is_document) =~= if is_document_file(file_name) {
        last
    } else {
        Seq::empty()
    }) by {
        reveal_with_fuel(Seq::filter, 2);
        assert(last.drop_last() =~= Seq::empty());
    }
    let kept = entries.filter(is_document);
    if is_document_file(file_name) {
        assert((kept + last).map_values(stem) =~= kept.map_values(stem).push(
            document_stem(file_name),
        ));
    } else {
        assert(kept + Seq::<Seq<char>>::empty() =~= kept);
    }
}

/// The name of the storage folder inside the application's data directory.
pub fn user_folder_name() -> (name: String)
    ensures
        name@ == user_folder(),
{
    String::from_str("user_data")
}

/// Plans the save of `file`, whose encoded form is `serialized`. A document
/// that could not be encoded is not saved: the encoder's message is the
/// answer. Otherwise the encoded form replaces whatever the document's file
/// held.
pub fn save_file(file: &WritingFile, serialized: Result<String, String>) -> (reply: Result<
    SavePlan,
    String,
>)
    ensures
        reply_view(reply) == save_reply_of(file@.name, reply_view(serialized)),
{
    match serialized {
        Ok(contents) => {
            let name = file.name.as_str();
            let file_name = document_file_name(name);
            let confirmation = String::from_str("File '").concat(name).concat(
                "' saved successfully!",
            );
            Ok(SavePlan { file_name, contents, confirmation })
        },
        Err(cause) => Err(cause),
    }
}

/// Finds the file to read for the document called `name`. `exists` says
/// whether the document's file is in the storage folder: without it the
/// command fails as not found, with it the file's name is returned.
pub fn load_file(name: &str, exists: bool) -> (reply: Result<String, String>)
    ensures
        reply_view(reply) == load_reply_of(name@, exists),
{
    if exists {
        Ok(document_file_name(name))
    } else {
        Err(String::from_str("File not found"))
    }
}

/// Lists the documents of the storage folder, given the names of the
/// folder's entries as the host read them.
pub fn list_files(entries: &Vec<String>) -> (names: Vec<String>)
    ensures
        names.deep_view() == listed_names(entries.deep_view()),
{
    let mut names: Vec<String> = Vec::new();
    let mut i: usize = 0;
    proof {
        lemma_listed_names_empty();
        assert(entries.deep_view().take(0) =~= Seq::empty());
        assert(names.deep_view() =~= Seq::empty());
    }
    while i < entries.len()
        invariant
            i <= entries.len(),
            names.deep_view() == listed_names(entries.deep_view().take(i as int)),
        decreases entries.len() - i,
    {
        let found = document_name(entries[i].as_str());
        proof {
            let seen = entries.deep_view().take(i as int);
            assert(entries.deep_view().take(i + 1) =~= seen.push(entries[i as int]@));
            lemma_listed_names_push(seen, entries[i as int]@);
        }
        let ghost listed = names.deep_view();
        match found {
            Some(name) => {
                names.push(name);
                assert(names.deep_view() =~= listed.push(name@));
            },
            None => {},
        }
        i += 1;
    }
    assert(entries.deep_view().take(entries.len() as int) =~= entries.deep_view());
    names
}

/// Plans the delete of the document called `name`. `exists` says whether the
/// document's file is in the storage folder: without it the command fails as
/// not found and nothing is removed.
pub fn delete_file(name: &str, exists: bool) -> (reply: Result<DeletePlan, String>)
    ensures
        reply_view(reply) == delete_reply_of(name@, exists),
{
    if exists {
        let file_name = document_file_name(name);
        let confirmation = String::from_str("File '").concat(name).concat(
            "' deleted successfully!",
        );
        Ok(DeletePlan { file_name, confirmation })
    } else {
        Err(String::from_str("File not found"))
    }
}

} // verus!
