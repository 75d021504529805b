//! The persisted document and the naming of its file.

use vstd::prelude::*;
use vstd::string::*;

verus! {

/// A document as the editor saves it. `name` is the storage key: the
/// document is kept in the file `<name>.json` of the storage folder.
#[derive(Debug, PartialEq, Eq)]
pub struct WritingFile {
    pub name: String,
    pub text: String,
    pub font: String,
    pub font_size: u32,
    pub theme: String,
}

/// The mathematical value of a [`WritingFile`].
pub struct WritingFileView {
    pub name: Seq<char>,
    pub text: Seq<char>,
    pub font: Seq<char>,
    pub font_size: u32,
    pub theme: Seq<char>,
}

impl View for WritingFile {
    type V = WritingFileView;

    open spec fn view(&self) -> WritingFileView {
        WritingFileView {
            name: self.name@,
            text: self.text@,
            font: self.font@,
            font_size: self.font_size,
            theme: self.theme@,
        }
    }
}

impl Clone for WritingFile {
    fn clone(&self) -> (copy: Self)
        ensures
            copy@ == self@,
    {
        WritingFile {
            name: self.name.clone(),
            text: self.text.clone(),
            font: self.font.clone(),
            font_size: self.font_size,
            theme: self.theme.clone(),
        }
    }
}

/// The suffix that marks a file of the storage folder as a document.
pub open spec fn document_suffix() -> Seq<char> {
    seq!['.', 'j', 's', 'o', 'n']
}

/// The name of the file that holds the document called `name`.
pub open spec fn file_name_of(name: Seq<char>) -> Seq<char> {
    name + document_suffix()
}

/// Computes the name of the file that holds the document called `name`.
pub fn document_file_name(name: &str) -> (file_name: String)
    ensures
        file_name@ == file_name_of(name@),
{
    proof {
        reveal_strlit(".json");
    }
    let file_name = String::from_str(name).concat(".json");
    assert(".json"@ =~= document_suffix());
    file_name
}

/// Whether the file called `file_name` holds a document.
pub open spec fn is_document_file(file_name: Seq<char>) -> bool {
    document_suffix().is_suffix_of(file_name)
}

/// The part of `file_name` before the document suffix.
pub open spec fn document_stem(file_name: Seq<char>) -> Seq<char> {
    file_name.take(file_name.len() - document_suffix().len())
}

/// The name of the document that the file called `file_name` holds, if it
/// holds one.
pub open spec fn document_name_of(file_name: Seq<char>) -> Option<Seq<char>> {
    if is_document_file(file_name) {
        Some(document_stem(file_name))
    } else {
        None
    }
}

/// Finds the name of the document that the file called `file_name` holds.
/// A file whose name does not end in the document suffix holds none.
pub fn document_name(file_name: &str) -> (name: Option<String>)
    ensures
        name.deep_view() == document_name_of(file_name@),
{
    let suffix = ".json";
    proof {
        reveal_strlit(".json");
        assert(suffix@ =~= document_suffix());
    }
    let suffix_len: usize = suffix.unicode_len();
    let len: usize = file_name.unicode_len();
    if len < suffix_len {
        return None;
    }
    let split: usize = len - suffix_len;
    let tail = String::from_str(file_name.substring_char(split, len));
    if tail == String::from_str(suffix) {
        Some(String::from_str(file_name.substring_char(0, split)))
    } else {
        None
    }
}

/// Two documents are kept in the same file only if they have the same name.
pub proof fn lemma_file_name_injective(a: Seq<char>, b: Seq<char>)
    requires
        file_name_of(a) == file_name_of(b),
    ensures
        a == b,
{
    assert(file_name_of(a).take(a.len() as int) =~= a);
    assert(file_name_of(b).take(b.len() as int) =~= b);
}

/// The file that keeps a document is a document file, and the name found in
/// its file name is the document's name.
pub proof fn lemma_document_name_of_file_name(name: Seq<char>)
    ensures
        is_document_file(file_name_of(name)),
        document_name_of(file_name_of(name)) == Some(name),
{
    let file_name = file_name_of(name);
    assert(file_name.subrange(file_name.len() - document_suffix().len(), file_name.len() as int)
        =~= document_suffix());
    assert(document_stem(file_name) =~= name);
}

/// A document file is the file that keeps the document named in it.
pub proof fn lemma_file_name_of_document_name(file_name: Seq<char>)
    requires
        is_document_file(file_name),
    ensures
        file_name_of(document_stem(file_name)) == file_name,
{
    assert(file_name_of(document_stem(file_name)) =~= file_name);
}

/// Whether `c` separates the components of a path on some platform.
pub open spec fn is_path_separator(c: char) -> bool {
    c == '/' || c == '\\'
}

/// A document name is valid when it holds no path separator, so that the
/// document's file lies directly in the storage folder.
pub open spec fn valid_name(name: Seq<char>) -> bool {
    forall|i: int| 0 <= i < name.len() ==> !is_path_separator(#[trigger] name[i])
}

impl WritingFileView {
    /// A document is valid when its name is valid and its font size is
    /// positive.
    pub open spec fn valid(self) -> bool {
        valid_name(self.name) && self.font_size > 0
    }
}

/// A name with one more character at its end is valid when the name is valid
/// and the character is no path separator.
pub proof fn lemma_valid_name_push(name: Seq<char>, c: char)
    ensures
        valid_name(name.push(c)) <==> valid_name(name) && !is_path_separator(c),
{
    let longer = name.push(c);
    if valid_name(name) && !is_path_separator(c) {
        assert forall|i: int| 0 <= i < longer.len() implies !is_path_separator(
            #[trigger] longer[i],
        ) by {
            if i < name.len() {
                assert(longer[i] == name[i]);
            }
        }
    }
    if valid_name(longer) {
        assert forall|i: int| 0 <= i < name.len() implies !is_path_separator(#[trigger] name[i]) by {
            assert(name[i] == longer[i]);
        }
        assert(longer[name.len() as int] == c);
    }
}

/// Checks that `name` holds no path separator.
pub fn is_valid_name(name: &str) -> (valid: bool)
    ensures
        valid == valid_name(name@),
{
    let mut valid = true;
    for c in it: name.chars()
        invariant
            it.seq() == name@,
            valid == valid_name(name@.take(it.index())),
    {
        proof {
            let seen = name@.take(it.index() as int);
            assert(name@.take(it.index() + 1) =~= seen.push(c));
            lemma_valid_name_push(seen, c);
        }
        if c == '/' || c == '\\' {
            valid = false;
        }
    }
    assert(name@.take(name@.len() as int) =~= name@);
    valid
}

impl WritingFile {
    /// Checks that the document is valid.
    pub fn is_valid(&self) -> (valid: bool)
        ensures
            valid == self@.valid(),
    {
        is_valid_name(self.name.as_str()) && self.font_size > 0
    }
}

} // verus!
