//! Splitting a log path into its directory and its file name.
//!
//! A path is read as text cut at every `/`. Its file name is the last piece
//! that is neither empty nor `.`; a path whose last such piece is `..`, or
//! that has no such piece, has no file name. Its directory is what stands
//! before the last `/`.

use vstd::prelude::*;
use vstd::string::*;
use crate::text::chars_of;

verus! {

/// The directory used for a path that names none.
pub open spec fn default_directory() -> Seq<char> {
    "./logs"@
}

/// Index of the last `/` in `path`, or `-1` if there is none.
pub open spec fn last_separator(path: Seq<char>) -> int
    decreases path.len(),
{
    if path.len() == 0 {
        -1
    } else if path.last() == '/' {
        path.len() - 1
    } else {
        last_separator(path.drop_last())
    }
}

/// A piece that does not count as a name: the empty piece and `.`.
pub open spec fn is_blank_piece(piece: Seq<char>) -> bool {
    piece.len() == 0 || piece == seq!['.']
}

/// The piece `..`, which names the parent directory.
pub open spec fn is_parent_piece(piece: Seq<char>) -> bool {
    piece == seq!['.', '.']
}

/// The file name of `path`: its last piece that is not blank, unless that
/// piece is `..`.
pub open spec fn file_name_of(path: Seq<char>) -> Option<Seq<char>>
    decreases path.len(),
{
    let cut = last_separator(path);
    let piece = path.skip(cut + 1);
    if is_blank_piece(piece) {
        if 0 <= cut < path.len() {
            file_name_of(path.take(cut))
        } else {
            None
        }
    } else if is_parent_piece(piece) {
        None
    } else {
        Some(piece)
    }
}

/// The directory of `path`: what stands before its last `/`, or the default
/// directory where that is empty or the path holds no `/`.
pub open spec fn directory_of(path: Seq<char>) -> Seq<char> {
    let cut = last_separator(path);
    if cut <= 0 {
        default_directory()
    } else {
        path.take(cut)
    }
}

/// What `last_separator` finds: a `/` with no `/` after it, or nothing
/// where the path holds no `/`.
pub proof fn lemma_last_separator(path: Seq<char>)
    ensures
        -1 <= last_separator(path) < path.len(),
        last_separator(path) >= 0 ==> path[last_separator(path)] == '/',
        forall|i: int| last_separator(path) < i < path.len() ==> path[i] != '/',
    decreases path.len(),
{
    if path.len() > 0 && path.last() != '/' {
        let shorter = path.drop_last();
        lemma_last_separator(shorter);
        assert forall|i: int| last_separator(path) < i < path.len() implies path[i] != '/' by {
            if i < shorter.len() {
                assert(path[i] == shorter[i]);
            }
        }
    }
}

/// A file name is never empty, never `.` or `..`, and holds no `/`.
pub proof fn lemma_file_name_is_one_piece(path: Seq<char>)
    ensures
        file_name_of(path) matches Some(name) ==> {
            &&& name.len() > 0
            &&& !is_blank_piece(name)
            &&& !is_parent_piece(name)
            &&& forall|i: int| 0 <= i < name.len() ==> name[i] != '/'
        },
    decreases path.len(),
{
    lemma_last_separator(path);
    let cut = last_separator(path);
    let piece = path.skip(cut + 1);
    if is_blank_piece(piece) {
        if 0 <= cut {
            lemma_file_name_is_one_piece(path.take(cut));
        }
    }
}

/// A single piece that is a proper name is its own file name, so taking the
/// file name twice changes nothing.
pub proof fn lemma_file_name_of_piece(name: Seq<char>)
    requires
        !is_blank_piece(name),
        !is_parent_piece(name),
        forall|i: int| 0 <= i < name.len() ==> name[i] != '/',
    ensures
        file_name_of(name) == Some(name),
{
    lemma_last_separator(name);
    assert(name.skip(0) == name);
}

/// Taking the file name of a file name gives it back.
pub proof fn law_file_name_idempotent(path: Seq<char>)
    ensures
        file_name_of(path) matches Some(name) ==> file_name_of(name) == Some(name),
{
    lemma_file_name_is_one_piece(path);
    if let Some(name) = file_name_of(path) {
        lemma_file_name_of_piece(name);
    }
}

/// A `/` followed by a piece without `/` is the last separator.
proof fn lemma_last_separator_before_piece(head: Seq<char>, piece: Seq<char>)
    requires
        forall|i: int| 0 <= i < piece.len() ==> piece[i] != '/',
    ensures
        last_separator(head + seq!['/'] + piece) == head.len(),
    decreases piece.len(),
{
    let path = head + seq!['/'] + piece;
    if piece.len() > 0 {
        assert(path.drop_last() == head + seq!['/'] + piece.drop_last());
        lemma_last_separator_before_piece(head, piece.drop_last());
    }
}

/// Splitting undoes joining: a directory and a proper file name, joined by
/// a `/`, are the directory and the file name of the joined path.
pub proof fn law_split_of_join(directory: Seq<char>, name: Seq<char>)
    requires
        directory.len() > 0,
        !is_blank_piece(name),
        !is_parent_piece(name),
        forall|i: int| 0 <= i < name.len() ==> name[i] != '/',
    ensures
        directory_of(directory + seq!['/'] + name) == directory,
        file_name_of(directory + seq!['/'] + name) == Some(name),
{
    let path = directory + seq!['/'] + name;
    lemma_last_separator_before_piece(directory, name);
    assert(path.take(directory.len() as int) == directory);
    assert(path.skip(directory.len() as int + 1) == name);
}

/// The directory is never empty.
pub proof fn law_directory_not_empty(path: Seq<char>)
    ensures
        directory_of(path).len() > 0,
{
    lemma_last_separator(path);
    reveal_strlit("./logs");
}

/// One more than the index of the last `/` among the first `end` characters.
fn piece_start(chars: &Vec<char>, end: usize) -> (start: usize)
    requires
        end <= chars.len(),
    ensures
        start == last_separator(chars@.take(end as int)) + 1,
        start <= end,
{
    let mut i: usize = end;
    while i > 0 && chars[i - 1] != '/'
        invariant
            i <= end <= chars.len(),
            last_separator(chars@.take(end as int)) == last_separator(chars@.take(i as int)),
        decreases i,
    {
        proof {
            assert(chars@.take(i as int).drop_last() == chars@.take(i - 1));
        }
        i -= 1;
    }
    i
}

/// Where the file name of `chars` starts and ends, if it has one.
fn file_name_span(chars: &Vec<char>) -> (span: Option<(usize, usize)>)
    ensures
        match span {
            Some((start, end)) => start < end <= chars.len() && file_name_of(chars@) == Some(
                chars@.subrange(start as int, end as int),
            ),
            None => file_name_of(chars@) is None,
        },
{
    let mut end: usize = chars.len();
    proof {
        assert(chars@.take(end as int) == chars@);
    }
    loop
        invariant
            end <= chars.len(),
            file_name_of(chars@) == file_name_of(chars@.take(end as int)),
        decreases end,
    {
        let start = piece_start(chars, end);
        let ghost prefix = chars@.take(end as int);
        let ghost piece = prefix.skip(start as int);
        let length: usize = end - start;
        let blank = length == 0 || (length == 1 && chars[start] == '.');
        proof {
            if length == 1 && chars[start as int] == '.' {
                assert(piece == seq!['.']);
            }
            if piece == seq!['.'] {
                assert(piece.len() == 1 && piece[0] == '.');
            }
        }
        if blank {
            if start == 0 {
                return None;
            }
            proof {
                assert(prefix.take(start - 1) == chars@.take(start - 1));
            }
            end = start - 1;
        } else {
            let parent = length == 2 && chars[start] == '.' && chars[start + 1] == '.';
            proof {
                if parent {
                    assert(piece == seq!['.', '.']);
                }
            }
            if parent {
                return None;
            }
            return Some((start, end));
        }
    }
}

/// Whether `path` has a file name.
pub fn has_file_name(path: &str) -> (has: bool)
    ensures
        has == file_name_of(path@).is_some(),
{
    let chars = chars_of(path);
    file_name_span(&chars).is_some()
}

/// The file name of `path`, if it has one.
pub fn file_name(path: &str) -> (name: Option<String>)
    ensures
        crate::text::opt_text(name) == file_name_of(path@),
{
    let chars = chars_of(path);
    match file_name_span(&chars) {
        Some((start, end)) => Some(path.substring_char(start, end).to_owned()),
        None => None,
    }
}

/// The file name of a path that has one.
pub fn get_file_name(filename: &str) -> (name: String)
    requires
        file_name_of(filename@) is Some,
    ensures
        Some(name@) == file_name_of(filename@),
{
    let chars = chars_of(filename);
    match file_name_span(&chars) {
        Some((start, end)) => filename.substring_char(start, end).to_owned(),
        None => String::new(),
    }
}

/// The directory that the log file of `output` is written to.
pub fn get_log_directory(output: &str) -> (directory: String)
    ensures
        directory@ == directory_of(output@),
{
    let chars = chars_of(output);
    let start = piece_start(&chars, chars.len());
    proof {
        assert(chars@.take(chars.len() as int) == chars@);
    }
    if start <= 1 {
        "./logs".to_string()
    } else {
        output.substring_char(0, start - 1).to_owned()
    }
}

} // verus!
