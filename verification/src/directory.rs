//! Finding a file by its extension among the names in a directory.

use vstd::prelude::*;
use vstd::string::StringExecFns;
use vstd::utf8::encode_utf8;

verus! {

/// The byte of a full stop.
pub const DOT: u8 = 46;

/// The position of the last full stop in a file name, or -1 where it has
/// none.
pub open spec fn last_dot(name: Seq<u8>) -> int
    decreases name.len(),
{
    if name.len() == 0 {
        -1
    } else if name.last() == DOT {
        name.len() - 1
    } else {
        last_dot(name.drop_last())
    }
}

/// The extension of a file name: what follows its last full stop. A name
/// without a full stop has none, nor has one whose only full stop is its
/// first byte, nor has the name of the parent directory.
pub open spec fn extension_of(name: Seq<u8>) -> Option<Seq<u8>> {
    if name == seq![DOT, DOT] || last_dot(name) <= 0 {
        None
    } else {
        Some(name.subrange(last_dot(name) + 1, name.len() as int))
    }
}

/// Whether a file name has the given extension.
pub open spec fn has_extension(name: Seq<u8>, extension: Seq<u8>) -> bool {
    extension_of(name) == Some(extension)
}

/// The message that says that no file with `extension` is in `directory`.
pub open spec fn not_found(extension: Seq<char>, directory: Seq<char>) -> Seq<char> {
    "*."@ + extension + " not found in "@ + directory
}

/// A full stop that no full stop follows is the last one.
pub proof fn lemma_last_dot_found(name: Seq<u8>, dot: int)
    requires
        0 <= dot < name.len(),
        name[dot] == DOT,
        forall|i: int| dot < i < name.len() ==> name[i] != DOT,
    ensures
        last_dot(name) == dot,
    decreases name.len(),
{
    if name.last() != DOT {
        let front = name.drop_last();
        assert forall|i: int| dot < i < front.len() implies front[i] != DOT by {
            assert(front[i] == name[i]);
        }
        lemma_last_dot_found(front, dot);
    }
}

/// A name without any full stop has no last one.
pub proof fn lemma_no_dot(name: Seq<u8>)
    requires
        forall|i: int| 0 <= i < name.len() ==> name[i] != DOT,
    ensures
        last_dot(name) == -1,
    decreases name.len(),
{
    if name.len() > 0 {
        let front = name.drop_last();
        assert forall|i: int| 0 <= i < front.len() implies front[i] != DOT by {
            assert(front[i] == name[i]);
        }
        lemma_no_dot(front);
    }
}

/// Decides whether a file name has the given extension.
pub fn name_has_extension(name: &[u8], extension: &[u8]) -> (found: bool)
    ensures
        found == has_extension(name@, extension@),
{
    if name.len() == 2 && name[0] == DOT && name[1] == DOT {
        assert(name@ =~= seq![DOT, DOT]);
        return false;
    }
    assert(name@ != seq![DOT, DOT]) by {
        if name@ == seq![DOT, DOT] {
            assert(seq![DOT, DOT].len() == 2);
            assert(seq![DOT, DOT][0] == DOT && seq![DOT, DOT][1] == DOT);
        }
    }
    let mut dot: usize = name.len();
    while dot > 0 && name[dot - 1] != DOT
        invariant
            dot <= name@.len(),
            forall|i: int| dot <= i < name@.len() ==> name@[i] != DOT,
        decreases dot,
    {
        dot = dot - 1;
    }
    if dot == 0 {
        proof {
            lemma_no_dot(name@);
        }
        return false;
    }
    proof {
        lemma_last_dot_found(name@, dot - 1);
    }
    if dot == 1 {
        return false;
    }
    let ghost tail = name@.subrange(dot as int, name@.len() as int);
    if name.len() - dot != extension.len() {
        return false;
    }
    let mut same: usize = 0;
    while same < extension.len()
        invariant
            same <= extension@.len(),
            dot + extension@.len() == name@.len(),
            name@.len() <= usize::MAX,
            name@ != seq![DOT, DOT],
            last_dot(name@) == dot - 1,
            dot >= 2,
            tail == name@.subrange(dot as int, name@.len() as int),
            forall|i: int| 0 <= i < same ==> tail[i] == extension@[i],
        decreases extension@.len() - same,
    {
        if name[dot + same] != extension[same] {
            assert(tail[same as int] != extension@[same as int]);
            return false;
        }
        same = same + 1;
    }
    assert(tail =~= extension@);
    true
}

/// Finds the first of `names`, the names of the files in `directory`, that
/// has `extension`, and returns its position.
///
/// Fails, with a message that names the extension and the directory, exactly
/// when no name has the extension.
pub fn find_item_by_extension(directory: &str, names: &Vec<String>, extension: &str) -> (result:
    Result<usize, String>)
    ensures
        match result {
            Ok(found) => {
                &&& found < names@.len()
                &&& has_extension(encode_utf8(names@[found as int]@), encode_utf8(extension@))
                &&& forall|i: int|
                    0 <= i < found ==> !has_extension(
                        encode_utf8((#[trigger] names@[i])@),
                        encode_utf8(extension@),
                    )
            },
            Err(message) => {
                &&& message@ == not_found(extension@, directory@)
                &&& forall|i: int|
                    0 <= i < names@.len() ==> !has_extension(
                        encode_utf8((#[trigger] names@[i])@),
                        encode_utf8(extension@),
                    )
            },
        },
{
    let mut next: usize = 0;
    while next < names.len()
        invariant
            next <= names@.len(),
            forall|i: int|
                0 <= i < next ==> !has_extension(
                    encode_utf8((#[trigger] names@[i])@),
                    encode_utf8(extension@),
                ),
        decreases names@.len() - next,
    {
        if name_has_extension(names[next].as_str().as_bytes(), extension.as_bytes()) {
            return Ok(next);
        }
        next = next + 1;
    }
    let mut message = String::from_str("*.");
    message.append(extension);
    message.append(" not found in ");
    message.append(directory);
    Err(message)
}

} // verus!
