//! Names in the form in which the graphics context takes them: closed by a
//! NUL character and holding no other.

use vstd::prelude::*;
use vstd::string::StringExecFns;

verus! {

/// Whether `text` holds no NUL character.
pub open spec fn nul_free(text: Seq<char>) -> bool {
    forall|i: int| 0 <= i < text.len() ==> text[i] != '\0'
}

/// Whether `text` ends in a NUL character and holds no other.
pub open spec fn nul_terminated(text: Seq<char>) -> bool {
    text.len() > 0 && text.last() == '\0' && nul_free(text.drop_last())
}

/// Whether `part` stands in `whole`, character by character, from position
/// `at` on.
pub open spec fn occurs_at(part: Seq<char>, whole: Seq<char>, at: int) -> bool {
    0 <= at && at + part.len() <= whole.len() && whole.subrange(at, at + part.len()) == part
}

/// Whether `part` stands somewhere in `whole`.
pub open spec fn occurs_in(part: Seq<char>, whole: Seq<char>) -> bool {
    exists|at: int| occurs_at(part, whole, at)
}

/// Appends a NUL character to `text`.
pub fn null_str(text: &str) -> (terminated: String)
    ensures
        terminated@ == text@.push('\0'),
{
    proof {
        reveal_strlit("\0");
    }
    let terminated = String::from_str(text).concat("\0");
    assert("\0"@ =~= seq!['\0']);
    assert(terminated@ =~= text@.push('\0'));
    terminated
}

/// A text without a NUL character, with one appended, ends at the first NUL
/// character that a reader meets.
pub proof fn lemma_null_str_terminates(text: Seq<char>)
    requires
        nul_free(text),
    ensures
        nul_terminated(text.push('\0')),
{
    assert(text.push('\0').drop_last() =~= text);
}

} // verus!
