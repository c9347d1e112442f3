//! Paths as the sensor driver hands them to the host: relative to the
//! directory that the host opened for it.

use vstd::prelude::*;

verus! {

/// `text` without the run of `lead` characters at its start.
pub open spec fn without_leading(text: Seq<char>, lead: char) -> Seq<char>
    decreases text.len(),
{
    if text.len() > 0 && text[0] == lead {
        without_leading(text.drop_first(), lead)
    } else {
        text
    }
}

/// Skipping `count` characters that are all `lead` does not change what is
/// left once the leading run is gone.
pub proof fn lemma_without_leading_skip(text: Seq<char>, lead: char, count: int)
    requires
        0 <= count <= text.len(),
        forall|i: int| 0 <= i < count ==> text[i] == lead,
    ensures
        without_leading(text, lead) == without_leading(
            text.subrange(count, text.len() as int),
            lead,
        ),
    decreases count,
{
    if count == 0 {
        assert(text.subrange(0, text.len() as int) =~= text);
    } else {
        let rest = text.drop_first();
        assert forall|i: int| 0 <= i < count - 1 implies rest[i] == lead by {
            assert(rest[i] == text[i + 1]);
        }
        lemma_without_leading_skip(rest, lead, count - 1);
        assert(rest.subrange(count - 1, rest.len() as int) =~= text.subrange(
            count,
            text.len() as int,
        ));
    }
}

/// What is left never starts with `lead`, and it is the end of the text: all
/// that was dropped is a run of `lead`.
pub proof fn lemma_without_leading_is_suffix(text: Seq<char>, lead: char) -> (dropped: int)
    ensures
        0 <= dropped <= text.len(),
        without_leading(text, lead) == text.subrange(dropped, text.len() as int),
        forall|i: int| 0 <= i < dropped ==> text[i] == lead,
        dropped < text.len() ==> text[dropped] != lead,
    decreases text.len(),
{
    if text.len() > 0 && text[0] == lead {
        let rest = text.drop_first();
        let inner = lemma_without_leading_is_suffix(rest, lead);
        assert(rest.subrange(inner, rest.len() as int) =~= text.subrange(
            inner + 1,
            text.len() as int,
        ));
        assert forall|i: int| 0 <= i < inner + 1 implies text[i] == lead by {
            if i > 0 {
                assert(text[i] == rest[i - 1]);
            }
        }
        assert(inner < rest.len() ==> rest[inner] == text[inner + 1]);
        inner + 1
    } else {
        assert(text.subrange(0, text.len() as int) =~= text);
        0
    }
}

/// The path relative to the root: `path` without its leading slashes.
pub fn relative_path(path: &str) -> (relative: &str)
    ensures
        relative@ == without_leading(path@, '/'),
{
    let length = path.unicode_len();
    let mut start: usize = 0;
    let mut leading = true;
    while leading && start < length
        invariant
            length == path@.len(),
            start <= length,
            forall|i: int| 0 <= i < start ==> path@[i] == '/',
            !leading ==> start < length && path@[start as int] != '/',
        decreases length - start + if leading { 1int } else { 0int },
    {
        if path.get_char(start) == '/' {
            start = start + 1;
        } else {
            leading = false;
        }
    }
    proof {
        lemma_without_leading_skip(path@, '/', start as int);
    }
    path.substring_char(start, length)
}

} // verus!
