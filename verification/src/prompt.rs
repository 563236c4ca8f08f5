//! The prompt: the last two segments of the working directory.

use vstd::prelude::*;

verus! {

/// The byte that parts the two segments.
pub const SLASH: u8 = 0x2f;

/// The bytes that end the prompt: a space, a dollar sign and a space.
pub open spec fn prompt_end() -> Seq<u8> {
    seq![0x20u8, 0x24u8, 0x20u8]
}

/// The prompt for a directory whose last path segment is `current` and
/// whose parent, where it has one, has `parent` as its last path segment:
/// the parent's segment and a slash, then the directory's own segment and
/// the end of the prompt.
pub open spec fn prompt_text(parent: Option<Seq<u8>>, current: Seq<u8>) -> Seq<u8> {
    let head = match parent {
        Some(segment) => segment.push(SLASH),
        None => Seq::empty(),
    };
    head + current + prompt_end()
}

/// Appends the bytes of `from` to `out`.
fn push_all(out: &mut Vec<u8>, from: &[u8])
    ensures
        final(out)@ == old(out)@ + from@,
{
    let mut i: usize = 0;
    while i < from.len()
        invariant
            i <= from@.len(),
            out@ == old(out)@ + from@.take(i as int),
        decreases from@.len() - i,
    {
        out.push(from[i]);
        i += 1;
    }
}

/// Builds the prompt from the last path segment of the working directory
/// and that of its parent, where it has one.
pub fn prompt(parent: Option<&[u8]>, current: &[u8]) -> (out: Vec<u8>)
    ensures
        out@ == prompt_text(
            match parent {
                Some(segment) => Some(segment@),
                None => None,
            },
            current@,
        ),
{
    let mut out: Vec<u8> = Vec::new();
    if let Some(segment) = parent {
        push_all(&mut out, segment);
        out.push(SLASH);
    }
    push_all(&mut out, current);
    out.push(0x20);
    out.push(0x24);
    out.push(0x20);
    out
}

} // verus!
