//! File names.

use vstd::prelude::*;

verus! {

/// Whether `ext` is one of `valid_ext`.
pub open spec fn is_among(ext: Seq<char>, valid_ext: Seq<&str>) -> bool {
    exists|i: int| 0 <= i < valid_ext.len() && valid_ext[i]@ == ext
}

/// What the platform's answer for a path decides: whether the extension it
/// found is one of `valid_ext`, and nothing for a path in which it found none.
pub open spec fn extension_verdict_spec(ext: Option<Seq<char>>, valid_ext: Seq<&str>) -> Option<
    bool,
> {
    match ext {
        Some(e) => Some(is_among(e, valid_ext)),
        None => None,
    }
}

/// `Path::extension`: the part of the path's file name after its last dot,
/// where it has one. What counts as the file name depends on the platform's
/// path syntax, so the result has no name; on every platform it is cut off
/// behind the last dot and holds no dot itself.
#[verifier::external_body]
fn extension(path: &str) -> (r: Option<&str>)
    ensures
        r matches Some(ext) ==> !ext@.contains('.'),
{
    std::path::Path::new(path).extension().and_then(|ext| ext.to_str())
}

/// Whether `ext` is one of `valid_ext`, compared letter for letter.
pub fn extension_is_valid(ext: &str, valid_ext: &[&str]) -> (r: bool)
    ensures
        r == is_among(ext@, valid_ext@),
{
    let wanted = ext.to_owned();
    let mut i: usize = 0;
    while i < valid_ext.len()
        invariant
            wanted@ == ext@,
            i <= valid_ext@.len(),
            forall|j: int| 0 <= j < i ==> valid_ext@[j]@ != ext@,
        decreases valid_ext@.len() - i,
    {
        if valid_ext[i].to_owned() == wanted {
            return true;
        }
        i += 1;
    }
    false
}

/// The verdict on a path of which the platform has found the extension `ext`,
/// or none: whether the extension is one of `valid_ext`, and `None` where
/// there is none.
pub fn extension_verdict(ext: Option<&str>, valid_ext: &[&str]) -> (r: Option<bool>)
    ensures
        r == extension_verdict_spec(
            match ext {
                Some(e) => Some(e@),
                None => None,
            },
            valid_ext@,
        ),
{
    match ext {
        Some(e) => Some(extension_is_valid(e, valid_ext)),
        None => None,
    }
}

/// Whether the extension of the file that `path` names is one of `valid_ext`,
/// and `None` for a path without an extension. Which extension a path has is
/// the platform's to say: the answer is that of [`extension_verdict`] for what
/// the platform found, which holds no dot.
pub fn check_extension(path: &str, valid_ext: &[&str]) -> (r: Option<bool>)
    ensures
        exists|found: Option<Seq<char>>|
            r == extension_verdict_spec(found, valid_ext@) && (found matches Some(ext)
                ==> !ext.contains('.')),
{
    let found = extension(path);
    let r = extension_verdict(found, valid_ext);
    proof {
        let witness = match found {
            Some(e) => Some(e@),
            None => None,
        };
        assert(r == extension_verdict_spec(witness, valid_ext@) && (witness matches Some(ext)
            ==> !ext.contains('.')));
    }
    r
}

} // verus!
