//! The built-in animation sequences.
use vstd::prelude::*;

verus! {

/// The four-glyph line spinner.
pub open spec fn classic_frames_spec() -> Seq<char> {
    seq!['|', '/', '-', '\\']
}

/// The eight-glyph rotating Braille-dot spinner.
pub open spec fn braille_frames_spec() -> Seq<char> {
    seq!['⠇', '⠋', '⠙', '⠸', '⢰', '⣠', '⣄', '⡆']
}

/// A fresh copy of the line spinner's glyphs.
pub fn classic_frames() -> (r: Vec<char>)
    ensures
        r@ == classic_frames_spec(),
{
    let r = vec!['|', '/', '-', '\\'];
    assert(r@ =~= classic_frames_spec());
    r
}

/// A fresh copy of the Braille spinner's glyphs.
pub fn braille_frames() -> (r: Vec<char>)
    ensures
        r@ == braille_frames_spec(),
{
    let r = vec!['⠇', '⠋', '⠙', '⠸', '⢰', '⣠', '⣄', '⡆'];
    assert(r@ =~= braille_frames_spec());
    r
}

} // verus!
