//! Which font is used, and where a pixel lies.

use vstd::prelude::*;
use vstd::string::*;

use super::{Fonts, Weight};
use crate::text;

verus! {

/// The font that is used is the first that can be: all before it cannot, and
/// none is used only where none can be.
pub proof fn first_usable_font_is_used(usable: Vec<bool>, found: Option<usize>)
    requires
        call_ensures(text::load, (&usable,), found),
    ensures
        found matches Some(k) ==> k < usable@.len() && usable@[k as int] && (forall|i: int|
            0 <= i < k ==> !#[trigger] usable@[i]),
        found is None ==> (forall|i: int| 0 <= i < usable@.len() ==> !#[trigger] usable@[i]),
{
    lemma_first(usable@, 0);
}

proof fn lemma_first(usable: Seq<bool>, from: int)
    requires
        0 <= from <= usable.len(),
    ensures
        text::first_usable(usable, from) matches Some(k) ==> from <= k < usable.len() && usable[k]
            && (forall|i: int| from <= i < k ==> !#[trigger] usable[i]),
        text::first_usable(usable, from) is None ==> (forall|i: int|
            from <= i < usable.len() ==> !#[trigger] usable[i]),
    decreases usable.len() - from,
{
    if from < usable.len() && !usable[from] {
        lemma_first(usable, from + 1);
    }
}

/// Each weight is looked for under three names, Segoe UI first.
pub proof fn segoe_comes_first()
    ensures
        text::weight_files(Weight::Regular).len() == 3,
        text::weight_files(Weight::Semibold).len() == 3,
        text::weight_files(Weight::Regular)[0] == "segoeui.ttf"@,
        text::weight_files(Weight::Semibold)[0] == "segoeuisb.ttf"@,
        text::weight_files(Weight::Regular)[1] == "arial.ttf"@,
        text::weight_files(Weight::Semibold)[2] == "arialbd.ttf"@,
{
}

/// Text is drawn wherever a regular font was found, and each weight uses the
/// font that was found for it.
pub proof fn each_weight_has_its_font(
    fonts: Fonts,
    regular: Option<usize>,
    semibold: Option<usize>,
    yes: bool,
)
    requires
        call_ensures(text::font, (&fonts, Weight::Regular), regular),
        call_ensures(text::font, (&fonts, Weight::Semibold), semibold),
        call_ensures(text::available, (&fonts,), yes),
    ensures
        regular == fonts.regular,
        semibold == fonts.semibold,
        yes <==> regular is Some,
{
}

/// Fonts lie in the folder of that name below the system's, wherever that is.
pub proof fn fonts_lie_below_the_system(
    root: String,
    file: &str,
    known: String,
    unknown: String,
)
    requires
        call_ensures(text::font_path, (&Some(root), file), known),
        call_ensures(text::font_path, (&None::<String>, file), unknown),
    ensures
        known@ == root@ + "\\Fonts\\"@ + file@,
        root@ == "C:\\Windows"@ ==> unknown@ == known@,
{
}

/// Four bytes to a pixel: its neighbour to the right lies four further on, and
/// the one below it a whole row further.
pub proof fn pixels_lie_side_by_side(
    width: i32,
    height: i32,
    x: i32,
    y: i32,
    here: usize,
    right: Option<usize>,
    below: Option<usize>,
    corner: Option<usize>,
)
    requires
        0 <= x < width - 1,
        0 <= y < height - 1,
        width * height * 4 <= usize::MAX,
        call_ensures(text::pixel_index, (width, height, x, y), Some(here)),
        call_ensures(text::pixel_index, (width, height, (x + 1) as i32, y), right),
        call_ensures(text::pixel_index, (width, height, x, (y + 1) as i32), below),
        call_ensures(text::pixel_index, (width, height, 0i32, 0i32), corner),
    ensures
        right == Some((here + 4) as usize),
        below == Some((here + width * 4) as usize),
        corner == Some(0usize),
{
    assert((y + 1) * width == y * width + width) by (nonlinear_arith);
    assert(0 * width == 0) by (nonlinear_arith);
}

} // verus!
