//! Fonts for the video overlay.
//!
//! Segoe UI is loaded from the system rather than embedded: the font is on
//! every machine that the tool runs on.

pub mod laws;

use vstd::prelude::*;
use vstd::string::*;

verus! {

#[derive(Debug, Clone, Copy, PartialEq, Eq, Structural)]
pub enum Weight {
    Regular,
    Semibold,
}

/// The files that a weight may come from, best first.
pub open spec fn weight_files(weight: Weight) -> Seq<Seq<char>> {
    match weight {
        Weight::Regular => seq!["segoeui.ttf"@, "arial.ttf"@, "tahoma.ttf"@],
        Weight::Semibold => seq!["segoeuisb.ttf"@, "segoeuib.ttf"@, "arialbd.ttf"@],
    }
}

pub fn font_files(weight: Weight) -> (files: Vec<&'static str>)
    ensures
        crate::text_ops::slices(files@) == weight_files(weight),
{
    let mut files: Vec<&'static str> = Vec::new();
    match weight {
        Weight::Regular => {
            files.push("segoeui.ttf");
            files.push("arial.ttf");
            files.push("tahoma.ttf");
        },
        Weight::Semibold => {
            files.push("segoeuisb.ttf");
            files.push("segoeuib.ttf");
            files.push("arialbd.ttf");
        },
    }
    proof {
        assert(crate::text_ops::slices(files@) =~= weight_files(weight));
    }
    files
}

/// Where a font file lies; `windows` is the system's directory, where known.
pub fn font_path(windows: &Option<String>, file: &str) -> (path: String)
    ensures
        path@ == match *windows {
            Some(root) => root@,
            None => "C:\\Windows"@,
        } + "\\Fonts\\"@ + file@,
{
    let mut path = match windows {
        Some(root) => root.as_str().to_owned(),
        None => "C:\\Windows".to_owned(),
    };
    path.append("\\Fonts\\");
    path.append(file);
    path
}

/// The first file of a list that could be read and understood.
pub open spec fn first_usable(usable: Seq<bool>, i: int) -> Option<int>
    decreases usable.len() - i,
{
    if i < 0 || i >= usable.len() {
        None
    } else if usable[i] {
        Some(i)
    } else {
        first_usable(usable, i + 1)
    }
}

/// Picks a font: the first file that could be read and understood.
pub fn load(usable: &Vec<bool>) -> (found: Option<usize>)
    ensures
        match first_usable(usable@, 0) {
            Some(i) => 0 <= i < usable@.len() && (found matches Some(k) && k == i),
            None => found is None,
        },
{
    let mut i: usize = 0;
    while i < usable.len()
        invariant
            i <= usable@.len(),
            first_usable(usable@, 0) == first_usable(usable@, i as int),
        decreases usable@.len() - i,
    {
        if usable[i] {
            return Some(i);
        }
        i += 1;
    }
    None
}

/// The fonts that were found, each by its place in the list of its files.
#[derive(Debug, Clone, Copy, PartialEq, Eq, Structural)]
pub struct Fonts {
    pub regular: Option<usize>,
    pub semibold: Option<usize>,
}

pub fn font(fonts: &Fonts, weight: Weight) -> (found: Option<usize>)
    ensures
        found == match weight {
            Weight::Regular => fonts.regular,
            Weight::Semibold => fonts.semibold,
        },
{
    match weight {
        Weight::Regular => fonts.regular,
        Weight::Semibold => fonts.semibold,
    }
}

/// Whether any font was found. The status collapses to just its indicator
/// when there is none.
pub fn available(fonts: &Fonts) -> (yes: bool)
    ensures
        yes == fonts.regular is Some,
{
    match font(fonts, Weight::Regular) {
        Some(_) => true,
        None => false,
    }
}

/// The place of a pixel's first byte in a picture of four bytes a pixel; there
/// is none for a pixel outside of it.
pub fn pixel_index(width: i32, height: i32, x: i32, y: i32) -> (index: Option<usize>)
    requires
        0 <= width,
        0 <= height,
        width * height * 4 <= usize::MAX,
    ensures
        match index {
            Some(at) => 0 <= x < width && 0 <= y < height && at == (y * width + x) * 4 && at + 4
                <= width * height * 4,
            None => !(0 <= x < width && 0 <= y < height),
        },
{
    if x < 0 || y < 0 || x >= width || y >= height {
        return None;
    }
    proof {
        assert(y * width + x < width * height) by (nonlinear_arith)
            requires
                0 <= x < width,
                0 <= y < height,
        ;
        assert(0 <= y * width) by (nonlinear_arith)
            requires
                0 <= y,
                0 <= width,
        ;
    }
    Some((y as usize * width as usize + x as usize) * 4)
}

} // verus!
