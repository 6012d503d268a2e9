//! What the conversion knows of a decoded raw image.

use vstd::prelude::*;
use vstd::string::*;

use crate::params::{ConvertParams, Dim2, DngPhotometricConversion};

verus! {

/// A rectangle of pixels.
#[derive(Clone, Copy, Debug, PartialEq, Eq, Structural)]
pub struct Rect {
    pub x: usize,
    pub y: usize,
    pub size: Dim2,
}

/// How the samples of a raw image are to be understood.
#[derive(Clone, Copy, Debug, PartialEq, Eq, Structural)]
pub enum RawPhotometricInterpretation {
    BlackIsZero,
    /// Behind a color filter array.
    Cfa,
    /// Demosaiced, linear data.
    LinearRaw,
}

/// The facts about a decoded raw image on which the conversion decides.
#[derive(Debug)]
pub struct ImageFacts {
    pub size: Dim2,
    pub active_area: Option<Rect>,
    /// Width by which a diagonally mounted sensor is rotated.
    pub fuji_rotation_width: Option<usize>,
    pub photometric: RawPhotometricInterpretation,
    /// Value of the `Orientation` tag.
    pub orientation: u16,
    /// Hints of the camera database.
    pub hints: Vec<String>,
}

/// The shape of a raw image after its rotation has been normalized.
#[derive(Clone, Copy, Debug, PartialEq, Eq)]
pub struct RotatedLayout {
    pub size: Dim2,
    pub active_area: Option<Rect>,
    /// Samples per pixel.
    pub cpp: usize,
    /// White level of each sample.
    pub whitelevel: [u32; 3],
    pub photometric: RawPhotometricInterpretation,
}

impl ImageFacts {
    /// The camera database has the hint `name` for this image.
    pub open spec fn has_hint(self, name: Seq<char>) -> bool {
        exists|i: int| 0 <= i < self.hints@.len() && (#[trigger] self.hints@[i])@ == name
    }

    /// The sensor is mounted diagonally, so the image has to be rotated before it is written.
    pub open spec fn needs_rotation(self) -> bool {
        self.has_hint("fuji_rotation"@) || self.has_hint("fuji_rotation_alt"@)
    }

    /// The rotated image has to be turned by a further 90 degrees.
    pub open spec fn needs_quarter_turn(self) -> bool {
        self.has_hint("fuji_rotate_90cw"@)
    }

    /// The area that is demosaiced: the active area, or else the whole image.
    pub open spec fn demosaic_area(self) -> Rect {
        match self.active_area {
            Some(area) => area,
            None => Rect { x: 0, y: 0, size: self.size },
        }
    }

    /// Look up a hint of the camera database.
    pub fn find_hint(&self, name: &str) -> (r: bool)
        ensures
            r == self.has_hint(name@),
    {
        let wanted: String = name.to_owned();
        let mut i: usize = 0;
        while i < self.hints.len()
            invariant
                i <= self.hints@.len(),
                wanted@ == name@,
                forall|j: int| 0 <= j < i ==> (#[trigger] self.hints@[j])@ != name@,
            decreases self.hints@.len() - i,
        {
            if self.hints[i] == wanted {
                return true;
            }
            i = i + 1;
        }
        false
    }

    /// Whether the image has to be rotated before it is written.
    pub fn requires_rotation(&self) -> (r: bool)
        ensures
            r == self.needs_rotation(),
    {
        self.find_hint("fuji_rotation") || self.find_hint("fuji_rotation_alt")
    }

    /// Whether the rotated image has to be turned by a further 90 degrees.
    pub fn requires_quarter_turn(&self) -> (r: bool)
        ensures
            r == self.needs_quarter_turn(),
    {
        self.find_hint("fuji_rotate_90cw")
    }

    /// The area to demosaic before the rotation.
    pub fn region_of_interest(&self) -> (r: Rect)
        ensures
            r == self.demosaic_area(),
    {
        match self.active_area {
            Some(area) => area,
            None => Rect { x: 0, y: 0, size: self.size },
        }
    }
}

impl RotatedLayout {
    /// A rotated image of `size` is demosaiced, scaled to the range 0 to 1, and has no border.
    pub open spec fn describes(self, size: Dim2) -> bool {
        &&& self.size == size
        &&& self.active_area is None
        &&& self.cpp == 3
        &&& self.whitelevel@ == seq![1u32, 1u32, 1u32]
        &&& self.photometric == RawPhotometricInterpretation::LinearRaw
    }

    /// The layout of an image that came out of the rotation with the given size.
    pub fn of_size(size: Dim2) -> (r: RotatedLayout)
        ensures
            r.describes(size),
    {
        let whitelevel: [u32; 3] = [1, 1, 1];
        assert(whitelevel@ =~= seq![1u32, 1u32, 1u32]);
        RotatedLayout {
            size,
            active_area: None,
            cpp: 3,
            whitelevel,
            photometric: RawPhotometricInterpretation::LinearRaw,
        }
    }
}

/// The parameters ask for a linear DNG, by the conversion setting or by the `linear` flag.
pub open spec fn linear_requested(params: ConvertParams) -> bool {
    params.linear || params.photometric_conversion == DngPhotometricConversion::Linear
}

/// The conversion that is applied to a raw image of the given interpretation: linear when it
/// was asked for and the decoder delivered linear data, and the original one otherwise.
pub open spec fn conversion_for(
    params: ConvertParams,
    photometric: RawPhotometricInterpretation,
) -> DngPhotometricConversion {
    if linear_requested(params) && photometric == RawPhotometricInterpretation::LinearRaw {
        DngPhotometricConversion::Linear
    } else {
        DngPhotometricConversion::Original
    }
}

/// Whether the parameters ask for a linear DNG.
pub fn wants_linear(params: &ConvertParams) -> (r: bool)
    ensures
        r == linear_requested(*params),
{
    params.linear || params.photometric_conversion == DngPhotometricConversion::Linear
}

/// Settle the photometric conversion.
///
/// A linear DNG can only be emitted from data that is already linear. Where it was asked for
/// and the decoder delivered a mosaic, the result falls back to the original representation.
pub fn photometric_conversion(
    params: &ConvertParams,
    photometric: RawPhotometricInterpretation,
) -> (r: DngPhotometricConversion)
    ensures
        r == conversion_for(*params, photometric),
{
    if wants_linear(params) && photometric == RawPhotometricInterpretation::LinearRaw {
        DngPhotometricConversion::Linear
    } else {
        DngPhotometricConversion::Original
    }
}

/// A mosaic is never handed to the linear conversion, whatever was asked for.
pub proof fn law_linear_falls_back(params: ConvertParams, photometric: RawPhotometricInterpretation)
    requires
        photometric != RawPhotometricInterpretation::LinearRaw,
    ensures
        conversion_for(params, photometric) == DngPhotometricConversion::Original,
{
}

/// Linear data is written as linear exactly if either of the two settings asks for it, and it
/// makes no difference which one does.
pub proof fn law_linear_on_request(params: ConvertParams)
    ensures
        conversion_for(params, RawPhotometricInterpretation::LinearRaw)
            == DngPhotometricConversion::Linear <==> params.linear
            || params.photometric_conversion == DngPhotometricConversion::Linear,
        linear_requested(params) <==> params.linear || params.photometric_conversion
            == DngPhotometricConversion::Linear,
{
}

/// A further hint never takes one away, and adds just itself: it makes an image one to rotate,
/// or one to turn, exactly by its name.
pub proof fn law_hints_add_up(image: ImageFacts, more: ImageFacts, hint: String, name: Seq<char>)
    requires
        more.hints@ == image.hints@.push(hint),
    ensures
        more.has_hint(name) <==> image.has_hint(name) || hint@ == name,
        more.needs_rotation() <==> image.needs_rotation() || hint@ == "fuji_rotation"@ || hint@
            == "fuji_rotation_alt"@,
        more.needs_quarter_turn() <==> image.needs_quarter_turn() || hint@ == "fuji_rotate_90cw"@,
{
    lemma_hint_pushed(image, more, hint, name);
    lemma_hint_pushed(image, more, hint, "fuji_rotation"@);
    lemma_hint_pushed(image, more, hint, "fuji_rotation_alt"@);
    lemma_hint_pushed(image, more, hint, "fuji_rotate_90cw"@);
}

proof fn lemma_hint_pushed(image: ImageFacts, more: ImageFacts, hint: String, name: Seq<char>)
    requires
        more.hints@ == image.hints@.push(hint),
    ensures
        more.has_hint(name) <==> image.has_hint(name) || hint@ == name,
{
    let n = image.hints@.len() as int;
    assert(more.hints@[n] == hint);
    if image.has_hint(name) {
        let i = choose|i: int|
            0 <= i < image.hints@.len() && (#[trigger] image.hints@[i])@ == name;
        assert(more.hints@[i]@ == name);
    }
    if more.has_hint(name) && hint@ != name {
        let i = choose|i: int|
            0 <= i < more.hints@.len() && (#[trigger] more.hints@[i])@ == name;
        assert(image.hints@[i]@ == name);
    }
}

/// An image without hints is neither rotated nor turned.
pub proof fn law_no_hint_no_rotation(image: ImageFacts)
    requires
        image.hints@.len() == 0,
    ensures
        !image.needs_rotation(),
        !image.needs_quarter_turn(),
{
}

/// The demosaiced area is the active area if there is one. Otherwise it starts at the origin and
/// has the size of the image.
pub proof fn law_area_is_active_or_all(image: ImageFacts)
    ensures
        image.active_area is Some ==> Some(image.demosaic_area()) == image.active_area,
        image.active_area is None ==> {
            &&& image.demosaic_area().x == 0
            &&& image.demosaic_area().y == 0
            &&& image.demosaic_area().size == image.size
        },
{
}

/// The layout of a rotated image follows from its size alone.
pub proof fn law_rotated_layout(layout: RotatedLayout, size: Dim2)
    requires
        layout.describes(size),
    ensures
        layout.size == size,
        layout.active_area is None,
        layout.cpp == 3,
        layout.whitelevel@.len() == layout.cpp,
        forall|i: int| 0 <= i < 3 ==> #[trigger] layout.whitelevel@[i] == 1,
        layout.photometric == RawPhotometricInterpretation::LinearRaw,
{
}

} // verus!
