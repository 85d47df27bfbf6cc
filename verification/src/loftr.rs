use vstd::prelude::*;

use crate::error::{InputError, LoftrError};

verus! {

/// The image layouts accepted for matching.
#[derive(Debug, Clone, Copy, PartialEq, Eq, Structural)]
pub enum ImageForm {
    /// `[H, W]`: one grayscale image.
    Plane,
    /// `[1, H, W]`: one grayscale image with a channel axis.
    Gray,
    /// `[3, H, W]`: one RGB image.
    Rgb,
    /// `[B, 1, H, W]`: a batch of grayscale images.
    BatchedGray,
    /// `[B, 3, H, W]`: a batch of RGB images.
    BatchedRgb,
}

/// How an accepted image becomes a grayscale batch `[batch, 1, height, width]`.
#[derive(Debug, Clone, Copy, PartialEq, Eq, Structural)]
pub struct ImageLayout {
    pub form: ImageForm,
    pub batch: i64,
    pub height: i64,
    pub width: i64,
}

impl ImageLayout {
    /// Whether the channels are averaged into one (RGB inputs).
    pub open spec fn averages_channels(self) -> bool {
        self.form == ImageForm::Rgb || self.form == ImageForm::BatchedRgb
    }
}

/// The layout of an image of shape `dims`: one of `[H, W]`, `[1, H, W]`,
/// `[3, H, W]`, `[B, 1, H, W]`, `[B, 3, H, W]` with positive `B`, `H`, `W`.
pub open spec fn layout_of(dims: Seq<i64>) -> Result<ImageLayout, LoftrError> {
    if dims.len() == 2 && dims[0] > 0 && dims[1] > 0 {
        Ok(ImageLayout { form: ImageForm::Plane, batch: 1, height: dims[0], width: dims[1] })
    } else if dims.len() == 3 && dims[0] == 1 && dims[1] > 0 && dims[2] > 0 {
        Ok(ImageLayout { form: ImageForm::Gray, batch: 1, height: dims[1], width: dims[2] })
    } else if dims.len() == 3 && dims[0] == 3 && dims[1] > 0 && dims[2] > 0 {
        Ok(ImageLayout { form: ImageForm::Rgb, batch: 1, height: dims[1], width: dims[2] })
    } else if dims.len() == 4 && dims[1] == 1 && dims[0] > 0 && dims[2] > 0 && dims[3] > 0 {
        Ok(ImageLayout { form: ImageForm::BatchedGray, batch: dims[0], height: dims[2], width: dims[3] })
    } else if dims.len() == 4 && dims[1] == 3 && dims[0] > 0 && dims[2] > 0 && dims[3] > 0 {
        Ok(ImageLayout { form: ImageForm::BatchedRgb, batch: dims[0], height: dims[2], width: dims[3] })
    } else {
        Err(LoftrError::InvalidInput(InputError::ImageLayout))
    }
}

/// Reads the layout of an image tensor of shape `dims`, or rejects it.
pub fn image_layout(dims: &Vec<i64>) -> (r: Result<ImageLayout, LoftrError>)
    ensures
        r == layout_of(dims@),
        r matches Ok(layout) ==> layout.batch > 0 && layout.height > 0 && layout.width > 0,
{
    let rank = dims.len();
    if rank == 2 && dims[0] > 0 && dims[1] > 0 {
        return Ok(ImageLayout { form: ImageForm::Plane, batch: 1, height: dims[0], width: dims[1] });
    }
    if rank == 3 && dims[0] == 1 && dims[1] > 0 && dims[2] > 0 {
        return Ok(ImageLayout { form: ImageForm::Gray, batch: 1, height: dims[1], width: dims[2] });
    }
    if rank == 3 && dims[0] == 3 && dims[1] > 0 && dims[2] > 0 {
        return Ok(ImageLayout { form: ImageForm::Rgb, batch: 1, height: dims[1], width: dims[2] });
    }
    if rank == 4 && dims[1] == 1 && dims[0] > 0 && dims[2] > 0 && dims[3] > 0 {
        return Ok(
            ImageLayout { form: ImageForm::BatchedGray, batch: dims[0], height: dims[2], width: dims[3] },
        );
    }
    if rank == 4 && dims[1] == 3 && dims[0] > 0 && dims[2] > 0 && dims[3] > 0 {
        return Ok(
            ImageLayout { form: ImageForm::BatchedRgb, batch: dims[0], height: dims[2], width: dims[3] },
        );
    }
    Err(LoftrError::InvalidInput(InputError::ImageLayout))
}

impl ImageLayout {
    /// The shape `[batch, 1, height, width]` of the normalized image.
    pub fn output_shape(&self) -> (shape: Vec<i64>)
        ensures
            shape@ == seq![self.batch, 1i64, self.height, self.width],
    {
        let mut shape: Vec<i64> = Vec::new();
        shape.push(self.batch);
        shape.push(1);
        shape.push(self.height);
        shape.push(self.width);
        assert(shape@ =~= seq![self.batch, 1i64, self.height, self.width]);
        shape
    }
}

/// Normalizing keeps the extent of the image: the output has the input's
/// height and width, one channel, and the input's batch, or one image when
/// the input has no batch axis.
pub proof fn lemma_layout_keeps_extent(dims: Seq<i64>)
    requires
        layout_of(dims) is Ok,
    ensures
        ({
            let layout = layout_of(dims)->Ok_0;
            &&& layout.height == dims[dims.len() - 2]
            &&& layout.width == dims[dims.len() - 1]
            &&& layout.batch == (if dims.len() == 4 {
                dims[0]
            } else {
                1
            })
            &&& (layout.averages_channels() <==> (dims.len() >= 3 && dims[dims.len() - 3] == 3))
        }),
{
}

/// The number of axes that normalizing adds to an image of this form to
/// reach `[B, 1, H, W]`: a batch and a channel axis to a plane, a batch axis
/// to an unbatched image, none to a batch.
pub open spec fn axes_added(form: ImageForm) -> int {
    match form {
        ImageForm::Plane => 2,
        ImageForm::Gray => 1,
        ImageForm::Rgb => 1,
        ImageForm::BatchedGray => 0,
        ImageForm::BatchedRgb => 0,
    }
}

/// The form of an accepted image follows its rank and channel extent: rank
/// 2 is a plane; rank 3 is one image with its channels first, gray for 1
/// and RGB for 3; rank 4 is a batch, gray for 1 channel and RGB for 3. So
/// the added axes bring every accepted image to rank 4, and the batch is
/// the first extent of a rank-4 input.
pub proof fn lemma_layout_form_follows_rank(dims: Seq<i64>)
    requires
        layout_of(dims) is Ok,
    ensures
        ({
            let layout = layout_of(dims)->Ok_0;
            &&& dims.len() + axes_added(layout.form) == 4
            &&& (layout.form == ImageForm::Plane <==> dims.len() == 2)
            &&& (layout.form == ImageForm::Gray <==> dims.len() == 3 && dims[0] == 1)
            &&& (layout.form == ImageForm::Rgb <==> dims.len() == 3 && dims[0] == 3)
            &&& (layout.form == ImageForm::BatchedGray <==> dims.len() == 4 && dims[1] == 1)
            &&& (layout.form == ImageForm::BatchedRgb <==> dims.len() == 4 && dims[1] == 3)
            &&& (dims.len() == 4 ==> layout.batch == dims[0])
            &&& layout.height == dims[dims.len() - 2]
            &&& layout.width == dims[dims.len() - 1]
        }),
{
}

/// Exactly the documented layouts are accepted: `[H, W]`, `[1, H, W]`,
/// `[3, H, W]`, `[B, 1, H, W]`, `[B, 3, H, W]`, all extents positive.
pub proof fn lemma_layout_accepted_iff(dims: Seq<i64>)
    ensures
        layout_of(dims) is Ok <==> {
            ||| dims.len() == 2 && dims[0] > 0 && dims[1] > 0
            ||| dims.len() == 3 && (dims[0] == 1 || dims[0] == 3) && dims[1] > 0 && dims[2] > 0
            ||| dims.len() == 4 && (dims[1] == 1 || dims[1] == 3) && dims[0] > 0 && dims[2] > 0
                && dims[3] > 0
        },
        layout_of(dims) is Err ==> layout_of(dims) == Err::<ImageLayout, LoftrError>(
            LoftrError::InvalidInput(InputError::ImageLayout),
        ),
{
}

} // verus!
