//! The guide image that an artist paints to steer a scene, and how the
//! channels of its texels are read.

use image::RgbaImage;
use std::rc::Rc;
use vstd::prelude::*;

verus! {

/// The number of samples that make up one texel: red, green, blue, alpha.
pub const SAMPLES_PER_TEXEL: usize = 4;

/// A colour channel of the guide image.
#[derive(Clone, Copy, Debug, PartialEq, Eq, Structural)]
pub enum Channel {
    /// The base height.
    Red,
    /// The bushiness.
    Green,
    /// Where trees like to stand.
    Blue,
}

/// A guide image of 8-bit RGBA texels, shared by everything that reads it.
///
/// The image is kept as the image library holds it. What is known of it are
/// its width, its height and its samples, row after row, four to a texel.
#[verifier::external_body]
pub struct BaseMap {
    image: Rc<RgbaImage>,
}

/// The number of texels in each row of `map`.
pub uninterp spec fn map_width(map: BaseMap) -> u32;

/// The number of rows of `map`.
pub uninterp spec fn map_height(map: BaseMap) -> u32;

/// The samples of `map`: four to a texel, the texels of a row from left to
/// right, the rows from top to bottom.
pub uninterp spec fn map_samples(map: BaseMap) -> Seq<u8>;

/// Calls `ImageBuffer::from_raw` for an RGBA image. Trusted: the image is made
/// exactly where `samples` holds at least four samples for each of the
/// `width * height` texels, and then has that width, that height and those
/// samples.
#[verifier::external_body]
fn map_from_raw(width: u32, height: u32, samples: Vec<u8>) -> (map: Option<BaseMap>)
    ensures
        map is Some <==> SAMPLES_PER_TEXEL * width * height <= samples@.len(),
        map matches Some(m) ==> {
            &&& map_width(m) == width
            &&& map_height(m) == height
            &&& map_samples(m) == samples@
        },
{
    match RgbaImage::from_raw(width, height, samples) {
        Some(image) => Some(BaseMap { image: Rc::new(image) }),
        None => None,
    }
}

/// Calls `Rc::clone` on the shared image. Trusted: the copy is the same image.
#[verifier::external_body]
fn map_share(map: &BaseMap) -> (copy: BaseMap)
    ensures
        copy == *map,
{
    BaseMap { image: Rc::clone(&map.image) }
}

/// Calls `ImageBuffer::width`.
#[verifier::external_body]
fn width_of(map: &BaseMap) -> (width: u32)
    ensures
        width == map_width(*map),
{
    map.image.width()
}

/// Calls `ImageBuffer::height`.
#[verifier::external_body]
fn height_of(map: &BaseMap) -> (height: u32)
    ensures
        height == map_height(*map),
{
    map.image.height()
}

/// Calls `ImageBuffer::get_pixel` and picks one channel of the texel.
/// Trusted: for a texel inside the image the channel is the sample at
/// `(y * width + x) * 4 + channel`.
#[verifier::external_body]
fn channel_of(map: &BaseMap, x: u32, y: u32, channel: usize) -> (value: u8)
    requires
        x < map_width(*map),
        y < map_height(*map),
        channel < SAMPLES_PER_TEXEL,
    ensures
        value == map_samples(*map)[(y * map_width(*map) + x) * SAMPLES_PER_TEXEL + channel],
{
    map.image.get_pixel(x, y)[channel]
}

impl BaseMap {
    /// Makes a guide image from its samples. The image is made exactly where
    /// `samples` holds at least four samples for each texel.
    pub fn new(width: u32, height: u32, samples: Vec<u8>) -> (map: Option<BaseMap>)
        ensures
            map is Some <==> SAMPLES_PER_TEXEL * width * height <= samples@.len(),
            map matches Some(m) ==> {
                &&& map_width(m) == width
                &&& map_height(m) == height
                &&& map_samples(m) == samples@
            },
    {
        map_from_raw(width, height, samples)
    }

    /// Another handle on the same image.
    pub fn share(&self) -> (copy: BaseMap)
        ensures
            copy == *self,
    {
        map_share(self)
    }

    /// The number of texels in each row.
    pub fn width(&self) -> (width: u32)
        ensures
            width == map_width(*self),
    {
        width_of(self)
    }

    /// The number of rows.
    pub fn height(&self) -> (height: u32)
        ensures
            height == map_height(*self),
    {
        height_of(self)
    }
}

/// `value` held to the texels `0..size` of one axis: what lies beyond the last
/// texel falls on the last texel.
pub open spec fn clamped(value: u32, size: u32) -> int {
    if value < size {
        value as int
    } else {
        size - 1
    }
}

/// One channel of a guide image, read as a scalar field over the scene.
///
/// The scene's axes are swapped against the image's: the scene's first
/// coordinate picks the row, its second the column.
pub struct ImageNoiseFnWrapper<const CHANNEL: usize> {
    image: BaseMap,
}

impl ImageNoiseFnWrapper<0> {
    /// Reads the red channel: the base height.
    pub fn new_red(image: BaseMap) -> (field: Self)
        ensures
            field.map() == image,
    {
        ImageNoiseFnWrapper { image }
    }
}

impl ImageNoiseFnWrapper<1> {
    /// Reads the green channel: the bushiness.
    pub fn new_green(image: BaseMap) -> (field: Self)
        ensures
            field.map() == image,
    {
        ImageNoiseFnWrapper { image }
    }
}

impl ImageNoiseFnWrapper<2> {
    /// Reads the blue channel: where trees like to stand.
    pub fn new_blue(image: BaseMap) -> (field: Self)
        ensures
            field.map() == image,
    {
        ImageNoiseFnWrapper { image }
    }
}

impl<const CHANNEL: usize> ImageNoiseFnWrapper<CHANNEL> {
    /// The image that the field reads.
    pub closed spec fn map(&self) -> BaseMap {
        self.image
    }

    /// The image that the field reads.
    pub fn image(&self) -> (image: &BaseMap)
        ensures
            *image == self.map(),
    {
        &self.image
    }

    /// The row of the texel that the scaled coordinates fall on: the first
    /// coordinate, held to the image's width.
    pub open spec fn row(&self, x: u32) -> int {
        clamped(x, map_width(self.map()))
    }

    /// The column of the texel that the scaled coordinates fall on: the second
    /// coordinate, held to the image's height.
    pub open spec fn column(&self, y: u32) -> int {
        clamped(y, map_height(self.map()))
    }

    /// The scaled coordinates `(x, y)` fall on a texel of the image. This holds
    /// of every pair of coordinates where the image is square and not empty.
    pub open spec fn reads_inside(&self, x: u32, y: u32) -> bool {
        &&& CHANNEL < SAMPLES_PER_TEXEL
        &&& 0 <= self.column(y) < map_width(self.map())
        &&& 0 <= self.row(x) < map_height(self.map())
    }

    /// The field's value at scaled coordinates `(x, y)`, as a sample of the
    /// image: that of the field's channel in the texel in row `row(x)` and
    /// column `column(y)`.
    pub open spec fn texel_value(&self, x: u32, y: u32) -> u8 {
        map_samples(self.map())[(self.row(x) * map_width(self.map()) + self.column(y))
            * SAMPLES_PER_TEXEL + CHANNEL]
    }

    /// Reads the field at scaled coordinates `(x, y)`: the position in the
    /// scene, scaled so that the scene spans the image's width and height.
    /// Coordinates at or beyond an edge of the image read the texel at that
    /// edge.
    pub fn get(&self, x: u32, y: u32) -> (value: u8)
        requires
            self.reads_inside(x, y),
        ensures
            value == self.texel_value(x, y),
    {
        let width = width_of(&self.image);
        let height = height_of(&self.image);
        let row = if x < width { x } else { width - 1 };
        let column = if y < height { y } else { height - 1 };
        channel_of(&self.image, column, row, CHANNEL)
    }

    /// Reads the field at scaled coordinates `(x, y)` where they fall on a
    /// texel of the image, and says so where they do not.
    pub fn try_get(&self, x: u32, y: u32) -> (value: Option<u8>)
        ensures
            value is Some <==> self.reads_inside(x, y),
            value matches Some(sample) ==> sample == self.texel_value(x, y),
    {
        let width = width_of(&self.image);
        let height = height_of(&self.image);
        if CHANNEL >= SAMPLES_PER_TEXEL || width == 0 || height == 0 {
            return None;
        }
        let row = if x < width { x } else { width - 1 };
        let column = if y < height { y } else { height - 1 };
        if column < width && row < height {
            Some(self.get(x, y))
        } else {
            None
        }
    }
}

} // verus!
