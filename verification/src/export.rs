//! Export of documents to the formats of other tools: YOLO text and Pascal
//! VOC XML, and the values of a COCO data set.
//!
//! All three describe an object by the bounding box of its polygon. An
//! object without points has none and is left out.

use crate::annotation::{Annotation, AnnotationView, Object, ObjectView};
use crate::error::Error;
use crate::geometry::{bounding_box, spec_bounding_box, Point, UNIT};
use crate::meta::{category_ids, first_position, Meta};
use crate::text::{append_decimal, append_integer, decimal_text, digit_text, integer_text};
use vstd::prelude::*;
use vstd::string::StringExecFns;

verus! {

/// A format that documents are exported to.
#[derive(Clone, Copy, Debug, PartialEq, Eq, Structural)]
pub enum ExportFormat {
    /// Pascal VOC, an XML file per image.
    Voc,
    /// YOLO, a text file per image.
    Yolo,
    /// COCO, one JSON file for all images.
    Coco,
}

/// The number `n`, below a million, in six decimal digits.
pub open spec fn six_digits(n: int) -> Seq<char> {
    digit_text(n / 100_000 % 10) + digit_text(n / 10_000 % 10) + digit_text(n / 1_000 % 10)
        + digit_text(n / 100 % 10) + digit_text(n / 10 % 10) + digit_text(n % 10)
}

/// The coordinate `v` as a decimal fraction of the image with six digits
/// after the point, as in `0.300000`.
#[verifier::opaque]
pub open spec fn fraction_text(v: int) -> Seq<char> {
    let magnitude = if v < 0 {
        -v
    } else {
        v
    };
    (if v < 0 {
        "-"@
    } else {
        Seq::empty()
    }) + decimal_text((magnitude / UNIT as int) as nat) + "."@ + six_digits(magnitude % UNIT as int)
}

/// `lines` with `separator` between each two.
pub open spec fn joined(lines: Seq<Seq<char>>, separator: Seq<char>) -> Seq<char>
    decreases lines.len(),
{
    if lines.len() == 0 {
        Seq::empty()
    } else if lines.len() == 1 {
        lines[0]
    } else {
        joined(lines.drop_last(), separator) + separator + lines.last()
    }
}

/// The YOLO line of a bounding box: the class, the centre of the box, its
/// width and its height, as fractions of the image.
pub open spec fn yolo_box_line(category: int, min: Point, max: Point) -> Seq<char> {
    let width = max.x - min.x;
    let height = max.y - min.y;
    integer_text(category) + " "@ + fraction_text(min.x + width / 2) + " "@ + fraction_text(
        min.y + height / 2,
    ) + " "@ + fraction_text(width) + " "@ + fraction_text(height)
}

/// The YOLO line of an object, if it has points.
pub open spec fn yolo_line(object: ObjectView) -> Option<Seq<char>> {
    match spec_bounding_box(object.polygon) {
        Some((min, max)) => Some(yolo_box_line(object.category as int, min, max)),
        None => None,
    }
}

/// The YOLO text of a document: the lines of its objects, one below the
/// other.
pub open spec fn yolo_text(annotation: AnnotationView) -> Seq<char> {
    joined(annotation.objects.filter_map(|o: ObjectView| yolo_line(o)), "\n"@)
}

/// The pixel at the fraction `v` of an image `extent` pixels long, rounded
/// towards zero and limited to the range of `i32`.
pub open spec fn pixel_at(v: int, extent: int) -> int {
    crate::canvas::clamp_i32(crate::app_state::div_towards_zero(v * extent, UNIT as int))
}

/// The name of the category `category` in the project, or `unknown`.
pub open spec fn category_label(meta: Meta, category: i32) -> Seq<char> {
    match first_position(category_ids(meta.categories@), category) {
        Some(k) => meta.categories@[k].name@,
        None => "unknown"@,
    }
}

/// The VOC element of an object, if it has points: its category and its
/// bounding box in pixels.
pub open spec fn voc_object(
    object: ObjectView,
    meta: Meta,
    image_width: u32,
    image_height: u32,
) -> Seq<char> {
    match spec_bounding_box(object.polygon) {
        Some((min, max)) => "  <object>\n    <name>"@ + category_label(meta, object.category)
            + "</name>\n    <pose>Unspecified</pose>\n    <truncated>0</truncated>\n    <difficult>0</difficult>\n    <bndbox>\n      <xmin>"@
            + integer_text(pixel_at(min.x as int, image_width as int)) + "</xmin>\n      <ymin>"@
            + integer_text(pixel_at(min.y as int, image_height as int))
            + "</ymin>\n      <xmax>"@ + integer_text(pixel_at(max.x as int, image_width as int))
            + "</xmax>\n      <ymax>"@ + integer_text(pixel_at(max.y as int, image_height as int))
            + "</ymax>\n    </bndbox>\n  </object>\n"@,
        None => Seq::empty(),
    }
}

/// The VOC elements of the first `k` objects.
pub open spec fn voc_objects(
    objects: Seq<ObjectView>,
    meta: Meta,
    image_width: u32,
    image_height: u32,
    k: int,
) -> Seq<char>
    decreases k,
{
    if k <= 0 {
        Seq::empty()
    } else {
        voc_objects(objects, meta, image_width, image_height, k - 1) + voc_object(
            objects[k - 1],
            meta,
            image_width,
            image_height,
        )
    }
}

/// The head of a VOC file: where the image is, the data set, the size of
/// the image.
pub open spec fn voc_head(
    meta: Meta,
    folder: Seq<char>,
    filename: Seq<char>,
    image_path: Seq<char>,
    image_width: u32,
    image_height: u32,
) -> Seq<char> {
    "<annotation>\n  <folder>"@ + folder + "</folder>\n  <filename>"@ + filename
        + "</filename>\n  <path>"@ + image_path + "</path>\n  <source>\n    <database>"@
        + meta.name@ + "</database>\n  </source>\n  <size>\n    <width>"@ + decimal_text(
        image_width as nat,
    ) + "</width>\n    <height>"@ + decimal_text(image_height as nat)
        + "</height>\n    <depth>3</depth>\n  </size>\n  <segmented>0</segmented>\n"@
}

/// The VOC file of a document.
pub open spec fn voc_text(
    annotation: AnnotationView,
    meta: Meta,
    folder: Seq<char>,
    filename: Seq<char>,
    image_path: Seq<char>,
    image_width: u32,
    image_height: u32,
) -> Seq<char> {
    voc_head(meta, folder, filename, image_path, image_width, image_height) + voc_objects(
        annotation.objects,
        meta,
        image_width,
        image_height,
        annotation.objects.len() as int,
    ) + "</annotation>\n"@
}

/// The digit `d` as text.
fn append_digit(out: &mut String, d: u64)
    requires
        d < 10,
    ensures
        final(out)@ == old(out)@ + digit_text(d as int),
{
    proof {
        assert(decimal_text(d as nat) == digit_text(d as int));
    }
    append_decimal(out, d);
}

/// Appends `n`, below a million, in six decimal digits.
fn append_six_digits(out: &mut String, n: u64)
    requires
        n < 1_000_000,
    ensures
        final(out)@ == old(out)@ + six_digits(n as int),
{
    let d5: u64 = n / 100_000 % 10;
    let d4: u64 = n / 10_000 % 10;
    let d3: u64 = n / 1_000 % 10;
    let d2: u64 = n / 100 % 10;
    let d1: u64 = n / 10 % 10;
    let d0: u64 = n % 10;
    append_digit(out, d5);
    append_digit(out, d4);
    let ghost two = out@;
    assert(two =~= old(out)@ + (digit_text(d5 as int) + digit_text(d4 as int)));
    append_digit(out, d3);
    append_digit(out, d2);
    let ghost four = out@;
    assert(four =~= old(out)@ + (digit_text(d5 as int) + digit_text(d4 as int) + digit_text(
        d3 as int,
    ) + digit_text(d2 as int)));
    append_digit(out, d1);
    append_digit(out, d0);
    assert(out@ =~= old(out)@ + (digit_text(d5 as int) + digit_text(d4 as int) + digit_text(
        d3 as int,
    ) + digit_text(d2 as int) + digit_text(d1 as int) + digit_text(d0 as int)));
}

/// Appends the coordinate `v` as a decimal fraction with six digits after
/// the point.
pub fn append_fraction(out: &mut String, v: i64)
    requires
        -0x1_0000_0000 <= v <= 0x1_0000_0000,
    ensures
        final(out)@ == old(out)@ + fraction_text(v as int),
{
    reveal(fraction_text);
    let magnitude: u64 = if v < 0 { (-v) as u64 } else { v as u64 };
    let ghost sign: Seq<char> = if v < 0 {
        "-"@
    } else {
        Seq::empty()
    };
    if v < 0 {
        out.append("-");
    }
    assert(out@ =~= old(out)@ + sign);
    let whole: u64 = magnitude / 1_000_000;
    let rest: u64 = magnitude % 1_000_000;
    append_decimal(out, whole);
    out.append(".");
    let ghost head = out@;
    assert(head =~= old(out)@ + (sign + decimal_text(whole as nat) + "."@));
    append_six_digits(out, rest);
    assert(out@ =~= old(out)@ + (sign + decimal_text(whole as nat) + "."@ + six_digits(
        rest as int,
    )));
}

/// Appends the YOLO line of the bounding box `min`, `max` of an object of
/// the class `category`.
fn append_yolo_line(out: &mut String, category: i32, min: Point, max: Point)
    requires
        min.x <= max.x,
        min.y <= max.y,
    ensures
        final(out)@ == old(out)@ + yolo_box_line(category as int, min, max),
{
    let width: i64 = max.x as i64 - min.x as i64;
    let height: i64 = max.y as i64 - min.y as i64;
    let ghost class = integer_text(category as int);
    let ghost cx = fraction_text(min.x + width / 2);
    let ghost cy = fraction_text(min.y + height / 2);
    let ghost w = fraction_text(width as int);
    let ghost h = fraction_text(height as int);
    append_integer(out, category as i64);
    out.append(" ");
    append_fraction(out, min.x as i64 + width / 2);
    assert(out@ =~= old(out)@ + (class + " "@ + cx));
    out.append(" ");
    append_fraction(out, min.y as i64 + height / 2);
    assert(out@ =~= old(out)@ + (class + " "@ + cx + " "@ + cy));
    out.append(" ");
    append_fraction(out, width);
    assert(out@ =~= old(out)@ + (class + " "@ + cx + " "@ + cy + " "@ + w));
    out.append(" ");
    append_fraction(out, height);
    assert(out@ =~= old(out)@ + (class + " "@ + cx + " "@ + cy + " "@ + w + " "@ + h));
}

/// Decides [`pixel_at`].
pub fn pixel_of(v: i32, extent: u32) -> (pixel: i32)
    ensures
        pixel == pixel_at(v as int, extent as int),
{
    assert(-0x8000_0000 * 0xffff_ffff <= v * extent <= 0x8000_0000 * 0xffff_ffff)
        by (nonlinear_arith)
        requires
            -0x8000_0000 <= v <= 0x8000_0000,
            0 <= extent <= 0xffff_ffff,
    ;
    let scaled: i128 = (v as i128) * (extent as i128);
    let quotient: i128 = if scaled >= 0 {
        scaled / 1_000_000
    } else {
        -((-scaled) / 1_000_000)
    };
    if quotient < -0x8000_0000 {
        -0x8000_0000
    } else if quotient > 0x7fff_ffff {
        0x7fff_ffff
    } else {
        quotient as i32
    }
}

/// The YOLO text of a document.
pub fn export_yolo(annotation: &Annotation) -> (text: String)
    ensures
        text@ == yolo_text(annotation@),
{
    let ghost line = |o: ObjectView| yolo_line(o);
    let mut text: String = String::new();
    let mut any: bool = false;
    let mut k: usize = 0;
    while k < annotation.objects.len()
        invariant
            k <= annotation.objects@.len(),
            line == |o: ObjectView| yolo_line(o),
            text@ == joined(annotation@.objects.take(k as int).filter_map(line), "\n"@),
            any == (annotation@.objects.take(k as int).filter_map(line).len() > 0),
        decreases annotation.objects@.len() - k,
    {
        let object: &Object = &annotation.objects[k];
        let ghost before = annotation@.objects.take(k as int).filter_map(line);
        proof {
            crate::keymap::lemma_filter_map_next(annotation@.objects, line, k as int);
        }
        match bounding_box(object.polygon.as_slice()) {
            Some((min, max)) => {
                assert(min.x <= max.x && min.y <= max.y) by {
                    assert(crate::geometry::is_bounding_box(object.polygon@, min, max));
                    let i = choose|i: int|
                        0 <= i < object.polygon@.len() && (#[trigger] object.polygon@[i]).x
                            == min.x;
                    assert(min.x <= object.polygon@[i].x <= max.x);
                    assert(min.y <= object.polygon@[i].y <= max.y);
                }
                if any {
                    text.append("\n");
                }
                append_yolo_line(&mut text, object.category, min, max);
                proof {
                    let made = yolo_box_line(object.category as int, min, max);
                    let after = before.push(made);
                    assert(after.drop_last() =~= before);
                    assert(after.last() == made);
                    if any {
                        assert(text@ =~= joined(before, "\n"@) + "\n"@ + made);
                    } else {
                        assert(before.len() == 0);
                        assert(joined(before, "\n"@).len() == 0);
                        assert(text@ =~= made);
                    }
                }
                any = true;
            },
            None => {},
        }
        k = k + 1;
    }
    assert(annotation@.objects.take(k as int) =~= annotation@.objects);
    text
}

/// Appends the VOC element of `object`.
fn append_voc_object(
    out: &mut String,
    object: &Object,
    meta: &Meta,
    image_width: u32,
    image_height: u32,
)
    ensures
        final(out)@ == old(out)@ + voc_object(object@, *meta, image_width, image_height),
{
    match bounding_box(object.polygon.as_slice()) {
        Some((min, max)) => {
            out.append("  <object>\n    <name>");
            match meta.find_category(object.category) {
                Some(category) => {
                    out.append(category.name.as_str());
                },
                None => {
                    out.append("unknown");
                },
            }
            out.append(
                "</name>\n    <pose>Unspecified</pose>\n    <truncated>0</truncated>\n    <difficult>0</difficult>\n    <bndbox>\n      <xmin>",
            );
            append_integer(out, pixel_of(min.x, image_width) as i64);
            out.append("</xmin>\n      <ymin>");
            append_integer(out, pixel_of(min.y, image_height) as i64);
            out.append("</ymin>\n      <xmax>");
            append_integer(out, pixel_of(max.x, image_width) as i64);
            out.append("</xmax>\n      <ymax>");
            append_integer(out, pixel_of(max.y, image_height) as i64);
            out.append("</ymax>\n    </bndbox>\n  </object>\n");
            assert(out@ =~= old(out)@ + voc_object(object@, *meta, image_width, image_height));
        },
        None => {
            assert(out@ =~= old(out)@ + voc_object(object@, *meta, image_width, image_height));
        },
    }
}

/// The VOC file of a document for the image at `image_path`, which lies in
/// the folder named `folder` under the name `filename`.
pub fn export_voc(
    annotation: &Annotation,
    meta: &Meta,
    folder: &str,
    filename: &str,
    image_path: &str,
    image_width: u32,
    image_height: u32,
) -> (text: String)
    ensures
        text@ == voc_text(
            annotation@,
            *meta,
            folder@,
            filename@,
            image_path@,
            image_width,
            image_height,
        ),
{
    let mut text: String = String::from_str("<annotation>\n  <folder>");
    text.append(folder);
    text.append("</folder>\n  <filename>");
    text.append(filename);
    text.append("</filename>\n  <path>");
    text.append(image_path);
    text.append("</path>\n  <source>\n    <database>");
    text.append(meta.name.as_str());
    text.append("</database>\n  </source>\n  <size>\n    <width>");
    append_decimal(&mut text, image_width as u64);
    text.append("</width>\n    <height>");
    append_decimal(&mut text, image_height as u64);
    text.append("</height>\n    <depth>3</depth>\n  </size>\n  <segmented>0</segmented>\n");
    let ghost head = voc_head(*meta, folder@, filename@, image_path@, image_width, image_height);
    assert(text@ =~= head);
    let mut k: usize = 0;
    while k < annotation.objects.len()
        invariant
            k <= annotation.objects@.len(),
            text@ == head + voc_objects(
                annotation@.objects,
                *meta,
                image_width,
                image_height,
                k as int,
            ),
        decreases annotation.objects@.len() - k,
    {
        let ghost before = text@;
        append_voc_object(&mut text, &annotation.objects[k], meta, image_width, image_height);
        assert(text@ =~= head + voc_objects(
            annotation@.objects,
            *meta,
            image_width,
            image_height,
            k + 1,
        ));
        k = k + 1;
    }
    text.append("</annotation>\n");
    text
}

/// An image of a COCO data set.
#[derive(Debug)]
pub struct CocoImage {
    pub id: i32,
    /// Width in pixels.
    pub width: u32,
    /// Height in pixels.
    pub height: u32,
    /// Path of the image, as the batch gives it.
    pub image_path: String,
    pub license: i32,
    /// When the document of the image was made, in milliseconds since
    /// 1970.
    pub captured_at: i64,
}

/// An object of a COCO data set. Lengths are in millionths of a pixel.
#[derive(Debug)]
pub struct CocoAnnotation {
    pub id: i32,
    pub image_id: i32,
    pub category_id: i32,
    /// The outline: `x` and `y` of each vertex in turn.
    pub segmentation: Vec<i128>,
    /// Area of the bounding box, in squares of the length unit.
    pub area: u128,
    /// The bounding box: left, top, width, height.
    pub bbox: (i128, i128, i128, i128),
    pub iscrowd: i32,
}

/// A category of a COCO data set.
#[derive(Debug)]
pub struct CocoCategory {
    pub id: i32,
    pub name: String,
    pub supercategory: String,
}

/// The values of a COCO data set.
#[derive(Debug)]
pub struct CocoDataset {
    /// Description of the project.
    pub description: String,
    /// Version of the format.
    pub version: String,
    /// Name of the project.
    pub contributor: String,
    /// When the data set was made, in milliseconds since 1970.
    pub created_at: i64,
    pub images: Vec<CocoImage>,
    pub annotations: Vec<CocoAnnotation>,
    pub categories: Vec<CocoCategory>,
}

/// One image of a batch: the path of the image, its document, its width
/// and its height in pixels.
#[derive(Debug)]
pub struct BatchItem {
    pub image_path: String,
    pub annotation: Annotation,
    pub width: u32,
    pub height: u32,
}

/// Model of a [`CocoAnnotation`].
pub struct CocoAnnotationView {
    pub id: i32,
    pub image_id: i32,
    pub category_id: i32,
    pub segmentation: Seq<i128>,
    pub area: u128,
    pub bbox: (i128, i128, i128, i128),
    pub iscrowd: i32,
}

impl View for CocoAnnotation {
    type V = CocoAnnotationView;

    open spec fn view(&self) -> CocoAnnotationView {
        CocoAnnotationView {
            id: self.id,
            image_id: self.image_id,
            category_id: self.category_id,
            segmentation: self.segmentation@,
            area: self.area,
            bbox: self.bbox,
            iscrowd: self.iscrowd,
        }
    }
}

/// The outline `polygon` in millionths of a pixel: `x` and `y` of each of
/// the first `k` vertices in turn.
pub open spec fn coco_segmentation(polygon: Seq<Point>, width: u32, height: u32, k: int) -> Seq<
    i128,
>
    decreases k,
{
    if k <= 0 {
        Seq::empty()
    } else {
        coco_segmentation(polygon, width, height, k - 1).push(
            (polygon[k - 1].x * width) as i128,
        ).push((polygon[k - 1].y * height) as i128)
    }
}

/// The COCO object of `object` in the image `image_id`, with the id `id`,
/// if the object has points.
pub open spec fn coco_annotation(
    object: ObjectView,
    id: int,
    image_id: int,
    width: u32,
    height: u32,
) -> Option<CocoAnnotationView> {
    match spec_bounding_box(object.polygon) {
        Some((min, max)) => Some(
            CocoAnnotationView {
                id: id as i32,
                image_id: image_id as i32,
                category_id: object.category,
                segmentation: coco_segmentation(
                    object.polygon,
                    width,
                    height,
                    object.polygon.len() as int,
                ),
                area: (((max.x - min.x) * width) * ((max.y - min.y) * height)) as u128,
                bbox: (
                    (min.x * width) as i128,
                    (min.y * height) as i128,
                    ((max.x - min.x) * width) as i128,
                    ((max.y - min.y) * height) as i128,
                ),
                iscrowd: 0,
            },
        ),
        None => None,
    }
}

/// The COCO objects of the first `k` of `objects`, in the image
/// `image_id`; their ids count up from `first_id`.
pub open spec fn coco_image_annotations(
    objects: Seq<ObjectView>,
    image_id: int,
    width: u32,
    height: u32,
    first_id: int,
    k: int,
) -> Seq<CocoAnnotationView>
    decreases k,
{
    if k <= 0 {
        Seq::empty()
    } else {
        let before = coco_image_annotations(objects, image_id, width, height, first_id, k - 1);
        match coco_annotation(objects[k - 1], first_id + before.len(), image_id, width, height) {
            Some(made) => before.push(made),
            None => before,
        }
    }
}

/// The COCO objects of the first `k` images of `batch`; their ids count
/// up from zero through all images.
pub open spec fn coco_annotations(batch: Seq<BatchItem>, k: int) -> Seq<CocoAnnotationView>
    decreases k,
{
    if k <= 0 {
        Seq::empty()
    } else {
        let before = coco_annotations(batch, k - 1);
        before + coco_image_annotations(
            batch[k - 1].annotation@.objects,
            k - 1,
            batch[k - 1].width,
            batch[k - 1].height,
            before.len() as int,
            batch[k - 1].annotation@.objects.len() as int,
        )
    }
}

/// The batch has ids for every image and object: no more than the largest
/// `i32` of each.
pub open spec fn batch_fits(batch: Seq<BatchItem>) -> bool {
    batch.len() <= i32::MAX && coco_annotations(batch, batch.len() as int).len() <= i32::MAX
}

/// The outline of a COCO object.
fn segmentation_of(polygon: &Vec<Point>, width: u32, height: u32) -> (values: Vec<i128>)
    ensures
        values@ == coco_segmentation(polygon@, width, height, polygon@.len() as int),
{
    let mut values: Vec<i128> = Vec::new();
    let mut k: usize = 0;
    while k < polygon.len()
        invariant
            k <= polygon@.len(),
            values@ == coco_segmentation(polygon@, width, height, k as int),
        decreases polygon@.len() - k,
    {
        let p: Point = polygon[k];
        values.push(scaled_length(p.x as i64, width));
        values.push(scaled_length(p.y as i64, height));
        k = k + 1;
    }
    values
}

/// The fraction `v` of an image `extent` pixels long, in millionths of a
/// pixel.
fn scaled_length(v: i64, extent: u32) -> (length: i128)
    requires
        -0x1_0000_0000 <= v <= 0x1_0000_0000,
    ensures
        length == v * extent,
        -0x1_0000_0000 * 0xffff_ffff <= length <= 0x1_0000_0000 * 0xffff_ffff,
        v >= 0 ==> length >= 0,
{
    assert(-0x1_0000_0000 * 0xffff_ffff <= v * extent <= 0x1_0000_0000 * 0xffff_ffff)
        by (nonlinear_arith)
        requires
            -0x1_0000_0000 <= v <= 0x1_0000_0000,
            0 <= extent <= 0xffff_ffff,
    ;
    assert(v >= 0 ==> v * extent >= 0) by (nonlinear_arith)
        requires
            0 <= extent,
    ;
    (v as i128) * (extent as i128)
}

/// The description of a format that is exported in batches only.
pub open spec fn text_needs_batch() -> Seq<char> {
    "COCO format requires batch export. Use export_batch instead."@
}

/// The description of a batch with more images or objects than there are
/// ids.
pub open spec fn text_batch_too_large() -> Seq<char> {
    "The batch has more images or objects than a COCO data set has ids"@
}

/// `dataset` is the COCO data set of `batch` in the project `meta`, made
/// at the time `now`.
pub open spec fn is_coco_dataset(
    dataset: CocoDataset,
    batch: Seq<BatchItem>,
    meta: Meta,
    now: i64,
) -> bool {
    &&& dataset.description@ == meta.description@
    &&& dataset.version@ == "1.0"@
    &&& dataset.contributor@ == meta.name@
    &&& dataset.created_at == now
    &&& dataset.images@.len() == batch.len()
    &&& forall|i: int|
        0 <= i < batch.len() ==> {
            let image = #[trigger] dataset.images@[i];
            &&& image.id == i
            &&& image.width == batch[i].width
            &&& image.height == batch[i].height
            &&& image.image_path@ == batch[i].image_path@
            &&& image.license == 1
            &&& image.captured_at == batch[i].annotation@.created_at
        }
    &&& dataset.annotations@.map_values(|a: CocoAnnotation| a@) == coco_annotations(
        batch,
        batch.len() as int,
    )
    &&& dataset.categories@.len() == meta.categories@.len()
    &&& forall|i: int|
        0 <= i < meta.categories@.len() ==> {
            let category = #[trigger] dataset.categories@[i];
            &&& category.id == meta.categories@[i].id
            &&& category.name@ == meta.categories@[i].name@
            &&& category.supercategory@ == "object"@
        }
}

/// `result` is what the export of `batch` gives: its data set where the
/// batch has ids for every image and object, else the error that says it
/// has not.
pub open spec fn is_coco_result(
    result: Result<CocoDataset, Error>,
    batch: Seq<BatchItem>,
    meta: Meta,
    now: i64,
) -> bool {
    match result {
        Ok(dataset) => batch_fits(batch) && is_coco_dataset(dataset, batch, meta, now),
        Err(error) => {
            &&& !batch_fits(batch)
            &&& error matches Error::Export(text) && text@ == text_batch_too_large()
        },
    }
}

/// The values of the COCO data set of a batch of documents, made at the
/// time `now`: the images with their positions in the batch as ids, the
/// objects that have points with ids counted up from zero, and the
/// categories of the project. A batch with more images or objects than
/// there are ids is an error.
pub fn coco_dataset(batch: &Vec<BatchItem>, meta: &Meta, now: i64) -> (result: Result<
    CocoDataset,
    Error,
>)
    ensures
        is_coco_result(result, batch@, *meta, now),
{
    let mut images: Vec<CocoImage> = Vec::new();
    let mut annotations: Vec<CocoAnnotation> = Vec::new();
    let mut i: usize = 0;
    while i < batch.len()
        invariant
            i <= batch@.len(),
            i <= i32::MAX,
            annotations@.len() <= i32::MAX,
            images@.len() == i,
            forall|j: int|
                0 <= j < i ==> {
                    let image = #[trigger] images@[j];
                    &&& image.id == j
                    &&& image.width == batch@[j].width
                    &&& image.height == batch@[j].height
                    &&& image.image_path@ == batch@[j].image_path@
                    &&& image.license == 1
                    &&& image.captured_at == batch@[j].annotation@.created_at
                },
            annotations@.map_values(|a: CocoAnnotation| a@) == coco_annotations(batch@, i as int),
        decreases batch@.len() - i,
    {
        if i >= 0x7fff_ffff {
            proof {
                crate::export::lemma_batch_grows(batch@, i as int, batch@.len() as int);
            }
            return Err(Error::Export(String::from_str(
                "The batch has more images or objects than a COCO data set has ids",
            )));
        }
        let item: &BatchItem = &batch[i];
        images.push(
            CocoImage {
                id: i as i32,
                width: item.width,
                height: item.height,
                image_path: item.image_path.clone(),
                license: 1,
                captured_at: item.annotation.created_at,
            },
        );
        let ghost done = annotations@.map_values(|a: CocoAnnotation| a@);
        let ghost objects = item.annotation@.objects;
        let mut k: usize = 0;
        while k < item.annotation.objects.len()
            invariant
                k <= item.annotation.objects@.len(),
                i < 0x7fff_ffff,
                i < batch@.len(),
                *item == batch@[i as int],
                objects == item.annotation@.objects,
                done == coco_annotations(batch@, i as int),
                annotations@.len() <= i32::MAX,
                annotations@.map_values(|a: CocoAnnotation| a@) == done + coco_image_annotations(
                    objects,
                    i as int,
                    item.width,
                    item.height,
                    done.len() as int,
                    k as int,
                ),
            decreases item.annotation.objects@.len() - k,
        {
            let object: &Object = &item.annotation.objects[k];
            let ghost before = coco_image_annotations(
                objects,
                i as int,
                item.width,
                item.height,
                done.len() as int,
                k as int,
            );
            match bounding_box(object.polygon.as_slice()) {
                Some((min, max)) => {
                    assert(min.x <= max.x && min.y <= max.y) by {
                        assert(crate::geometry::is_bounding_box(object.polygon@, min, max));
                        let v = choose|v: int|
                            0 <= v < object.polygon@.len() && (#[trigger] object.polygon@[v]).x
                                == min.x;
                        assert(min.x <= object.polygon@[v].x <= max.x);
                        assert(min.y <= object.polygon@[v].y <= max.y);
                    }
                    if annotations.len() >= 0x7fff_ffff {
                        proof {
                            let full = coco_image_annotations(
                                objects,
                                i as int,
                                item.width,
                                item.height,
                                done.len() as int,
                                k + 1,
                            );
                            assert(objects[k as int] == object@);
                            assert(full.len() == before.len() + 1);
                            assert(annotations@.map_values(|a: CocoAnnotation| a@).len()
                                == annotations@.len());
                            assert(annotations@.len() == done.len() + before.len());
                            let whole = coco_image_annotations(
                                objects,
                                i as int,
                                item.width,
                                item.height,
                                done.len() as int,
                                objects.len() as int,
                            );
                            assert(coco_annotations(batch@, i + 1) == done + whole);
                            crate::export::lemma_image_grows(
                                objects,
                                i as int,
                                item.width,
                                item.height,
                                done.len() as int,
                                k + 1,
                                objects.len() as int,
                            );
                            crate::export::lemma_batch_grows(
                                batch@,
                                i + 1,
                                batch@.len() as int,
                            );
                        }
                        return Err(Error::Export(String::from_str(
                            "The batch has more images or objects than a COCO data set has ids",
                        )));
                    }
                    let w: i128 = scaled_length(max.x as i64 - min.x as i64, item.width);
                    let h: i128 = scaled_length(max.y as i64 - min.y as i64, item.height);
                    assert(0 <= w * h <= 0x1_0000_0000 * 0xffff_ffff * (0x1_0000_0000
                        * 0xffff_ffff)) by (nonlinear_arith)
                        requires
                            0 <= w <= 0x1_0000_0000 * 0xffff_ffff,
                            0 <= h <= 0x1_0000_0000 * 0xffff_ffff,
                    ;
                    let ghost count = annotations@.len();
                    assert(annotations@.map_values(|a: CocoAnnotation| a@).len() == count);
                    assert(count == done.len() + before.len());
                    let made = CocoAnnotation {
                        id: annotations.len() as i32,
                        image_id: i as i32,
                        category_id: object.category,
                        segmentation: segmentation_of(&object.polygon, item.width, item.height),
                        area: (w as u128) * (h as u128),
                        bbox: (
                            scaled_length(min.x as i64, item.width),
                            scaled_length(min.y as i64, item.height),
                            w,
                            h,
                        ),
                        iscrowd: 0,
                    };
                    let ghost view = made@;
                    let ghost old_views = annotations@.map_values(|a: CocoAnnotation| a@);
                    annotations.push(made);
                    proof {
                        assert(objects[k as int] == object@);
                        assert(Some(view) == coco_annotation(
                            objects[k as int],
                            (done.len() + before.len()) as int,
                            i as int,
                            item.width,
                            item.height,
                        ));
                        assert(annotations@.map_values(|a: CocoAnnotation| a@) =~= old_views.push(
                            view,
                        ));
                        assert((done + before).push(view) =~= done + before.push(view));
                    }
                },
                None => {
                    assert(objects[k as int] == object@);
                },
            }
            k = k + 1;
        }
        i = i + 1;
    }
    let mut categories: Vec<CocoCategory> = Vec::new();
    let mut c: usize = 0;
    while c < meta.categories.len()
        invariant
            c <= meta.categories@.len(),
            categories@.len() == c,
            forall|j: int|
                0 <= j < c ==> {
                    let category = #[trigger] categories@[j];
                    &&& category.id == meta.categories@[j].id
                    &&& category.name@ == meta.categories@[j].name@
                    &&& category.supercategory@ == "object"@
                },
        decreases meta.categories@.len() - c,
    {
        categories.push(
            CocoCategory {
                id: meta.categories[c].id,
                name: meta.categories[c].name.clone(),
                supercategory: String::from_str("object"),
            },
        );
        c = c + 1;
    }
    Ok(
        CocoDataset {
            description: meta.description.clone(),
            version: String::from_str("1.0"),
            contributor: meta.name.clone(),
            created_at: now,
            images,
            annotations,
            categories,
        },
    )
}

/// More objects of an image give no fewer COCO objects.
pub proof fn lemma_image_grows(
    objects: Seq<ObjectView>,
    image_id: int,
    width: u32,
    height: u32,
    first_id: int,
    k: int,
    n: int,
)
    requires
        0 <= k <= n,
    ensures
        coco_image_annotations(objects, image_id, width, height, first_id, k).len()
            <= coco_image_annotations(objects, image_id, width, height, first_id, n).len(),
    decreases n - k,
{
    if k < n {
        lemma_image_grows(objects, image_id, width, height, first_id, k, n - 1);
    }
}

/// More images of a batch give no fewer COCO objects.
pub proof fn lemma_batch_grows(batch: Seq<BatchItem>, k: int, n: int)
    requires
        0 <= k <= n,
    ensures
        coco_annotations(batch, k).len() <= coco_annotations(batch, n).len(),
    decreases n - k,
{
    if k < n {
        lemma_batch_grows(batch, k, n - 1);
    }
}

/// Calls `std::path::Path::file_name` on `path` and takes the name as
/// text: the last component of the path, if the path ends in one. Nothing is
/// claimed of the value: what separates the components depends on the
/// system.
#[verifier::external_body]
fn path_file_name(path: &str) -> Option<String> {
    match std::path::Path::new(path).file_name() {
        Some(name) => Some(name.to_string_lossy().into_owned()),
        None => None,
    }
}

/// Calls `std::path::Path::parent` on `path` and takes the result as text:
/// the path without its last component, if it has one. Nothing is claimed
/// of the value: what separates the components depends on the system.
#[verifier::external_body]
fn path_parent(path: &str) -> Option<String> {
    match std::path::Path::new(path).parent() {
        Some(parent) => Some(parent.to_string_lossy().into_owned()),
        None => None,
    }
}

/// Writes documents in the format of another tool.
pub trait Exporter {
    /// The text of the file for one document of the image at `image_path`.
    fn export_annotation(
        &self,
        annotation: &Annotation,
        meta: &Meta,
        image_path: &str,
        image_width: u32,
        image_height: u32,
    ) -> Result<String, Error>;
}

/// Writes YOLO text: a line per object with the class and the bounding box
/// as fractions of the image.
#[derive(Clone, Copy, Debug)]
pub struct YoloExporter;

/// Writes Pascal VOC XML, with the bounding boxes in pixels.
#[derive(Clone, Copy, Debug)]
pub struct VocExporter;

/// Makes COCO data sets. A data set holds a batch of images, so a single
/// document cannot be exported.
#[derive(Clone, Copy, Debug)]
pub struct CocoExporter;

impl Exporter for YoloExporter {
    fn export_annotation(
        &self,
        annotation: &Annotation,
        meta: &Meta,
        image_path: &str,
        image_width: u32,
        image_height: u32,
    ) -> (result: Result<String, Error>)
        ensures
            result matches Ok(text) && text@ == yolo_text(annotation@),
    {
        Ok(export_yolo(annotation))
    }
}

impl Exporter for VocExporter {
    fn export_annotation(
        &self,
        annotation: &Annotation,
        meta: &Meta,
        image_path: &str,
        image_width: u32,
        image_height: u32,
    ) -> (result: Result<String, Error>)
        ensures
            result matches Ok(text) && exists|folder: Seq<char>, filename: Seq<char>|
                text@ == voc_text(
                    annotation@,
                    *meta,
                    folder,
                    filename,
                    image_path@,
                    image_width,
                    image_height,
                ),
    {
        let filename: String = match path_file_name(image_path) {
            Some(name) => name,
            None => String::from_str("unknown.jpg"),
        };
        let folder: String = match path_parent(image_path) {
            Some(parent) => match path_file_name(parent.as_str()) {
                Some(name) => name,
                None => String::from_str("images"),
            },
            None => String::from_str("images"),
        };
        Ok(
            export_voc(
                annotation,
                meta,
                folder.as_str(),
                filename.as_str(),
                image_path,
                image_width,
                image_height,
            ),
        )
    }
}

impl Exporter for CocoExporter {
    fn export_annotation(
        &self,
        annotation: &Annotation,
        meta: &Meta,
        image_path: &str,
        image_width: u32,
        image_height: u32,
    ) -> (result: Result<String, Error>)
        ensures
            result matches Err(Error::Export(text)) && text@ == text_needs_batch(),
    {
        Err(
            Error::Export(
                String::from_str("COCO format requires batch export. Use export_batch instead."),
            ),
        )
    }
}

impl CocoExporter {
    /// The values of the COCO data set of a batch of documents, made at
    /// the time `now`.
    pub fn export_batch(&self, batch: &Vec<BatchItem>, meta: &Meta, now: i64) -> (result: Result<
        CocoDataset,
        Error,
    >)
        ensures
            is_coco_result(result, batch@, *meta, now),
    {
        coco_dataset(batch, meta, now)
    }
}

/// The text that exports one document in `format`, or why there is none:
/// COCO holds batches only.
pub fn export_annotation(
    annotation: &Annotation,
    meta: &Meta,
    image_path: &str,
    image_width: u32,
    image_height: u32,
    format: ExportFormat,
) -> (result: Result<String, Error>)
    ensures
        match format {
            ExportFormat::Yolo => result matches Ok(text) && text@ == yolo_text(annotation@),
            ExportFormat::Voc => result matches Ok(text) && exists|
                folder: Seq<char>,
                filename: Seq<char>,
            |
                text@ == voc_text(
                    annotation@,
                    *meta,
                    folder,
                    filename,
                    image_path@,
                    image_width,
                    image_height,
                ),
            ExportFormat::Coco => result matches Err(Error::Export(text)) && text@
                == "COCO format requires batch export"@,
        },
{
    match format {
        ExportFormat::Voc => VocExporter.export_annotation(
            annotation,
            meta,
            image_path,
            image_width,
            image_height,
        ),
        ExportFormat::Yolo => YoloExporter.export_annotation(
            annotation,
            meta,
            image_path,
            image_width,
            image_height,
        ),
        ExportFormat::Coco => Err(
            Error::Export(String::from_str("COCO format requires batch export")),
        ),
    }
}

} // verus!
