//! The screen-capture pipeline: screen selection, optional cropping,
//! the downscale decision, JPEG encoding and base64 text encoding.
//!
//! The pixel work itself is done by the image and base64 crates behind
//! trusted wrappers; every decision around them — which screen, whether
//! to downsample, what each failure says — is verified here. The
//! caller supplies the raw pixel buffer; querying the OS for screens
//! and pixels is outside the library.

use vstd::prelude::*;
use vstd::string::{StrSliceExecFns, StringExecFns};
use base64::Engine;
use crate::json::{Jv, JsonValue, JsonArr, JsonObj, jv_of};
use crate::numfmt::{dec_nat, u64_to_string};
use crate::tools::RegionArgs;

verus! {

broadcast use vstd::std_specs::vec::group_vec_axioms, vstd::seq::group_seq_axioms;

/// The RGBA pixels of the cut-out that `crop_imm` makes of an RGBA
/// frame, after clamping the rectangle to the frame.
pub uninterp spec fn crop_of(
    width: int,
    height: int,
    data: Seq<u8>,
    x: int,
    y: int,
    cw: int,
    ch: int,
) -> Seq<u8>;

/// The RGBA pixels of the aspect-preserving Lanczos3 downscale of an
/// RGBA frame into the given bounds.
pub uninterp spec fn resize_of(
    width: int,
    height: int,
    data: Seq<u8>,
    max_width: int,
    max_height: int,
) -> Seq<u8>;

/// The width of that downscale: float rounding decides it, so only its
/// name and bounds are stated.
pub uninterp spec fn resized_width_of(width: int, height: int, max_width: int, max_height: int) -> int;

/// The height of that downscale.
pub uninterp spec fn resized_height_of(width: int, height: int, max_width: int, max_height: int) -> int;

/// The JPEG encoding of an RGBA frame, as the image crate's encoder
/// with its default settings produces it.
pub uninterp spec fn jpeg_of(width: int, height: int, data: Seq<u8>) -> Seq<u8>;

/// The width `crop_imm` clamps a requested rectangle to: the corner is
/// pulled into the frame, then the extent cut to what remains.
pub open spec fn crop_out_w(width: int, x: int, cw: int) -> int {
    let xc = if x <= width {
        x
    } else {
        width
    };
    if cw <= width - xc {
        cw
    } else {
        width - xc
    }
}

/// The height `crop_imm` clamps a requested rectangle to.
pub open spec fn crop_out_h(height: int, y: int, ch: int) -> int {
    let yc = if y <= height {
        y
    } else {
        height
    };
    if ch <= height - yc {
        ch
    } else {
        height - yc
    }
}

/// Relies on `image::imageops::crop_imm` on an RGBA frame: the
/// rectangle is clamped to the frame exactly as `crop_out_w`/`_h`
/// state, and the cut-out's pixels depend on the arguments alone.
#[verifier::external_body]
fn crop_rgba(width: u32, height: u32, data: &Vec<u8>, x: u32, y: u32, cw: u32, ch: u32) -> (r: (
    u32,
    u32,
    Vec<u8>,
))
    requires
        4 * (width as int) * (height as int) <= data@.len(),
    ensures
        r.0 as int == crop_out_w(width as int, x as int, cw as int),
        r.1 as int == crop_out_h(height as int, y as int, ch as int),
        r.2@ == crop_of(
            width as int,
            height as int,
            data@,
            x as int,
            y as int,
            cw as int,
            ch as int,
        ),
        r.2@.len() == 4 * (r.0 as int) * (r.1 as int),
{
    let img = image::RgbaImage::from_raw(width, height, data.clone()).unwrap();
    let out = image::imageops::crop_imm(&img, x, y, cw, ch).to_image();
    let (w, h) = out.dimensions();
    (w, h, out.into_raw())
}

/// Relies on `image::DynamicImage::resize` with the Lanczos3 filter:
/// the largest aspect-preserving fit within the bounds, its dimensions
/// contained in them (each forced to at least one), its pixels a
/// function of the arguments alone. The caller keeps the input
/// dimensions away from the bounds, so the resampling path is taken.
#[verifier::external_body]
fn resize_rgba(width: u32, height: u32, data: &Vec<u8>, max_width: u32, max_height: u32) -> (r: (
    u32,
    u32,
    Vec<u8>,
))
    requires
        4 * (width as int) * (height as int) <= data@.len(),
        width > max_width || height > max_height,
    ensures
        r.0 as int == resized_width_of(
            width as int,
            height as int,
            max_width as int,
            max_height as int,
        ),
        r.1 as int == resized_height_of(
            width as int,
            height as int,
            max_width as int,
            max_height as int,
        ),
        1 <= r.0 as int <= (if max_width >= 1 {
            max_width as int
        } else {
            1
        }),
        1 <= r.1 as int <= (if max_height >= 1 {
            max_height as int
        } else {
            1
        }),
        r.2@ == resize_of(
            width as int,
            height as int,
            data@,
            max_width as int,
            max_height as int,
        ),
        r.2@.len() == 4 * (r.0 as int) * (r.1 as int),
{
    let buf = image::RgbaImage::from_raw(width, height, data.clone()).unwrap();
    let out = image::DynamicImage::ImageRgba8(buf).resize(
        max_width,
        max_height,
        image::imageops::FilterType::Lanczos3,
    );
    let (w, h) = (out.width(), out.height());
    (w, h, out.into_rgba8().into_raw())
}

/// Relies on `image::DynamicImage::write_to` with the JPEG format on
/// an RGBA frame: the encoder converts to RGB itself, accepts exactly
/// the dimensions 1..=65535 (in-memory writes cannot fail), and its
/// output depends on the pixels and dimensions alone; a `Vec` stays
/// under the allocator's `isize::MAX` byte cap.
#[verifier::external_body]
fn encode_jpeg_rgba(width: u32, height: u32, data: &Vec<u8>) -> (r: Result<Vec<u8>, String>)
    requires
        4 * (width as int) * (height as int) <= data@.len(),
    ensures
        r is Ok <==> (1 <= width <= 65535 && 1 <= height <= 65535),
        r is Ok ==> r->Ok_0@ == jpeg_of(width as int, height as int, data@),
        r is Ok ==> r->Ok_0@.len() < 0x8000_0000_0000_0000,
{
    let buf = image::RgbaImage::from_raw(width, height, data.clone()).unwrap();
    let img = image::DynamicImage::ImageRgba8(buf);
    let mut bytes: Vec<u8> = Vec::new();
    match img.write_to(std::io::Cursor::new(&mut bytes), image::ImageFormat::Jpeg) {
        Ok(()) => Ok(bytes),
        Err(e) => Err(format!("Failed to encode JPEG: {:?}", e)),
    }
}

/// The base64 text of a byte sequence, as the standard padded
/// alphabet renders it.
pub uninterp spec fn base64_of(bytes: Seq<u8>) -> Seq<char>;

/// Relies on base64's `Engine::encode` with the standard padded
/// engine: the result is a function of the bytes alone, four
/// characters for every started group of three bytes.
#[verifier::external_body]
fn base64_encode(bytes: &Vec<u8>) -> (r: String)
    requires
        bytes@.len() < 0x8000_0000_0000_0000,
    ensures
        r@ == base64_of(bytes@),
        r@.len() == 4 * ((bytes@.len() + 2) / 3),
{
    base64::engine::general_purpose::STANDARD.encode(bytes)
}

/// Whether a frame must be downsampled: only when either dimension
/// exceeds its maximum.
pub open spec fn needs_resize(w: int, h: int, max_w: int, max_h: int) -> bool {
    w > max_w || h > max_h
}

/// A frame no larger than its bounds is never resized: a capture under
/// the maxima keeps its dimensions, there is no upscaling.
pub proof fn lemma_no_upscale(w: int, h: int, max_w: int, max_h: int)
    ensures
        w <= max_w && h <= max_h ==> !needs_resize(w, h, max_w, max_h),
{
}

/// The message naming the valid screen range for a bad index.
pub open spec fn screen_range_msg(idx: int, count: int) -> Seq<char> {
    "Screen index "@ + dec_nat(idx) + " not found. Available screens: 0-"@ + dec_nat(
        if count > 0 {
            count - 1
        } else {
            0
        },
    )
}

/// Selects a screen by index: the index must fall inside the list,
/// else the error names the valid range.
pub fn check_screen_index(screen_index: u64, count: usize) -> (r: Result<(), String>)
    ensures
        r is Ok <==> screen_index < count as u64,
        r is Err ==> r->Err_0@ == screen_range_msg(screen_index as int, count as int),
{
    if screen_index < count as u64 {
        Ok(())
    } else {
        let last: u64 = if count > 0 {
            (count - 1) as u64
        } else {
            0
        };
        let msg = String::from_str("Screen index ").concat(
            u64_to_string(screen_index).as_str(),
        ).concat(" not found. Available screens: 0-").concat(u64_to_string(last).as_str());
        proof {
            assert(msg@ =~= screen_range_msg(screen_index as int, count as int));
        }
        Err(msg)
    }
}

/// The frame width after the optional crop.
pub open spec fn cut_width(width: int, region: Option<RegionArgs>) -> int {
    match region {
        None => width,
        Some(reg) => crop_out_w(width, (reg.x as u32) as int, reg.width as int),
    }
}

/// The frame height after the optional crop.
pub open spec fn cut_height(height: int, region: Option<RegionArgs>) -> int {
    match region {
        None => height,
        Some(reg) => crop_out_h(height, (reg.y as u32) as int, reg.height as int),
    }
}

/// The frame pixels after the optional crop.
pub open spec fn cut_pixels(width: int, height: int, data: Seq<u8>, region: Option<RegionArgs>) -> Seq<
    u8,
> {
    match region {
        None => data,
        Some(reg) => crop_of(
            width,
            height,
            data,
            (reg.x as u32) as int,
            (reg.y as u32) as int,
            reg.width as int,
            reg.height as int,
        ),
    }
}

/// The width the pipeline hands to the encoder: cropped, then
/// downsampled only where a dimension exceeds its maximum.
pub open spec fn final_width(
    width: int,
    height: int,
    region: Option<RegionArgs>,
    max_width: int,
    max_height: int,
) -> int {
    let w1 = cut_width(width, region);
    let h1 = cut_height(height, region);
    if needs_resize(w1, h1, max_width, max_height) {
        resized_width_of(w1, h1, max_width, max_height)
    } else {
        w1
    }
}

/// The height the pipeline hands to the encoder.
pub open spec fn final_height(
    width: int,
    height: int,
    region: Option<RegionArgs>,
    max_width: int,
    max_height: int,
) -> int {
    let w1 = cut_width(width, region);
    let h1 = cut_height(height, region);
    if needs_resize(w1, h1, max_width, max_height) {
        resized_height_of(w1, h1, max_width, max_height)
    } else {
        h1
    }
}

/// The pixels the pipeline hands to the encoder.
pub open spec fn final_pixels(
    width: int,
    height: int,
    data: Seq<u8>,
    region: Option<RegionArgs>,
    max_width: int,
    max_height: int,
) -> Seq<u8> {
    let w1 = cut_width(width, region);
    let h1 = cut_height(height, region);
    let d1 = cut_pixels(width, height, data, region);
    if needs_resize(w1, h1, max_width, max_height) {
        resize_of(w1, h1, d1, max_width, max_height)
    } else {
        d1
    }
}

/// The JPEG bytes a capture encodes.
pub open spec fn capture_jpeg(
    width: int,
    height: int,
    data: Seq<u8>,
    region: Option<RegionArgs>,
    max_width: int,
    max_height: int,
) -> Seq<u8> {
    jpeg_of(
        final_width(width, height, region, max_width, max_height),
        final_height(width, height, region, max_width, max_height),
        final_pixels(width, height, data, region, max_width, max_height),
    )
}

/// When a capture succeeds: the buffer covers the stated dimensions
/// and the frame the pipeline encodes has dimensions the JPEG format
/// accepts.
pub open spec fn capture_accepted(
    width: int,
    height: int,
    data: Seq<u8>,
    region: Option<RegionArgs>,
    max_width: int,
    max_height: int,
) -> bool {
    &&& 4 * width * height <= data.len()
    &&& 1 <= final_width(width, height, region, max_width, max_height) <= 65535
    &&& 1 <= final_height(width, height, region, max_width, max_height) <= 65535
}

/// Crops (where a region is given), downsamples (only where a
/// dimension exceeds its maximum), JPEG-encodes and base64-encodes a
/// raw RGBA frame.
///
/// Succeeds exactly on accepted frames, and then returns the base64
/// text of the pipeline's JPEG bytes. A buffer too small for its
/// stated dimensions is rejected with the exact message; a frame whose
/// final dimensions the encoder refuses is rejected with the encoder's
/// message.
pub fn process_capture(
    width: u32,
    height: u32,
    rgba: Vec<u8>,
    region: Option<RegionArgs>,
    max_width: u32,
    max_height: u32,
) -> (r: Result<String, String>)
    ensures
        r is Ok <==> capture_accepted(
            width as int,
            height as int,
            rgba@,
            region,
            max_width as int,
            max_height as int,
        ),
        r is Ok ==> r->Ok_0@ == base64_of(
            capture_jpeg(
                width as int,
                height as int,
                rgba@,
                region,
                max_width as int,
                max_height as int,
            ),
        ),
        4 * (width as int) * (height as int) > rgba@.len() ==> r is Err && r->Err_0@
            == "Failed to create image from buffer"@,
{
    proof {
        assert(4 * (width as int) * (height as int) <= 0x4_0000_0000_0000_0000int)
            by (nonlinear_arith)
            requires
                width as int <= 0xffff_ffff,
                height as int <= 0xffff_ffff,
        ;
        assert(0 <= 4 * (width as int) * (height as int)) by (nonlinear_arith)
            requires
                0 <= width as int,
                0 <= height as int,
        ;
    }
    let needed: u128 = 4u128 * (width as u128) * (height as u128);
    if needed > rgba.len() as u128 {
        return Err(String::from_str("Failed to create image from buffer"));
    }
    let (w1, h1, d1): (u32, u32, Vec<u8>) = match region {
        Some(reg) => crop_rgba(
            width,
            height,
            &rgba,
            #[verifier::truncate] (reg.x as u32),
            #[verifier::truncate] (reg.y as u32),
            reg.width,
            reg.height,
        ),
        None => (width, height, rgba),
    };
    let (w2, h2, d2): (u32, u32, Vec<u8>) = if w1 > max_width || h1 > max_height {
        resize_rgba(w1, h1, &d1, max_width, max_height)
    } else {
        (w1, h1, d1)
    };
    match encode_jpeg_rgba(w2, h2, &d2) {
        Ok(jpeg) => Ok(base64_encode(&jpeg)),
        Err(e) => Err(e),
    }
}

/// The capture payload around a base64 text.
pub open spec fn capture_result(data: Seq<char>) -> Jv {
    Jv::Obj(
        seq![
            ("type"@, Jv::Text("image"@)),
            ("format"@, Jv::Text("jpeg"@)),
            ("encoding"@, Jv::Text("base64"@)),
            ("data"@, Jv::Text(data)),
        ],
    )
}

/// Wraps a base64 capture into the tool's result payload.
pub fn capture_result_json(data: String) -> (r: JsonValue)
    ensures
        jv_of(r) == capture_result(data@),
{
    let ghost gdata = data@;
    let mut res = JsonObj::new();
    res.add("type", JsonValue::Text(String::from_str("image")));
    res.add("format", JsonValue::Text(String::from_str("jpeg")));
    res.add("encoding", JsonValue::Text(String::from_str("base64")));
    res.add("data", JsonValue::Text(data));
    let r = res.done();
    proof {
        assert(res@ =~= seq![
            ("type"@, Jv::Text("image"@)),
            ("format"@, Jv::Text("jpeg"@)),
            ("encoding"@, Jv::Text("base64"@)),
            ("data"@, Jv::Text(gdata)),
        ]);
        assert(jv_of(r) =~~= capture_result(gdata));
    }
    r
}

/// A read-only snapshot of one display, as the backend reports it.
///
/// The scale factor is carried as a preformatted number token: the
/// library never computes with it.
#[derive(PartialEq, Eq, Debug)]
pub struct ScreenDesc {
    pub id: u32,
    pub x: i32,
    pub y: i32,
    pub width: u32,
    pub height: u32,
    pub scale_text: String,
    pub is_primary: bool,
}

/// The descriptor object of one screen at one index.
pub open spec fn screen_entry(i: int, s: ScreenDesc) -> Jv {
    Jv::Obj(
        seq![
            ("index"@, Jv::Int(i)),
            ("id"@, Jv::Int(s.id as int)),
            ("x"@, Jv::Int(s.x as int)),
            ("y"@, Jv::Int(s.y as int)),
            ("width"@, Jv::Int(s.width as int)),
            ("height"@, Jv::Int(s.height as int)),
            ("scale_factor"@, Jv::Raw(s.scale_text@)),
            ("is_primary"@, Jv::Bool(s.is_primary)),
        ],
    )
}

/// The `get_screen_info` result: every screen's descriptor, in order,
/// plus the count.
pub open spec fn screen_info_result(screens: Seq<ScreenDesc>) -> Jv {
    Jv::Obj(
        seq![
            ("screens"@, Jv::Arr(Seq::new(screens.len(), |i: int| screen_entry(i, screens[i])))),
            ("count"@, Jv::Int(screens.len() as int)),
        ],
    )
}

fn screen_entry_json(i: i64, s: &ScreenDesc) -> (r: JsonValue)
    ensures
        jv_of(r) == screen_entry(i as int, *s),
{
    let mut o = JsonObj::new();
    o.add("index", JsonValue::Int(i));
    o.add("id", JsonValue::Int(s.id as i64));
    o.add("x", JsonValue::Int(s.x as i64));
    o.add("y", JsonValue::Int(s.y as i64));
    o.add("width", JsonValue::Int(s.width as i64));
    o.add("height", JsonValue::Int(s.height as i64));
    o.add("scale_factor", JsonValue::Raw(s.scale_text.clone()));
    o.add("is_primary", JsonValue::Bool(s.is_primary));
    let r = o.done();
    proof {
        assert(o@ =~= seq![
            ("index"@, Jv::Int(i as int)),
            ("id"@, Jv::Int(s.id as int)),
            ("x"@, Jv::Int(s.x as int)),
            ("y"@, Jv::Int(s.y as int)),
            ("width"@, Jv::Int(s.width as int)),
            ("height"@, Jv::Int(s.height as int)),
            ("scale_factor"@, Jv::Raw(s.scale_text@)),
            ("is_primary"@, Jv::Bool(s.is_primary)),
        ]);
        assert(jv_of(r) =~~= screen_entry(i as int, *s));
    }
    r
}

/// Builds the `get_screen_info` result from the backend's snapshot.
pub fn screen_info_json(screens: &Vec<ScreenDesc>) -> (r: JsonValue)
    requires
        screens@.len() < 0x1000_0000,
    ensures
        jv_of(r) == screen_info_result(screens@),
{
    let n = screens.len();
    let mut arr = JsonArr::new();
    let mut i: usize = 0;
    while i < n
        invariant
            n == screens@.len(),
            n < 0x1000_0000,
            i <= n,
            arr@ == Seq::new(i as nat, |j: int| screen_entry(j, screens@[j])),
        decreases n - i,
    {
        arr.add(screen_entry_json(i as i64, &screens[i]));
        proof {
            assert(arr@ =~= Seq::new((i + 1) as nat, |j: int| screen_entry(j, screens@[j])));
        }
        i += 1;
    }
    let mut res = JsonObj::new();
    res.add("screens", arr.done());
    res.add("count", JsonValue::Int(n as i64));
    let r = res.done();
    proof {
        assert(res@ =~= seq![
            (
                "screens"@,
                Jv::Arr(Seq::new(screens@.len(), |j: int| screen_entry(j, screens@[j]))),
            ),
            ("count"@, Jv::Int(screens@.len() as int)),
        ]);
        assert(jv_of(r) =~~= screen_info_result(screens@));
    }
    r
}

} // verus!
