//! Thumbnail transformer: decode the fetched PNG, resize it once to the
//! configured square edge, and re-encode it as PNG, after a verified guard on
//! the declared raster size.
use vstd::prelude::*;

verus! {

/// Ceiling on the pixel count a source raster may declare; a small input
/// declaring an enormous raster would otherwise expand without bound when
/// decoded.
pub const MAX_PIXELS: u64 = 100_000_000;

/// Ways a transformation can fail; all of them abort the invocation.
#[derive(Clone, Copy, Debug, PartialEq, Eq, Structural)]
pub enum TransformError {
    /// The bytes do not start with a PNG signature and header chunk.
    NotPng,
    /// The header declares more pixels than `MAX_PIXELS`.
    TooLarge,
    /// The codec could not decode, resize or re-encode the raster.
    Codec,
}

/// The big-endian 32-bit value of four bytes.
pub open spec fn spec_be_u32(b0: u8, b1: u8, b2: u8, b3: u8) -> u32 {
    ((b0 as nat) * 0x1000000 + (b1 as nat) * 0x10000 + (b2 as nat) * 0x100 + (b3 as nat)) as u32
}

/// The eight-byte PNG file signature.
pub open spec fn spec_png_signature(s: Seq<u8>) -> bool {
    s.len() >= 8 && s[0] == 137u8 && s[1] == 80u8 && s[2] == 78u8 && s[3] == 71u8 && s[4] == 13u8
        && s[5] == 10u8 && s[6] == 26u8 && s[7] == 10u8
}

/// Signature followed by the `IHDR` chunk tag, so that the declared
/// dimensions are present at their fixed offsets.
pub open spec fn spec_has_ihdr(s: Seq<u8>) -> bool {
    s.len() >= 24 && spec_png_signature(s) && s[12] == 73u8 && s[13] == 72u8 && s[14] == 68u8
        && s[15] == 82u8
}

pub open spec fn spec_png_width(s: Seq<u8>) -> u32 {
    spec_be_u32(s[16], s[17], s[18], s[19])
}

pub open spec fn spec_png_height(s: Seq<u8>) -> u32 {
    spec_be_u32(s[20], s[21], s[22], s[23])
}

fn be_u32(b0: u8, b1: u8, b2: u8, b3: u8) -> (r: u32)
    ensures
        r == spec_be_u32(b0, b1, b2, b3),
        r as nat == (b0 as nat) * 0x1000000 + (b1 as nat) * 0x10000 + (b2 as nat) * 0x100 + (
        b3 as nat),
{
    (b0 as u32) * 0x1000000 + (b1 as u32) * 0x10000 + (b2 as u32) * 0x100 + (b3 as u32)
}

/// Reads the dimensions a PNG header declares, exactly when the signature and
/// the `IHDR` tag are in place.
pub fn png_dimensions(source: &Vec<u8>) -> (r: Option<(u32, u32)>)
    ensures
        r is Some <==> spec_has_ihdr(source@),
        r is Some ==> (r->0).0 == spec_png_width(source@) && (r->0).1 == spec_png_height(source@),
{
    if source.len() < 24 {
        return None;
    }
    if !(source[0] == 137 && source[1] == 80 && source[2] == 78 && source[3] == 71 && source[4]
        == 13 && source[5] == 10 && source[6] == 26 && source[7] == 10) {
        return None;
    }
    if !(source[12] == 73 && source[13] == 72 && source[14] == 68 && source[15] == 82) {
        return None;
    }
    let w = be_u32(source[16], source[17], source[18], source[19]);
    let h = be_u32(source[20], source[21], source[22], source[23]);
    Some((w, h))
}

/// What the codec produces for these bytes and this edge length: `None` when
/// decode, resize or re-encode fails, otherwise the re-encoded PNG bytes. The
/// outcome depends on the arguments alone.
pub uninterp spec fn png_thumbnail_of(source: Seq<u8>, edge: u32) -> Option<Seq<u8>>;

/// Relies on `thumbnailer::create_thumbnails` and
/// `thumbnailer::Thumbnail::write_png`: decode the PNG bytes, resize the
/// raster once to the single requested custom size, and re-encode that one
/// result as PNG. The computation is pure, so its outcome is a function of
/// the input bytes and the edge length alone.
#[verifier::external_body]
fn thumbnail_png(source: &Vec<u8>, edge: u32) -> (r: Option<Vec<u8>>)
    requires
        1 <= edge,
    ensures
        r is Some <==> png_thumbnail_of(source@, edge) is Some,
        r matches Some(v) ==> v@ == png_thumbnail_of(source@, edge)->0,
{
    let reader = std::io::Cursor::new(source.clone());
    let sizes = [thumbnailer::ThumbnailSize::Custom((edge, edge))];
    let mut thumbs = match thumbnailer::create_thumbnails(reader, mime::IMAGE_PNG, sizes) {
        Ok(t) => t,
        Err(_) => return None,
    };
    let thumb = match thumbs.pop() {
        Some(t) => t,
        None => return None,
    };
    let mut buf = std::io::Cursor::new(Vec::new());
    match thumb.write_png(&mut buf) {
        Ok(()) => Some(buf.into_inner()),
        Err(_) => None,
    }
}

/// The whole transformation decision: reject bytes without a PNG header,
/// reject a header that declares more than `MAX_PIXELS` pixels, and otherwise
/// hand the codec's one re-encoded thumbnail on, or its failure.
pub open spec fn spec_transform(source: Seq<u8>, edge: u32) -> Result<Seq<u8>, TransformError> {
    if !spec_has_ihdr(source) {
        Err(TransformError::NotPng)
    } else if (spec_png_width(source) as nat) * (spec_png_height(source) as nat) > MAX_PIXELS as nat {
        Err(TransformError::TooLarge)
    } else {
        match png_thumbnail_of(source, edge) {
            None => Err(TransformError::Codec),
            Some(t) => Ok(t),
        }
    }
}

/// Derives the single square thumbnail for `source`, exactly as
/// `spec_transform` says.
pub fn get_thumbnail(source: &Vec<u8>, edge: u32) -> (r: Result<Vec<u8>, TransformError>)
    requires
        1 <= edge,
    ensures
        r is Ok <==> spec_transform(source@, edge) is Ok,
        r is Ok ==> r->Ok_0@ == spec_transform(source@, edge)->Ok_0,
        r is Err ==> r->Err_0 == spec_transform(source@, edge)->Err_0,
{
    let (w, h) = match png_dimensions(source) {
        None => {
            return Err(TransformError::NotPng);
        },
        Some(d) => d,
    };
    proof {
        assert((w as u64) as nat * (h as u64) as nat <= 0xFFFF_FFFF as nat * 0xFFFF_FFFF as nat)
            by (nonlinear_arith)
            requires
                w as u64 <= 0xFFFF_FFFFu64,
                h as u64 <= 0xFFFF_FFFFu64,
        ;
    }
    if (w as u64) * (h as u64) > MAX_PIXELS {
        return Err(TransformError::TooLarge);
    }
    match thumbnail_png(source, edge) {
        None => Err(TransformError::Codec),
        Some(t) => Ok(t),
    }
}

} // verus!
