//! The icon-conversion pipeline.
//!
//! The conversion tool reads SVG data, renders it to PNG, and — for icon
//! output — wraps the PNG as a single-image icon file.  Reading the input
//! and writing the output belong to the unverified shell; the rendering
//! and the icon encoding are the transcoder crates' work, called through
//! trusted wrappers (their output depends on the fonts installed on the
//! machine, so nothing portable can be said of the produced bytes).  The
//! format dispatch — which pipeline runs for which requested format — is
//! verified here.

use vstd::prelude::*;
use crate::marshal::str_eq;

verus! {

/// Failure of the conversion pipeline.
#[derive(Debug, PartialEq, Eq)]
pub enum ConvertError {
    /// The requested output format is neither `png` nor `ico`.
    UnsupportedFormat,
    /// The SVG could not be parsed, sized or rendered; carries the
    /// renderer's description.
    Render(String),
    /// The rendered PNG could not be wrapped as an icon; carries the
    /// encoder's description.
    IcoEncode(String),
}

/// Relies on resvg (with usvg and tiny-skia): parse the SVG with the
/// system fonts loaded, allocate a pixmap of the document's integer size,
/// render into it, and encode the pixels as PNG.  The rendering depends on
/// the fonts installed on the machine, so nothing is claimed of the bytes.
#[verifier::external_body]
fn render_svg_to_png(data: &Vec<u8>) -> Result<Vec<u8>, String> {
    let mut opt = resvg::usvg::Options::default();
    opt.fontdb_mut().load_system_fonts();
    let tree = match resvg::usvg::Tree::from_data(data.as_slice(), &opt) {
        Ok(tree) => tree,
        Err(e) => return Err(format!("{e:?}")),
    };
    let size = tree.size().to_int_size();
    let mut pixmap = match resvg::tiny_skia::Pixmap::new(size.width(), size.height()) {
        Some(pixmap) => pixmap,
        None => return Err(String::from("invalid pixmap size")),
    };
    resvg::render(&tree, resvg::tiny_skia::Transform::default(), &mut pixmap.as_mut());
    pixmap.encode_png().map_err(|e| format!("{e:?}"))
}

/// Relies on the ico crate: read the PNG into an icon image, encode it as
/// the sole entry of a fresh icon directory, and write the directory out.
#[verifier::external_body]
fn encode_png_as_ico(data: &Vec<u8>) -> Result<Vec<u8>, String> {
    let mut icon = ico::IconDir::new(ico::ResourceType::Icon);
    let image = match ico::IconImage::read_png(data.as_slice()) {
        Ok(image) => image,
        Err(e) => return Err(format!("{e:?}")),
    };
    let entry = match ico::IconDirEntry::encode(&image) {
        Ok(entry) => entry,
        Err(e) => return Err(format!("{e:?}")),
    };
    icon.add_entry(entry);
    let mut buffer = Vec::new();
    if let Err(e) = icon.write(&mut buffer) {
        return Err(format!("{e:?}"));
    }
    Ok(buffer)
}

/// The conversion the tool was asked to perform on the SVG data it read.
pub enum ConvertSvg {
    /// Render the SVG to a PNG.
    ToPng(Vec<u8>),
    /// Render the SVG to a PNG and wrap it as a single-image icon.
    ToIco(Vec<u8>),
}

impl ConvertSvg {
    /// Choose the pipeline for the requested format name.  Exactly the
    /// names `png` and `ico` are supported; anything else is refused and
    /// the input is dropped unread.
    pub fn new(format: &str, input: Vec<u8>) -> (r: Result<ConvertSvg, ConvertError>)
        ensures
            format@ == "png"@ ==> r == Ok::<ConvertSvg, ConvertError>(ConvertSvg::ToPng(input)),
            format@ == "ico"@ ==> r == Ok::<ConvertSvg, ConvertError>(ConvertSvg::ToIco(input)),
            format@ != "png"@ && format@ != "ico"@ ==> r == Err::<ConvertSvg, ConvertError>(
                ConvertError::UnsupportedFormat,
            ),
    {
        proof {
            reveal_strlit("png");
            reveal_strlit("ico");
            assert("png"@.len() == 3 && "ico"@.len() == 3);
            assert("png"@[0] == 'p' && "ico"@[0] == 'i');
            assert("png"@ != "ico"@);
        }
        if str_eq(format, "png") {
            Ok(ConvertSvg::ToPng(input))
        } else if str_eq(format, "ico") {
            Ok(ConvertSvg::ToIco(input))
        } else {
            Err(ConvertError::UnsupportedFormat)
        }
    }

    /// Run the chosen pipeline.  A PNG conversion can only fail in the
    /// renderer; an icon conversion renders first and can then also fail
    /// in the icon encoder.  The unsupported-format error never arises
    /// here: it was already refused when the pipeline was chosen.
    pub fn to(&self) -> (r: Result<Vec<u8>, ConvertError>)
        ensures
            r is Err ==> !(r.unwrap_err() is UnsupportedFormat),
            self is ToPng && r is Err ==> r.unwrap_err() is Render,
    {
        match self {
            ConvertSvg::ToPng(data) => {
                match render_svg_to_png(data) {
                    Ok(png) => Ok(png),
                    Err(detail) => Err(ConvertError::Render(detail)),
                }
            },
            ConvertSvg::ToIco(data) => {
                let png = match render_svg_to_png(data) {
                    Ok(png) => png,
                    Err(detail) => {
                        return Err(ConvertError::Render(detail));
                    },
                };
                match encode_png_as_ico(&png) {
                    Ok(icon) => Ok(icon),
                    Err(detail) => Err(ConvertError::IcoEncode(detail)),
                }
            },
        }
    }
}

} // verus!
