//! The data the tray protocol carries for one item, and the renderable icon
//! derived from it.

use vstd::prelude::*;

verus! {

/// A raw bitmap supplied by the application, one pixel per four bytes in
/// ARGB order.
#[derive(PartialEq, Debug)]
pub struct RawPixmap {
    pub width: u32,
    pub height: u32,
    pub pixels: Vec<u8>,
}

/// Mathematical model of a [`RawPixmap`].
pub struct PixmapModel {
    pub width: u32,
    pub height: u32,
    pub pixels: Seq<u8>,
}

impl View for RawPixmap {
    type V = PixmapModel;

    open spec fn view(&self) -> PixmapModel {
        PixmapModel { width: self.width, height: self.height, pixels: self.pixels@ }
    }
}

/// The icon fields of a tray item, as the protocol reports them: an optional
/// list of raw bitmaps, an optional symbolic icon name, and an optional
/// directory hint for resolving that name.
#[derive(PartialEq, Debug)]
pub struct IconDescriptor {
    pub pixmap: Option<Vec<RawPixmap>>,
    pub icon_name: Option<String>,
    pub icon_theme_path: Option<String>,
}

/// Mathematical model of an [`IconDescriptor`].
pub struct DescriptorModel {
    pub pixmap: Option<Seq<PixmapModel>>,
    pub icon_name: Option<Seq<char>>,
    pub icon_theme_path: Option<Seq<char>>,
}

impl View for IconDescriptor {
    type V = DescriptorModel;

    open spec fn view(&self) -> DescriptorModel {
        DescriptorModel {
            pixmap: match self.pixmap {
                Some(ps) => Some(ps@.map_values(|p: RawPixmap| p@)),
                None => None,
            },
            icon_name: match self.icon_name {
                Some(ref n) => Some(n@),
                None => None,
            },
            icon_theme_path: match self.icon_theme_path {
                Some(ref t) => Some(t@),
                None => None,
            },
        }
    }
}

/// A render-ready icon: either decoded pixel data, or the path of a vector
/// graphic whose rasterization is left to the renderer.
#[derive(PartialEq, Debug)]
pub enum ResolvedIcon {
    Raster { width: u32, height: u32, rgba: Vec<u8> },
    Vector { path: String },
}

/// Mathematical model of a [`ResolvedIcon`].
pub enum IconModel {
    Raster { width: u32, height: u32, rgba: Seq<u8> },
    Vector { path: Seq<char> },
}

impl View for ResolvedIcon {
    type V = IconModel;

    open spec fn view(&self) -> IconModel {
        match self {
            ResolvedIcon::Raster { width, height, rgba } => IconModel::Raster {
                width: *width,
                height: *height,
                rgba: rgba@,
            },
            ResolvedIcon::Vector { path } => IconModel::Vector { path: path@ },
        }
    }
}

/// Model of an optional icon; `None` renders as an empty slot.
pub open spec fn opt_icon_model(icon: Option<ResolvedIcon>) -> Option<IconModel> {
    match icon {
        Some(ic) => Some(ic@),
        None => None,
    }
}

} // verus!
