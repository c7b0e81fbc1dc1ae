//! The icon resolver: turns the icon fields of a tray item into a
//! render-ready icon.
//!
//! Priority order: a non-empty pixmap list beats a symbolic icon name, and a
//! missing or unresolvable icon degrades to no icon, never to an error. The
//! filesystem and the installed icon themes are consulted through a few
//! trusted calls; everything decided from their answers is verified.

use vstd::prelude::*;
use vstd::string::StrSliceExecFns;
use vstd::string::StringExecFns;

use crate::item::DescriptorModel;
use crate::item::IconDescriptor;
use crate::item::IconModel;
use crate::item::PixmapModel;
use crate::item::RawPixmap;
use crate::item::ResolvedIcon;
use crate::item::opt_icon_model;

verus! {

/// The nominal pixel size requested from the icon-theme lookup.
pub const THEME_LOOKUP_SIZE: u16 = 128;

// ---------------------------------------------------------------------------
// Pixmap selection
// ---------------------------------------------------------------------------

pub open spec fn pixmap_models(ps: Seq<RawPixmap>) -> Seq<PixmapModel> {
    ps.map_values(|p: RawPixmap| p@)
}

pub open spec fn pixel_area(p: PixmapModel) -> int {
    p.width * p.height
}

/// `i` picks the pixmap with the largest area; on a tie the earliest wins.
pub open spec fn is_best_pixmap(ps: Seq<PixmapModel>, i: int) -> bool {
    &&& 0 <= i < ps.len()
    &&& forall|j: int| 0 <= j < ps.len() ==> pixel_area(ps[j]) <= pixel_area(ps[i])
    &&& forall|j: int| 0 <= j < i ==> pixel_area(ps[j]) < pixel_area(ps[i])
}

pub open spec fn best_pixmap(ps: Seq<PixmapModel>) -> int {
    choose|i: int| is_best_pixmap(ps, i)
}

proof fn lemma_best_pixmap_unique(ps: Seq<PixmapModel>, i: int)
    requires
        is_best_pixmap(ps, i),
    ensures
        best_pixmap(ps) == i,
{
    assert(exists|k: int| is_best_pixmap(ps, k));
    let k = best_pixmap(ps);
    assert(is_best_pixmap(ps, k));
    if k < i {
        assert(pixel_area(ps[k]) < pixel_area(ps[i]));
    }
    if i < k {
        assert(pixel_area(ps[i]) < pixel_area(ps[k]));
    }
}

/// Selects the entry with the largest `width * height`; on a tie the first
/// such entry wins. `None` exactly on an empty list.
pub fn select_best_pixmap(pixmaps: &Vec<RawPixmap>) -> (r: Option<usize>)
    ensures
        match r {
            Some(i) => is_best_pixmap(pixmap_models(pixmaps@), i as int) && i as int
                == best_pixmap(pixmap_models(pixmaps@)),
            None => pixmaps@.len() == 0,
        },
{
    let ghost models = pixmap_models(pixmaps@);
    let n = pixmaps.len();
    if n == 0 {
        return None;
    }
    let mut bi: usize = 0;
    let w0 = pixmaps[0].width;
    let h0 = pixmaps[0].height;
    proof {
        assert((w0 as int) * (h0 as int) <= 0xffff_ffff * 0xffff_ffff) by (nonlinear_arith)
            requires
                w0 <= 0xffff_ffffu32,
                h0 <= 0xffff_ffffu32,
        ;
    }
    let mut best: u64 = (w0 as u64) * (h0 as u64);
    assert(models[0] == pixmaps@[0]@);
    let mut i: usize = 1;
    while i < n
        invariant
            n == pixmaps@.len(),
            models == pixmap_models(pixmaps@),
            bi < i <= n,
            best == pixel_area(models[bi as int]),
            forall|j: int| 0 <= j < i ==> pixel_area(#[trigger] models[j]) <= best,
            forall|j: int| 0 <= j < bi ==> pixel_area(#[trigger] models[j]) < best,
        decreases n - i,
    {
        assert(models[i as int] == pixmaps@[i as int]@);
        let w = pixmaps[i].width;
        let h = pixmaps[i].height;
        proof {
            assert((w as int) * (h as int) <= 0xffff_ffff * 0xffff_ffff) by (nonlinear_arith)
                requires
                    w <= 0xffff_ffffu32,
                    h <= 0xffff_ffffu32,
            ;
        }
        let a = (w as u64) * (h as u64);
        if a > best {
            bi = i;
            best = a;
        }
        i += 1;
    }
    proof {
        lemma_best_pixmap_unique(models, bi as int);
    }
    Some(bi)
}

// ---------------------------------------------------------------------------
// ARGB -> RGBA conversion
// ---------------------------------------------------------------------------

/// Rotates each whole four-byte pixel `[A,R,G,B]` into `[R,G,B,A]`; a
/// trailing incomplete pixel is dropped.
pub open spec fn rgba_of_argb(s: Seq<u8>) -> Seq<u8>
    decreases s.len(),
{
    if s.len() < 4 {
        Seq::empty()
    } else {
        seq![s[1], s[2], s[3], s[0]] + rgba_of_argb(s.skip(4))
    }
}

/// The conversion keeps every whole pixel and drops the trailing partial
/// one: the output length is four times the number of whole input pixels.
pub proof fn lemma_rgba_of_argb_len(s: Seq<u8>)
    ensures
        rgba_of_argb(s).len() == 4 * (s.len() as int / 4),
    decreases s.len(),
{
    if s.len() < 4 {
    } else {
        lemma_rgba_of_argb_len(s.skip(4));
        assert(s.skip(4).len() == s.len() - 4);
        assert((s.len() as int - 4) / 4 == s.len() as int / 4 - 1) by (nonlinear_arith);
    }
}

/// The conversion is a pure per-pixel byte permutation: whole input pixel
/// `k`, laid out `[A,R,G,B]`, appears in the output at the same pixel
/// position as `[R,G,B,A]`.
pub proof fn lemma_rgba_of_argb_pixel(s: Seq<u8>, k: int)
    requires
        0 <= k,
        4 * k + 4 <= s.len(),
    ensures
        rgba_of_argb(s)[4 * k] == s[4 * k + 1],
        rgba_of_argb(s)[4 * k + 1] == s[4 * k + 2],
        rgba_of_argb(s)[4 * k + 2] == s[4 * k + 3],
        rgba_of_argb(s)[4 * k + 3] == s[4 * k],
    decreases k,
{
    lemma_rgba_of_argb_len(s);
    assert(4 * k + 4 <= 4 * (s.len() as int / 4)) by (nonlinear_arith)
        requires
            4 * k + 4 <= s.len(),
    ;
    if k == 0 {
    } else {
        lemma_rgba_of_argb_pixel(s.skip(4), k - 1);
    }
}

/// Converts an ARGB32 buffer to RGBA8, pixel count preserved, any trailing
/// partial pixel silently dropped.
pub fn argb_to_rgba(pixels: &Vec<u8>) -> (r: Vec<u8>)
    ensures
        r@ == rgba_of_argb(pixels@),
{
    let n = pixels.len();
    let mut r: Vec<u8> = Vec::new();
    let mut i: usize = 0;
    proof {
        assert(pixels@.skip(0) =~= pixels@);
        assert(Seq::<u8>::empty() + rgba_of_argb(pixels@) =~= rgba_of_argb(pixels@));
    }
    while n - i >= 4
        invariant
            i <= n,
            n == pixels@.len(),
            r@ + rgba_of_argb(pixels@.skip(i as int)) == rgba_of_argb(pixels@),
        decreases n - i,
    {
        let a = pixels[i];
        let red = pixels[i + 1];
        let g = pixels[i + 2];
        let b = pixels[i + 3];
        proof {
            let rest = pixels@.skip(i as int);
            assert(rest[0] == pixels@[i as int]);
            assert(rest[1] == pixels@[i as int + 1]);
            assert(rest[2] == pixels@[i as int + 2]);
            assert(rest[3] == pixels@[i as int + 3]);
            assert(rest.skip(4) =~= pixels@.skip(i as int + 4));
            assert(r@ + seq![red, g, b, a] + rgba_of_argb(pixels@.skip(i as int + 4)) =~= r@
                + rgba_of_argb(pixels@.skip(i as int)));
            assert((r@ + seq![red, g, b, a]) + rgba_of_argb(pixels@.skip(i as int + 4)) =~= r@
                + seq![red, g, b, a] + rgba_of_argb(pixels@.skip(i as int + 4)));
            assert(r@.push(red).push(g).push(b).push(a) =~= r@ + seq![red, g, b, a]);
        }
        r.push(red);
        r.push(g);
        r.push(b);
        r.push(a);
        i += 4;
    }
    proof {
        assert(pixels@.skip(i as int).len() < 4);
        assert(rgba_of_argb(pixels@.skip(i as int)) =~= Seq::<u8>::empty());
        assert(r@ + Seq::<u8>::empty() =~= r@);
    }
    r
}

// ---------------------------------------------------------------------------
// Resolution from pixmaps
// ---------------------------------------------------------------------------

/// The icon a non-empty pixmap list resolves to: the largest entry (first on
/// a tie), its buffer rotated from ARGB to RGBA.
pub open spec fn spec_pixmap_icon(ps: Seq<PixmapModel>) -> Option<IconModel> {
    if ps.len() == 0 {
        None
    } else {
        let b = ps[best_pixmap(ps)];
        Some(IconModel::Raster { width: b.width, height: b.height, rgba: rgba_of_argb(b.pixels) })
    }
}

/// Resolves a pixmap list to a raster icon at the selected entry's declared
/// size.
pub fn resolve_pixmap_icon(pixmaps: &Vec<RawPixmap>) -> (r: Option<ResolvedIcon>)
    ensures
        opt_icon_model(r) == spec_pixmap_icon(pixmap_models(pixmaps@)),
{
    match select_best_pixmap(pixmaps) {
        None => None,
        Some(i) => {
            assert(pixmap_models(pixmaps@)[i as int] == pixmaps@[i as int]@);
            let rgba = argb_to_rgba(&pixmaps[i].pixels);
            let icon = ResolvedIcon::Raster {
                width: pixmaps[i].width,
                height: pixmaps[i].height,
                rgba,
            };
            Some(icon)
        },
    }
}

// ---------------------------------------------------------------------------
// Themed lookup: candidate paths and file-kind dispatch
// ---------------------------------------------------------------------------

/// The `k`-th path probed for a named icon under a theme-path hint, in the
/// fixed probe order.
pub open spec fn candidate_view(tp: Seq<char>, name: Seq<char>, k: int) -> Seq<char> {
    if k == 0 {
        tp + "/"@ + name + ".svg"@
    } else if k == 1 {
        tp + "/"@ + name + ".png"@
    } else if k == 2 {
        tp + "/hicolor/scalable/apps/"@ + name + ".svg"@
    } else if k == 3 {
        tp + "/hicolor/256x256/apps/"@ + name + ".png"@
    } else if k == 4 {
        tp + "/hicolor/128x128/apps/"@ + name + ".png"@
    } else {
        tp + "/hicolor/64x64/apps/"@ + name + ".png"@
    }
}

/// Builds the six candidate paths probed for `name` under the theme-path
/// hint, in probe order.
pub fn candidate_paths(theme_path: &str, name: &str) -> (r: Vec<String>)
    ensures
        r@.len() == 6,
        forall|k: int| 0 <= k < 6 ==> (#[trigger] r@[k])@ == candidate_view(theme_path@, name@, k),
{
    let mut r: Vec<String> = Vec::new();
    r.push(String::from_str(theme_path).concat("/").concat(name).concat(".svg"));
    r.push(String::from_str(theme_path).concat("/").concat(name).concat(".png"));
    r.push(String::from_str(theme_path).concat("/hicolor/scalable/apps/").concat(name).concat(".svg"));
    r.push(String::from_str(theme_path).concat("/hicolor/256x256/apps/").concat(name).concat(".png"));
    r.push(String::from_str(theme_path).concat("/hicolor/128x128/apps/").concat(name).concat(".png"));
    r.push(String::from_str(theme_path).concat("/hicolor/64x64/apps/").concat(name).concat(".png"));
    r
}

/// Returns the position of the first `true` answer, if any.
pub fn first_hit(hits: &Vec<bool>) -> (r: Option<usize>)
    ensures
        match r {
            Some(i) => i < hits@.len() && hits@[i as int] && forall|j: int|
                0 <= j < i ==> !hits@[j],
            None => forall|j: int| 0 <= j < hits@.len() ==> !hits@[j],
        },
{
    let n = hits.len();
    let mut i: usize = 0;
    while i < n
        invariant
            n == hits@.len(),
            i <= n,
            forall|j: int| 0 <= j < i ==> !hits@[j],
        decreases n - i,
    {
        if hits[i] {
            return Some(i);
        }
        i += 1;
    }
    None
}

/// What a path's extension says the file holds.
#[derive(Clone, Copy, PartialEq, Eq, Structural, Debug)]
pub enum IconFileKind {
    Svg,
    Png,
    Other,
}

/// The two characters are equal up to ASCII case.
pub open spec fn chars_eq_nocase(a: char, b: char) -> bool {
    ||| a == b
    ||| (65 <= a as u32 <= 90 && a as u32 + 32 == b as u32)
    ||| (65 <= b as u32 <= 90 && b as u32 + 32 == a as u32)
}

/// `s` ends with `suffix`, compared up to ASCII case.
pub open spec fn ends_with_nocase(s: Seq<char>, suffix: Seq<char>) -> bool {
    &&& suffix.len() <= s.len()
    &&& forall|k: int|
        0 <= k < suffix.len() ==> chars_eq_nocase(s[s.len() - suffix.len() + k], #[trigger] suffix[k])
}

/// The extension of `s`, dot included, is `suffix`, compared up to ASCII
/// case: the suffix matches and a file-name character precedes it, so a
/// path whose final component is only the suffix — a hidden file such as
/// `.svg` — has no extension.
pub open spec fn has_extension_nocase(s: Seq<char>, suffix: Seq<char>) -> bool {
    &&& ends_with_nocase(s, suffix)
    &&& s.len() > suffix.len()
    &&& s[s.len() - suffix.len() - 1] != '/'
}

/// File-type dispatch by extension, case-insensitively: `.svg` is a vector
/// graphic, `.png` a raster image, anything else — a missing extension
/// included — unsupported.
pub open spec fn spec_file_kind(path: Seq<char>) -> IconFileKind {
    if has_extension_nocase(path, ".svg"@) {
        IconFileKind::Svg
    } else if has_extension_nocase(path, ".png"@) {
        IconFileKind::Png
    } else {
        IconFileKind::Other
    }
}

fn chars_eq_nocase_exec(a: char, b: char) -> (r: bool)
    ensures
        r == chars_eq_nocase(a, b),
{
    let au = a as u32;
    let bu = b as u32;
    a == b || (65 <= au && au <= 90 && au + 32 == bu) || (65 <= bu && bu <= 90 && bu + 32 == au)
}

fn ends_with_nocase_exec(s: &str, suffix: &str) -> (r: bool)
    ensures
        r == ends_with_nocase(s@, suffix@),
{
    let ns = s.unicode_len();
    let nf = suffix.unicode_len();
    if nf > ns {
        return false;
    }
    let off = ns - nf;
    let mut k: usize = 0;
    while k < nf
        invariant
            ns == s@.len(),
            nf == suffix@.len(),
            nf <= ns,
            off == ns - nf,
            k <= nf,
            forall|j: int| 0 <= j < k ==> chars_eq_nocase(s@[off + j], #[trigger] suffix@[j]),
        decreases nf - k,
    {
        if !chars_eq_nocase_exec(s.get_char(off + k), suffix.get_char(k)) {
            return false;
        }
        k += 1;
    }
    true
}

fn has_extension_nocase_exec(s: &str, suffix: &str) -> (r: bool)
    ensures
        r == has_extension_nocase(s@, suffix@),
{
    let ns = s.unicode_len();
    let nf = suffix.unicode_len();
    if ns <= nf {
        return false;
    }
    if s.get_char(ns - nf - 1) == '/' {
        return false;
    }
    ends_with_nocase_exec(s, suffix)
}

/// Classifies a path by its extension.
pub fn icon_file_kind(path: &str) -> (r: IconFileKind)
    ensures
        r == spec_file_kind(path@),
{
    if has_extension_nocase_exec(path, ".svg") {
        IconFileKind::Svg
    } else if has_extension_nocase_exec(path, ".png") {
        IconFileKind::Png
    } else {
        IconFileKind::Other
    }
}

// ---------------------------------------------------------------------------
// Trusted calls: theme lookup, filesystem probe, image decode
// ---------------------------------------------------------------------------

/// Relies on `freedesktop_icons::lookup(name).with_size(..).with_cache().find()`,
/// the platform icon-theme search. The answer depends on the themes installed
/// on disk, so nothing is assumed of it.
#[verifier::external_body]
fn theme_lookup_path(name: &str, size: u16) -> (r: Option<String>) {
    freedesktop_icons::lookup(name).with_size(size).with_cache().find().and_then(
        |p| p.to_str().map(str::to_string),
    )
}

/// Relies on `std::path::Path::exists`. The answer depends on what is on
/// disk, so nothing is assumed of it.
#[verifier::external_body]
fn path_exists(path: &String) -> (r: bool) {
    std::path::Path::new(path.as_str()).exists()
}

/// Relies on `image::open` and `DynamicImage::to_rgba8`: a decoded RGBA8
/// buffer holds exactly `width * height` four-byte pixels. Whether decoding
/// succeeds depends on what is on disk, so only the successful shape is
/// assumed.
#[verifier::external_body]
fn load_png_rgba(path: &String) -> (r: Option<(u32, u32, Vec<u8>)>)
    ensures
        r matches Some(t) ==> t.2@.len() == 4 * (t.0 as int) * (t.1 as int),
{
    match image::open(path.as_str()) {
        Ok(img) => {
            let rgba = img.to_rgba8();
            let (w, h) = rgba.dimensions();
            Some((w, h, rgba.into_raw()))
        },
        Err(_) => None,
    }
}

// ---------------------------------------------------------------------------
// Resolution from a name
// ---------------------------------------------------------------------------

/// Probes the six candidate paths in order and returns the first that
/// exists on disk. Every answer is one of the candidates.
pub fn probe_candidates(theme_path: &str, name: &str) -> (r: Option<String>)
    ensures
        r matches Some(p) ==> exists|k: int|
            0 <= k < 6 && p@ == candidate_view(theme_path@, name@, k),
{
    let mut candidates = candidate_paths(theme_path, name);
    let mut hits: Vec<bool> = Vec::new();
    let mut i: usize = 0;
    while i < candidates.len()
        invariant
            candidates@.len() == 6,
            i <= 6,
            hits@.len() == i,
        decreases candidates@.len() - i,
    {
        let hit = path_exists(&candidates[i]);
        hits.push(hit);
        i += 1;
    }
    match first_hit(&hits) {
        Some(k) => {
            let p = candidates.remove(k);
            proof {
                assert(p@ == candidate_view(theme_path@, name@, k as int));
            }
            Some(p)
        },
        None => None,
    }
}

/// Holds of every icon the resolver hands out: a raster icon carries exactly
/// `width * height` four-byte pixels, a vector icon points at an svg file.
pub open spec fn icon_wf(ic: IconModel) -> bool {
    match ic {
        IconModel::Raster { width, height, rgba } => rgba.len() == 4 * width * height,
        IconModel::Vector { path } => spec_file_kind(path) is Svg,
    }
}

/// Loads a resolved icon file, dispatching on its extension: `.svg` defers
/// rasterization to the renderer, `.png` is decoded, anything else (a
/// missing extension, an unsupported one, or a failed decode) is no icon.
pub fn load_icon_file(path: String) -> (r: Option<ResolvedIcon>)
    ensures
        spec_file_kind(path@) is Svg ==> (r matches Some(ic) && ic@ == (IconModel::Vector {
            path: path@,
        })),
        spec_file_kind(path@) is Png ==> (r is None || (r matches Some(ic) && ic@ is Raster)),
        spec_file_kind(path@) is Other ==> r is None,
        r matches Some(ic) ==> icon_wf(ic@),
{
    match icon_file_kind(path.as_str()) {
        IconFileKind::Svg => Some(ResolvedIcon::Vector { path }),
        IconFileKind::Png => match load_png_rgba(&path) {
            Some((w, h, rgba)) => Some(ResolvedIcon::Raster { width: w, height: h, rgba }),
            None => None,
        },
        IconFileKind::Other => None,
    }
}

/// Resolves a named icon: the platform theme search first, then, if it
/// yields nothing and a theme-path hint is present, the six fixed candidate
/// paths in order; the winning file is loaded by extension.
pub fn lookup_icon(name: &str, theme_path: Option<&str>) -> (r: Option<ResolvedIcon>)
    ensures
        r matches Some(ic) ==> icon_wf(ic@),
{
    let path = match theme_lookup_path(name, THEME_LOOKUP_SIZE) {
        Some(p) => Some(p),
        None => match theme_path {
            Some(tp) => probe_candidates(tp, name),
            None => None,
        },
    };
    match path {
        Some(p) => load_icon_file(p),
        None => None,
    }
}

// ---------------------------------------------------------------------------
// The resolver
// ---------------------------------------------------------------------------

/// The descriptor carries at least one raw pixmap.
pub open spec fn has_pixmaps(d: DescriptorModel) -> bool {
    match d.pixmap {
        Some(ps) => ps.len() > 0,
        None => false,
    }
}

/// The descriptor carries a non-empty icon name.
pub open spec fn has_icon_name(d: DescriptorModel) -> bool {
    match d.icon_name {
        Some(n) => n.len() > 0,
        None => false,
    }
}

/// Relates a descriptor to an acceptable resolution of it: a non-empty
/// pixmap list resolves exactly to its best entry; otherwise a non-empty
/// icon name may resolve to any well-formed icon (what the theme search and
/// the disk hold decides which, if any); otherwise there is no icon.
pub open spec fn resolves_to(d: DescriptorModel, r: Option<IconModel>) -> bool {
    if has_pixmaps(d) {
        match d.pixmap {
            Some(ps) => r == spec_pixmap_icon(ps),
            None => false,
        }
    } else if has_icon_name(d) {
        match r {
            Some(ic) => icon_wf(ic),
            None => true,
        }
    } else {
        r is None
    }
}

/// Resolves a tray item's icon fields to a render-ready icon, or to no icon:
/// a non-empty pixmap list wins, a non-empty icon name is looked up next,
/// and anything unresolvable degrades to `None`.
pub fn resolve_icon(desc: &IconDescriptor) -> (r: Option<ResolvedIcon>)
    ensures
        resolves_to(desc@, opt_icon_model(r)),
{
    match &desc.pixmap {
        Some(pixmaps) => {
            if pixmaps.len() > 0 {
                return resolve_pixmap_icon(pixmaps);
            }
        },
        None => {},
    }
    match &desc.icon_name {
        Some(name) => {
            if name.as_str().unicode_len() > 0 {
                let tp: Option<&str> = match &desc.icon_theme_path {
                    Some(t) => Some(t.as_str()),
                    None => None,
                };
                return lookup_icon(name.as_str(), tp);
            }
        },
        None => {},
    }
    None
}

} // verus!
