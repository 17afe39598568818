//! The foreign object memory bridge: locates, inside a foreign managed
//! image object, the private table of per-row pixel pointers and the short
//! in-place mode tag, across the two access conventions the foreign
//! library has used — a named-pointer table reachable by property name,
//! and a capsule-like opaque handle whose shape depends on the detected
//! major version.
//!
//! The unsafe reads and writes of foreign memory happen outside this
//! layer; everything decided here — which table to use, which bytes a tag
//! write stores, what a detached handle may still do — is verified.

use vstd::prelude::*;
use vstd::slice::slice_index_get;

use crate::crop::CropRect;
use crate::encoding::PixelEncoding;
use crate::error::ImageError;
use crate::view::TypedView;

verus! {

/// Decides whether two byte strings hold the same bytes.
pub fn bytes_eq(a: &[u8], b: &[u8]) -> (r: bool)
    ensures
        r <==> a@ == b@,
{
    if a.len() != b.len() {
        proof {
            if a@ == b@ {
                assert(a@.len() == b@.len());
            }
        }
        return false;
    }
    let n = a.len();
    let mut i: usize = 0;
    while i < n
        invariant
            i <= n,
            n == a@.len(),
            n == b@.len(),
            forall|j: int| 0 <= j < i ==> a@[j] == b@[j],
        decreases n - i,
    {
        if *slice_index_get(a, i) != *slice_index_get(b, i) {
            proof {
                if a@ == b@ {
                    assert(a@[i as int] == b@[i as int]);
                }
            }
            return false;
        }
        i += 1;
    }
    proof {
        assert(a@ =~= b@);
    }
    true
}

/// The UTF-8 bytes of the foreign mode name `"RGB"`.
pub open spec fn spec_mode_rgb() -> Seq<u8> {
    seq![82u8, 71u8, 66u8]
}

/// The UTF-8 bytes of the foreign mode name `"RGBA"`.
pub open spec fn spec_mode_rgba_upper() -> Seq<u8> {
    seq![82u8, 71u8, 66u8, 65u8]
}

/// The UTF-8 bytes of the foreign mode name `"RGBa"`.
pub open spec fn spec_mode_rgba_lower() -> Seq<u8> {
    seq![82u8, 71u8, 66u8, 97u8]
}

/// The UTF-8 bytes of the foreign mode name `"CMYK"`.
pub open spec fn spec_mode_cmyk() -> Seq<u8> {
    seq![67u8, 77u8, 89u8, 75u8]
}

/// The UTF-8 bytes of the foreign mode name `"YCbCr"`.
pub open spec fn spec_mode_ycbcr() -> Seq<u8> {
    seq![89u8, 67u8, 98u8, 67u8, 114u8]
}

/// The UTF-8 bytes of the foreign mode name `"Lab"`.
pub open spec fn spec_mode_lab() -> Seq<u8> {
    seq![76u8, 97u8, 98u8]
}

/// The UTF-8 bytes of the foreign mode name `"I"`.
pub open spec fn spec_mode_i() -> Seq<u8> {
    seq![73u8]
}

/// The UTF-8 bytes of the foreign mode name `"F"`.
pub open spec fn spec_mode_f() -> Seq<u8> {
    seq![70u8]
}

/// The UTF-8 bytes of the foreign mode name `"L"`.
pub open spec fn spec_mode_l() -> Seq<u8> {
    seq![76u8]
}

/// The encoding a foreign color mode maps to, or `None` for a mode outside
/// the supported set.  The 4-channel 8-bit families share one encoding;
/// the 32-bit integer, 32-bit float and single-channel 8-bit modes each
/// map to their own.
pub open spec fn spec_encoding_for_mode(m: Seq<u8>) -> Option<PixelEncoding> {
    if m == spec_mode_rgb() || m == spec_mode_rgba_upper() || m == spec_mode_rgba_lower() || m
        == spec_mode_cmyk() || m == spec_mode_ycbcr() || m == spec_mode_lab() {
        Some(PixelEncoding::U8x4)
    } else if m == spec_mode_i() {
        Some(PixelEncoding::I32)
    } else if m == spec_mode_f() {
        Some(PixelEncoding::F32)
    } else if m == spec_mode_l() {
        Some(PixelEncoding::U8)
    } else {
        None
    }
}

/// Builds the byte string of one short ASCII name.
fn name_bytes(b0: u8, rest: &[u8]) -> (r: Vec<u8>)
    ensures
        r@ == seq![b0] + rest@,
{
    let mut v: Vec<u8> = Vec::new();
    v.push(b0);
    let n = rest.len();
    let mut i: usize = 0;
    while i < n
        invariant
            i <= n,
            n == rest@.len(),
            v@.len() == i + 1,
            v@[0] == b0,
            forall|j: int| 0 <= j < i ==> v@[j + 1] == rest@[j],
        decreases n - i,
    {
        v.push(*slice_index_get(rest, i));
        i += 1;
    }
    proof {
        assert(v@ =~= seq![b0] + rest@);
    }
    v
}

/// Maps a foreign color mode, given as its UTF-8 bytes, to the encoding it
/// denotes; a mode outside the supported set fails with `UnsupportedMode`.
pub fn encoding_for_mode(mode: &[u8]) -> (r: Result<PixelEncoding, ImageError>)
    ensures
        r matches Ok(e) ==> spec_encoding_for_mode(mode@) == Some(e),
        r is Err ==> spec_encoding_for_mode(mode@) is None && r == Err::<PixelEncoding, ImageError>(
            ImageError::UnsupportedMode,
        ),
{
    let rgb = name_bytes(82, &[71, 66]);
    let rgba_upper = name_bytes(82, &[71, 66, 65]);
    let rgba_lower = name_bytes(82, &[71, 66, 97]);
    let cmyk = name_bytes(67, &[77, 89, 75]);
    let ycbcr = name_bytes(89, &[67, 98, 67, 114]);
    let lab = name_bytes(76, &[97, 98]);
    proof {
        assert(rgb@ =~= spec_mode_rgb());
        assert(rgba_upper@ =~= spec_mode_rgba_upper());
        assert(rgba_lower@ =~= spec_mode_rgba_lower());
        assert(cmyk@ =~= spec_mode_cmyk());
        assert(ycbcr@ =~= spec_mode_ycbcr());
        assert(lab@ =~= spec_mode_lab());
    }
    if bytes_eq(mode, rgb.as_slice()) || bytes_eq(mode, rgba_upper.as_slice()) || bytes_eq(
        mode,
        rgba_lower.as_slice(),
    ) || bytes_eq(mode, cmyk.as_slice()) || bytes_eq(mode, ycbcr.as_slice()) || bytes_eq(
        mode,
        lab.as_slice(),
    ) {
        return Ok(PixelEncoding::U8x4);
    }
    let i_name = name_bytes(73, &[]);
    let f_name = name_bytes(70, &[]);
    let l_name = name_bytes(76, &[]);
    proof {
        assert(i_name@ =~= spec_mode_i());
        assert(f_name@ =~= spec_mode_f());
        assert(l_name@ =~= spec_mode_l());
    }
    if bytes_eq(mode, i_name.as_slice()) {
        Ok(PixelEncoding::I32)
    } else if bytes_eq(mode, f_name.as_slice()) {
        Ok(PixelEncoding::F32)
    } else if bytes_eq(mode, l_name.as_slice()) {
        Ok(PixelEncoding::U8)
    } else {
        Err(ImageError::UnsupportedMode)
    }
}

/// Which of the foreign object's two row-pointer tables an encoding reads:
/// the byte table for the single-channel 8-bit encoding, the 32-bit-word
/// table for everything else.
#[derive(Clone, Copy, Debug, PartialEq, Eq, Structural)]
pub enum RowTableKind {
    /// The table of 8-bit row pointers.
    Bytes8,
    /// The table of 32-bit row pointers.
    Words32,
}

/// The row-pointer table an encoding's pixels live in.
pub open spec fn spec_row_table_kind(e: PixelEncoding) -> RowTableKind {
    if e == PixelEncoding::U8 {
        RowTableKind::Bytes8
    } else {
        RowTableKind::Words32
    }
}

/// Selects the row-pointer table for an encoding.
pub fn row_table_kind(e: PixelEncoding) -> (k: RowTableKind)
    ensures
        k == spec_row_table_kind(e),
{
    if e == PixelEncoding::U8 {
        RowTableKind::Bytes8
    } else {
        RowTableKind::Words32
    }
}

/// The property name under which a row-pointer table is published:
/// `"image8"` for the byte table, `"image32"` for the word table.
pub open spec fn spec_row_table_name(k: RowTableKind) -> Seq<u8> {
    match k {
        RowTableKind::Bytes8 => seq![105u8, 109u8, 97u8, 103u8, 101u8, 56u8],
        RowTableKind::Words32 => seq![105u8, 109u8, 97u8, 103u8, 101u8, 51u8, 50u8],
    }
}

/// Looks the row-pointer table address up in a named-pointer table: the
/// value of the first entry carrying the table's property name, or
/// `InteropError` when no entry has it.
pub fn find_row_pointer(table: &Vec<(Vec<u8>, u64)>, kind: RowTableKind) -> (r: Result<
    u64,
    ImageError,
>)
    ensures
        r is Ok <==> exists|j: int|
            0 <= j < table@.len() && table@[j].0@ == spec_row_table_name(kind),
        r matches Ok(p) ==> exists|j: int|
            0 <= j < table@.len() && table@[j].0@ == spec_row_table_name(kind) && table@[j].1 == p
                && (forall|k: int| 0 <= k < j ==> table@[k].0@ != spec_row_table_name(kind)),
        r is Err ==> r == Err::<u64, ImageError>(ImageError::InteropError),
{
    let name = match kind {
        RowTableKind::Bytes8 => name_bytes(105, &[109, 97, 103, 101, 56]),
        RowTableKind::Words32 => name_bytes(105, &[109, 97, 103, 101, 51, 50]),
    };
    proof {
        assert(name@ =~= spec_row_table_name(kind));
    }
    let n = table.len();
    let mut j: usize = 0;
    while j < n
        invariant
            j <= n,
            n == table@.len(),
            name@ == spec_row_table_name(kind),
            forall|k: int| 0 <= k < j ==> table@[k].0@ != spec_row_table_name(kind),
        decreases n - j,
    {
        if bytes_eq(table[j].0.as_slice(), name.as_slice()) {
            let p = table[j].1;
            proof {
                assert(0 <= j < table@.len() && table@[j as int].0@ == spec_row_table_name(kind)
                    && table@[j as int].1 == p && (forall|k: int|
                    0 <= k < j ==> table@[k].0@ != spec_row_table_name(kind)));
            }
            return Ok(p);
        }
        j += 1;
    }
    Err(ImageError::InteropError)
}

/// The two access conventions of the foreign library's internal image
/// struct, selected by its major version: older versions publish a
/// named-pointer table, newer ones a capsule that unwraps to the private
/// struct itself.  The byte offsets of the two shapes are absolute and
/// version-specific, so they are never unified into one layout.
#[derive(Clone, Copy, Debug, PartialEq, Eq, Structural)]
pub enum ForeignLayout {
    /// The convention of older foreign-library versions: a list of
    /// `(property name, address)` pairs.
    NamedPointerTable,
    /// The convention of newer versions: an opaque capsule holding the
    /// private struct, read at version-specific offsets.
    VersionedCapsule,
}

/// First major version of the foreign library that publishes the capsule
/// convention.
pub const CAPSULE_MIN_MAJOR: u32 = 11;

/// The access convention a detected major version calls for.
pub open spec fn spec_layout_for_version(major: u32) -> ForeignLayout {
    if major < CAPSULE_MIN_MAJOR {
        ForeignLayout::NamedPointerTable
    } else {
        ForeignLayout::VersionedCapsule
    }
}

/// Selects the access convention for a detected major version.
pub fn layout_for_version(major: u32) -> (l: ForeignLayout)
    ensures
        l == spec_layout_for_version(major),
{
    if major < CAPSULE_MIN_MAJOR {
        ForeignLayout::NamedPointerTable
    } else {
        ForeignLayout::VersionedCapsule
    }
}

/// The two in-place alpha-mode tags the bridge can store in the foreign
/// object's mode field.
#[derive(Clone, Copy, Debug, PartialEq, Eq, Structural)]
pub enum AlphaModeTag {
    /// Color channels are premultiplied by alpha (mode `"RGBa"`).
    Premultiplied,
    /// Color channels are straight, not premultiplied (mode `"RGBA"`).
    NotPremultiplied,
}

/// The seven bytes a tag write stores into the foreign mode field:
/// `"RGBa\0\0\0"` for the premultiplied tag, `"RGBA\0\0\0"` otherwise.
pub open spec fn spec_mode_tag_bytes(tag: AlphaModeTag) -> Seq<u8> {
    match tag {
        AlphaModeTag::Premultiplied => seq![82u8, 71u8, 66u8, 97u8, 0u8, 0u8, 0u8],
        AlphaModeTag::NotPremultiplied => seq![82u8, 71u8, 66u8, 65u8, 0u8, 0u8, 0u8],
    }
}

/// Builds the seven bytes a tag write stores.
pub fn mode_tag_bytes(tag: AlphaModeTag) -> (r: Vec<u8>)
    ensures
        r@ == spec_mode_tag_bytes(tag),
{
    let r = match tag {
        AlphaModeTag::Premultiplied => name_bytes(82, &[71, 66, 97, 0, 0, 0]),
        AlphaModeTag::NotPremultiplied => name_bytes(82, &[71, 66, 65, 0, 0, 0]),
    };
    proof {
        assert(r@ =~= spec_mode_tag_bytes(tag));
    }
    r
}

/// Whether a foreign mode field denotes an RGB-family mode: its first
/// three bytes read `"RGB"`.
pub open spec fn spec_is_rgb_family(m: Seq<u8>) -> bool {
    m.len() >= 3 && m[0] == 82u8 && m[1] == 71u8 && m[2] == 66u8
}

/// Decides whether a foreign mode field denotes an RGB-family mode.
pub fn is_rgb_family(m: &[u8]) -> (r: bool)
    ensures
        r == spec_is_rgb_family(m@),
{
    m.len() >= 3 && *slice_index_get(m, 0) == 82 && *slice_index_get(m, 1) == 71
        && *slice_index_get(m, 2) == 66
}

/// The alpha-mode tag a mode field holds, if it holds exactly one of the
/// two tag byte strings.
pub open spec fn spec_tag_of_mode(m: Seq<u8>) -> Option<AlphaModeTag> {
    if m == spec_mode_tag_bytes(AlphaModeTag::Premultiplied) {
        Some(AlphaModeTag::Premultiplied)
    } else if m == spec_mode_tag_bytes(AlphaModeTag::NotPremultiplied) {
        Some(AlphaModeTag::NotPremultiplied)
    } else {
        None
    }
}

/// Reads the alpha-mode tag out of a mode field.
pub fn tag_of_mode(m: &[u8]) -> (r: Option<AlphaModeTag>)
    ensures
        r == spec_tag_of_mode(m@),
{
    let premultiplied = mode_tag_bytes(AlphaModeTag::Premultiplied);
    let straight = mode_tag_bytes(AlphaModeTag::NotPremultiplied);
    if bytes_eq(m, premultiplied.as_slice()) {
        Some(AlphaModeTag::Premultiplied)
    } else if bytes_eq(m, straight.as_slice()) {
        Some(AlphaModeTag::NotPremultiplied)
    } else {
        None
    }
}

/// Writing an alpha-mode tag and reading the mode field back reports
/// exactly the tag that was written, and both tag byte strings stay in
/// the RGB family.
pub proof fn lemma_mode_tag_round_trip(tag: AlphaModeTag)
    ensures
        spec_tag_of_mode(spec_mode_tag_bytes(tag)) == Some(tag),
        spec_is_rgb_family(spec_mode_tag_bytes(tag)),
{
    assert(spec_mode_tag_bytes(AlphaModeTag::Premultiplied)[3] == 97u8);
    assert(spec_mode_tag_bytes(AlphaModeTag::NotPremultiplied)[3] == 65u8);
}

/// The two in-place alpha operations that rewrite the mode tag after they
/// complete successfully.
#[derive(Clone, Copy, Debug, PartialEq, Eq, Structural)]
pub enum AlphaOp {
    /// Multiplying the color channels by alpha.
    Multiply,
    /// Dividing the color channels by alpha.
    Divide,
}

/// The tag a successful in-place alpha operation leaves behind: a multiply
/// marks the pixels premultiplied, a divide marks them straight.
pub open spec fn spec_tag_after(op: AlphaOp) -> AlphaModeTag {
    match op {
        AlphaOp::Multiply => AlphaModeTag::Premultiplied,
        AlphaOp::Divide => AlphaModeTag::NotPremultiplied,
    }
}

/// Selects the tag a successful in-place alpha operation leaves behind.
pub fn tag_after(op: AlphaOp) -> (t: AlphaModeTag)
    ensures
        t == spec_tag_after(op),
{
    match op {
        AlphaOp::Multiply => AlphaModeTag::Premultiplied,
        AlphaOp::Divide => AlphaModeTag::NotPremultiplied,
    }
}

/// A handle into a foreign managed image object: a strong reference keeps
/// the object alive (held outside this layer), while the bridge caches the
/// detected version, the encoding its mode maps to, the extents, and the
/// address of its row-pointer table.
///
/// The handle walks one way through two states: it starts `Attached`, and
/// the foreign collector's clear callback moves it to `Detached`, which is
/// terminal — the cached table address counts as dangling from then on and
/// every view or tag read fails.
pub struct ForeignObjectHandle {
    major_version: u32,
    layout: ForeignLayout,
    encoding: PixelEncoding,
    width: u32,
    height: u32,
    rows_ptr: Option<u64>,
}

impl ForeignObjectHandle {
    /// The handle still holds its foreign object.
    pub closed spec fn spec_attached(self) -> bool {
        self.rows_ptr is Some
    }

    /// The cached row-pointer table address.
    pub closed spec fn spec_rows_ptr(self) -> Option<u64> {
        self.rows_ptr
    }

    /// The encoding the foreign mode mapped to.
    pub closed spec fn spec_encoding(self) -> PixelEncoding {
        self.encoding
    }

    /// The stored width.
    pub closed spec fn spec_width(self) -> u32 {
        self.width
    }

    /// The stored height.
    pub closed spec fn spec_height(self) -> u32 {
        self.height
    }

    /// The detected foreign-library major version.
    pub closed spec fn spec_major_version(self) -> u32 {
        self.major_version
    }

    /// The access convention the handle was opened through.
    pub closed spec fn spec_layout(self) -> ForeignLayout {
        self.layout
    }

    /// The handle is well formed: positive extents.
    pub open spec fn wf(self) -> bool {
        self.spec_width() > 0 && self.spec_height() > 0
    }

    /// Opens a handle through the named-pointer-table convention: the mode
    /// picks the encoding (`UnsupportedMode` otherwise), the extents must
    /// be positive (`InvalidDimension`), and the row-pointer table address
    /// is looked up by property name (`InteropError` when absent).  The
    /// caller must have forced the foreign object to materialize its pixel
    /// storage before collecting the table.
    pub fn open_from_pointer_table(
        mode: &[u8],
        width: u32,
        height: u32,
        major_version: u32,
        table: &Vec<(Vec<u8>, u64)>,
    ) -> (r: Result<ForeignObjectHandle, ImageError>)
        ensures
            spec_encoding_for_mode(mode@) is None ==> r == Err::<ForeignObjectHandle, ImageError>(
                ImageError::UnsupportedMode,
            ),
            spec_encoding_for_mode(mode@) is Some && (width == 0 || height == 0) ==> r == Err::<
                ForeignObjectHandle,
                ImageError,
            >(ImageError::InvalidDimension),
            spec_encoding_for_mode(mode@) matches Some(e) ==> (width > 0 && height > 0 ==> {
                &&& (r is Ok <==> exists|j: int|
                    0 <= j < table@.len() && table@[j].0@ == spec_row_table_name(
                        spec_row_table_kind(e),
                    ))
                &&& (r matches Ok(h) ==> exists|j: int|
                    0 <= j < table@.len() && table@[j].0@ == spec_row_table_name(
                        spec_row_table_kind(e),
                    ) && h.spec_rows_ptr() == Some(table@[j].1) && (forall|k: int|
                        0 <= k < j ==> table@[k].0@ != spec_row_table_name(
                            spec_row_table_kind(e),
                        )))
                &&& (r is Err ==> r == Err::<ForeignObjectHandle, ImageError>(
                    ImageError::InteropError,
                ))
            }),
            r matches Ok(h) ==> {
                &&& h.wf()
                &&& h.spec_attached()
                &&& Some(h.spec_encoding()) == spec_encoding_for_mode(mode@)
                &&& h.spec_width() == width
                &&& h.spec_height() == height
                &&& h.spec_major_version() == major_version
                &&& h.spec_layout() == ForeignLayout::NamedPointerTable
            },
    {
        let encoding = encoding_for_mode(mode)?;
        if width == 0 || height == 0 {
            return Err(ImageError::InvalidDimension);
        }
        let kind = row_table_kind(encoding);
        let rows_ptr = find_row_pointer(table, kind)?;
        Ok(
            ForeignObjectHandle {
                major_version,
                layout: ForeignLayout::NamedPointerTable,
                encoding,
                width,
                height,
                rows_ptr: Some(rows_ptr),
            },
        )
    }

    /// Opens a handle through the capsule convention: the mode picks the
    /// encoding, the extents must be positive, and `tables` holds the two
    /// row-pointer table addresses read from the unwrapped private struct —
    /// `None` when the capsule could not be unwrapped (`InteropError`).
    /// The encoding's byte width selects the 8-bit or the 32-bit table.
    ///
    /// Zero extents are accepted on this path: the foreign library allows
    /// zero-size images, every operation on them is a benign no-op, and
    /// this convention mirrors that; only view derivation asks for
    /// positive extents.
    pub fn open_from_capsule(
        mode: &[u8],
        width: u32,
        height: u32,
        major_version: u32,
        tables: Option<(u64, u64)>,
    ) -> (r: Result<ForeignObjectHandle, ImageError>)
        ensures
            spec_encoding_for_mode(mode@) is None ==> r == Err::<ForeignObjectHandle, ImageError>(
                ImageError::UnsupportedMode,
            ),
            spec_encoding_for_mode(mode@) is Some && tables is None ==> r == Err::<
                ForeignObjectHandle,
                ImageError,
            >(ImageError::InteropError),
            spec_encoding_for_mode(mode@) matches Some(e) ==> (tables matches Some(t) ==> (
            r matches Ok(h) && h.spec_rows_ptr() == Some(
                if spec_row_table_kind(e) == RowTableKind::Bytes8 {
                    t.0
                } else {
                    t.1
                },
            ))),
            r matches Ok(h) ==> {
                &&& h.spec_attached()
                &&& Some(h.spec_encoding()) == spec_encoding_for_mode(mode@)
                &&& h.spec_width() == width
                &&& h.spec_height() == height
                &&& h.spec_major_version() == major_version
                &&& h.spec_layout() == ForeignLayout::VersionedCapsule
            },
    {
        let encoding = encoding_for_mode(mode)?;
        let (table8, table32) = match tables {
            Some(t) => t,
            None => {
                return Err(ImageError::InteropError);
            },
        };
        let rows_ptr = match row_table_kind(encoding) {
            RowTableKind::Bytes8 => table8,
            RowTableKind::Words32 => table32,
        };
        Ok(
            ForeignObjectHandle {
                major_version,
                layout: ForeignLayout::VersionedCapsule,
                encoding,
                width,
                height,
                rows_ptr: Some(rows_ptr),
            },
        )
    }

    /// Width of the foreign image in pixels.
    pub fn width(&self) -> (w: u32)
        ensures
            w == self.spec_width(),
    {
        self.width
    }

    /// Height of the foreign image in pixels.
    pub fn height(&self) -> (h: u32)
        ensures
            h == self.spec_height(),
    {
        self.height
    }

    /// The encoding active for the foreign image.
    pub fn encoding(&self) -> (e: PixelEncoding)
        ensures
            e == self.spec_encoding(),
    {
        self.encoding
    }

    /// The detected foreign-library major version.
    pub fn major_version(&self) -> (v: u32)
        ensures
            v == self.spec_major_version(),
    {
        self.major_version
    }

    /// The access convention the handle was opened through.
    pub fn layout(&self) -> (l: ForeignLayout)
        ensures
            l == self.spec_layout(),
    {
        self.layout
    }

    /// Whether the handle still holds its foreign object.
    pub fn is_attached(&self) -> (a: bool)
        ensures
            a == self.spec_attached(),
    {
        self.rows_ptr.is_some()
    }

    /// The collector's clear callback: drops the cached table address and
    /// moves the handle to its terminal detached state.  Everything else
    /// about the handle is unchanged, and nothing ever re-attaches it.
    pub fn detach(&mut self)
        ensures
            !final(self).spec_attached(),
            final(self).spec_encoding() == old(self).spec_encoding(),
            final(self).spec_width() == old(self).spec_width(),
            final(self).spec_height() == old(self).spec_height(),
            final(self).spec_major_version() == old(self).spec_major_version(),
            final(self).spec_layout() == old(self).spec_layout(),
    {
        self.rows_ptr = None;
    }

    /// The cached row-pointer table address, valid only while attached;
    /// a detached handle fails with `HandleDetached`.
    pub fn row_table_address(&self) -> (r: Result<u64, ImageError>)
        ensures
            self.spec_attached() <==> r is Ok,
            self.spec_attached() ==> r == Ok::<u64, ImageError>(self.spec_rows_ptr().unwrap()),
            !self.spec_attached() ==> r == Err::<u64, ImageError>(ImageError::HandleDetached),
    {
        match self.rows_ptr {
            Some(p) => Ok(p),
            None => Err(ImageError::HandleDetached),
        }
    }

    /// Derives the typed view for a requested encoding, threading an
    /// optional crop window through it.  A detached handle always fails
    /// with `HandleDetached`; otherwise the contract matches the other
    /// buffer kinds: `EncodingMismatch` on any other encoding,
    /// `InvalidCropBox` on a window outside the bounds.
    pub fn view_for(&self, encoding: PixelEncoding, crop: Option<CropRect>) -> (r: Result<
        TypedView,
        ImageError,
    >)
        requires
            self.wf(),
        ensures
            !self.spec_attached() ==> r == Err::<TypedView, ImageError>(ImageError::HandleDetached),
            self.spec_attached() && encoding != self.spec_encoding() ==> r == Err::<
                TypedView,
                ImageError,
            >(ImageError::EncodingMismatch),
            self.spec_attached() && encoding == self.spec_encoding() && crop is None ==> r == Ok::<
                TypedView,
                ImageError,
            >(TypedView::spec_full(encoding, self.spec_width(), self.spec_height())),
            crop matches Some(c) ==> (self.spec_attached() && encoding == self.spec_encoding()
                ==> (if c.spec_valid_for(self.spec_width() as int, self.spec_height() as int) {
                r == Ok::<TypedView, ImageError>(
                    TypedView {
                        encoding,
                        img_width: self.spec_width(),
                        img_height: self.spec_height(),
                        rect: c,
                    },
                )
            } else {
                r == Err::<TypedView, ImageError>(ImageError::InvalidCropBox)
            })),
            r matches Ok(v) ==> {
                &&& v.spec_wf()
                &&& v.encoding == self.spec_encoding()
                &&& v.img_width == self.spec_width()
                &&& v.img_height == self.spec_height()
            },
    {
        if self.rows_ptr.is_none() {
            return Err(ImageError::HandleDetached);
        }
        if encoding != self.encoding {
            return Err(ImageError::EncodingMismatch);
        }
        let full = TypedView {
            encoding,
            img_width: self.width,
            img_height: self.height,
            rect: CropRect::full(self.width, self.height),
        };
        match crop {
            None => Ok(full),
            Some(c) => {
                let rect = c.validate_for(self.width, self.height)?;
                Ok(full.cropped_to(rect))
            },
        }
    }

    /// Reads the alpha-related mode tag: reports whether the mode field,
    /// reread from the foreign descriptor and handed in as `descriptor`,
    /// denotes an RGB-family mode.  Fails with `UnknownMode` when the
    /// handle is detached or the descriptor could not be reread.
    pub fn interpret_mode_tag(&self, descriptor: Option<&Vec<u8>>) -> (r: Result<bool, ImageError>)
        ensures
            !self.spec_attached() ==> r == Err::<bool, ImageError>(ImageError::UnknownMode),
            self.spec_attached() && descriptor is None ==> r == Err::<bool, ImageError>(
                ImageError::UnknownMode,
            ),
            descriptor matches Some(d) ==> (self.spec_attached() ==> r == Ok::<bool, ImageError>(
                spec_is_rgb_family(d@),
            )),
    {
        if self.rows_ptr.is_none() {
            return Err(ImageError::UnknownMode);
        }
        match descriptor {
            Some(d) => Ok(is_rgb_family(d.as_slice())),
            None => Err(ImageError::UnknownMode),
        }
    }

    /// Plans an in-place tag write: the seven bytes to store into the
    /// foreign mode field, or `None` — deliberately a no-op, not an error —
    /// when the handle is detached and no foreign object remains to
    /// mutate.
    pub fn write_mode_tag(&self, tag: AlphaModeTag) -> (r: Option<Vec<u8>>)
        ensures
            !self.spec_attached() ==> r is None,
            self.spec_attached() ==> (r matches Some(bytes) && bytes@ == spec_mode_tag_bytes(
                tag,
            )),
    {
        if self.rows_ptr.is_none() {
            return None;
        }
        Some(mode_tag_bytes(tag))
    }
}

} // verus!
