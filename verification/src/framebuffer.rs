use vstd::prelude::*;
use crate::error::LoaderError;

verus! {

/// How a display mode lays out one pixel.
#[derive(Debug, Clone, Copy, PartialEq, Eq, Structural)]
pub enum PixelFormat {
    /// Red, green, blue, reserved: one byte each, linear framebuffer.
    Rgb,
    /// Blue, green, red, reserved: one byte each, linear framebuffer.
    Bgr,
    /// Channels described by bit masks.
    Bitmask,
    /// Block transfers only: the mode has no linear framebuffer address.
    BltOnly,
}

/// A width and height in pixels.
#[derive(Debug, Clone, Copy, PartialEq, Eq, Structural)]
pub struct Resolution {
    pub width: u32,
    pub height: u32,
}

/// One mode that a display output offers.
#[derive(Debug, Clone, Copy, PartialEq, Eq, Structural)]
pub struct DisplayMode {
    /// Physical address of the first pixel.
    pub base: u64,
    pub width: u32,
    pub height: u32,
    /// Bytes per scanline; may exceed the bytes of `width` pixels.
    pub stride: u32,
    pub format: PixelFormat,
}

/// The display surface as the handoff block records it.
#[derive(Debug, Clone, Copy, PartialEq, Eq, Structural)]
pub struct FramebufferInfo {
    pub base: u64,
    pub width: u32,
    pub height: u32,
    pub stride: u32,
    /// The pixel format's tag.
    pub format: u32,
}

impl PixelFormat {
    /// The small number that stands for the format in the handoff block.
    pub open spec fn spec_tag(self) -> u32 {
        match self {
            PixelFormat::Rgb => 0,
            PixelFormat::Bgr => 1,
            PixelFormat::Bitmask => 2,
            PixelFormat::BltOnly => 3,
        }
    }

    /// Whether pixels can be written straight to memory in this format.
    pub open spec fn spec_is_addressable(self) -> bool {
        self is Rgb || self is Bgr
    }

    pub fn tag(self) -> (t: u32)
        ensures
            t == self.spec_tag(),
    {
        match self {
            PixelFormat::Rgb => 0,
            PixelFormat::Bgr => 1,
            PixelFormat::Bitmask => 2,
            PixelFormat::BltOnly => 3,
        }
    }

    pub fn is_addressable(self) -> (b: bool)
        ensures
            b == self.spec_is_addressable(),
    {
        match self {
            PixelFormat::Rgb => true,
            PixelFormat::Bgr => true,
            PixelFormat::Bitmask => false,
            PixelFormat::BltOnly => false,
        }
    }
}

impl DisplayMode {
    /// Pixels on screen.
    pub open spec fn spec_area(self) -> int {
        self.width as int * self.height as int
    }

    /// Whether the mode can serve as the kernel's framebuffer.
    pub open spec fn usable(self) -> bool {
        self.format.spec_is_addressable()
    }

    /// Whether the mode is usable and has the resolution asked for.
    pub open spec fn wanted(self, preferred: Option<Resolution>) -> bool {
        self.usable() && preferred is Some && self.width == preferred.unwrap().width && self.height
            == preferred.unwrap().height
    }

    /// What the handoff block records of the mode.
    pub open spec fn spec_info(self) -> FramebufferInfo {
        FramebufferInfo {
            base: self.base,
            width: self.width,
            height: self.height,
            stride: self.stride,
            format: self.format.spec_tag(),
        }
    }

    pub fn area(&self) -> (a: u64)
        ensures
            a == self.spec_area(),
    {
        assert(self.width as int * self.height as int <= 0xffff_ffff * 0xffff_ffff)
            by (nonlinear_arith)
            requires
                0 <= self.width as int <= 0xffff_ffff,
                0 <= self.height as int <= 0xffff_ffff,
        ;
        self.width as u64 * self.height as u64
    }

    pub fn is_wanted(&self, preferred: Option<Resolution>) -> (b: bool)
        ensures
            b == self.wanted(preferred),
    {
        match preferred {
            Some(want) => self.format.is_addressable() && self.width == want.width && self.height
                == want.height,
            None => false,
        }
    }

    pub fn info(&self) -> (info: FramebufferInfo)
        ensures
            info == self.spec_info(),
    {
        FramebufferInfo {
            base: self.base,
            width: self.width,
            height: self.height,
            stride: self.stride,
            format: self.format.tag(),
        }
    }
}

/// Bytes of one pixel in an addressable format.
pub const BYTES_PER_PIXEL: u32 = 4;

/// Bytes of a scanline of `pixels` pixels, where that fits in 32 bits.
pub open spec fn spec_scanline_bytes(pixels: u32) -> Option<u32> {
    if pixels * BYTES_PER_PIXEL <= u32::MAX {
        Some((pixels * BYTES_PER_PIXEL) as u32)
    } else {
        None
    }
}

pub fn scanline_bytes(pixels: u32) -> (r: Option<u32>)
    ensures
        r == spec_scanline_bytes(pixels),
{
    pixels.checked_mul(BYTES_PER_PIXEL)
}

/// Some mode is usable.
pub open spec fn has_usable(modes: Seq<DisplayMode>) -> bool {
    exists|i: int| 0 <= i < modes.len() && (#[trigger] modes[i]).usable()
}

/// Some usable mode has the preferred resolution.
pub open spec fn has_wanted(modes: Seq<DisplayMode>, preferred: Option<Resolution>) -> bool {
    exists|i: int| 0 <= i < modes.len() && (#[trigger] modes[i]).wanted(preferred)
}

/// `i` is the first usable mode with the preferred resolution.
pub open spec fn is_first_wanted(
    modes: Seq<DisplayMode>,
    preferred: Option<Resolution>,
    i: int,
) -> bool {
    &&& 0 <= i < modes.len()
    &&& modes[i].wanted(preferred)
    &&& forall|j: int| 0 <= j < i ==> !(#[trigger] modes[j]).wanted(preferred)
}

/// `i` is the usable mode with the most pixels, the earliest of them where
/// several have as many.
pub open spec fn is_largest(modes: Seq<DisplayMode>, i: int) -> bool {
    &&& 0 <= i < modes.len()
    &&& modes[i].usable()
    &&& forall|j: int|
        0 <= j < modes.len() && (#[trigger] modes[j]).usable() ==> modes[j].spec_area()
            < modes[i].spec_area() || (modes[j].spec_area() == modes[i].spec_area() && i <= j)
}

/// `i` is the mode to use: the first usable one with the preferred
/// resolution where there is one, else the largest usable one.
pub open spec fn is_selected(
    modes: Seq<DisplayMode>,
    preferred: Option<Resolution>,
    i: int,
) -> bool {
    if has_wanted(modes, preferred) {
        is_first_wanted(modes, preferred, i)
    } else {
        is_largest(modes, i)
    }
}

/// At most one mode is selected.
pub proof fn lemma_selection_unique(
    modes: Seq<DisplayMode>,
    preferred: Option<Resolution>,
    i: int,
    j: int,
)
    requires
        is_selected(modes, preferred, i),
        is_selected(modes, preferred, j),
    ensures
        i == j,
{
    if has_wanted(modes, preferred) {
        if i < j {
            assert(!modes[i].wanted(preferred));
        }
        if j < i {
            assert(!modes[j].wanted(preferred));
        }
    } else {
        assert(modes[i].usable());
        assert(modes[j].usable());
    }
}

/// Without a preferred resolution the largest usable mode is selected.
pub proof fn lemma_no_preference_selects_largest(modes: Seq<DisplayMode>, i: int)
    ensures
        is_selected(modes, None, i) == is_largest(modes, i),
{
}

/// Picks the mode to use, by its index. There is none exactly when no mode
/// is usable.
pub fn select_mode(modes: &Vec<DisplayMode>, preferred: Option<Resolution>) -> (r: Option<usize>)
    ensures
        r is None <==> !has_usable(modes@),
        r is Some ==> is_selected(modes@, preferred, r.unwrap() as int),
{
    let mut first: Option<usize> = None;
    let mut best: Option<usize> = None;
    let mut best_area: u64 = 0;
    let mut k: usize = 0;
    while k < modes.len()
        invariant
            0 <= k <= modes.len(),
            first is None ==> forall|j: int| 0 <= j < k ==> !(#[trigger] modes@[j]).wanted(preferred),
            first is Some ==> first.unwrap() < k && is_first_wanted(
                modes@,
                preferred,
                first.unwrap() as int,
            ),
            best is None ==> forall|j: int| 0 <= j < k ==> !(#[trigger] modes@[j]).usable(),
            best is Some ==> {
                &&& best.unwrap() < k
                &&& modes@[best.unwrap() as int].usable()
                &&& best_area == modes@[best.unwrap() as int].spec_area()
                &&& forall|j: int|
                    0 <= j < k && (#[trigger] modes@[j]).usable() ==> modes@[j].spec_area()
                        < best_area || (modes@[j].spec_area() == best_area && best.unwrap() <= j)
            },
        decreases modes.len() - k,
    {
        let mode = &modes[k];
        if mode.format.is_addressable() {
            let area: u64 = mode.area();
            if first.is_none() && mode.is_wanted(preferred) {
                first = Some(k);
            }
            if best.is_none() || area > best_area {
                best = Some(k);
                best_area = area;
            }
        }
        k += 1;
    }
    match first {
        Some(i) => {
            assert(modes@[i as int].wanted(preferred));
            assert(modes@[i as int].usable());
            Some(i)
        },
        None => {
            match best {
                Some(i) => {
                    assert(modes@[i as int].usable());
                    Some(i)
                },
                None => None,
            }
        },
    }
}

/// Selects a mode and reports what the handoff block records of it. Fails
/// exactly when no mode is usable.
pub fn probe(modes: &Vec<DisplayMode>, preferred: Option<Resolution>) -> (r: Result<
    FramebufferInfo,
    LoaderError,
>)
    ensures
        r is Err <==> !has_usable(modes@),
        r is Err ==> r == Err::<FramebufferInfo, LoaderError>(LoaderError::NoGraphicsOutput),
        r is Ok ==> exists|i: int| #[trigger]
            is_selected(modes@, preferred, i) && r.unwrap() == modes@[i].spec_info(),
{
    match select_mode(modes, preferred) {
        Some(i) => {
            let info = modes[i].info();
            assert(is_selected(modes@, preferred, i as int));
            Ok(info)
        },
        None => Err(LoaderError::NoGraphicsOutput),
    }
}

} // verus!
