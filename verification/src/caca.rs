//! The libcaca backend: the dither an OSMesa frame is drawn to the terminal with, and the order
//! its pixels are handed over in.
use vstd::prelude::*;

use crate::error::CreationError;

verus! {

/// The red, green, blue and alpha masks of a 32-bit pixel, by byte order.
pub fn dither_masks(little_endian: bool) -> (r: (u32, u32, u32, u32))
    ensures
        little_endian ==> r == (0xffu32, 0xff00u32, 0xff0000u32, 0xff000000u32),
        !little_endian ==> r == (0xff000000u32, 0xff0000u32, 0xff00u32, 0xffu32),
{
    if little_endian {
        (0xff, 0xff00, 0xff0000, 0xff000000)
    } else {
        (0xff000000, 0xff0000, 0xff00, 0xff)
    }
}

/// The bits per pixel, width, height and pitch of the dither of a `width` by `height` frame.
pub fn dither_parameters(width: u32, height: u32) -> (r: (i32, i32, i32, i32))
    requires
        width <= i32::MAX / 4,
        height <= i32::MAX,
    ensures
        r == (32i32, width as i32, height as i32, (width * 4) as i32),
{
    let w = width as i32;
    (32, w, height as i32, w * 4)
}

/// The library could be loaded, or no backend is available.
pub fn check_library(loaded: bool) -> (r: Result<(), CreationError>)
    ensures
        r is Ok <==> loaded,
        r matches Err(e) ==> (e matches CreationError::NotSupported(m) && m@
            == "could not find libcaca.so"@),
{
    if loaded {
        Ok(())
    } else {
        let m = String::from_str("could not find libcaca.so");
        Err(CreationError::NotSupported(m))
    }
}

/// The display that was created, checked.
pub fn check_display(display: usize) -> (r: Result<(), CreationError>)
    ensures
        r is Ok <==> display != 0,
        r matches Err(e) ==> (e matches CreationError::OsError(m) && m@
            == "caca_create_display failed"@),
{
    if display == 0 {
        let m = String::from_str("caca_create_display failed");
        Err(CreationError::OsError(m))
    } else {
        Ok(())
    }
}

/// The dither that was created, checked; without it the display is freed again.
pub fn check_dither(dither: usize) -> (r: Result<(), CreationError>)
    ensures
        r is Ok <==> dither != 0,
        r matches Err(e) ==> (e matches CreationError::OsError(m) && m@
            == "caca_create_dither failed"@),
{
    if dither == 0 {
        let m = String::from_str("caca_create_dither failed");
        Err(CreationError::OsError(m))
    } else {
        Ok(())
    }
}

/// The pixels of a frame rendered `width` pixels a row, in the order they are dithered: the
/// rows taken in turn and the whole reversed, which turns the bottom-up frame upside down (and
/// each row mirrored).
pub fn dither_order(framebuffer: &Vec<u32>, width: usize) -> (r: Vec<u32>)
    requires
        width > 0,
    ensures
        r@ == framebuffer@.reverse(),
{
    let n = framebuffer.len();
    let mut r: Vec<u32> = Vec::new();
    let mut i = n;
    while i > 0
        invariant
            i <= n,
            n == framebuffer@.len(),
            r@.len() == n - i,
            forall|j: int| 0 <= j < r@.len() ==> r@[j] == framebuffer@[n - 1 - j],
        decreases i,
    {
        i = i - 1;
        r.push(framebuffer[i]);
    }
    assert(r@ =~= framebuffer@.reverse());
    r
}

} // verus!
