//! What the descriptor `ChoosePixelFormat` gets asks of a pixel format, flag by flag.
use vstd::prelude::*;

use super::config::{acceleration_flags, flag_if, spec_descriptor_flags, stereo_flags};
use super::consts as wgl;
use crate::config::{ConfigSurfaceTypes, ConfigTemplate};

verus! {

/// The descriptor `ChoosePixelFormat` is asked for always supports OpenGL; it is double
/// buffered unless single buffering is asked for, draws to windows exactly when windows are
/// asked for and to bitmaps exactly when pixmaps are; it asks for stereo when stereoscopy is
/// asked for and does not care when it is left open; it asks for generic acceleration when
/// hardware acceleration is preferred and for the generic (software) format when it is not.
pub proof fn lemma_descriptor_flags(t: ConfigTemplate)
    ensures
        spec_descriptor_flags(t) & wgl::PFD_SUPPORT_OPENGL != 0,
        spec_descriptor_flags(t) & wgl::PFD_DOUBLEBUFFER != 0 <==> !t.single_buffering,
        spec_descriptor_flags(t) & wgl::PFD_DRAW_TO_WINDOW != 0 <==> t.config_surface_types.bits & 1
            == 1,
        spec_descriptor_flags(t) & wgl::PFD_DRAW_TO_BITMAP != 0 <==> t.config_surface_types.bits & 2
            == 2,
        spec_descriptor_flags(t) & wgl::PFD_STEREO != 0 <==> t.stereoscopy == Some(true),
        spec_descriptor_flags(t) & wgl::PFD_STEREO_DONTCARE != 0 <==> t.stereoscopy is None,
        spec_descriptor_flags(t) & wgl::PFD_GENERIC_ACCELERATED != 0 <==> t.hardware_accelerated
            == Some(true),
        spec_descriptor_flags(t) & wgl::PFD_GENERIC_FORMAT != 0 <==> t.hardware_accelerated == Some(
            false,
        ),
{
    let d = flag_if(!t.single_buffering, wgl::PFD_DOUBLEBUFFER);
    let w = flag_if(t.config_surface_types.spec_contains(ConfigSurfaceTypes { bits: 1 }), wgl::PFD_DRAW_TO_WINDOW);
    let x = flag_if(t.config_surface_types.spec_contains(ConfigSurfaceTypes { bits: 2 }), wgl::PFD_DRAW_TO_BITMAP);
    let st = stereo_flags(t.stereoscopy);
    let ac = acceleration_flags(t.hardware_accelerated);
    let f = spec_descriptor_flags(t);
    assert(f == 0x20u32 | d | w | x | st | ac);
    assert((f & 0x20 != 0) && (f & 1 != 0 <==> d == 1) && (f & 4 != 0 <==> w == 4) && (f & 8 != 0
        <==> x == 8) && (f & 2 != 0 <==> st == 2) && (f & 0x8000_0000 != 0 <==> st == 0x8000_0000)
        && (f & 0x1000 != 0 <==> ac == 0x1000) && (f & 0x40 != 0 <==> ac == 0x40)) by (bit_vector)
        requires
            f == 0x20u32 | d | w | x | st | ac,
            d == 0 || d == 1,
            w == 0 || w == 4,
            x == 0 || x == 8,
            st == 0 || st == 2 || st == 0x8000_0000,
            ac == 0 || ac == 0x1000 || ac == 0x40,
    ;
}

} // verus!
