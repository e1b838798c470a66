//! Conversion of a rendered frame from console color codes to packed RGB
//! pixels for presentation.

use vstd::prelude::*;

verus! {

/// The 8-bit channel value of a two-bit console color component.
pub open spec fn spec_convert_sms_color(color: u8) -> u32 {
    if color == 0 {
        0u32
    } else if color == 1 {
        85u32
    } else if color == 2 {
        170u32
    } else {
        255u32
    }
}

/// Expands a two-bit color component to its 8-bit channel value.
pub fn convert_sms_color(color: u8) -> (r: u32)
    requires
        color < 4,
    ensures
        r == spec_convert_sms_color(color),
{
    if color == 0 {
        0
    } else if color == 1 {
        85
    } else if color == 2 {
        170
    } else {
        255
    }
}

/// The packed RGB pixel of one console color byte: two bits per channel,
/// red in the low bits.
pub open spec fn spec_sms_pixel(sms_color: u8) -> u32 {
    let r = spec_convert_sms_color(sms_color & 0x03);
    let g = spec_convert_sms_color((sms_color >> 2) & 0x03);
    let b = spec_convert_sms_color((sms_color >> 4) & 0x03);
    ((r << 16) | (g << 8) | b) as u32
}

/// Converts the visible 192 rows of a rendered frame, stored row-major at
/// 256 pixels per row, into packed RGB pixels for the presentation window.
pub fn vdp_buffer_to_minifb_buffer(vdp_buffer: &Vec<u8>, minifb_buffer: &mut Vec<u32>)
    requires
        vdp_buffer@.len() >= 49152,
        old(minifb_buffer)@.len() == 49152,
    ensures
        final(minifb_buffer)@.len() == 49152,
        forall|p: int|
            0 <= p < 49152 ==> final(minifb_buffer)@[p] == spec_sms_pixel(vdp_buffer@[p]),
{
    let mut i: usize = 0;
    while i < 192
        invariant
            i <= 192,
            vdp_buffer@.len() >= 49152,
            minifb_buffer@.len() == 49152,
            forall|p: int|
                0 <= p < i * 256 ==> minifb_buffer@[p] == spec_sms_pixel(vdp_buffer@[p]),
        decreases 192 - i,
    {
        let mut j: usize = 0;
        while j < 256
            invariant
                i < 192,
                j <= 256,
                vdp_buffer@.len() >= 49152,
                minifb_buffer@.len() == 49152,
                forall|p: int|
                    0 <= p < i * 256 + j ==> minifb_buffer@[p] == spec_sms_pixel(vdp_buffer@[p]),
            decreases 256 - j,
        {
            proof {
                assert(i * 256 + j < 49152) by (nonlinear_arith)
                    requires
                        i < 192,
                        j < 256,
                ;
            }
            let sms_color = vdp_buffer[i * 256 + j];
            proof {
                let c = sms_color;
                assert((c & 0x03) < 4 && ((c >> 2) & 0x03) < 4 && ((c >> 4) & 0x03) < 4)
                    by (bit_vector);
            }
            let r = convert_sms_color(sms_color & 0x03);
            let g = convert_sms_color((sms_color >> 2u8) & 0x03);
            let b = convert_sms_color((sms_color >> 4u8) & 0x03);

            minifb_buffer[i * 256 + j] = (r << 16u32) | (g << 8u32) | b;
            j = j + 1;
        }
        i = i + 1;
        proof {
            assert(i * 256 == (i - 1) * 256 + 256) by (nonlinear_arith);
        }
    }
    proof {
        assert(192 * 256 == 49152);
    }
}

} // verus!
