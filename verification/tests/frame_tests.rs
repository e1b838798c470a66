use console_core::frame::convert_sms_color;
use console_core::frame::vdp_buffer_to_minifb_buffer;

#[test]
fn color_components_expand_exactly() {
    assert_eq!(convert_sms_color(0), 0);
    assert_eq!(convert_sms_color(1), 85);
    assert_eq!(convert_sms_color(2), 170);
    assert_eq!(convert_sms_color(3), 255);
}

#[test]
fn frame_pixels_pack_rgb() {
    let mut vdp = vec![0u8; 192 * 256];
    // Full red, full green, full blue, and a mixed color.
    vdp[0] = 0x03;
    vdp[1] = 0x0C;
    vdp[2] = 0x30;
    vdp[3] = 0b01_10_11;
    vdp[255] = 0x3F;
    vdp[191 * 256 + 255] = 0x15;
    let mut out = vec![0u32; 192 * 256];
    vdp_buffer_to_minifb_buffer(&vdp, &mut out);
    assert_eq!(out[0], 255 << 16);
    assert_eq!(out[1], 255 << 8);
    assert_eq!(out[2], 255);
    assert_eq!(out[3], (255 << 16) | (170 << 8) | 85);
    assert_eq!(out[255], (255 << 16) | (255 << 8) | 255);
    assert_eq!(out[191 * 256 + 255], (85 << 16) | (85 << 8) | 85);
    assert_eq!(out[100], 0);
}
