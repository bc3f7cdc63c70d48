use stivale::framebuffer::{FramebufferInfo, FRAMEBUFFER_INFO_SIZE};

fn description(address: u64, pitch: u16, width: u16, height: u16, bpp: u16) -> Vec<u8> {
    let mut bytes = Vec::new();
    bytes.extend_from_slice(&address.to_le_bytes());
    bytes.extend_from_slice(&pitch.to_le_bytes());
    bytes.extend_from_slice(&width.to_le_bytes());
    bytes.extend_from_slice(&height.to_le_bytes());
    bytes.extend_from_slice(&bpp.to_le_bytes());
    bytes
}

#[test]
fn framebuffer_description_is_sixteen_bytes() {
    assert_eq!(FRAMEBUFFER_INFO_SIZE, 16);
    let bytes = description(0xfd00_0000, 4096, 1024, 768, 32);
    assert_eq!(bytes.len(), 16);
    assert!(FramebufferInfo::overlay(&bytes).is_some());
    assert!(FramebufferInfo::overlay(&bytes[..15]).is_none());
    assert!(FramebufferInfo::overlay(&[]).is_none());
    let mut longer = bytes.clone();
    longer.push(0);
    assert!(FramebufferInfo::overlay(&longer).is_none());
}

#[test]
fn framebuffer_fields_are_read_in_place() {
    let bytes = description(0xfd00_0000, 4096, 1024, 768, 32);
    let info = FramebufferInfo::overlay(&bytes).unwrap();
    assert_eq!(info.start_address(), 0xfd00_0000);
    assert_eq!(info.pitch(), 4096);
    assert_eq!(info.width(), 1024);
    assert_eq!(info.height(), 768);
    assert_eq!(info.bpp(), 32);
}

#[test]
fn framebuffer_fields_are_not_mixed_up() {
    let bytes = description(0x0102_0304_0506_0708, 0x1112, 0x2122, 0x3132, 0x4142);
    let info = FramebufferInfo::overlay(&bytes).unwrap();
    assert_eq!(info.start_address() as u64, 0x0102_0304_0506_0708u64 as usize as u64);
    assert_eq!(info.pitch(), 0x1112);
    assert_eq!(info.width(), 0x2122);
    assert_eq!(info.height(), 0x3132);
    assert_eq!(info.bpp(), 0x4142);
}

#[test]
fn framebuffer_size_is_pitch_times_height_times_bytes_per_pixel() {
    let bytes = description(0xfd00_0000, 4096, 1024, 768, 32);
    let info = FramebufferInfo::overlay(&bytes).unwrap();
    assert_eq!(info.size(), 4096 * 768 * 4);
    assert_eq!(info.size(), 12_582_912);
    assert_eq!(info.end_address(), 0xfd00_0000 + 12_582_912);
    assert_eq!(info.end_address(), info.start_address() + info.size());

    let bytes = description(0x1000, 160, 80, 25, 16);
    let info = FramebufferInfo::overlay(&bytes).unwrap();
    assert_eq!(info.size(), 160 * 25 * 2);
    assert_eq!(info.end_address(), 0x1000 + 8000);
}

#[test]
fn framebuffer_size_drops_the_bits_beyond_whole_bytes() {
    for (bpp, bytes_per_pixel) in [(15u16, 1usize), (24, 3), (31, 3), (33, 4), (8, 1), (9, 1)] {
        let bytes = description(0, 100, 50, 10, bpp);
        let info = FramebufferInfo::overlay(&bytes).unwrap();
        assert_eq!(info.size(), 100 * 10 * bytes_per_pixel);
    }
}

#[test]
fn framebuffer_of_nothing_has_no_size() {
    let bytes = description(0, 0, 0, 0, 0);
    let info = FramebufferInfo::overlay(&bytes).unwrap();
    assert_eq!(info.size(), 0);
    assert_eq!(info.start_address(), 0);
    assert_eq!(info.end_address(), 0);

    let bytes = description(0x2000, 640, 320, 200, 7);
    let info = FramebufferInfo::overlay(&bytes).unwrap();
    assert_eq!(info.size(), 0);
    assert_eq!(info.end_address(), 0x2000);
}

#[test]
fn framebuffer_width_does_not_enter_the_size() {
    let narrow = description(0, 4096, 1, 768, 32);
    let wide = description(0, 4096, 1024, 768, 32);
    let narrow = FramebufferInfo::overlay(&narrow).unwrap();
    let wide = FramebufferInfo::overlay(&wide).unwrap();
    assert_eq!(narrow.size(), wide.size());
}
