use xr_bringup::descriptors::device_descriptor;
use xr_bringup::queue::{family_supports_graphics, find_queue_family, QueueFamily, QueueFamilyIndices};

fn fam(queue_flags: u32, queue_count: u32) -> QueueFamily {
    QueueFamily { queue_flags, queue_count }
}

#[test]
fn only_third_family_has_graphics() {
    let fams = vec![fam(0b100, 2), fam(0b010, 1), fam(0b001, 1)];
    assert_eq!(find_queue_family(&fams).graphics_family, Some(2));
}

#[test]
fn first_match_wins_over_later_ones() {
    let fams = vec![fam(0b010, 4), fam(0b001, 1), fam(0b111, 16)];
    assert_eq!(find_queue_family(&fams).graphics_family, Some(1));
}

#[test]
fn family_without_queues_is_skipped() {
    let fams = vec![fam(0b001, 0), fam(0b011, 2)];
    assert_eq!(find_queue_family(&fams).graphics_family, Some(1));
}

#[test]
fn no_graphics_family() {
    let fams = vec![fam(0b110, 3), fam(0, 1)];
    let r = find_queue_family(&fams);
    assert_eq!(r.graphics_family, None);
    assert!(!r.is_complete());
    assert!(find_queue_family(&Vec::new()).graphics_family.is_none());
    assert!(device_descriptor(&fams).is_none());
}

#[test]
fn graphics_flag_is_bit_zero() {
    assert!(family_supports_graphics(&fam(0b1, 1)));
    assert!(family_supports_graphics(&fam(0b1011, 1)));
    assert!(!family_supports_graphics(&fam(0b1110, 1)));
}

#[test]
fn is_complete_once_graphics_is_found() {
    assert!(QueueFamilyIndices { graphics_family: Some(0) }.is_complete());
    assert!(!QueueFamilyIndices { graphics_family: None }.is_complete());
}

#[test]
fn device_descriptor_uses_one_queue_of_the_chosen_family() {
    let fams = vec![fam(0b100, 2), fam(0b011, 1)];
    let d = device_descriptor(&fams).unwrap();
    assert_eq!(d.queue_family_index, 1);
    assert_eq!(d.queue_count, 1);
    let exts: Vec<&[u8]> = d.extensions.iter().map(|e| e.as_slice()).collect();
    assert_eq!(
        exts,
        vec![&b"VK_KHR_swapchain"[..], b"VK_KHR_external_memory", b"VK_KHR_external_memory_fd"]
    );
}
