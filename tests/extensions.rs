use xr_bringup::extensions::{
    available_extension_names, extension_name, push_c_names, required_extension_names,
    split_words, vulkan_instance_extensions, xr_instance_extensions, ExtensionListError,
};

fn buffer_with(text: &str) -> (Vec<u8>, u32) {
    let mut buffer = vec![0u8; 256];
    buffer[..text.len()].copy_from_slice(text.as_bytes());
    (buffer, text.len() as u32 + 1)
}

fn entry(name: &str) -> Vec<u8> {
    let mut e = vec![0u8; 128];
    e[..name.len()].copy_from_slice(name.as_bytes());
    e
}

fn strings(names: &[Vec<u8>]) -> Vec<String> {
    names.iter().map(|n| String::from_utf8(n.clone()).unwrap()).collect()
}

#[test]
fn required_string_splits_into_two_names_in_order() {
    let (buffer, count) = buffer_with("VK_KHR_swapchain VK_KHR_surface");
    let names = required_extension_names(&buffer, count).unwrap();
    assert_eq!(strings(&names), vec!["VK_KHR_swapchain", "VK_KHR_surface"]);
}

#[test]
fn required_string_splits_on_every_ascii_whitespace() {
    let (buffer, count) = buffer_with("  a\tbb\n\x0cc\r  d ");
    let names = required_extension_names(&buffer, count).unwrap();
    assert_eq!(strings(&names), vec!["a", "bb", "c", "d"]);
}

#[test]
fn empty_required_string_has_no_names() {
    let (buffer, count) = buffer_with("");
    assert_eq!(required_extension_names(&buffer, count).unwrap().len(), 0);
    assert!(split_words(b"   ").is_empty());
}

#[test]
fn required_string_count_out_of_range() {
    let buffer = vec![b'a'; 256];
    assert_eq!(required_extension_names(&buffer, 0), Err(ExtensionListError::CountOutOfRange));
    assert_eq!(required_extension_names(&buffer, 258), Err(ExtensionListError::CountOutOfRange));
    assert_eq!(required_extension_names(&buffer, 257).unwrap().len(), 1);
}

#[test]
fn required_string_with_embedded_nul() {
    let mut buffer = vec![0u8; 16];
    buffer[..5].copy_from_slice(b"ab\0cd");
    assert_eq!(required_extension_names(&buffer, 6), Err(ExtensionListError::EmbeddedNul));
    assert_eq!(strings(&required_extension_names(&buffer, 3).unwrap()), vec!["ab"]);
}

#[test]
fn enumeration_yields_exactly_the_reported_names() {
    let listed = ["XR_KHR_vulkan_enable", "XR_KHR_android_create_instance", "XR_EXT_debug_utils"];
    let entries: Vec<Vec<u8>> = listed.iter().map(|n| entry(n)).collect();
    let n = entries.len() as u32;
    let names = available_extension_names(n, n, &entries).unwrap();
    assert_eq!(names.len(), 3);
    assert_eq!(strings(&names), listed.to_vec());
    assert!(names.iter().all(|name| !name.contains(&0)));
}

#[test]
fn enumeration_of_nothing() {
    assert_eq!(available_extension_names(0, 0, &Vec::new()).unwrap().len(), 0);
}

#[test]
fn enumeration_count_beyond_buffer() {
    let entries = vec![entry("a"), entry("b")];
    assert_eq!(available_extension_names(1, 2, &entries), Err(ExtensionListError::CountOutOfRange));
    assert_eq!(available_extension_names(3, 3, &entries), Err(ExtensionListError::CountOutOfRange));
    assert_eq!(available_extension_names(2, 1, &entries).unwrap().len(), 1);
}

#[test]
fn enumeration_entry_without_terminator() {
    let entries = vec![entry("a"), vec![b'x'; 128]];
    assert_eq!(available_extension_names(2, 2, &entries), Err(ExtensionListError::UnterminatedName));
    assert_eq!(extension_name(&vec![b'x'; 4]), None);
    assert_eq!(extension_name(&b"ab\0cd\0".to_vec()), Some(b"ab".to_vec()));
}

#[test]
fn xr_extensions_put_platform_ones_first_and_keep_duplicates() {
    let extra = vec![b"XR_KHR_vulkan_enable".to_vec(), b"bad\0name".to_vec(), b"XR_EXT_x".to_vec()];
    let r = xr_instance_extensions(&extra);
    assert_eq!(
        strings(&r),
        vec!["XR_KHR_vulkan_enable", "XR_KHR_android_create_instance", "XR_KHR_vulkan_enable", "XR_EXT_x"]
    );
}

#[test]
fn vulkan_extensions_start_with_debug_report() {
    let r = vulkan_instance_extensions(&vec![b"VK_KHR_surface".to_vec()]);
    assert_eq!(strings(&r), vec!["VK_EXT_debug_report", "VK_KHR_surface"]);
}

#[test]
fn c_names_are_appended_in_order() {
    let mut out = vec![b"first".to_vec()];
    push_c_names(&mut out, &vec![b"\0".to_vec(), b"second".to_vec(), Vec::new()]);
    assert_eq!(out, vec![b"first".to_vec(), b"second".to_vec(), Vec::new()]);
}
