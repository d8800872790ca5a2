use vk_bootstrap::policy::{clamp, contains_all};

fn names(list: &[&str]) -> Vec<String> {
    list.iter().map(|s| s.to_string()).collect()
}

#[test]
fn subset_holds_regardless_of_order_and_duplicates() {
    let requested = names(&["VK_LAYER_KHRONOS_validation", "VK_KHR_surface"]);
    let available = names(&[
        "VK_KHR_surface",
        "VK_KHR_xcb_surface",
        "VK_LAYER_KHRONOS_validation",
        "VK_KHR_surface",
    ]);
    assert!(contains_all(&requested, &available));

    let duplicated_request = names(&["VK_KHR_surface", "VK_KHR_surface"]);
    assert!(contains_all(&duplicated_request, &available));
}

#[test]
fn subset_fails_on_missing_name() {
    let requested = names(&["VK_LAYER_KHRONOS_validation", "VK_LAYER_missing"]);
    let available = names(&["VK_LAYER_KHRONOS_validation"]);
    assert!(!contains_all(&requested, &available));
}

#[test]
fn subset_match_is_case_sensitive() {
    let requested = names(&["vk_khr_swapchain"]);
    let available = names(&["VK_KHR_swapchain"]);
    assert!(!contains_all(&requested, &available));
}

#[test]
fn subset_empty_request_always_holds() {
    let requested: Vec<String> = Vec::new();
    assert!(contains_all(&requested, &names(&["anything"])));
    assert!(contains_all(&requested, &Vec::new()));
}

#[test]
fn clamp_behaviour_over_the_interval() {
    assert_eq!(clamp(5, 10, 20), 10);
    assert_eq!(clamp(25, 10, 20), 20);
    assert_eq!(clamp(15, 10, 20), 15);
    assert_eq!(clamp(10, 10, 20), 10);
    assert_eq!(clamp(20, 10, 20), 20);
}
