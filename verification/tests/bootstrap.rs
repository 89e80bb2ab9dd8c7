use vulkan_tutorial::constant::{vk_make_version, API_VERSION, APPLICATION_VERSION, ENGINE_VERSION};
use vulkan_tutorial::device_extensions::{get_required_extensions, DeviceExtensions};
use vulkan_tutorial::event::{draw_loop_action, main_loop_action, LoopAction, LoopEvent};
use vulkan_tutorial::tool::vk_to_string;
use vulkan_tutorial::validation::{
    check_wanted_are_provided, contains_string, Validation, ValidationError,
};
use vulkan_tutorial::{is_device_suitable, pick_physical_device, QueueFamilyIndicies};

/// A 256-byte Vulkan name buffer holding `name` followed by NULs.
fn name_buf(name: &str) -> Vec<i8> {
    let mut buf: Vec<i8> = name.bytes().map(|b| b as i8).collect();
    while buf.len() < 256 {
        buf.push(0);
    }
    buf
}

fn owned(names: &[&str]) -> Vec<String> {
    names.iter().map(|n| n.to_string()).collect()
}

#[test]
fn vk_to_string_stops_at_first_nul() {
    let buf: Vec<i8> = vec![72, 105, 0, 33, 0];
    assert_eq!(vk_to_string(&buf), "Hi");
}

#[test]
fn vk_to_string_without_nul_takes_all() {
    let buf: Vec<i8> = vec![97, 98, 99];
    assert_eq!(vk_to_string(&buf), "abc");
}

#[test]
fn vk_to_string_empty_and_leading_nul() {
    assert_eq!(vk_to_string(&[]), "");
    assert_eq!(vk_to_string(&[0, 65]), "");
}

#[test]
fn vk_to_string_maps_high_bytes_like_latin1() {
    // -1 is byte 0xFF, which reads as the character U+00FF
    let buf: Vec<i8> = vec![-1, 65, 0];
    assert_eq!(vk_to_string(&buf), "\u{ff}A");
}

#[test]
fn vk_make_version_packs_fields() {
    assert_eq!(vk_make_version(1, 0, 0), 1 << 22);
    assert_eq!(vk_make_version(1, 0, 92), (1 << 22) | 92);
    assert_eq!(vk_make_version(1, 2, 3), (1 << 22) | (2 << 12) | 3);
    assert_eq!(APPLICATION_VERSION, vk_make_version(1, 0, 0));
    assert_eq!(ENGINE_VERSION, vk_make_version(1, 0, 0));
    assert_eq!(API_VERSION, vk_make_version(1, 0, 92));
}

#[test]
fn contains_string_finds_exact_matches_only() {
    let provided = owned(&["VK_LAYER_KHRONOS_validation", "VK_LAYER_MESA_overlay"]);
    assert!(contains_string(&provided, &"VK_LAYER_MESA_overlay".to_string()));
    assert!(!contains_string(&provided, &"VK_LAYER_MESA".to_string()));
    assert!(!contains_string(&Vec::new(), &"anything".to_string()));
}

#[test]
fn check_wanted_reports_missing_in_order() {
    let wanted = owned(&["a", "b", "c", "b"]);
    let provided = owned(&["b", "x"]);
    let missing = check_wanted_are_provided(&wanted, &provided);
    assert_eq!(missing, owned(&["a", "c"]));
}

#[test]
fn check_wanted_all_provided_is_empty() {
    let wanted = owned(&["VK_LAYER_KHRONOS_validation"]);
    let provided = owned(&["other", "VK_LAYER_KHRONOS_validation"]);
    assert!(check_wanted_are_provided(&wanted, &provided).is_empty());
    assert!(check_wanted_are_provided(&Vec::new(), &provided).is_empty());
}

#[test]
fn check_wanted_nothing_provided_keeps_all() {
    let wanted = owned(&["a", "b"]);
    let missing = check_wanted_are_provided(&wanted, &Vec::new());
    assert_eq!(missing, wanted);
}

#[test]
fn select_layers_keeps_wanted_when_all_are_provided() {
    let wanted = owned(&["VK_LAYER_KHRONOS_validation"]);
    let names = vec![name_buf("VK_LAYER_other"), name_buf("VK_LAYER_KHRONOS_validation")];
    let validation = Validation::select_layers(&wanted, &names).expect("all layers provided");
    assert_eq!(validation.layers(), &wanted);
    let empty = Validation::select_layers(&Vec::new(), &Vec::new()).expect("nothing wanted");
    assert!(empty.layers().is_empty());
}

#[test]
fn select_layers_reports_exactly_the_missing_ones() {
    let wanted = owned(&["VK_LAYER_a", "VK_LAYER_b", "VK_LAYER_c"]);
    let names = vec![name_buf("VK_LAYER_b")];
    match Validation::select_layers(&wanted, &names) {
        Err(ValidationError::MissingLayers(missing)) => {
            assert_eq!(missing, owned(&["VK_LAYER_a", "VK_LAYER_c"]));
        }
        other => panic!("expected missing layers, got {:?}", other.map(|v| v.layers().clone())),
    }
}

#[test]
fn required_extensions_are_filtered_by_name() {
    let available = vec![
        name_buf("VK_KHR_swapchain"),
        name_buf("VK_KHR_portability_subset"),
        name_buf("VK_EXT_debug_utils"),
        name_buf("VK_KHR_portability_subset"),
    ];
    let required = get_required_extensions(&available);
    assert_eq!(
        required,
        owned(&["VK_KHR_portability_subset", "VK_KHR_portability_subset"])
    );
    assert!(get_required_extensions(&vec![name_buf("VK_KHR_swapchain")]).is_empty());
}

#[test]
fn device_extensions_keep_the_required_names() {
    let available = vec![name_buf("VK_KHR_portability_subset"), name_buf("other")];
    let exts = DeviceExtensions::new(&available);
    assert_eq!(exts.extensions(), &owned(&["VK_KHR_portability_subset"]));
    let none = DeviceExtensions::default();
    assert!(none.extensions().is_empty());
}

#[test]
fn for_device_finds_first_graphics_family() {
    let flags: Vec<u32> = vec![0b1100, 0b0001, 0b0011];
    let indicies = QueueFamilyIndicies::for_device(&flags);
    assert_eq!(indicies.graphics, Some(1));
    assert!(indicies.is_complete());
}

#[test]
fn for_device_without_graphics_family() {
    let flags: Vec<u32> = vec![0b0100, 0b0010];
    let indicies = QueueFamilyIndicies::for_device(&flags);
    assert_eq!(indicies.graphics, None);
    assert!(!indicies.is_complete());
    assert_eq!(QueueFamilyIndicies::for_device(&Vec::new()).graphics, None);
}

#[test]
fn device_suitability_needs_a_graphics_family() {
    assert!(is_device_suitable(&vec![0b0010, 0b0111]));
    assert!(!is_device_suitable(&vec![0b0010, 0b0100]));
    assert!(!is_device_suitable(&Vec::new()));
}

#[test]
fn pick_physical_device_takes_first_suitable() {
    let devices: Vec<Vec<u32>> = vec![vec![0b0100], vec![0b0010, 0b0001], vec![0b0001]];
    assert_eq!(pick_physical_device(&devices), Some(1));
    assert_eq!(pick_physical_device(&vec![vec![0b0100], vec![]]), None);
    assert_eq!(pick_physical_device(&Vec::new()), None);
}

#[test]
fn main_loop_exits_on_close_and_escape() {
    assert_eq!(main_loop_action(&LoopEvent::CloseRequested), LoopAction::Exit);
    assert_eq!(
        main_loop_action(&LoopEvent::KeyboardInput { is_escape: true, pressed: true }),
        LoopAction::Exit
    );
    assert_eq!(
        main_loop_action(&LoopEvent::KeyboardInput { is_escape: true, pressed: false }),
        LoopAction::Continue
    );
    assert_eq!(
        main_loop_action(&LoopEvent::KeyboardInput { is_escape: false, pressed: true }),
        LoopAction::Continue
    );
    assert_eq!(main_loop_action(&LoopEvent::MainEventsCleared), LoopAction::Continue);
    assert_eq!(main_loop_action(&LoopEvent::RedrawRequested), LoopAction::Continue);
    assert_eq!(main_loop_action(&LoopEvent::Other), LoopAction::Continue);
}

#[test]
fn draw_loop_redraws_and_draws() {
    assert_eq!(draw_loop_action(&LoopEvent::CloseRequested), LoopAction::Exit);
    assert_eq!(
        draw_loop_action(&LoopEvent::KeyboardInput { is_escape: true, pressed: true }),
        LoopAction::Exit
    );
    assert_eq!(draw_loop_action(&LoopEvent::MainEventsCleared), LoopAction::RequestRedraw);
    assert_eq!(draw_loop_action(&LoopEvent::RedrawRequested), LoopAction::DrawFrame);
    assert_eq!(draw_loop_action(&LoopEvent::Other), LoopAction::Continue);
}
