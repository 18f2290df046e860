use redefyning::debug::{Category, DebugEvent, Severity, ACCEPTED_CATEGORIES, ACCEPTED_SEVERITIES};
use redefyning::instance::{create_instance, offers_validation_layer, sanitize_name, sanitize_names};
use redefyning::version::MINIMUM_API_VERSION;
use redefyning::VkDebug;

#[test]
fn embedded_nul_is_stripped_from_the_name() {
    assert_eq!(sanitize_name("A\0B"), "AB");
    assert!(!sanitize_name("A\0B").contains('\0'));
    assert_eq!(sanitize_name("A\0B").len(), 2);
}

#[test]
fn name_without_nul_is_unchanged() {
    assert_eq!(sanitize_name("Redefyning Editor"), "Redefyning Editor");
    assert_eq!(sanitize_name(""), "");
    assert_eq!(sanitize_name("h\u{e9}llo \u{1f600}"), "h\u{e9}llo \u{1f600}");
}

#[test]
fn every_nul_is_stripped() {
    assert_eq!(sanitize_name("\0"), "");
    assert_eq!(sanitize_name("\0\0a\0\0b\0"), "ab");
    assert_eq!(sanitize_name("x\0\u{e9}\0"), "x\u{e9}");
    assert_eq!(sanitize_names(&vec!["a\0".to_string(), "".to_string(), "b".to_string()]), vec!["a", "", "b"]);
}

#[test]
fn instance_request_asks_for_everything_enumerated() {
    let layers = vec!["VK_LAYER_KHRONOS_validation".to_string(), "VK_LAYER_MESA_overlay".to_string()];
    let extensions = vec!["VK_KHR_surface".to_string(), "VK_KHR_xcb_surface".to_string(), "VK_EXT_debug_utils".to_string()];
    let request = create_instance("ed\0itor", (0, 1, 2, 3), &layers, &extensions);
    assert_eq!(request.application.application_name, "editor");
    assert_eq!(request.application.application_version, ash::vk::make_api_version(0, 1, 2, 3));
    assert_eq!(request.application.application_version, (1 << 22) | (2 << 12) | 3);
    assert_eq!(request.application.engine_name, "Redefyning");
    assert_eq!(request.application.engine_version, 0);
    assert_eq!(request.application.api_version, MINIMUM_API_VERSION);
    assert!(request.enumerate_portability);
    assert_eq!(request.layers, layers);
    assert_eq!(request.extensions, extensions);
}

#[test]
fn instance_request_with_nothing_enumerated() {
    let request = create_instance("", (1, 0, 0, 0), &Vec::new(), &Vec::new());
    assert_eq!(request.application.application_name, "");
    assert_eq!(request.application.application_version, 1 << 29);
    assert!(request.layers.is_empty());
    assert!(request.extensions.is_empty());
}

#[test]
fn debug_filter_has_the_flags_of_the_api() {
    let sink = VkDebug::new();
    assert_eq!(sink.severities, ACCEPTED_SEVERITIES);
    assert_eq!(sink.categories, ACCEPTED_CATEGORIES);
    assert_eq!(
        sink.severities,
        (ash::vk::DebugUtilsMessageSeverityFlagsEXT::WARNING | ash::vk::DebugUtilsMessageSeverityFlagsEXT::ERROR)
            .as_raw()
    );
    assert_eq!(
        sink.categories,
        (ash::vk::DebugUtilsMessageTypeFlagsEXT::VALIDATION | ash::vk::DebugUtilsMessageTypeFlagsEXT::PERFORMANCE)
            .as_raw()
    );
}

#[test]
fn debug_sink_accepts_warning_and_error_of_validation_and_performance() {
    let sink = VkDebug::new();
    for severity in [Severity::Verbose, Severity::Info, Severity::Warning, Severity::Error] {
        for category in [Category::General, Category::Validation, Category::Performance] {
            let expected = matches!(severity, Severity::Warning | Severity::Error)
                && matches!(category, Category::Validation | Category::Performance);
            assert_eq!(sink.accepts(severity, category), expected);
            let event = DebugEvent { severity, category, message: "m".to_string() };
            assert_eq!(sink.vk_debug_callback(&event).is_some(), expected);
        }
    }
    assert!(sink.accepts_severity(Severity::Error));
    assert!(!sink.accepts_severity(Severity::Info));
    assert!(sink.accepts_category(Category::Performance));
    assert!(!sink.accepts_category(Category::General));
}

#[test]
fn accepted_event_is_emitted_as_text() {
    let sink = VkDebug::new();
    let event = DebugEvent {
        severity: Severity::Warning,
        category: Category::Validation,
        message: "image layout mismatch".to_string(),
    };
    assert_eq!(
        sink.vk_debug_callback(&event),
        Some("Type: VALIDATION, Severity: WARNING, Message: image layout mismatch".to_string())
    );
    let discarded = DebugEvent {
        severity: Severity::Info,
        category: Category::Validation,
        message: "image layout mismatch".to_string(),
    };
    assert_eq!(sink.vk_debug_callback(&discarded), None);
}

#[test]
fn a_narrower_filter_lets_less_pass() {
    let errors_only = VkDebug { severities: Severity::Error.raw(), categories: Category::Validation.raw() };
    assert!(errors_only.accepts(Severity::Error, Category::Validation));
    assert!(!errors_only.accepts(Severity::Warning, Category::Validation));
    assert!(!errors_only.accepts(Severity::Error, Category::Performance));
    let nothing = VkDebug { severities: 0, categories: 0 };
    assert!(!nothing.accepts(Severity::Error, Category::Validation));
}

#[test]
fn severities_and_categories_are_read_from_raw_flags() {
    assert_eq!(Severity::from_raw(ash::vk::DebugUtilsMessageSeverityFlagsEXT::VERBOSE.as_raw()), Some(Severity::Verbose));
    assert_eq!(Severity::from_raw(ash::vk::DebugUtilsMessageSeverityFlagsEXT::INFO.as_raw()), Some(Severity::Info));
    assert_eq!(Severity::from_raw(ash::vk::DebugUtilsMessageSeverityFlagsEXT::WARNING.as_raw()), Some(Severity::Warning));
    assert_eq!(Severity::from_raw(ash::vk::DebugUtilsMessageSeverityFlagsEXT::ERROR.as_raw()), Some(Severity::Error));
    assert_eq!(Severity::from_raw(0), None);
    assert_eq!(Severity::from_raw(0x1100), None);
    assert_eq!(Category::from_raw(ash::vk::DebugUtilsMessageTypeFlagsEXT::GENERAL.as_raw()), Some(Category::General));
    assert_eq!(Category::from_raw(ash::vk::DebugUtilsMessageTypeFlagsEXT::VALIDATION.as_raw()), Some(Category::Validation));
    assert_eq!(Category::from_raw(ash::vk::DebugUtilsMessageTypeFlagsEXT::PERFORMANCE.as_raw()), Some(Category::Performance));
    assert_eq!(Category::from_raw(ash::vk::DebugUtilsMessageTypeFlagsEXT::DEVICE_ADDRESS_BINDING.as_raw()), None);
    assert_eq!(Category::from_raw(6), None);
    for severity in [Severity::Verbose, Severity::Info, Severity::Warning, Severity::Error] {
        assert_eq!(Severity::from_raw(severity.raw()), Some(severity));
    }
    for category in [Category::General, Category::Validation, Category::Performance] {
        assert_eq!(Category::from_raw(category.raw()), Some(category));
    }
    assert_eq!(Severity::Warning.name(), "WARNING");
    assert_eq!(Category::Performance.name(), "PERFORMANCE");
}

#[test]
fn validation_layer_is_looked_up_by_its_exact_name() {
    let with = vec!["VK_LAYER_MESA_overlay".to_string(), "VK_LAYER_KHRONOS_validation".to_string()];
    let without = vec!["VK_LAYER_MESA_overlay".to_string(), "VK_LAYER_KHRONOS_validation2".to_string()];
    assert!(offers_validation_layer(&with));
    assert!(!offers_validation_layer(&without));
    assert!(!offers_validation_layer(&Vec::new()));
}
