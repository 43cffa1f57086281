use nechto::config::{Config, ValueMap};

#[test]
fn config_reads_set_values_and_defaults() {
    let config = Config::parse("window.width = 1024\nvulkan.enable_debug = true\n#comment\n");
    assert_eq!(config.window_width, 1024);
    assert_eq!(config.window_height, 600);
    assert!(config.render.vulkan_enable_debug);
}

#[test]
fn config_defaults_for_empty_text() {
    let config = Config::parse("");
    assert_eq!(config.window_width, 800);
    assert_eq!(config.window_height, 600);
    assert!(!config.render.vulkan_enable_debug);
}

#[test]
fn config_unparsable_values_fall_back() {
    let config = Config::parse("window.width = wide\nwindow.height = 99999999999\nvulkan.enable_debug = yes\n");
    assert_eq!(config.window_width, 800);
    assert_eq!(config.window_height, 600);
    assert!(!config.render.vulkan_enable_debug);
}

#[test]
fn ini_skips_blank_comment_and_malformed_lines() {
    let map = ValueMap::parse_ini("  \n# a = b\nno separator here\n  key =  spaced value  \r\n");
    assert_eq!(map.string("a", "none".to_string()), "none");
    assert_eq!(map.string("# a", "none".to_string()), "none");
    assert_eq!(map.string("key", String::new()), "spaced value");
}

#[test]
fn ini_later_line_wins_and_first_equals_splits() {
    let map = ValueMap::parse_ini("x = 1\nx = 2\nexpr = a=b\n");
    assert_eq!(map.u32("x", 0), 2);
    assert_eq!(map.string("expr", String::new()), "a=b");
}

#[test]
fn ini_numbers_and_bools() {
    let map = ValueMap::parse_ini("n = +42\nbig = 4294967295\nover = 4294967296\nneg = -1\nt = true\nf = false\nT = True\n");
    assert_eq!(map.u32("n", 0), 42);
    assert_eq!(map.u32("big", 0), 4294967295);
    assert_eq!(map.u32("over", 7), 7);
    assert_eq!(map.u32("neg", 7), 7);
    assert!(map.bool("t", false));
    assert!(!map.bool("f", true));
    assert!(map.bool("T", true));
    assert!(!map.bool("T", false));
    assert!(map.bool("missing", true));
}
