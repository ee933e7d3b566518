use python_manager::notice::{Notice, Tone};
use python_manager::platform::{environment_dir, Platform};
use python_manager::text::{clone_strings, is_white_space_char, join, trim, with_forward_slashes};

fn strings(items: &[&str]) -> Vec<String> {
    items.iter().map(|s| s.to_string()).collect()
}

#[test]
fn join_puts_the_separator_between_neighbours() {
    assert_eq!(join(&strings(&["a", "b", "c"]), ", "), "a, b, c");
    assert_eq!(join(&strings(&["a", "b"]), " "), "a b");
    assert_eq!(join(&strings(&["only"]), ", "), "only");
    assert_eq!(join(&Vec::new(), ", "), "");
    assert_eq!(join(&strings(&["", ""]), "-"), "-");
    assert_eq!(join(&strings(&["a", "b"]), ""), "ab");
}

#[test]
fn clone_strings_copies_every_string() {
    let original = strings(&["x", "", "y z"]);
    assert_eq!(clone_strings(&original), original);
    assert!(clone_strings(&Vec::new()).is_empty());
}

#[test]
fn trim_removes_white_space_at_both_ends() {
    assert_eq!(trim("  y  "), "y");
    assert_eq!(trim("y"), "y");
    assert_eq!(trim(""), "");
    assert_eq!(trim(" \t\r\n"), "");
    assert_eq!(trim(" a b "), "a b");
    assert_eq!(trim("\u{3000}caf\u{e9}\u{2003}"), "caf\u{e9}");
}

#[test]
fn trim_agrees_with_the_standard_library() {
    let samples = [
        "", " ", "x", " x", "x ", "\n\nx y\n", "\u{a0}x\u{a0}", "\u{200b}x", "\u{1680}x\u{180e}",
        "\u{2000}\u{200a}x\u{2028}\u{2029}", "\u{202f}\u{205f}\u{3000}", "\u{85}x", "\u{b}\u{c}x",
        "\u{1f}x", "\u{feff}x",
    ];
    for sample in samples {
        assert_eq!(trim(sample), sample.trim(), "{:?}", sample);
    }
}

#[test]
fn white_space_is_what_unicode_says() {
    let mut code: u32 = 0;
    while code <= 0x3100 {
        if let Some(c) = char::from_u32(code) {
            assert_eq!(is_white_space_char(c), c.is_whitespace(), "U+{:04X}", code);
        }
        code += 1;
    }
    assert!(!is_white_space_char('\u{feff}'));
    assert!(!is_white_space_char('\u{10ffff}'));
}

#[test]
fn backslashes_become_forward_slashes() {
    assert_eq!(with_forward_slashes("C:\\Users\\me"), "C:/Users/me");
    assert_eq!(with_forward_slashes("/already/fine"), "/already/fine");
    assert_eq!(with_forward_slashes("\\\\"), "//");
    assert_eq!(with_forward_slashes(""), "");
    assert_eq!(with_forward_slashes("caf\u{e9}\\x"), "caf\u{e9}/x");
}

#[test]
fn an_environment_lies_directly_under_the_root() {
    assert_eq!(environment_dir("/srv/envs", "demo"), "/srv/envs/demo");
    assert_eq!(environment_dir("", "demo"), "/demo");
}

#[test]
fn the_activation_script_depends_on_the_platform() {
    assert_eq!(
        Platform::Posix.activation_script("/srv/envs", "demo"),
        "/srv/envs/demo/bin/activate"
    );
    assert_eq!(
        Platform::Windows.activation_script("C:/envs", "demo"),
        "C:/envs/demo/scripts/activate.ps1"
    );
}

#[test]
fn each_platform_has_its_command_shell() {
    assert_eq!(Platform::Posix.command_shell(), "bash");
    assert_eq!(Platform::Posix.command_flag(), "-c");
    assert_eq!(Platform::Windows.command_shell(), "pwsh");
    assert_eq!(Platform::Windows.command_flag(), "-Command");
}

#[test]
fn notices_are_built_from_their_parts() {
    assert_eq!(
        Notice::new(Tone::Warning, "careful"),
        Notice { tone: Tone::Warning, text: "careful".to_string() }
    );
    assert_eq!(
        Notice::labelled(Tone::Info, "Creating: ", "demo"),
        Notice { tone: Tone::Info, text: "Creating: demo".to_string() }
    );
}
