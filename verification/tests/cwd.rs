use term_core::error::Failure;
use term_core::fs::commands::command_checker;
use term_core::fs::cwd::{children_path, cwd_link, find_child_pid, target_pid};
use term_core::pty::manager::Platform;
use term_core::text::{first_word, push_decimal};

#[test]
fn proc_paths_name_the_process() {
    assert_eq!(children_path(1234), "/proc/1234/task/1234/children");
    assert_eq!(cwd_link(1234), "/proc/1234/cwd");
    assert_eq!(cwd_link(0), "/proc/0/cwd");
    assert_eq!(cwd_link(u32::MAX), "/proc/4294967295/cwd");
}

#[test]
fn decimal_text_agrees_with_std() {
    for n in [0u32, 1, 9, 10, 11, 99, 100, 101, 1000, 65535, 4294967295] {
        let mut s = String::from("x");
        push_decimal(&mut s, n);
        assert_eq!(s, format!("x{}", n));
    }
}

#[test]
fn first_word_agrees_with_std() {
    for text in ["", " ", "12", "12 34", "  12\t34 ", "\n7\n", "a\u{00A0}b", "\u{3000}x y"] {
        assert_eq!(first_word(text), text.split_whitespace().next().unwrap_or(""), "for {:?}", text);
    }
}

#[test]
fn first_child_is_the_first_number() {
    assert_eq!(find_child_pid("4711 4712 4713 "), Some(4711));
    assert_eq!(find_child_pid("  42\n"), Some(42));
    assert_eq!(find_child_pid("+5"), Some(5));
    assert_eq!(find_child_pid("4294967295"), Some(u32::MAX));
}

#[test]
fn no_child_where_there_is_no_number() {
    assert_eq!(find_child_pid(""), None);
    assert_eq!(find_child_pid("   \n"), None);
    assert_eq!(find_child_pid("abc 12"), None);
    assert_eq!(find_child_pid("12abc"), None);
    assert_eq!(find_child_pid("-1"), None);
    assert_eq!(find_child_pid("4294967296"), None);
}

#[test]
fn first_child_agrees_with_std() {
    for text in ["1 2", "", "x", "007", "4294967295 1", "4294967296", " 9 ", "+3 4", "١٢"] {
        let expected = text.split_whitespace().next().and_then(|w| w.parse::<u32>().ok());
        assert_eq!(find_child_pid(text), expected, "for {:?}", text);
    }
}

#[test]
fn target_is_the_shell_inside_the_sandbox() {
    assert_eq!(target_pid(true, 10, Some(12)), 12);
    assert_eq!(target_pid(true, 10, None), 10);
    assert_eq!(target_pid(false, 10, Some(12)), 10);
    assert_eq!(target_pid(false, 10, None), 10);
}

#[test]
fn missing_process_is_named() {
    assert_eq!(Failure::ProcessNotFound(4711).message(), "Process 4711 not found");
    assert_eq!(Failure::ProcessNotFound(0).message(), "Process 0 not found");
}

#[test]
fn commands_are_looked_up_by_the_platforms_tool() {
    assert_eq!(command_checker(Platform::Linux), "which");
    assert_eq!(command_checker(Platform::Unix), "which");
    assert_eq!(command_checker(Platform::Windows), "where");
}
