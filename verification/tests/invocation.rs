use rss2cloud_bridge::invocation::{
    add_magnet, add_rss_task, check_login_status, clear_tasks, get_folder_list, get_tasks,
    login_with_cookies, login_with_qr, start_server, Invocation,
};
use rss2cloud_bridge::text::decimal_string;

fn tool(arguments: &[&str]) -> Invocation {
    Invocation {
        program: String::from("rss2cloud"),
        arguments: arguments.iter().map(|a| a.to_string()).collect(),
    }
}

#[test]
fn qr_login_passes_the_single_flag() {
    assert_eq!(login_with_qr(), tool(&["-q"]));
}

#[test]
fn cookie_login_passes_the_cookies_after_their_flag() {
    assert_eq!(
        login_with_cookies(String::from("UID=1; CID=2")),
        tool(&["--cookies", "UID=1; CID=2"])
    );
}

#[test]
fn cookie_login_keeps_an_empty_value() {
    assert_eq!(login_with_cookies(String::new()), tool(&["--cookies", ""]));
}

#[test]
fn login_check_passes_the_single_flag() {
    assert_eq!(check_login_status(), tool(&["--check-login"]));
}

#[test]
fn feed_without_cache_bypass_has_no_marker() {
    let run = add_rss_task(String::from("https://example.org/feed.xml"), false);
    assert_eq!(run, tool(&["-u", "https://example.org/feed.xml"]));
    assert!(!run.arguments.iter().any(|a| a == "--no-cache"));
}

#[test]
fn feed_with_cache_bypass_ends_with_the_marker() {
    let run = add_rss_task(String::from("https://example.org/feed.xml"), true);
    assert_eq!(run, tool(&["-u", "https://example.org/feed.xml", "--no-cache"]));
}

#[test]
fn cache_bypass_adds_exactly_the_marker() {
    let plain = add_rss_task(String::from("u"), false);
    let bypass = add_rss_task(String::from("u"), true);
    let mut expected = plain.arguments.clone();
    expected.push(String::from("--no-cache"));
    assert_eq!(bypass.arguments, expected);
    assert_eq!(bypass.program, plain.program);
}

#[test]
fn clearing_tasks_writes_the_category_in_decimal() {
    assert_eq!(clear_tasks(3), tool(&["--clear-task-type", "3"]));
    assert_eq!(clear_tasks(0), tool(&["--clear-task-type", "0"]));
    assert_eq!(clear_tasks(-12), tool(&["--clear-task-type", "-12"]));
}

#[test]
fn clearing_tasks_takes_the_extreme_categories() {
    assert_eq!(clear_tasks(i32::MAX), tool(&["--clear-task-type", "2147483647"]));
    assert_eq!(clear_tasks(i32::MIN), tool(&["--clear-task-type", "-2147483648"]));
}

#[test]
fn task_listing_passes_the_single_flag() {
    assert_eq!(get_tasks(), tool(&["--list-tasks"]));
}

#[test]
fn magnet_passes_link_and_folder_in_order() {
    assert_eq!(
        add_magnet(String::from("magnet:?xt=urn:btih:abc"), String::from("42")),
        tool(&["magnet", "--link", "magnet:?xt=urn:btih:abc", "--cid", "42"])
    );
}

#[test]
fn server_without_port_has_no_port_flag() {
    let run = start_server(None);
    assert_eq!(run, tool(&["server"]));
    assert!(!run.arguments.iter().any(|a| a == "--port"));
}

#[test]
fn server_with_port_puts_it_right_after_the_flag() {
    let run = start_server(Some(String::from("8115")));
    assert_eq!(run, tool(&["server", "--port", "8115"]));
    let flag = run.arguments.iter().position(|a| a == "--port").unwrap();
    assert_eq!(run.arguments[flag + 1], "8115");
}

#[test]
fn server_keeps_a_port_that_is_no_number() {
    assert_eq!(start_server(Some(String::from("http"))), tool(&["server", "--port", "http"]));
}

#[test]
fn folder_listing_passes_the_single_flag() {
    assert_eq!(get_folder_list(), tool(&["--list-folders"]));
}

#[test]
fn decimal_matches_the_standard_rendering() {
    for n in [0, 1, 9, 10, 11, 99, 100, 101, 1000, 65535, -1, -9, -10, -100, i32::MAX, i32::MIN] {
        assert_eq!(decimal_string(n), n.to_string());
    }
}

#[test]
fn decimal_has_no_leading_zero_and_one_sign() {
    assert_eq!(decimal_string(7), "7");
    assert_eq!(decimal_string(-7), "-7");
    assert_eq!(decimal_string(1050), "1050");
    assert_eq!(decimal_string(-2001), "-2001");
}
