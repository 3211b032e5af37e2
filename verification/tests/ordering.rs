use uv_core::extras::sort_dedup;
use uv_core::order::{compare, Order};
use uv_core::text::{starts_with, strip_prefix};

fn samples() -> Vec<&'static str> {
    vec!["", "a", "A", "ab", "abc", "abd", "b", "security", "socks", "dotenv", "async", "é", "z", "zz", "日本", "-", "a-b", "a_b"]
}

#[test]
fn compare_agrees_with_the_order_of_strings() {
    for a in samples() {
        for b in samples() {
            let expected = if a < b {
                Order::Before
            } else if a == b {
                Order::Same
            } else {
                Order::After
            };
            assert_eq!(compare(a, b), expected, "{a:?} against {b:?}");
        }
    }
}

#[test]
fn compare_puts_a_prefix_first() {
    assert_eq!(compare("dot", "dotenv"), Order::Before);
    assert_eq!(compare("dotenv", "dot"), Order::After);
    assert_eq!(compare("dotenv", "dotenv"), Order::Same);
}

#[test]
fn sort_dedup_sorts_and_drops_repetitions() {
    let items: Vec<String> = ["dotenv", "async", "dotenv", "socks", "async"].iter().map(|s| s.to_string()).collect();
    let expected: Vec<String> = ["async", "dotenv", "socks"].iter().map(|s| s.to_string()).collect();
    assert_eq!(sort_dedup(&items), expected);
}

#[test]
fn sort_dedup_agrees_with_sorting_and_removing_neighbours() {
    let items: Vec<String> = samples().iter().chain(samples().iter().rev()).map(|s| s.to_string()).collect();
    let mut expected = items.clone();
    expected.sort_unstable();
    expected.dedup();
    assert_eq!(sort_dedup(&items), expected);
}

#[test]
fn sort_dedup_of_nothing_is_nothing() {
    assert_eq!(sort_dedup(&Vec::new()), Vec::<String>::new());
}

#[test]
fn sort_dedup_twice_changes_nothing() {
    let items: Vec<String> = ["b", "a", "c", "a"].iter().map(|s| s.to_string()).collect();
    let once = sort_dedup(&items);
    assert_eq!(sort_dedup(&once), once);
}

#[test]
fn starts_with_agrees_with_the_strings_own() {
    for a in samples() {
        for b in samples() {
            assert_eq!(starts_with(a, b), a.starts_with(b), "{a:?} and {b:?}");
            assert_eq!(strip_prefix(a, b), a.strip_prefix(b), "{a:?} and {b:?}");
        }
    }
}

#[test]
fn strip_prefix_gives_the_rest() {
    assert_eq!(strip_prefix("//localhost/home", "//localhost"), Some("/home"));
    assert_eq!(strip_prefix("//flask.whl", "//"), Some("flask.whl"));
    assert_eq!(strip_prefix("/flask.whl", "//"), None);
    assert_eq!(strip_prefix("日本語", "日本"), Some("語"));
}
