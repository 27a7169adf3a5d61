use ferrite::lists::{concat_lists, join_strings};

fn strings(items: &[&str]) -> Vec<String> {
    items.iter().map(|s| s.to_string()).collect()
}

#[test]
fn concat_keeps_order() {
    let l = concat_lists(strings(&["hello", "world"]), strings(&["foo", "bar", "baz"]));
    assert_eq!(l, strings(&["hello", "world", "foo", "bar", "baz"]));
}

#[test]
fn concat_with_empty() {
    assert_eq!(concat_lists(vec![], strings(&["a"])), strings(&["a"]));
    assert_eq!(concat_lists(strings(&["a"]), vec![]), strings(&["a"]));
}

#[test]
fn join_puts_separator_between_items() {
    let l = strings(&["hello", "world", "foo", "bar", "baz"]);
    assert_eq!(join_strings(&l, ", "), "hello, world, foo, bar, baz");
}

#[test]
fn join_of_one_and_of_none() {
    assert_eq!(join_strings(&strings(&["only"]), ", "), "only");
    assert_eq!(join_strings(&vec![], ", "), "");
}
