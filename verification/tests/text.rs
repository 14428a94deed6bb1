use deploy::text::{join, options_or_plain, ssh_options};

fn list(items: &[&str]) -> Vec<String> {
    items.iter().map(|s| s.to_string()).collect()
}

#[test]
fn join_puts_the_separator_between_neighbours() {
    assert_eq!(join(&list(&[]), " "), "");
    assert_eq!(join(&list(&["-A"]), " "), "-A");
    assert_eq!(join(&list(&["-A", "-v"]), " "), "-A -v");
    assert_eq!(join(&list(&["a", "", "b"]), ", "), "a, , b");
    assert_eq!(join(&list(&["", ""]), "-"), "-");
}

#[test]
fn plain_options_are_joined_with_spaces() {
    assert_eq!(ssh_options(&list(&["-A", "-v"])), "-A -v");
    assert_eq!(ssh_options(&list(&[])), "");
    assert_eq!(ssh_options(&list(&["-p", "2222"])), "-p 2222");
}

#[test]
fn options_with_spaces_are_quoted_for_the_shell() {
    let opts = list(&["-o", "ProxyCommand=ssh -W %h:%p jump"]);
    assert_eq!(ssh_options(&opts), "-o 'ProxyCommand=ssh -W %h:%p jump'");
    assert_ne!(ssh_options(&opts), join(&opts, " "));
}

#[test]
fn an_empty_option_is_kept_as_a_word() {
    assert_eq!(ssh_options(&list(&["-i", ""])), "-i ''");
}

#[test]
fn options_with_a_nul_fall_back_to_plain_joining() {
    let opts = list(&["-o", "User=a b\0c"]);
    assert_eq!(ssh_options(&opts), "-o User=a b\0c");
}

#[test]
fn options_or_plain_takes_the_quoting_where_there_is_one() {
    let opts = list(&["a b", "c"]);
    assert_eq!(options_or_plain(Ok("'a b' c".to_string()), &opts), "'a b' c");
    assert_eq!(options_or_plain(Err(shlex::QuoteError::Nul), &opts), "a b c");
}
