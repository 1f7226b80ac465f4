use lastcmd::expand::expand;

#[test]
fn template_without_token_is_unchanged() {
    assert_eq!(expand("echo hello", "ls -la"), "echo hello");
    assert_eq!(expand("a ! b ! c", "ls"), "a ! b ! c");
    assert_eq!(expand("!", "ls"), "!");
    assert_eq!(expand("", "ls"), "");
}

#[test]
fn token_in_the_middle() {
    assert_eq!(expand("echo !! done", "ls -la"), "echo ls -la done");
}

#[test]
fn every_token_is_replaced() {
    assert_eq!(expand("!! && !!", "foo"), "foo && foo");
    assert_eq!(expand("!!!!", "ab"), "abab");
    assert_eq!(expand("x!!y!!z!!", "-"), "x-y-z-");
}

#[test]
fn template_that_is_one_token() {
    assert_eq!(expand("!!", "make test"), "make test");
}

#[test]
fn odd_run_leaves_last_bang() {
    assert_eq!(expand("!!!", "ls"), "ls!");
    assert_eq!(expand("!!!!!", "ls"), "lsls!");
    assert_eq!(expand("a!!!b", "ls"), "als!b");
}

#[test]
fn previous_command_is_not_scanned_again() {
    assert_eq!(expand("!!", "echo !!"), "echo !!");
    assert_eq!(expand("!!!", "!"), "!!");
    assert_eq!(expand("a!! !!b", "!!"), "a!! !!b");
}

#[test]
fn empty_previous_command_removes_tokens() {
    assert_eq!(expand("a!!b", ""), "ab");
    assert_eq!(expand("!!", ""), "");
}

#[test]
fn text_beyond_ascii_is_kept() {
    assert_eq!(expand("écho !! ✓", "ls ~/Música"), "écho ls ~/Música ✓");
    assert_eq!(expand("¡!!¡", "ñ"), "¡ñ¡");
}

#[test]
fn length_of_expansion() {
    let previous = "12345";
    let expanded = expand("ab!!cd!!", previous);
    assert_eq!(expanded.len(), 4 + 2 * previous.len());
}

#[test]
fn agrees_with_replace_of_std() {
    let templates = [
        "", "!", "!!", "!!!", "!!!!", "a", "a!", "!a", "a!!", "!!a", "a!!b", "!a!", "! !", "!!a!!",
        "echo !! | grep !!", "sudo !!", "!!;!!;!!", "é!!é", "a!b!!c!!!d!!!!e",
    ];
    let commands = ["", "x", "!", "!!", "ls -la", "echo '!!'", "über"];
    for template in templates {
        for command in commands {
            assert_eq!(expand(template, command), template.replace("!!", command));
        }
    }
}
