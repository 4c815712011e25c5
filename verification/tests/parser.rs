use rustygolem::parser::{command_prefix, ctcp_cmd, parse_ctcp, single_command, target, word, CTCP};

#[test]
fn test_parse_single_command() {
    assert_eq!(single_command("coucou", "coucou"), None, "need the command prefix");

    assert_eq!(single_command("coucou", "&other"), None, "only parses given word");

    assert_eq!(single_command("coucou", "&coucou"), Some(None), "can parse single command");

    assert_eq!(
        single_command("coucou", "&other > charlie"),
        None,
        "target doesn't impact given word"
    );

    assert_eq!(
        single_command("coucou", "&coucou > charlie"),
        Some(Some("charlie")),
        "also parses with target"
    );
}

#[test]
fn command_prefixes() {
    assert_eq!(single_command("date", "λdate"), Some(None));
    assert_eq!(single_command("date", "λλλdate"), Some(None));
    assert_eq!(single_command("date", "&&date"), Some(None));
    assert_eq!(single_command("date", "&λdate"), None);
    assert_eq!(single_command("date", "λ&date"), None);
    assert_eq!(single_command("date", "!date"), None);
    assert_eq!(single_command("date", ""), None);
    assert_eq!(single_command("date", "&"), None);
    assert_eq!(single_command("date", "&dat"), None);
    assert_eq!(single_command("", "&"), Some(None));
    // the prefix takes every leading ampersand
    assert_eq!(single_command("&x", "&&x"), None);
}

#[test]
fn command_targets() {
    assert_eq!(single_command("joke", "λjoke > charlie"), Some(Some("charlie")));
    assert_eq!(single_command("joke", "λjoke   >   charlie42  \t\r\n"), Some(Some("charlie42")));
    assert_eq!(single_command("joke", "λjoke> charlie"), Some(Some("charlie")));
    assert_eq!(single_command("joke", "λjoke >charlie"), None, "need a space after the >");
    assert_eq!(single_command("joke", "λjoke >"), None);
    assert_eq!(single_command("joke", "λjoke > "), None);
    assert_eq!(single_command("joke", "λjoke > charlie bob"), None);
    assert_eq!(single_command("joke", "λjoke > char-lie"), None);
    assert_eq!(single_command("joke", "λjoke > é"), None);
    assert_eq!(single_command("joke", "λjoke  \t \n"), Some(None));
    assert_eq!(single_command("joke", "λjokes"), None);
    assert_eq!(single_command("joke", "λjoke x"), None);
    assert_eq!(single_command("joke", "λjoke > > x"), None);
    assert_eq!(single_command("jöke", "λjöke > Zed9"), Some(Some("Zed9")));
}

#[test]
fn test_target() {
    assert_eq!(target("> coucou"), Some(("", "coucou")), "simple target");
    assert_eq!(target("  > coucou"), Some(("", "coucou")), "prefix spaces");
    assert_eq!(target(">   coucou"), Some(("", "coucou")), "spaces after >");
    assert_eq!(target("> coucou  "), Some(("", "coucou")), "trailing spaces");
    assert_eq!(target("  >   coucou  "), Some(("", "coucou")), "spaces everywhere");
    assert!(target(">coucou").is_none(), "need a space after the >");
}

#[test]
fn target_leaves_the_rest() {
    assert_eq!(target("> coucou and more"), Some(("and more", "coucou")));
    assert_eq!(target("> coucou-bis"), Some(("-bis", "coucou")));
    assert_eq!(target("coucou"), None);
    assert_eq!(target(""), None);
    assert_eq!(target("   "), None);
    assert_eq!(target(" > "), None);
    assert_eq!(target(" > -"), None);
}

#[test]
fn test_ctcp() {
    assert_eq!(parse_ctcp("\u{001}VERSION\u{001}"), Some(CTCP::VERSION), "version");

    assert_eq!(parse_ctcp("\u{001}TIME\u{001}"), Some(CTCP::TIME), "time");

    assert_eq!(parse_ctcp("\u{001}PING\u{001}"), Some(CTCP::PING(None)), "ping without argument");

    assert_eq!(
        parse_ctcp("\u{001}PING 123\u{001}"),
        Some(CTCP::PING(Some("123"))),
        "ping with argument"
    );
}

#[test]
fn ctcp_edges() {
    assert_eq!(parse_ctcp(""), None);
    assert_eq!(parse_ctcp("VERSION"), None);
    assert_eq!(parse_ctcp("\u{001}\u{001}"), None);
    assert_eq!(parse_ctcp("\u{001}VERSION"), None);
    assert_eq!(parse_ctcp("\u{001}FINGER\u{001}"), None);
    assert_eq!(parse_ctcp("\u{001}VERSION\u{001} \t\n"), Some(CTCP::VERSION));
    assert_eq!(parse_ctcp("\u{001}VERSION\u{001} x"), None);
    assert_eq!(parse_ctcp("\u{001}VERSION\u{001}\u{001}"), None);
    assert_eq!(parse_ctcp("\u{001}VERSIONS and more\u{001}"), Some(CTCP::VERSION));
    assert_eq!(parse_ctcp("\u{001}TIMER\u{001}"), Some(CTCP::TIME));
    assert_eq!(parse_ctcp("\u{001}PING   a b  \u{001}"), Some(CTCP::PING(Some("a b  "))));
    assert_eq!(parse_ctcp("\u{001}PING \u{001}"), Some(CTCP::PING(None)));
    assert_eq!(parse_ctcp("\u{001}PINGx\u{001}"), Some(CTCP::PING(None)));
    assert_eq!(parse_ctcp("\u{001}ping\u{001}"), None);
    assert_eq!(ctcp_cmd("PING\t1"), Some(CTCP::PING(Some("1"))));
    assert_eq!(ctcp_cmd(""), None);
}

#[test]
fn test_date() {
    assert_eq!(single_command("date", "λdate"), Some(None), "date with no target");
    assert_eq!(single_command("date", "λdate > charlie"), Some(Some("charlie")), "date with target");
}

#[test]
fn test_joke() {
    assert_eq!(single_command("joke", "λjoke"), Some(None), "joke with no target");
    assert_eq!(single_command("joke", "λjoke > charlie"), Some(Some("charlie")), "joke with target");
}

#[test]
fn test_word() {
    assert_eq!(word("coucou"), Some(("", "coucou")));
}

#[test]
fn words_and_prefixes() {
    assert_eq!(word("coucou42 and"), Some((" and", "coucou42")));
    assert_eq!(word("é"), None);
    assert_eq!(word(""), None);
    assert_eq!(word(" x"), None);
    assert_eq!(command_prefix("&&joke"), Some(("joke", "&&")));
    assert_eq!(command_prefix("λλλ"), Some(("", "λλλ")));
    assert_eq!(command_prefix("λ&joke"), Some(("&joke", "λ")));
    assert_eq!(command_prefix("joke"), None);
    assert_eq!(command_prefix(""), None);
}
