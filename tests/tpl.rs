use emerge::tpl::Tpl;

#[test]
fn test_template_parsing() {
    let mut tpl = Tpl::new();
    tpl.register("VERSION", "1.0.0");
    tpl.register("PLATFORM", "macos");

    let result = tpl.parse("app-$VERSION-$PLATFORM.dmg");
    assert_eq!(result, "app-1.0.0-macos.dmg");
}

#[test]
fn test_multiple_occurrences() {
    let mut tpl = Tpl::new();
    tpl.register("NAME", "test");

    let result = tpl.parse("$NAME-$NAME");
    assert_eq!(result, "test-test");
}

#[test]
fn two_variables_substitute() {
    let mut tpl = Tpl::new();
    tpl.register("A", "x");
    tpl.register("B", "y");
    assert_eq!(tpl.parse("$A-$B"), "x-y");
}

#[test]
fn repeated_token_all_substitute() {
    let mut tpl = Tpl::new();
    tpl.register("A", "z");
    assert_eq!(tpl.parse("$A-$A"), "z-z");
}

#[test]
fn unregistered_tokens_pass_through() {
    let mut tpl = Tpl::new();
    tpl.register("NAME", "app");
    assert_eq!(tpl.parse("$OTHER/$NAME/$"), "$OTHER/app/$");
    assert_eq!(tpl.parse("no tokens here"), "no tokens here");
}

#[test]
fn text_without_tokens_is_unchanged_twice() {
    let mut tpl = Tpl::new();
    tpl.register("NAME", "app");
    let once = tpl.parse("$NAME-1");
    assert_eq!(once, "app-1");
    assert_eq!(tpl.parse(&once), once);
}

#[test]
fn registering_again_replaces_value() {
    let mut tpl = Tpl::new();
    tpl.register("NAME", "first");
    tpl.register("NAME", "second");
    assert_eq!(tpl.parse("$NAME"), "second");
}

#[test]
fn substituted_value_not_rescanned_for_itself() {
    let mut tpl = Tpl::new();
    tpl.register("A", "$A$A");
    assert_eq!(tpl.parse("$A"), "$A$A");
}

#[test]
fn empty_processor_changes_nothing() {
    let tpl = Tpl::default();
    assert_eq!(tpl.parse("$NAME"), "$NAME");
}

#[test]
fn parse_vec_keeps_order() {
    let mut tpl = Tpl::new();
    tpl.register("NAME", "demo");
    let input = vec!["cargo build -p $NAME".to_string(), "strip $NAME".to_string()];
    let out = tpl.parse_vec(&input);
    assert_eq!(out, vec!["cargo build -p demo".to_string(), "strip demo".to_string()]);
}

#[test]
fn substituted_values_are_not_rescanned() {
    let mut tpl = Tpl::new();
    tpl.register("A", "$B");
    tpl.register("B", "y");
    assert_eq!(tpl.parse("$A"), "$B");
    assert_eq!(tpl.parse("$A-$B"), "$B-y");
}

#[test]
fn registration_order_does_not_matter() {
    let mut one = Tpl::new();
    one.register("B", "y");
    one.register("A", "$B");
    let mut two = Tpl::new();
    two.register("A", "$B");
    two.register("B", "y");
    assert_eq!(one.parse("$A $B"), two.parse("$A $B"));
    assert_eq!(one.parse("$A $B"), "$B y");
}

#[test]
fn registering_unrelated_key_keeps_expansion() {
    let mut tpl = Tpl::new();
    tpl.register("A", "$K");
    assert_eq!(tpl.parse("$A"), "$K");
    tpl.register("K", "z");
    assert_eq!(tpl.parse("$A"), "$K");
}

#[test]
fn longest_key_wins_at_a_position() {
    let mut tpl = Tpl::new();
    tpl.register("NAME", "n");
    tpl.register("NAMESPACE", "ns");
    assert_eq!(tpl.parse("$NAMESPACE/$NAME/$NAMEX"), "ns/n/nX");
    assert_eq!(tpl.parse("héllo $NAME"), "héllo n");
}
