use service_cli::label::Label;
use service_manager::ServiceLabel;

fn label(qualifier: Option<&str>, organization: Option<&str>, application: &str) -> Label {
    Label {
        qualifier: qualifier.map(|q| q.to_string()),
        organization: organization.map(|o| o.to_string()),
        application: application.to_string(),
    }
}

#[test]
fn one_part_is_the_application() {
    assert_eq!(Label::parse("demo"), Ok(label(None, None, "demo")));
}

#[test]
fn two_parts_are_organization_and_application() {
    assert_eq!(
        Label::parse("example.app123"),
        Ok(label(None, Some("example"), "app123"))
    );
}

#[test]
fn three_parts_are_qualifier_organization_and_application() {
    assert_eq!(
        Label::parse("com.example.app123"),
        Ok(label(Some("com"), Some("example"), "app123"))
    );
}

#[test]
fn further_parts_stay_in_the_application() {
    assert_eq!(
        Label::parse("rocks.distant.manager.v2.beta"),
        Ok(label(Some("rocks"), Some("distant"), "manager.v2.beta"))
    );
}

#[test]
fn empty_name_is_an_empty_application() {
    assert_eq!(Label::parse(""), Ok(label(None, None, "")));
}

#[test]
fn empty_parts_are_kept() {
    assert_eq!(Label::parse("."), Ok(label(None, Some(""), "")));
    assert_eq!(Label::parse("a..b"), Ok(label(Some("a"), Some(""), "b")));
    assert_eq!(Label::parse("a.b.c."), Ok(label(Some("a"), Some("b"), "c.")));
    assert_eq!(Label::parse("...."), Ok(label(Some(""), Some(""), "..")));
}

#[test]
fn case_and_spaces_are_kept() {
    assert_eq!(
        Label::parse(" Org.My Service "),
        Ok(label(None, Some(" Org"), "My Service "))
    );
}

#[test]
fn qualified_name_puts_dots_between_the_parts() {
    assert_eq!(label(None, None, "demo").qualified_name(), "demo");
    assert_eq!(label(None, Some("example"), "app").qualified_name(), "example.app");
    assert_eq!(
        label(Some("com"), Some("example"), "app").qualified_name(),
        "com.example.app"
    );
    assert_eq!(label(Some("com"), None, "app").qualified_name(), "com.app");
}

#[test]
fn written_out_label_is_the_name_it_was_read_from() {
    for name in [
        "",
        "demo",
        "example.app",
        "com.example.app",
        "a.b.c.d.e",
        ".",
        "..",
        "...",
        "a..b",
        ".lead",
        "trail.",
        "Mixed.Case Name",
        "  padded  ",
        "ünï.cödé.✓",
    ] {
        let parsed = Label::parse(name).unwrap();
        assert_eq!(parsed.qualified_name(), name);
    }
}

#[test]
fn label_agrees_with_the_service_manager() {
    for name in ["", "demo", "example.app", "com.example.app", "a.b.c.d.e", "a..b", "...."] {
        let ours = Label::parse(name).unwrap();
        let theirs: ServiceLabel = name.parse().unwrap();
        assert_eq!(ours.qualifier, theirs.qualifier);
        assert_eq!(ours.organization, theirs.organization);
        assert_eq!(ours.application, theirs.application);
        assert_eq!(ours.qualified_name(), theirs.to_qualified_name());
    }
}
