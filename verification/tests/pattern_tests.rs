use git_grab::pattern::{
    GrabPattern, GrabPatternComponent, GrabPatternParseError, GrabPatternPlaceholder,
};

#[test]
fn test_parse_default_pattern() {
    let parsed = GrabPattern::try_parse("~/src/{host/}{path/}").unwrap();
    assert_eq!(parsed, GrabPattern::default());
}

#[test]
fn test_parse_valid_placeholders() {
    assert_eq!(
        GrabPattern::try_parse("{home}"),
        Ok(GrabPattern(vec![GrabPatternComponent::Placeholder {
            placeholder: GrabPatternPlaceholder::Home,
            leading_slash: false,
            trailing_slash: false,
        }]))
    );

    assert_eq!(
        GrabPattern::try_parse("{host}"),
        Ok(GrabPattern(vec![GrabPatternComponent::Placeholder {
            placeholder: GrabPatternPlaceholder::Host,
            leading_slash: false,
            trailing_slash: false,
        }]))
    );

    assert_eq!(
        GrabPattern::try_parse("{path}"),
        Ok(GrabPattern(vec![GrabPatternComponent::Placeholder {
            placeholder: GrabPatternPlaceholder::Path,
            leading_slash: false,
            trailing_slash: false,
        }]))
    );

    assert_eq!(
        GrabPattern::try_parse("{owner}"),
        Ok(GrabPattern(vec![GrabPatternComponent::Placeholder {
            placeholder: GrabPatternPlaceholder::Owner,
            leading_slash: false,
            trailing_slash: false,
        }]))
    );

    assert_eq!(
        GrabPattern::try_parse("{repo}"),
        Ok(GrabPattern(vec![GrabPatternComponent::Placeholder {
            placeholder: GrabPatternPlaceholder::Repo,
            leading_slash: false,
            trailing_slash: false,
        }]))
    );
}

#[test]
fn test_parse_leading_slash() {
    assert_eq!(
        GrabPattern::try_parse("{/home}"),
        Ok(GrabPattern(vec![GrabPatternComponent::Placeholder {
            placeholder: GrabPatternPlaceholder::Home,
            leading_slash: true,
            trailing_slash: false,
        }]))
    );
}

#[test]
fn test_parse_trailing_slash() {
    assert_eq!(
        GrabPattern::try_parse("{home/}"),
        Ok(GrabPattern(vec![GrabPatternComponent::Placeholder {
            placeholder: GrabPatternPlaceholder::Home,
            leading_slash: false,
            trailing_slash: true,
        }]))
    );
}

#[test]
fn test_parse_invalid_casing() {
    assert_eq!(
        GrabPattern::try_parse("{Home}"),
        Err(GrabPatternParseError::UnknownPlaceholder("Home".into()))
    );
    assert_eq!(
        GrabPattern::try_parse("{HOME}"),
        Err(GrabPatternParseError::UnknownPlaceholder("HOME".into()))
    );
}

#[test]
fn test_parse_escaping() {
    assert_eq!(
        GrabPattern::try_parse("{{home}}"),
        Ok(GrabPattern(vec![GrabPatternComponent::Literal(
            "{home}".into()
        )]))
    );
}

#[test]
fn test_parse_missing_closing_brace() {
    assert_eq!(
        GrabPattern::try_parse("{home"),
        Err(GrabPatternParseError::UnclosedPlaceholder("home".into()))
    );
}

#[test]
fn test_parse_empty_placeholder() {
    assert_eq!(
        GrabPattern::try_parse("{}"),
        Err(GrabPatternParseError::EmptyPlaceholder)
    );
}

#[test]
fn test_parse_unknown_placeholder() {
    assert_eq!(
        GrabPattern::try_parse("{unknown}"),
        Err(GrabPatternParseError::UnknownPlaceholder("unknown".into()))
    );
    assert_eq!(
        GrabPattern::try_parse("{abc}"),
        Err(GrabPatternParseError::UnknownPlaceholder("abc".into()))
    );
    assert_eq!(
        GrabPattern::try_parse("{🐈}"),
        Err(GrabPatternParseError::UnknownPlaceholder("🐈".into()))
    );
}

#[test]
fn test_parse_blank() {
    assert_eq!(
        GrabPattern::try_parse(""),
        Err(GrabPatternParseError::BlankPattern)
    );
    assert_eq!(
        GrabPattern::try_parse(" "),
        Err(GrabPatternParseError::BlankPattern)
    );
    assert_eq!(
        GrabPattern::try_parse("\t"),
        Err(GrabPatternParseError::BlankPattern)
    );
}

#[test]
fn test_parse_slash_only_placeholders() {
    assert_eq!(
        GrabPattern::try_parse("{/}"),
        Err(GrabPatternParseError::EmptyPlaceholder)
    );
    assert_eq!(
        GrabPattern::try_parse("{//}"),
        Err(GrabPatternParseError::EmptyPlaceholder)
    );
}

#[test]
fn test_parse_mixed_components() {
    assert_eq!(
        GrabPattern::try_parse("a{host}/b"),
        Ok(GrabPattern(vec![
            GrabPatternComponent::Literal("a".into()),
            GrabPatternComponent::Placeholder {
                placeholder: GrabPatternPlaceholder::Host,
                leading_slash: false,
                trailing_slash: false,
            },
            GrabPatternComponent::Literal("/b".into()),
        ]))
    );
}

#[test]
fn test_parse_both_slashes() {
    assert_eq!(
        GrabPattern::try_parse("{/repo/}"),
        Ok(GrabPattern(vec![GrabPatternComponent::Placeholder {
            placeholder: GrabPatternPlaceholder::Repo,
            leading_slash: true,
            trailing_slash: true,
        }]))
    );
}

#[test]
fn test_placeholder_alone_is_not_blank() {
    // A placeholder keeps a whitespace-heavy template from being blank.
    assert!(GrabPattern::try_parse(" {host} ").is_ok());
}
