use syntax_color::grammar::Grammar;
use syntax_color::highlighter::env_flag_enabled;

#[test]
fn lib_parses_supported_grammar_aliases() {
    assert_eq!(Grammar::from_name("objectscript"), Some(Grammar::ObjectScript));
    assert_eq!(Grammar::from_name("SQL"), Some(Grammar::Sql));
    assert_eq!(Grammar::from_name("py"), Some(Grammar::Python));
    assert_eq!(Grammar::from_name("md"), Some(Grammar::Markdown));
    assert_eq!(Grammar::from_name("mdx"), Some(Grammar::Mdx));
    assert_eq!(Grammar::from_name("xml"), Some(Grammar::Xml));
    assert!(Grammar::from_name("unknown").is_none());
}

#[test]
fn test_parses_supported_grammar_aliases() {
    assert_eq!(Grammar::from_name("objectscript"), Some(Grammar::ObjectScript));
    assert_eq!(Grammar::from_name("sql"), Some(Grammar::Sql));
    assert_eq!(Grammar::from_name("py"), Some(Grammar::Python));
    assert_eq!(Grammar::from_name("md"), Some(Grammar::Markdown));
    assert_eq!(Grammar::from_name("mdx"), Some(Grammar::Mdx));
    assert_eq!(Grammar::from_name("xml"), Some(Grammar::Xml));
    assert_eq!(Grammar::from_name("yaml"), Some(Grammar::Yaml));
    assert_eq!(Grammar::from_name("json"), Some(Grammar::Json));
    assert_eq!(Grammar::from_name("yml"), Some(Grammar::Yaml));
    assert_eq!(
        Grammar::from_name("objectscript_routine"),
        Some(Grammar::ObjectScriptRoutine)
    );
    assert_eq!(Grammar::from_name("rtn"), Some(Grammar::ObjectScriptRoutine));
    assert!(Grammar::from_name("unknown").is_none());
}

#[test]
fn parses_truthy_timing_log_values() {
    assert!(env_flag_enabled("1"));
    assert!(env_flag_enabled("true"));
    assert!(env_flag_enabled(" TRUE "));
    assert!(env_flag_enabled("yes"));
    assert!(env_flag_enabled("on"));
}

#[test]
fn rejects_falsey_timing_log_values() {
    assert!(!env_flag_enabled("0"));
    assert!(!env_flag_enabled("false"));
    assert!(!env_flag_enabled("off"));
    assert!(!env_flag_enabled(""));
}

#[test]
fn grammar_canonical_names_round_trip() {
    for name in Grammar::supported_names() {
        let g = Grammar::from_name(name).expect("canonical name must parse");
        assert_eq!(g.canonical_name(), name);
    }
}
