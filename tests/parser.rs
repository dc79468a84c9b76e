use std::borrow::Cow;

use user_agent_parser::matcher::Matcher;
use user_agent_parser::{
    OSRegex, ProductRegex, UserAgent, UserAgentParser, UserAgentParserError, YamlNode,
};

const DOCUMENT: &str = r#"
user_agent_parsers:
  - regex: '(ESPN)[%20| ]+Radio/(\d+)\.(\d+)\.(\d+) CFNetwork'
  - regex: '(Namoroka|Shiretoko|Minefield)/(\d+)\.(\d+)\.(\d+(?:pre|))'
    family_replacement: 'Firefox ($1)'
  - regex: '(Android) Eclair'
    v1_replacement: '2'
    v2_replacement: '1'
  - regex: '(Firefox)/(\d+)\.(\d+)'
  - regex: '(Fire\w+)/(\d+)'
    family_replacement: 'Second'

os_parsers:
  - regex: 'Win(?:dows)? ?(95|98|3.1|NT|ME|2000|XP|Vista|7|CE)'
    os_replacement: 'Windows'
    os_v1_replacement: '$1'
  - regex: '(Linux) (\d+)\.(\d+)\.(\d+)\.(\d+)'

device_parsers:
  - regex: '\bSmartWatch *\( *([^;]+) *; *([^;]+) *;'
    device_replacement: '$1 $2'
    brand_replacement: '$1'
    model_replacement: '$2'
  - regex: '(iphone) (\w+)'
    regex_flag: 'i'
  - regex: '(Kindle) (\w+)'
    regex_flag: 'x'
"#;

fn parser() -> UserAgentParser {
    UserAgentParser::from_str(DOCUMENT).unwrap()
}

#[test]
fn smartwatch_device_scenario() {
    let p = parser();
    let d = p.parse_device("Mozilla/5.0 (Linux) SmartWatch (Foo; Bar; x)");
    assert_eq!(d.name.as_deref(), Some("Foo Bar"));
    assert_eq!(d.brand.as_deref(), Some("Foo"));
    assert_eq!(d.model.as_deref(), Some("Bar"));
}

#[test]
fn device_model_defaults_to_first_group() {
    let p = parser();
    let d = p.parse_device("Apple IPHONE x9 browser");
    assert_eq!(d.name.as_deref(), Some("IPHONE"));
    assert_eq!(d.brand.as_deref(), Some("x9"));
    assert_eq!(d.model.as_deref(), Some("IPHONE"));
}

#[test]
fn other_flag_keeps_case() {
    let p = parser();
    assert_eq!(p.parse_device("Kindle K3").name.as_deref(), Some("Kindle"));
    assert_eq!(p.parse_device("KINDLE K3").name.as_deref(), Some("Other"));
}

#[test]
fn builtin_cpu_scenario() {
    let p = parser();
    let a = p.parse_cpu("Mozilla/5.0 (Windows NT 10.0; Win64; x64) AppleWebKit/537.36");
    assert_eq!(a.architecture.as_deref(), Some("amd64"));
    let b = p.parse_cpu("Mozilla/5.0 (X11; Linux i686; rv:19.0)");
    assert_eq!(b.architecture.as_deref(), Some("ia32"));
}

#[test]
fn product_versions_and_templates() {
    let p = parser();
    let a = p.parse_product("Mozilla/5.0 Firefox/3.6 extra");
    assert_eq!(a.name.as_deref(), Some("Firefox"));
    assert_eq!(a.major.as_deref(), Some("3"));
    assert_eq!(a.minor.as_deref(), Some("6"));
    assert_eq!(a.patch, None);
    let b = p.parse_product("Shiretoko/3.5.4pre");
    assert_eq!(b.name.as_deref(), Some("Firefox (Shiretoko)"));
    assert_eq!(b.major.as_deref(), Some("3"));
    assert_eq!(b.patch.as_deref(), Some("4pre"));
    let c = p.parse_product("Linux; Android Eclair");
    assert_eq!(c.name.as_deref(), Some("Android"));
    assert_eq!(c.major.as_deref(), Some("2"));
    assert_eq!(c.minor.as_deref(), Some("1"));
}

#[test]
fn first_matching_rule_wins() {
    let p = parser();
    let a = p.parse_product("Firefox/12.0");
    assert_eq!(a.name.as_deref(), Some("Firefox"));
    let b = p.parse_product("Firebird/12");
    assert_eq!(b.name.as_deref(), Some("Second"));
}

#[test]
fn names_fall_back_to_other() {
    let p = parser();
    assert_eq!(p.parse_product("nothing here").name.as_deref(), Some("Other"));
    assert_eq!(p.parse_os("nothing here").name.as_deref(), Some("Other"));
    assert_eq!(p.parse_device("nothing here").name.as_deref(), Some("Other"));
    let e = p.parse_product("nothing here");
    assert_eq!(e.major, None);
}

#[test]
fn cpu_and_engine_may_be_all_absent() {
    let p = parser();
    assert_eq!(p.parse_cpu("nothing here").architecture, None);
    let e = p.parse_engine("nothing here");
    assert!(e.name.is_none() && e.major.is_none() && e.minor.is_none() && e.patch.is_none());
}

#[test]
fn os_fields() {
    let p = parser();
    let a = p.parse_os("Mozilla/4.0 (compatible; MSIE 6.0; Windows NT 5.1)");
    assert_eq!(a.name.as_deref(), Some("Windows"));
    assert_eq!(a.major.as_deref(), Some("NT"));
    assert_eq!(a.minor, None);
    let b = p.parse_os("X11; Linux 2.6.32.1 i686");
    assert_eq!(b.name.as_deref(), Some("Linux"));
    assert_eq!(b.major.as_deref(), Some("2"));
    assert_eq!(b.minor.as_deref(), Some("6"));
    assert_eq!(b.patch.as_deref(), Some("32"));
    assert_eq!(b.patch_minor.as_deref(), Some("1"));
}

#[test]
fn parsing_twice_gives_equal_records() {
    let p = parser();
    let ua = "Mozilla/5.0 (X11; Linux x86_64; rv:10.0) Gecko/20100101 Firefox/10.0";
    let (a, b) = (p.parse_product(ua), p.parse_product(ua));
    assert_eq!((a.name, a.major, a.minor, a.patch), (b.name, b.major, b.minor, b.patch));
    let (c, d) = (p.parse_engine(ua), p.parse_engine(ua));
    assert_eq!((c.name, c.major, c.minor, c.patch), (d.name, d.major, d.minor, d.patch));
    assert_eq!(p.parse_cpu(ua).architecture, p.parse_cpu(ua).architecture);
    assert_eq!(p.parse_os(ua).name, p.parse_os(ua).name);
    assert_eq!(p.parse_device(ua).model, p.parse_device(ua).model);
}

#[test]
fn into_owned_keeps_values() {
    let p = parser();
    let owned = {
        let ua = String::from("Shiretoko/3.5.4pre");
        p.parse_product(ua.as_str()).into_owned()
    };
    assert_eq!(owned.name.as_deref(), Some("Firefox (Shiretoko)"));
    assert_eq!(owned.major.as_deref(), Some("3"));
    assert!(matches!(owned.major, Some(Cow::Owned(_))));
    let d = p.parse_device("SmartWatch (Foo; Bar;").into_owned();
    assert_eq!(d.brand.as_deref(), Some("Foo"));
    let e = p.parse_engine("Presto/2.8.149").into_owned();
    assert_eq!(e.patch.as_deref(), Some("149"));
    let o = p.parse_os("Windows XP").into_owned();
    assert_eq!(o.major.as_deref(), Some("XP"));
    let c = p.parse_cpu("(sun4u;").into_owned();
    assert_eq!(c.architecture.as_deref(), Some("sparc"));
    let u = UserAgent { user_agent: Some(Cow::Borrowed("agent")) }.into_owned();
    assert!(matches!(u.user_agent, Some(Cow::Owned(ref s)) if s == "agent"));
}

#[test]
fn empty_document_is_incorrect() {
    assert!(matches!(UserAgentParser::from_str(""), Err(UserAgentParserError::IncorrectSource)));
}

#[test]
fn empty_section_is_incorrect() {
    let r = UserAgentParser::from_str("user_agent_parsers: []\n");
    assert!(matches!(r, Err(UserAgentParserError::IncorrectSource)));
}

#[test]
fn missing_sections_give_no_rules() {
    let p = UserAgentParser::from_str("other: 1\n").unwrap();
    assert_eq!(p.parse_product("Firefox/3.6").name.as_deref(), Some("Other"));
    assert_eq!(p.parse_cpu("Win64; x64;").architecture.as_deref(), Some("amd64"));
}

#[test]
fn shape_errors_are_incorrect_source() {
    let bad = [
        "- a\n- b\n",
        "user_agent_parsers: 3\n",
        "os_parsers:\n  - just text\n",
        "os_parsers:\n  - family: x\n",
        "os_parsers:\n  - regex: 5\n",
        "user_agent_parsers:\n  - regex: 'a'\n    v2_replacement: [1]\n",
        "device_parsers:\n  - regex: '(unclosed'\n    brand_replacement: 7\n",
    ];
    for doc in bad.iter() {
        assert!(matches!(UserAgentParser::from_str(doc), Err(UserAgentParserError::IncorrectSource)), "{}", doc);
    }
}

#[test]
fn non_string_flag_keeps_case() {
    let p = UserAgentParser::from_str("device_parsers:\n  - regex: '(Pixel) (\\w+)'\n    regex_flag: 1\n").unwrap();
    assert_eq!(p.parse_device("Pixel 7").name.as_deref(), Some("Pixel"));
    assert_eq!(p.parse_device("PIXEL 7").name.as_deref(), Some("Other"));
}

#[test]
fn cpu_and_engine_match_gives_a_value() {
    let p = parser();
    assert_eq!(p.parse_cpu("(X11; Linux i686; rv:19.0)").architecture.as_deref(), Some("ia32"));
    assert_eq!(p.parse_engine("Lynx/2.8.9").name.as_deref(), Some("Lynx"));
    assert_eq!(p.parse_cpu("").architecture, None);
}

#[test]
fn bad_pattern_is_regex_error() {
    let r = UserAgentParser::from_str("user_agent_parsers:\n  - regex: '(unclosed'\n    v1_replacement: 7\n");
    assert!(matches!(r, Err(UserAgentParserError::RegexError(_))));
    assert!(Matcher::new("(unclosed", false).is_err());
    assert!(Matcher::new("(closed)", true).is_ok());
}

#[test]
fn malformed_yaml_is_scan_error() {
    let r = UserAgentParser::from_str("user_agent_parsers: [unclosed\n");
    assert!(matches!(r, Err(UserAgentParserError::ScanError(_))));
}

#[test]
fn rules_from_yaml_nodes() {
    let entry = YamlNode::Mapping(vec![
        (YamlNode::Text("regex".to_string()), YamlNode::Text("(Opera)/(\\d+)".to_string())),
        (YamlNode::Text("v1_replacement".to_string()), YamlNode::Text("v$2".to_string())),
    ]);
    let list = YamlNode::List(vec![entry]);
    let rules = ProductRegex::from_yaml(&list).unwrap();
    assert_eq!(rules.len(), 1);
    assert_eq!(rules[0].v1_replacement.as_deref(), Some("v$2"));
    assert!(rules[0].family_replacement.is_none());
    assert!(matches!(ProductRegex::from_yaml(&YamlNode::List(vec![])), Err(UserAgentParserError::IncorrectSource)));
    assert!(matches!(OSRegex::from_yaml(&YamlNode::Other), Err(UserAgentParserError::IncorrectSource)));
    let os = OSRegex::from_yaml(&YamlNode::List(vec![YamlNode::Mapping(vec![(
        YamlNode::Text("regex".to_string()),
        YamlNode::Text("(Linux)".to_string()),
    )])]))
    .unwrap();
    assert_eq!(os.len(), 1);
}
