use cvss::field::{ParseError, ValueKind};
use cvss::json::{JsonValue, Member};
use cvss::version::Version;
use cvss::{AnyCvss, Cvss, Severity};

use cvss::v3::AttackVector;

fn json_value(v: &serde_json::Value) -> JsonValue {
    match v {
        serde_json::Value::Null => JsonValue::Null,
        serde_json::Value::Bool(b) => JsonValue::Bool(*b),
        serde_json::Value::Number(n) => JsonValue::Number(n.to_string()),
        serde_json::Value::String(s) => JsonValue::Text(s.clone()),
        serde_json::Value::Array(_) => JsonValue::Array,
        serde_json::Value::Object(_) => JsonValue::Object,
    }
}

fn members(text: &str) -> Vec<Member> {
    let value: serde_json::Value = serde_json::from_str(text).unwrap();
    let obj = value.as_object().unwrap();
    obj.iter()
        .map(|(k, v)| Member { key: k.clone(), value: json_value(v) })
        .collect()
}

fn to_json(obj: &[Member]) -> serde_json::Value {
    let mut map = serde_json::Map::new();
    for m in obj {
        let v = match &m.value {
            JsonValue::Null => serde_json::Value::Null,
            JsonValue::Bool(b) => serde_json::Value::Bool(*b),
            JsonValue::Number(n) => serde_json::from_str(n).unwrap(),
            JsonValue::Text(s) => serde_json::Value::String(s.clone()),
            JsonValue::Array => serde_json::Value::Array(Vec::new()),
            JsonValue::Object => serde_json::Value::Object(serde_json::Map::new()),
        };
        map.insert(m.key.clone(), v);
    }
    serde_json::Value::Object(map)
}

fn score(text: &str) -> f64 {
    text.parse().unwrap()
}

fn parse(text: &str) -> Result<AnyCvss, ParseError> {
    AnyCvss::from_object(&members(text))
}

const V3_1_CRITICAL: &str = r#"{"version":"3.1","vectorString":"CVSS:3.1/AV:N/AC:L/PR:N/UI:N/S:U/C:H/I:H/A:H","attackVector":"NETWORK","attackComplexity":"LOW","privilegesRequired":"NONE","userInteraction":"NONE","scope":"UNCHANGED","confidentialityImpact":"HIGH","integrityImpact":"HIGH","availabilityImpact":"HIGH","baseScore":9.8,"baseSeverity":"CRITICAL"}"#;

const V3_0_CRITICAL: &str = r#"{"version":"3.0","vectorString":"CVSS:3.0/AV:N/AC:L/PR:N/UI:N/S:U/C:H/I:H/A:H","attackVector":"NETWORK","attackComplexity":"LOW","privilegesRequired":"NONE","userInteraction":"NONE","scope":"UNCHANGED","confidentialityImpact":"HIGH","integrityImpact":"HIGH","availabilityImpact":"HIGH","baseScore":9.8,"baseSeverity":"CRITICAL"}"#;

const V3_1_MEDIUM: &str = r#"{"version":"3.1","vectorString":"CVSS:3.1/AV:L/AC:L/PR:L/UI:N/S:U/C:N/I:N/A:H","attackVector":"LOCAL","attackComplexity":"LOW","privilegesRequired":"LOW","userInteraction":"NONE","scope":"UNCHANGED","confidentialityImpact":"NONE","integrityImpact":"NONE","availabilityImpact":"HIGH","baseScore":5.8,"baseSeverity":"MEDIUM"}"#;

const V3_ENVIRONMENTAL: &str = r#"{"version":"3.1","vectorString":"CVSS:3.1/AV:N/AC:L/PR:N/UI:R/S:C/C:H/I:H/A:H/E:P/RL:O/RC:C/CR:H/IR:H/AR:H/MAV:N","attackVector":"NETWORK","attackComplexity":"LOW","privilegesRequired":"NONE","userInteraction":"REQUIRED","scope":"CHANGED","confidentialityImpact":"HIGH","integrityImpact":"HIGH","availabilityImpact":"HIGH","baseScore":9.6,"baseSeverity":"CRITICAL","exploitCodeMaturity":"PROOF_OF_CONCEPT","remediationLevel":"OFFICIAL_FIX","reportConfidence":"CONFIRMED","temporalScore":8.6,"temporalSeverity":"HIGH","confidentialityRequirement":"HIGH","integrityRequirement":"HIGH","availabilityRequirement":"HIGH","modifiedAttackVector":"NETWORK","environmentalScore":9.0,"environmentalSeverity":"CRITICAL"}"#;

#[test]
fn test_v3_1_critical() {
    let cvss = parse(V3_1_CRITICAL).unwrap();

    assert_eq!(cvss.version(), Version::V3_1);
    assert_eq!(score(cvss.base_score()), 9.8);
    assert_eq!(cvss.base_severity().unwrap(), Severity::Critical);
}

#[test]
fn test_v3_0_critical() {
    let cvss = parse(V3_0_CRITICAL).unwrap();

    assert_eq!(cvss.version(), Version::V3_0);
    assert_eq!(score(cvss.base_score()), 9.8);
    assert_eq!(cvss.base_severity().unwrap(), Severity::Critical);
}

#[test]
fn test_v3_1_medium() {
    let cvss = parse(V3_1_MEDIUM).unwrap();

    assert_eq!(cvss.version(), Version::V3_1);
    assert_eq!(score(cvss.base_score()), 5.8);
    assert_eq!(cvss.base_severity().unwrap(), Severity::Medium);

    if let AnyCvss::V3(c) = cvss {
        assert_eq!(c.attack_vector, AttackVector::Local);
    } else {
        panic!("Wrong enum variant");
    }
}

#[test]
fn test_v3_environmental() {
    let cvss = parse(V3_ENVIRONMENTAL).unwrap();

    assert_eq!(cvss.version(), Version::V3_1);
    assert_eq!(score(cvss.base_score()), 9.6);
    assert_eq!(cvss.base_severity().unwrap(), Severity::Critical);
}

#[test]
fn v3_environmental_metrics_are_kept() {
    if let AnyCvss::V3(c) = parse(V3_ENVIRONMENTAL).unwrap() {
        assert_eq!(c.temporal_score, Some("8.6".to_string()));
        assert_eq!(c.environmental_score, Some("9.0".to_string()));
        assert_eq!(c.modified_attack_vector, Some(AttackVector::Network));
        assert_eq!(c.modified_scope, None);
        assert_eq!(c.temporal_severity, Some(cvss::v3::Severity::High));
    } else {
        panic!("Wrong enum variant");
    }
}

#[test]
fn scenario_v3_1_critical() {
    let cvss = parse(V3_1_CRITICAL).unwrap();
    assert_eq!(cvss.version(), Version::V3_1);
    assert_eq!(cvss.base_score(), "9.8");
    assert_eq!(cvss.base_severity(), Some(Severity::Critical));
    assert_eq!(cvss.vector_string(), "CVSS:3.1/AV:N/AC:L/PR:N/UI:N/S:U/C:H/I:H/A:H");
}

#[test]
fn v3_versions_are_told_apart() {
    let a = parse(V3_0_CRITICAL).unwrap();
    let b = parse(V3_1_CRITICAL).unwrap();
    assert!(matches!(a, AnyCvss::V3(_)));
    assert!(matches!(b, AnyCvss::V3(_)));
    assert_eq!(a.version(), Version::V3_0);
    assert_eq!(b.version(), Version::V3_1);
    assert_ne!(a.version(), b.version());
}

#[test]
fn v3_without_base_severity_is_refused() {
    let text = V3_1_CRITICAL.replace(",\"baseSeverity\":\"CRITICAL\"", "");
    assert_eq!(
        parse(&text).err(),
        Some(ParseError::MissingRequiredField("baseSeverity"))
    );
}

#[test]
fn v3_token_of_other_case_is_refused() {
    let text = V3_1_CRITICAL.replace("\"NETWORK\"", "\"network\"");
    assert_eq!(
        parse(&text).err(),
        Some(ParseError::UnknownEnumValue("attackVector", "network".to_string()))
    );
}

#[test]
fn v3_number_where_text_is_expected() {
    let text = V3_1_CRITICAL.replace("\"scope\":\"UNCHANGED\"", "\"scope\":3");
    assert_eq!(
        parse(&text).err(),
        Some(ParseError::TypeMismatch("scope", ValueKind::Text))
    );
}

#[test]
fn v3_text_where_number_is_expected() {
    let text = V3_1_CRITICAL.replace("\"baseScore\":9.8", "\"baseScore\":\"9.8\"");
    assert_eq!(
        parse(&text).err(),
        Some(ParseError::TypeMismatch("baseScore", ValueKind::Number))
    );
}

#[test]
fn v3_null_optional_metric_is_absent() {
    let text = V3_1_CRITICAL.replace("{", "{\"exploitCodeMaturity\":null,\"temporalScore\":null,");
    let cvss = parse(&text).unwrap();
    if let AnyCvss::V3(c) = &cvss {
        assert_eq!(c.exploit_code_maturity, None);
        assert_eq!(c.temporal_score, None);
    } else {
        panic!("Wrong enum variant");
    }
    let expected: serde_json::Value = serde_json::from_str(V3_1_CRITICAL).unwrap();
    assert_eq!(to_json(&cvss.to_object()), expected);
}

#[test]
fn v3_null_base_metric_is_refused() {
    let text = V3_1_CRITICAL.replace("\"scope\":\"UNCHANGED\"", "\"scope\":null");
    assert_eq!(
        parse(&text).err(),
        Some(ParseError::TypeMismatch("scope", ValueKind::Text))
    );
}

#[test]
fn v3_base_metrics_are_required() {
    for key in [
        "attackVector",
        "attackComplexity",
        "privilegesRequired",
        "userInteraction",
        "scope",
        "confidentialityImpact",
        "integrityImpact",
        "availabilityImpact",
    ] {
        let obj: Vec<Member> = members(V3_1_CRITICAL)
            .into_iter()
            .filter(|m| m.key != key)
            .collect();
        assert_eq!(
            AnyCvss::from_object(&obj).err(),
            Some(ParseError::MissingRequiredField(key))
        );
    }
}

#[test]
fn v3_0_refuses_not_defined_base_metrics() {
    let cases = [
        ("attackVector", "NETWORK", "NOT_DEFINED"),
        ("attackComplexity", "LOW", "NOT_DEFINED"),
        ("privilegesRequired", "NONE", "NOTDEFINED"),
        ("userInteraction", "NONE", "NOT_DEFINED"),
        ("scope", "UNCHANGED", "NOT_DEFINED"),
        ("confidentialityImpact", "HIGH", "NOT_DEFINED"),
        ("integrityImpact", "HIGH", "NOT_DEFINED"),
        ("availabilityImpact", "HIGH", "NOT_DEFINED"),
    ];
    for (key, old, token) in cases {
        let from = format!("\"{}\":\"{}\"", key, old);
        let to = format!("\"{}\":\"{}\"", key, token);
        let v3_0 = V3_0_CRITICAL.replace(&from, &to);
        assert_eq!(
            parse(&v3_0).err(),
            Some(ParseError::UnknownEnumValue(key, token.to_string()))
        );
        let v3_1 = V3_1_CRITICAL.replace(&from, &to);
        assert_eq!(parse(&v3_1).unwrap().version(), Version::V3_1);
    }
}

#[test]
fn v3_0_keeps_not_defined_outside_base_metrics() {
    let text = V3_0_CRITICAL.replace("{", "{\"modifiedScope\":\"NOT_DEFINED\",");
    if let AnyCvss::V3(c) = parse(&text).unwrap() {
        assert_eq!(c.modified_scope, Some(cvss::v3::Scope::NotDefined));
        assert_eq!(c.version, cvss::version::VersionV3::V3_0);
    } else {
        panic!("Wrong enum variant");
    }
}

#[test]
fn v3_1_not_defined_and_uppercase_spelling() {
    let text = V3_1_CRITICAL
        .replace("\"NETWORK\"", "\"NOT_DEFINED\"")
        .replace("\"privilegesRequired\":\"NONE\"", "\"privilegesRequired\":\"NOTDEFINED\"");
    if let AnyCvss::V3(c) = parse(&text).unwrap() {
        assert_eq!(c.attack_vector, AttackVector::NotDefined);
        assert_eq!(c.privileges_required, cvss::v3::PrivilegesRequired::NotDefined);
    } else {
        panic!("Wrong enum variant");
    }
}

#[test]
fn unknown_keys_are_ignored() {
    let text = V3_1_CRITICAL.replace("{", "{\"cvssExtra\":[1,2],\"note\":{\"a\":1},");
    assert_eq!(parse(&text).unwrap().version(), Version::V3_1);
}

#[test]
fn out_of_range_score_is_carried() {
    let text = V3_1_CRITICAL.replace("9.8", "15.0");
    assert_eq!(score(parse(&text).unwrap().base_score()), 15.0);
}

#[test]
fn unknown_version_is_refused() {
    let text = V3_1_CRITICAL.replace("\"version\":\"3.1\"", "\"version\":\"3.2\"");
    assert_eq!(
        parse(&text).err(),
        Some(ParseError::UnknownEnumValue("version", "3.2".to_string()))
    );
    let text = V3_1_CRITICAL.replace("\"version\":\"3.1\"", "\"version\":31");
    assert_eq!(
        parse(&text).err(),
        Some(ParseError::TypeMismatch("version", ValueKind::Text))
    );
}

#[test]
fn v3_round_trip_keeps_every_member() {
    for text in [V3_1_CRITICAL, V3_0_CRITICAL, V3_1_MEDIUM, V3_ENVIRONMENTAL] {
        let cvss = parse(text).unwrap();
        let written = to_json(&cvss.to_object());
        let expected: serde_json::Value = serde_json::from_str(text).unwrap();
        assert_eq!(written, expected);
    }
}

#[test]
fn v3_write_then_read_gives_the_record() {
    let cvss = parse(V3_ENVIRONMENTAL).unwrap();
    let again = AnyCvss::from_object(&cvss.to_object()).unwrap();
    match (cvss, again) {
        (AnyCvss::V3(a), AnyCvss::V3(b)) => assert_eq!(a, b),
        _ => panic!("Wrong enum variant"),
    }
}

#[test]
fn severity_scale_is_ordered() {
    assert!(Severity::Nil < Severity::Low);
    assert!(Severity::Low < Severity::Medium);
    assert!(Severity::Medium < Severity::High);
    assert!(Severity::High < Severity::Critical);
}
