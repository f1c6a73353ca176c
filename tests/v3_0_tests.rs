use cvss::field::ParseError;
use cvss::json::{JsonValue, Member};
use cvss::v3_0::{
    AttackComplexity, AttackVector, CvssV3, Impact, PrivilegesRequired, Scope, Severity,
    UserInteraction,
};

fn json_value(v: &serde_json::Value) -> JsonValue {
    match v {
        serde_json::Value::Null => JsonValue::Null,
        serde_json::Value::Bool(b) => JsonValue::Bool(*b),
        serde_json::Value::Number(n) => JsonValue::Number(n.to_string()),
        serde_json::Value::String(s) => JsonValue::Text(s.clone()),
        serde_json::Value::Array(_) => JsonValue::Array,
        serde_json::Value::Object(_) => JsonValue::Object,
    }
}

fn members(text: &str) -> Vec<Member> {
    let value: serde_json::Value = serde_json::from_str(text).unwrap();
    let obj = value.as_object().unwrap();
    obj.iter()
        .map(|(k, v)| Member { key: k.clone(), value: json_value(v) })
        .collect()
}

fn to_json(obj: &[Member]) -> serde_json::Value {
    let mut map = serde_json::Map::new();
    for m in obj {
        let v = match &m.value {
            JsonValue::Null => serde_json::Value::Null,
            JsonValue::Bool(b) => serde_json::Value::Bool(*b),
            JsonValue::Number(n) => serde_json::from_str(n).unwrap(),
            JsonValue::Text(s) => serde_json::Value::String(s.clone()),
            JsonValue::Array => serde_json::Value::Array(Vec::new()),
            JsonValue::Object => serde_json::Value::Object(serde_json::Map::new()),
        };
        map.insert(m.key.clone(), v);
    }
    serde_json::Value::Object(map)
}

fn score(text: &str) -> f64 {
    text.parse().unwrap()
}

const SAMPLE_JSON: &str = r#"{
    "version": "3.0",
    "vectorString": "CVSS:3.0/AV:N/AC:L/PR:N/UI:N/S:U/C:H/I:H/A:H",
    "attackVector": "NETWORK",
    "attackComplexity": "LOW",
    "privilegesRequired": "NONE",
    "userInteraction": "NONE",
    "scope": "UNCHANGED",
    "confidentialityImpact": "HIGH",
    "integrityImpact": "HIGH",
    "availabilityImpact": "HIGH",
    "baseScore": 9.8,
    "baseSeverity": "Critical"
}"#;

fn sample_cvss_v3() -> CvssV3 {
    CvssV3 {
        version: "3.0".to_string(),
        vector_string: "CVSS:3.0/AV:N/AC:L/PR:N/UI:N/S:U/C:H/I:H/A:H".to_string(),
        attack_vector: AttackVector::Network,
        attack_complexity: AttackComplexity::Low,
        privileges_required: PrivilegesRequired::Nil,
        user_interaction: UserInteraction::Nil,
        scope: Scope::Unchanged,
        confidentiality_impact: Impact::High,
        integrity_impact: Impact::High,
        availability_impact: Impact::High,
        base_score: "9.8".to_string(),
        base_severity: Severity::Critical,
    }
}

#[test]
fn test_deserialize_v3_0() {
    let cvss = CvssV3::from_object(&members(SAMPLE_JSON)).unwrap();
    assert_eq!(cvss, sample_cvss_v3());
}

#[test]
fn test_serialize_v3_0() {
    let cvss = sample_cvss_v3();
    let json = serde_json::to_string_pretty(&to_json(&cvss.to_object())).unwrap();
    assert!(json.contains(r#""version": "3.0""#));
    assert!(json.contains(r#""baseScore": 9.8"#));
    assert!(json.contains(r#""baseSeverity": "Critical""#));
}

#[test]
fn test_roundtrip_v3_0() {
    let cvss = CvssV3::from_object(&members(SAMPLE_JSON)).unwrap();
    let json = serde_json::to_string(&to_json(&cvss.to_object())).unwrap();
    let cvss_rt = CvssV3::from_object(&members(&json)).unwrap();
    assert_eq!(cvss, cvss_rt);
}

#[test]
fn strict_v3_0_requires_base_metrics() {
    let text = SAMPLE_JSON.replace("\"scope\": \"UNCHANGED\",", "");
    assert_eq!(
        CvssV3::from_object(&members(&text)),
        Err(ParseError::MissingRequiredField("scope"))
    );
}

#[test]
fn strict_v3_0_has_no_not_defined() {
    let text = SAMPLE_JSON.replace("\"NETWORK\"", "\"NOT_DEFINED\"");
    assert_eq!(
        CvssV3::from_object(&members(&text)),
        Err(ParseError::UnknownEnumValue("attackVector", "NOT_DEFINED".to_string()))
    );
}

#[test]
fn strict_v3_0_severity_is_pascal_case() {
    let text = SAMPLE_JSON.replace("\"Critical\"", "\"CRITICAL\"");
    assert_eq!(
        CvssV3::from_object(&members(&text)),
        Err(ParseError::UnknownEnumValue("baseSeverity", "CRITICAL".to_string()))
    );
}
