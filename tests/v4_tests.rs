use cvss::field::{ParseError, ValueKind};
use cvss::json::{JsonValue, Member};
use cvss::version::Version;
use cvss::{AnyCvss, Cvss, Severity};

use cvss::v2_0::CvssV2;
use cvss::v4_0::{AttackVector, CvssV4, Safety};

fn json_value(v: &serde_json::Value) -> JsonValue {
    match v {
        serde_json::Value::Null => JsonValue::Null,
        serde_json::Value::Bool(b) => JsonValue::Bool(*b),
        serde_json::Value::Number(n) => JsonValue::Number(n.to_string()),
        serde_json::Value::String(s) => JsonValue::Text(s.clone()),
        serde_json::Value::Array(_) => JsonValue::Array,
        serde_json::Value::Object(_) => JsonValue::Object,
    }
}

fn members(text: &str) -> Vec<Member> {
    let value: serde_json::Value = serde_json::from_str(text).unwrap();
    let obj = value.as_object().unwrap();
    obj.iter()
        .map(|(k, v)| Member { key: k.clone(), value: json_value(v) })
        .collect()
}

fn to_json(obj: &[Member]) -> serde_json::Value {
    let mut map = serde_json::Map::new();
    for m in obj {
        let v = match &m.value {
            JsonValue::Null => serde_json::Value::Null,
            JsonValue::Bool(b) => serde_json::Value::Bool(*b),
            JsonValue::Number(n) => serde_json::from_str(n).unwrap(),
            JsonValue::Text(s) => serde_json::Value::String(s.clone()),
            JsonValue::Array => serde_json::Value::Array(Vec::new()),
            JsonValue::Object => serde_json::Value::Object(serde_json::Map::new()),
        };
        map.insert(m.key.clone(), v);
    }
    serde_json::Value::Object(map)
}

fn score(text: &str) -> f64 {
    text.parse().unwrap()
}

fn parse(text: &str) -> Result<AnyCvss, ParseError> {
    AnyCvss::from_object(&members(text))
}

const V4_0_EXAMPLE: &str = r#"{"version":"4.0","vectorString":"CVSS:4.0/AV:N/AC:L/AT:N/PR:N/UI:N/VC:H/VI:H/VA:H/SC:N/SI:N/SA:N","attackVector":"NETWORK","attackComplexity":"LOW","attackRequirements":"NONE","privilegesRequired":"NONE","userInteraction":"NONE","vulnConfidentialityImpact":"HIGH","vulnIntegrityImpact":"HIGH","vulnAvailabilityImpact":"HIGH","subConfidentialityImpact":"NONE","subIntegrityImpact":"NONE","subAvailabilityImpact":"NONE","baseScore":9.3,"baseSeverity":"CRITICAL"}"#;

const V4_0_CVE_EXAMPLE: &str = r#"{"version":"4.0","vectorString":"CVSS:4.0/AV:A/AC:H/AT:P/PR:L/UI:P/VC:H/VI:L/VA:N/SC:N/SI:N/SA:N/E:P/S:N/AU:N/R:U/V:D/RE:M/U:Amber","attackVector":"ADJACENT","attackComplexity":"HIGH","attackRequirements":"PRESENT","privilegesRequired":"LOW","userInteraction":"PASSIVE","vulnConfidentialityImpact":"HIGH","vulnIntegrityImpact":"LOW","vulnAvailabilityImpact":"NONE","subConfidentialityImpact":"NONE","subIntegrityImpact":"NONE","subAvailabilityImpact":"NONE","exploitMaturity":"PROOF_OF_CONCEPT","Safety":"NEGLIGIBLE","Automatable":"NO","Recovery":"USER","valueDensity":"DIFFUSE","vulnerabilityResponseEffort":"MODERATE","providerUrgency":"AMBER","baseScore":5.9,"baseSeverity":"MEDIUM"}"#;

const V4_0_MINIMAL: &str = r#"{"vectorString":"CVSS:4.0/AV:N/AC:L/AT:N/PR:N/UI:N/VC:H/VI:H/VA:H/SC:H/SI:H/SA:H","attackVector":"NETWORK","attackComplexity":"LOW","attackRequirements":"NONE","privilegesRequired":"NONE","userInteraction":"NONE","vulnConfidentialityImpact":"HIGH","vulnIntegrityImpact":"HIGH","vulnAvailabilityImpact":"HIGH","subConfidentialityImpact":"HIGH","subIntegrityImpact":"HIGH","subAvailabilityImpact":"HIGH","baseScore":9.9,"baseSeverity":"CRITICAL"}"#;

const V2_EXAMPLE: &str = r#"{"version":"2.0","vectorString":"AV:N/AC:L/Au:N/C:P/I:P/A:P","accessVector":"NETWORK","accessComplexity":"LOW","authentication":"NONE","confidentialityImpact":"PARTIAL","integrityImpact":"PARTIAL","availabilityImpact":"PARTIAL","baseScore":7.5}"#;

#[test]
fn test_v4_0_example() {
    let cvss = parse(V4_0_EXAMPLE).unwrap();

    assert_eq!(cvss.version(), Version::V4_0);
    assert_eq!(score(cvss.base_score()), 9.3);
    assert_eq!(cvss.base_severity().unwrap(), Severity::Critical);
}

#[test]
fn test_v4_0_cve_example() {
    let cvss = parse(V4_0_CVE_EXAMPLE).unwrap();

    assert_eq!(cvss.version(), Version::V4_0);
    assert_eq!(score(cvss.base_score()), 5.9);
    assert_eq!(cvss.base_severity().unwrap(), Severity::Medium);
}

#[test]
fn test_v4_0_minimal() {
    let cvss = parse(V4_0_MINIMAL).unwrap();

    assert_eq!(cvss.version(), Version::V4_0);
    assert_eq!(score(cvss.base_score()), 9.9);
    assert_eq!(cvss.base_severity().unwrap(), Severity::Critical);
}

#[test]
fn v4_supplemental_keys_are_title_case() {
    let c = CvssV4::from_object(&members(V4_0_CVE_EXAMPLE)).unwrap();
    assert_eq!(c.safety, Some(Safety::Negligible));
    assert_eq!(c.automatable, Some(cvss::v4_0::Automatable::No));
    assert_eq!(c.recovery, Some(cvss::v4_0::Recovery::User));
    assert_eq!(c.provider_urgency, Some(cvss::v4_0::ProviderUrgency::Amber));
    let lower = V4_0_CVE_EXAMPLE.replace("\"Safety\"", "\"safety\"");
    let c = CvssV4::from_object(&members(&lower)).unwrap();
    assert_eq!(c.safety, None);
}

#[test]
fn scenario_v4_adjacent_network_is_refused() {
    let text = V4_0_EXAMPLE.replace(
        "\"attackVector\":\"NETWORK\"",
        "\"attackVector\":\"ADJACENT_NETWORK\"",
    );
    assert_eq!(
        parse(&text).err(),
        Some(ParseError::UnknownEnumValue("attackVector", "ADJACENT_NETWORK".to_string()))
    );
    let c = CvssV4::from_object(&members(&text));
    assert_eq!(
        c.err(),
        Some(ParseError::UnknownEnumValue("attackVector", "ADJACENT_NETWORK".to_string()))
    );
}

#[test]
fn v4_adjacent_is_accepted() {
    let c = CvssV4::from_object(&members(V4_0_CVE_EXAMPLE)).unwrap();
    assert_eq!(c.attack_vector, AttackVector::Adjacent);
}

#[test]
fn v4_without_base_severity_is_refused() {
    let text = V4_0_MINIMAL.replace(",\"baseSeverity\":\"CRITICAL\"", "");
    assert_eq!(
        parse(&text).err(),
        Some(ParseError::MissingRequiredField("baseSeverity"))
    );
}

#[test]
fn v4_ignores_its_version_member() {
    let text = V4_0_MINIMAL.replace("{", "{\"version\":\"9.9\",");
    let c = CvssV4::from_object(&members(&text)).unwrap();
    assert_eq!(c.version(), Version::V4_0);
}

#[test]
fn v4_base_metrics_are_required() {
    for key in [
        "attackVector",
        "attackComplexity",
        "attackRequirements",
        "privilegesRequired",
        "userInteraction",
        "vulnConfidentialityImpact",
        "vulnIntegrityImpact",
        "vulnAvailabilityImpact",
        "subConfidentialityImpact",
        "subIntegrityImpact",
        "subAvailabilityImpact",
    ] {
        let obj: Vec<Member> = members(V4_0_EXAMPLE)
            .into_iter()
            .filter(|m| m.key != key)
            .collect();
        assert_eq!(
            CvssV4::from_object(&obj).err(),
            Some(ParseError::MissingRequiredField(key))
        );
    }
}

#[test]
fn v2_base_metrics_are_required() {
    for key in [
        "accessVector",
        "accessComplexity",
        "authentication",
        "confidentialityImpact",
        "integrityImpact",
        "availabilityImpact",
    ] {
        let obj: Vec<Member> = members(V2_EXAMPLE)
            .into_iter()
            .filter(|m| m.key != key)
            .collect();
        assert_eq!(
            CvssV2::from_object(&obj).err(),
            Some(ParseError::MissingRequiredField(key))
        );
    }
}

#[test]
fn version_order() {
    assert!(Version::V2_0 < Version::V3_0);
    assert!(Version::V3_0 < Version::V3_1);
    assert!(Version::V3_1 < Version::V4_0);
}

#[test]
fn v4_round_trip_keeps_every_member() {
    for text in [V4_0_EXAMPLE, V4_0_CVE_EXAMPLE, V4_0_MINIMAL] {
        let c = CvssV4::from_object(&members(text)).unwrap();
        let mut expected: serde_json::Value = serde_json::from_str(text).unwrap();
        expected.as_object_mut().unwrap().remove("version");
        assert_eq!(to_json(&c.to_object()), expected);
        assert_eq!(CvssV4::from_object(&c.to_object()).unwrap(), c);
    }
}

#[test]
fn scenario_v2_without_severity() {
    let cvss = parse(V2_EXAMPLE).unwrap();
    assert_eq!(cvss.version(), Version::V2_0);
    assert_eq!(score(cvss.base_score()), 7.5);
    assert_eq!(cvss.base_severity(), None);
}

#[test]
fn v2_severity_is_pascal_case() {
    let text = V2_EXAMPLE.replace("\"baseScore\"", "\"severity\":\"High\",\"baseScore\"");
    assert_eq!(parse(&text).unwrap().base_severity(), Some(Severity::High));
    let text = V2_EXAMPLE.replace("\"baseScore\"", "\"severity\":\"HIGH\",\"baseScore\"");
    assert_eq!(
        parse(&text).err(),
        Some(ParseError::UnknownEnumValue("severity", "HIGH".to_string()))
    );
}

#[test]
fn v2_missing_vector_string() {
    let text = V2_EXAMPLE.replace("\"vectorString\":\"AV:N/AC:L/Au:N/C:P/I:P/A:P\",", "");
    assert_eq!(
        parse(&text).err(),
        Some(ParseError::MissingRequiredField("vectorString"))
    );
}

#[test]
fn v2_round_trip_keeps_every_member() {
    let c = CvssV2::from_object(&members(V2_EXAMPLE)).unwrap();
    let expected: serde_json::Value = serde_json::from_str(V2_EXAMPLE).unwrap();
    assert_eq!(to_json(&c.to_object()), expected);
    assert_eq!(CvssV2::from_object(&c.to_object()).unwrap(), c);
}
