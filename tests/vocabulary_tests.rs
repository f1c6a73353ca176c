use cvss::token::WireToken;

fn check<T: WireToken + PartialEq + std::fmt::Debug + Copy>(values: &[T], tokens: &[&str]) {
    for (v, t) in values.iter().zip(tokens.iter()) {
        assert_eq!(v.token(), *t);
        assert_eq!(T::from_token(t), Some(*v));
        let lower = t.to_lowercase();
        if lower != *t {
            assert_eq!(T::from_token(&lower), None);
        }
        assert_eq!(T::from_token(&format!("{} ", t)), None);
    }
    assert_eq!(T::from_token(""), None);
    assert_eq!(T::from_token("UNKNOWN_TOKEN"), None);
}

#[test]
fn vocabulary_version_version() {
    check(
        &[cvss::version::Version::V2_0, cvss::version::Version::V3_0, cvss::version::Version::V3_1, cvss::version::Version::V4_0],
        &["2.0", "3.0", "3.1", "4.0"],
    );
}

#[test]
fn vocabulary_version_version_v2() {
    check(
        &[cvss::version::VersionV2::V2_0],
        &["2.0"],
    );
}

#[test]
fn vocabulary_version_version_v3() {
    check(
        &[cvss::version::VersionV3::V3_0, cvss::version::VersionV3::V3_1],
        &["3.0", "3.1"],
    );
}

#[test]
fn vocabulary_version_version_v4() {
    check(
        &[cvss::version::VersionV4::V4_0],
        &["4.0"],
    );
}

#[test]
fn vocabulary_v2_0_severity() {
    check(
        &[cvss::v2_0::Severity::Low, cvss::v2_0::Severity::Medium, cvss::v2_0::Severity::High],
        &["Low", "Medium", "High"],
    );
}

#[test]
fn vocabulary_v2_0_access_vector() {
    check(
        &[cvss::v2_0::AccessVector::Network, cvss::v2_0::AccessVector::AdjacentNetwork, cvss::v2_0::AccessVector::Local],
        &["NETWORK", "ADJACENT_NETWORK", "LOCAL"],
    );
}

#[test]
fn vocabulary_v2_0_access_complexity() {
    check(
        &[cvss::v2_0::AccessComplexity::High, cvss::v2_0::AccessComplexity::Medium, cvss::v2_0::AccessComplexity::Low],
        &["HIGH", "MEDIUM", "LOW"],
    );
}

#[test]
fn vocabulary_v2_0_authentication() {
    check(
        &[cvss::v2_0::Authentication::Multiple, cvss::v2_0::Authentication::Single, cvss::v2_0::Authentication::Nil],
        &["MULTIPLE", "SINGLE", "NONE"],
    );
}

#[test]
fn vocabulary_v2_0_impact() {
    check(
        &[cvss::v2_0::Impact::Nil, cvss::v2_0::Impact::Partial, cvss::v2_0::Impact::Complete],
        &["NONE", "PARTIAL", "COMPLETE"],
    );
}

#[test]
fn vocabulary_v3_severity() {
    check(
        &[cvss::v3::Severity::Nil, cvss::v3::Severity::Low, cvss::v3::Severity::Medium, cvss::v3::Severity::High, cvss::v3::Severity::Critical],
        &["NONE", "LOW", "MEDIUM", "HIGH", "CRITICAL"],
    );
}

#[test]
fn vocabulary_v3_attack_vector() {
    check(
        &[cvss::v3::AttackVector::Network, cvss::v3::AttackVector::AdjacentNetwork, cvss::v3::AttackVector::Local, cvss::v3::AttackVector::Physical, cvss::v3::AttackVector::NotDefined],
        &["NETWORK", "ADJACENT_NETWORK", "LOCAL", "PHYSICAL", "NOT_DEFINED"],
    );
}

#[test]
fn vocabulary_v3_attack_complexity() {
    check(
        &[cvss::v3::AttackComplexity::Low, cvss::v3::AttackComplexity::High, cvss::v3::AttackComplexity::NotDefined],
        &["LOW", "HIGH", "NOT_DEFINED"],
    );
}

#[test]
fn vocabulary_v3_privileges_required() {
    check(
        &[cvss::v3::PrivilegesRequired::Nil, cvss::v3::PrivilegesRequired::Low, cvss::v3::PrivilegesRequired::High, cvss::v3::PrivilegesRequired::NotDefined],
        &["NONE", "LOW", "HIGH", "NOTDEFINED"],
    );
}

#[test]
fn vocabulary_v3_user_interaction() {
    check(
        &[cvss::v3::UserInteraction::Nil, cvss::v3::UserInteraction::Required, cvss::v3::UserInteraction::NotDefined],
        &["NONE", "REQUIRED", "NOT_DEFINED"],
    );
}

#[test]
fn vocabulary_v3_scope() {
    check(
        &[cvss::v3::Scope::Unchanged, cvss::v3::Scope::Changed, cvss::v3::Scope::NotDefined],
        &["UNCHANGED", "CHANGED", "NOT_DEFINED"],
    );
}

#[test]
fn vocabulary_v3_impact() {
    check(
        &[cvss::v3::Impact::High, cvss::v3::Impact::Low, cvss::v3::Impact::Nil, cvss::v3::Impact::NotDefined],
        &["HIGH", "LOW", "NONE", "NOT_DEFINED"],
    );
}

#[test]
fn vocabulary_v3_exploit_code_maturity() {
    check(
        &[cvss::v3::ExploitCodeMaturity::Unproven, cvss::v3::ExploitCodeMaturity::ProofOfConcept, cvss::v3::ExploitCodeMaturity::Functional, cvss::v3::ExploitCodeMaturity::High, cvss::v3::ExploitCodeMaturity::NotDefined],
        &["UNPROVEN", "PROOF_OF_CONCEPT", "FUNCTIONAL", "HIGH", "NOT_DEFINED"],
    );
}

#[test]
fn vocabulary_v3_remediation_level() {
    check(
        &[cvss::v3::RemediationLevel::OfficialFix, cvss::v3::RemediationLevel::TemporaryFix, cvss::v3::RemediationLevel::Workaround, cvss::v3::RemediationLevel::Unavailable, cvss::v3::RemediationLevel::NotDefined],
        &["OFFICIAL_FIX", "TEMPORARY_FIX", "WORKAROUND", "UNAVAILABLE", "NOT_DEFINED"],
    );
}

#[test]
fn vocabulary_v3_report_confidence() {
    check(
        &[cvss::v3::ReportConfidence::Unknown, cvss::v3::ReportConfidence::Reasonable, cvss::v3::ReportConfidence::Confirmed, cvss::v3::ReportConfidence::NotDefined],
        &["UNKNOWN", "REASONABLE", "CONFIRMED", "NOT_DEFINED"],
    );
}

#[test]
fn vocabulary_v3_security_requirement() {
    check(
        &[cvss::v3::SecurityRequirement::Low, cvss::v3::SecurityRequirement::Medium, cvss::v3::SecurityRequirement::High, cvss::v3::SecurityRequirement::NotDefined],
        &["LOW", "MEDIUM", "HIGH", "NOT_DEFINED"],
    );
}

#[test]
fn vocabulary_v3_0_severity() {
    check(
        &[cvss::v3_0::Severity::Nil, cvss::v3_0::Severity::Low, cvss::v3_0::Severity::Medium, cvss::v3_0::Severity::High, cvss::v3_0::Severity::Critical],
        &["None", "Low", "Medium", "High", "Critical"],
    );
}

#[test]
fn vocabulary_v3_0_attack_vector() {
    check(
        &[cvss::v3_0::AttackVector::Network, cvss::v3_0::AttackVector::AdjacentNetwork, cvss::v3_0::AttackVector::Local, cvss::v3_0::AttackVector::Physical],
        &["NETWORK", "ADJACENT_NETWORK", "LOCAL", "PHYSICAL"],
    );
}

#[test]
fn vocabulary_v3_0_attack_complexity() {
    check(
        &[cvss::v3_0::AttackComplexity::Low, cvss::v3_0::AttackComplexity::High],
        &["LOW", "HIGH"],
    );
}

#[test]
fn vocabulary_v3_0_privileges_required() {
    check(
        &[cvss::v3_0::PrivilegesRequired::Nil, cvss::v3_0::PrivilegesRequired::Low, cvss::v3_0::PrivilegesRequired::High],
        &["NONE", "LOW", "HIGH"],
    );
}

#[test]
fn vocabulary_v3_0_user_interaction() {
    check(
        &[cvss::v3_0::UserInteraction::Nil, cvss::v3_0::UserInteraction::Required],
        &["NONE", "REQUIRED"],
    );
}

#[test]
fn vocabulary_v3_0_scope() {
    check(
        &[cvss::v3_0::Scope::Unchanged, cvss::v3_0::Scope::Changed],
        &["UNCHANGED", "CHANGED"],
    );
}

#[test]
fn vocabulary_v3_0_impact() {
    check(
        &[cvss::v3_0::Impact::High, cvss::v3_0::Impact::Low, cvss::v3_0::Impact::Nil],
        &["HIGH", "LOW", "NONE"],
    );
}

#[test]
fn vocabulary_v4_0_severity() {
    check(
        &[cvss::v4_0::Severity::Nil, cvss::v4_0::Severity::Low, cvss::v4_0::Severity::Medium, cvss::v4_0::Severity::High, cvss::v4_0::Severity::Critical],
        &["NONE", "LOW", "MEDIUM", "HIGH", "CRITICAL"],
    );
}

#[test]
fn vocabulary_v4_0_attack_vector() {
    check(
        &[cvss::v4_0::AttackVector::Network, cvss::v4_0::AttackVector::Adjacent, cvss::v4_0::AttackVector::Local, cvss::v4_0::AttackVector::Physical],
        &["NETWORK", "ADJACENT", "LOCAL", "PHYSICAL"],
    );
}

#[test]
fn vocabulary_v4_0_attack_complexity() {
    check(
        &[cvss::v4_0::AttackComplexity::Low, cvss::v4_0::AttackComplexity::High],
        &["LOW", "HIGH"],
    );
}

#[test]
fn vocabulary_v4_0_attack_requirements() {
    check(
        &[cvss::v4_0::AttackRequirements::Nil, cvss::v4_0::AttackRequirements::Present],
        &["NONE", "PRESENT"],
    );
}

#[test]
fn vocabulary_v4_0_privileges_required() {
    check(
        &[cvss::v4_0::PrivilegesRequired::Nil, cvss::v4_0::PrivilegesRequired::Low, cvss::v4_0::PrivilegesRequired::High],
        &["NONE", "LOW", "HIGH"],
    );
}

#[test]
fn vocabulary_v4_0_user_interaction() {
    check(
        &[cvss::v4_0::UserInteraction::Nil, cvss::v4_0::UserInteraction::Passive, cvss::v4_0::UserInteraction::Active],
        &["NONE", "PASSIVE", "ACTIVE"],
    );
}

#[test]
fn vocabulary_v4_0_impact() {
    check(
        &[cvss::v4_0::Impact::High, cvss::v4_0::Impact::Low, cvss::v4_0::Impact::Nil],
        &["HIGH", "LOW", "NONE"],
    );
}

#[test]
fn vocabulary_v4_0_exploit_maturity() {
    check(
        &[cvss::v4_0::ExploitMaturity::Attacked, cvss::v4_0::ExploitMaturity::ProofOfConcept, cvss::v4_0::ExploitMaturity::Unreported, cvss::v4_0::ExploitMaturity::NotDefined],
        &["ATTACKED", "PROOF_OF_CONCEPT", "UNREPORTED", "NOT_DEFINED"],
    );
}

#[test]
fn vocabulary_v4_0_requirement() {
    check(
        &[cvss::v4_0::Requirement::High, cvss::v4_0::Requirement::Medium, cvss::v4_0::Requirement::Low],
        &["HIGH", "MEDIUM", "LOW"],
    );
}

#[test]
fn vocabulary_v4_0_safety() {
    check(
        &[cvss::v4_0::Safety::Negligible, cvss::v4_0::Safety::Present, cvss::v4_0::Safety::NotDefined],
        &["NEGLIGIBLE", "PRESENT", "NOT_DEFINED"],
    );
}

#[test]
fn vocabulary_v4_0_automatable() {
    check(
        &[cvss::v4_0::Automatable::No, cvss::v4_0::Automatable::Yes, cvss::v4_0::Automatable::NotDefined],
        &["NO", "YES", "NOT_DEFINED"],
    );
}

#[test]
fn vocabulary_v4_0_recovery() {
    check(
        &[cvss::v4_0::Recovery::Automatic, cvss::v4_0::Recovery::User, cvss::v4_0::Recovery::Irrecoverable, cvss::v4_0::Recovery::NotDefined],
        &["AUTOMATIC", "USER", "IRRECOVERABLE", "NOT_DEFINED"],
    );
}

#[test]
fn vocabulary_v4_0_value_density() {
    check(
        &[cvss::v4_0::ValueDensity::Diffuse, cvss::v4_0::ValueDensity::Concentrated, cvss::v4_0::ValueDensity::NotDefined],
        &["DIFFUSE", "CONCENTRATED", "NOT_DEFINED"],
    );
}

#[test]
fn vocabulary_v4_0_vulnerability_response_effort() {
    check(
        &[cvss::v4_0::VulnerabilityResponseEffort::Low, cvss::v4_0::VulnerabilityResponseEffort::Moderate, cvss::v4_0::VulnerabilityResponseEffort::High, cvss::v4_0::VulnerabilityResponseEffort::NotDefined],
        &["LOW", "MODERATE", "HIGH", "NOT_DEFINED"],
    );
}

#[test]
fn vocabulary_v4_0_provider_urgency() {
    check(
        &[cvss::v4_0::ProviderUrgency::Clear, cvss::v4_0::ProviderUrgency::Green, cvss::v4_0::ProviderUrgency::Amber, cvss::v4_0::ProviderUrgency::Red, cvss::v4_0::ProviderUrgency::NotDefined],
        &["CLEAR", "GREEN", "AMBER", "RED", "NOT_DEFINED"],
    );
}
