//! Records of CVSS versions 3.0 and 3.1, which share one shape.
//!
//! The base metrics are required. Version 3.1 adds a `NotDefined` value to
//! their vocabularies; a record tagged 3.0 that holds it is refused.
use vstd::prelude::*;

use crate::field::{
    decode_token, enum_field, enum_member, lemma_enum_member_other, lemma_enum_read_back,
    lemma_enum_round_trip, lemma_number_member_other, lemma_number_read_back,
    lemma_number_round_trip, lemma_opt_enum_member_other, lemma_opt_enum_read_back,
    lemma_opt_enum_round_trip, lemma_opt_number_member_other, lemma_opt_number_read_back,
    lemma_opt_number_round_trip, lemma_text_member_other, lemma_text_read_back,
    lemma_text_round_trip, lemma_vocabulary_exhaustive, number_field, number_member, opt_enum_field,
    opt_enum_member, opt_number_field, opt_number_member, read_enum, read_number, read_opt_enum,
    read_opt_number, read_text, text_field, text_member, write_enum, write_number, write_opt_enum,
    write_opt_number, write_text, ParseError, ValueKind,
};
use crate::json::{
    find, key_sig, keys_within, lemma_lookup_found, lemma_lookup_obj_view, lemma_lookup_view_concat,
    lookup, lookup_view, obj_view, present_value, str_eq, value_view, JsonValue, JsonView, Member,
};
use crate::token::WireToken;
use crate::version::{Version, VersionV3};
use crate::Cvss;
use crate::Severity as UnifiedSeverity;

verus! {

/// A CVSS v3.0 or v3.1 score object.
#[derive(Clone, Debug, PartialEq)]
pub struct CvssV3 {
    /// The version of the CVSS standard.
    pub version: VersionV3,
    /// The CVSS vector string.
    pub vector_string: String,
    /// The base score, as written in the record.
    pub base_score: String,
    /// The qualitative severity rating for the base score.
    pub base_severity: Severity,
    /// The attack vector metric.
    pub attack_vector: AttackVector,
    /// The attack complexity metric.
    pub attack_complexity: AttackComplexity,
    /// The privileges required metric.
    pub privileges_required: PrivilegesRequired,
    /// The user interaction metric.
    pub user_interaction: UserInteraction,
    /// The scope metric.
    pub scope: Scope,
    /// The confidentiality impact metric.
    pub confidentiality_impact: Impact,
    /// The integrity impact metric.
    pub integrity_impact: Impact,
    /// The availability impact metric.
    pub availability_impact: Impact,
    /// The temporal score, as written in the record.
    pub temporal_score: Option<String>,
    /// The qualitative severity rating for the temporal score.
    pub temporal_severity: Option<Severity>,
    /// The exploit code maturity metric.
    pub exploit_code_maturity: Option<ExploitCodeMaturity>,
    /// The remediation level metric.
    pub remediation_level: Option<RemediationLevel>,
    /// The report confidence metric.
    pub report_confidence: Option<ReportConfidence>,
    /// The environmental score, as written in the record.
    pub environmental_score: Option<String>,
    /// The qualitative severity rating for the environmental score.
    pub environmental_severity: Option<Severity>,
    /// The confidentiality requirement metric.
    pub confidentiality_requirement: Option<SecurityRequirement>,
    /// The integrity requirement metric.
    pub integrity_requirement: Option<SecurityRequirement>,
    /// The availability requirement metric.
    pub availability_requirement: Option<SecurityRequirement>,
    /// The modified attack vector metric.
    pub modified_attack_vector: Option<AttackVector>,
    /// The modified attack complexity metric.
    pub modified_attack_complexity: Option<AttackComplexity>,
    /// The modified privileges required metric.
    pub modified_privileges_required: Option<PrivilegesRequired>,
    /// The modified user interaction metric.
    pub modified_user_interaction: Option<UserInteraction>,
    /// The modified scope metric.
    pub modified_scope: Option<Scope>,
    /// The modified confidentiality impact metric.
    pub modified_confidentiality_impact: Option<Impact>,
    /// The modified integrity impact metric.
    pub modified_integrity_impact: Option<Impact>,
    /// The modified availability impact metric.
    pub modified_availability_impact: Option<Impact>,
}

impl CvssV3 {
    /// What reading `obj` gives: the error of the first field, in the order
    /// of declaration, that cannot be read, or else the record of all fields.
    pub open spec fn spec_parse(obj: Seq<Member>) -> Result<CvssV3, ParseError> {
        let version = enum_field::<VersionV3>(obj, "version");
        let strict = version == Ok::<VersionV3, ParseError>(VersionV3::V3_0);
        let vector_string = text_field(obj, "vectorString");
        let base_score = number_field(obj, "baseScore");
        let base_severity = enum_field::<Severity>(obj, "baseSeverity");
        let attack_vector = base_metric_field::<AttackVector>(obj, "attackVector", strict);
        let attack_complexity = base_metric_field::<AttackComplexity>(obj, "attackComplexity", strict);
        let privileges_required = base_metric_field::<PrivilegesRequired>(obj, "privilegesRequired", strict);
        let user_interaction = base_metric_field::<UserInteraction>(obj, "userInteraction", strict);
        let scope = base_metric_field::<Scope>(obj, "scope", strict);
        let confidentiality_impact = base_metric_field::<Impact>(obj, "confidentialityImpact", strict);
        let integrity_impact = base_metric_field::<Impact>(obj, "integrityImpact", strict);
        let availability_impact = base_metric_field::<Impact>(obj, "availabilityImpact", strict);
        let temporal_score = opt_number_field(obj, "temporalScore");
        let temporal_severity = opt_enum_field::<Severity>(obj, "temporalSeverity");
        let exploit_code_maturity = opt_enum_field::<ExploitCodeMaturity>(obj, "exploitCodeMaturity");
        let remediation_level = opt_enum_field::<RemediationLevel>(obj, "remediationLevel");
        let report_confidence = opt_enum_field::<ReportConfidence>(obj, "reportConfidence");
        let environmental_score = opt_number_field(obj, "environmentalScore");
        let environmental_severity = opt_enum_field::<Severity>(obj, "environmentalSeverity");
        let confidentiality_requirement = opt_enum_field::<SecurityRequirement>(obj, "confidentialityRequirement");
        let integrity_requirement = opt_enum_field::<SecurityRequirement>(obj, "integrityRequirement");
        let availability_requirement = opt_enum_field::<SecurityRequirement>(obj, "availabilityRequirement");
        let modified_attack_vector = opt_enum_field::<AttackVector>(obj, "modifiedAttackVector");
        let modified_attack_complexity = opt_enum_field::<AttackComplexity>(obj, "modifiedAttackComplexity");
        let modified_privileges_required = opt_enum_field::<PrivilegesRequired>(obj, "modifiedPrivilegesRequired");
        let modified_user_interaction = opt_enum_field::<UserInteraction>(obj, "modifiedUserInteraction");
        let modified_scope = opt_enum_field::<Scope>(obj, "modifiedScope");
        let modified_confidentiality_impact = opt_enum_field::<Impact>(obj, "modifiedConfidentialityImpact");
        let modified_integrity_impact = opt_enum_field::<Impact>(obj, "modifiedIntegrityImpact");
        let modified_availability_impact = opt_enum_field::<Impact>(obj, "modifiedAvailabilityImpact");
        if version is Err {
            Err(version->Err_0)
        } else if vector_string is Err {
            Err(vector_string->Err_0)
        } else if base_score is Err {
            Err(base_score->Err_0)
        } else if base_severity is Err {
            Err(base_severity->Err_0)
        } else if attack_vector is Err {
            Err(attack_vector->Err_0)
        } else if attack_complexity is Err {
            Err(attack_complexity->Err_0)
        } else if privileges_required is Err {
            Err(privileges_required->Err_0)
        } else if user_interaction is Err {
            Err(user_interaction->Err_0)
        } else if scope is Err {
            Err(scope->Err_0)
        } else if confidentiality_impact is Err {
            Err(confidentiality_impact->Err_0)
        } else if integrity_impact is Err {
            Err(integrity_impact->Err_0)
        } else if availability_impact is Err {
            Err(availability_impact->Err_0)
        } else if temporal_score is Err {
            Err(temporal_score->Err_0)
        } else if temporal_severity is Err {
            Err(temporal_severity->Err_0)
        } else if exploit_code_maturity is Err {
            Err(exploit_code_maturity->Err_0)
        } else if remediation_level is Err {
            Err(remediation_level->Err_0)
        } else if report_confidence is Err {
            Err(report_confidence->Err_0)
        } else if environmental_score is Err {
            Err(environmental_score->Err_0)
        } else if environmental_severity is Err {
            Err(environmental_severity->Err_0)
        } else if confidentiality_requirement is Err {
            Err(confidentiality_requirement->Err_0)
        } else if integrity_requirement is Err {
            Err(integrity_requirement->Err_0)
        } else if availability_requirement is Err {
            Err(availability_requirement->Err_0)
        } else if modified_attack_vector is Err {
            Err(modified_attack_vector->Err_0)
        } else if modified_attack_complexity is Err {
            Err(modified_attack_complexity->Err_0)
        } else if modified_privileges_required is Err {
            Err(modified_privileges_required->Err_0)
        } else if modified_user_interaction is Err {
            Err(modified_user_interaction->Err_0)
        } else if modified_scope is Err {
            Err(modified_scope->Err_0)
        } else if modified_confidentiality_impact is Err {
            Err(modified_confidentiality_impact->Err_0)
        } else if modified_integrity_impact is Err {
            Err(modified_integrity_impact->Err_0)
        } else if modified_availability_impact is Err {
            Err(modified_availability_impact->Err_0)
        } else {
            Ok(CvssV3 {
                version: version->Ok_0,
                vector_string: vector_string->Ok_0,
                base_score: base_score->Ok_0,
                base_severity: base_severity->Ok_0,
                attack_vector: attack_vector->Ok_0,
                attack_complexity: attack_complexity->Ok_0,
                privileges_required: privileges_required->Ok_0,
                user_interaction: user_interaction->Ok_0,
                scope: scope->Ok_0,
                confidentiality_impact: confidentiality_impact->Ok_0,
                integrity_impact: integrity_impact->Ok_0,
                availability_impact: availability_impact->Ok_0,
                temporal_score: temporal_score->Ok_0,
                temporal_severity: temporal_severity->Ok_0,
                exploit_code_maturity: exploit_code_maturity->Ok_0,
                remediation_level: remediation_level->Ok_0,
                report_confidence: report_confidence->Ok_0,
                environmental_score: environmental_score->Ok_0,
                environmental_severity: environmental_severity->Ok_0,
                confidentiality_requirement: confidentiality_requirement->Ok_0,
                integrity_requirement: integrity_requirement->Ok_0,
                availability_requirement: availability_requirement->Ok_0,
                modified_attack_vector: modified_attack_vector->Ok_0,
                modified_attack_complexity: modified_attack_complexity->Ok_0,
                modified_privileges_required: modified_privileges_required->Ok_0,
                modified_user_interaction: modified_user_interaction->Ok_0,
                modified_scope: modified_scope->Ok_0,
                modified_confidentiality_impact: modified_confidentiality_impact->Ok_0,
                modified_integrity_impact: modified_integrity_impact->Ok_0,
                modified_availability_impact: modified_availability_impact->Ok_0,
            })
        }
    }

    /// The members that this record is written as: every field that is
    /// present, in the order of declaration, and no other.
    pub open spec fn spec_members(self) -> Seq<(Seq<char>, JsonView)> {
        Seq::empty()
            + enum_member("version", self.version)
            + text_member("vectorString", self.vector_string)
            + number_member("baseScore", self.base_score)
            + enum_member("baseSeverity", self.base_severity)
            + enum_member("attackVector", self.attack_vector)
            + enum_member("attackComplexity", self.attack_complexity)
            + enum_member("privilegesRequired", self.privileges_required)
            + enum_member("userInteraction", self.user_interaction)
            + enum_member("scope", self.scope)
            + enum_member("confidentialityImpact", self.confidentiality_impact)
            + enum_member("integrityImpact", self.integrity_impact)
            + enum_member("availabilityImpact", self.availability_impact)
            + opt_number_member("temporalScore", self.temporal_score)
            + opt_enum_member("temporalSeverity", self.temporal_severity)
            + opt_enum_member("exploitCodeMaturity", self.exploit_code_maturity)
            + opt_enum_member("remediationLevel", self.remediation_level)
            + opt_enum_member("reportConfidence", self.report_confidence)
            + opt_number_member("environmentalScore", self.environmental_score)
            + opt_enum_member("environmentalSeverity", self.environmental_severity)
            + opt_enum_member("confidentialityRequirement", self.confidentiality_requirement)
            + opt_enum_member("integrityRequirement", self.integrity_requirement)
            + opt_enum_member("availabilityRequirement", self.availability_requirement)
            + opt_enum_member("modifiedAttackVector", self.modified_attack_vector)
            + opt_enum_member("modifiedAttackComplexity", self.modified_attack_complexity)
            + opt_enum_member("modifiedPrivilegesRequired", self.modified_privileges_required)
            + opt_enum_member("modifiedUserInteraction", self.modified_user_interaction)
            + opt_enum_member("modifiedScope", self.modified_scope)
            + opt_enum_member("modifiedConfidentialityImpact", self.modified_confidentiality_impact)
            + opt_enum_member("modifiedIntegrityImpact", self.modified_integrity_impact)
            + opt_enum_member("modifiedAvailabilityImpact", self.modified_availability_impact)
    }

    /// Reads a record from the members of a JSON object.
    pub fn from_object(obj: &Vec<Member>) -> (r: Result<CvssV3, ParseError>)
        ensures
            r == Self::spec_parse(obj@),
            r matches Ok(c) ==> c.spec_valid(),
    {
        let version = match read_enum::<VersionV3>(obj, "version") {
            Ok(v) => v,
            Err(e) => return Err(e),
        };
        let strict = match version {
            VersionV3::V3_0 => true,
            VersionV3::V3_1 => false,
        };
        let vector_string = match read_text(obj, "vectorString") {
            Ok(v) => v,
            Err(e) => return Err(e),
        };
        let base_score = match read_number(obj, "baseScore") {
            Ok(v) => v,
            Err(e) => return Err(e),
        };
        let base_severity = match read_enum::<Severity>(obj, "baseSeverity") {
            Ok(v) => v,
            Err(e) => return Err(e),
        };
        let attack_vector = match read_base_metric::<AttackVector>(obj, "attackVector", strict) {
            Ok(v) => v,
            Err(e) => return Err(e),
        };
        let attack_complexity = match read_base_metric::<AttackComplexity>(obj, "attackComplexity", strict) {
            Ok(v) => v,
            Err(e) => return Err(e),
        };
        let privileges_required = match read_base_metric::<PrivilegesRequired>(obj, "privilegesRequired", strict) {
            Ok(v) => v,
            Err(e) => return Err(e),
        };
        let user_interaction = match read_base_metric::<UserInteraction>(obj, "userInteraction", strict) {
            Ok(v) => v,
            Err(e) => return Err(e),
        };
        let scope = match read_base_metric::<Scope>(obj, "scope", strict) {
            Ok(v) => v,
            Err(e) => return Err(e),
        };
        let confidentiality_impact = match read_base_metric::<Impact>(obj, "confidentialityImpact", strict) {
            Ok(v) => v,
            Err(e) => return Err(e),
        };
        let integrity_impact = match read_base_metric::<Impact>(obj, "integrityImpact", strict) {
            Ok(v) => v,
            Err(e) => return Err(e),
        };
        let availability_impact = match read_base_metric::<Impact>(obj, "availabilityImpact", strict) {
            Ok(v) => v,
            Err(e) => return Err(e),
        };
        let temporal_score = match read_opt_number(obj, "temporalScore") {
            Ok(v) => v,
            Err(e) => return Err(e),
        };
        let temporal_severity = match read_opt_enum::<Severity>(obj, "temporalSeverity") {
            Ok(v) => v,
            Err(e) => return Err(e),
        };
        let exploit_code_maturity = match read_opt_enum::<ExploitCodeMaturity>(obj, "exploitCodeMaturity") {
            Ok(v) => v,
            Err(e) => return Err(e),
        };
        let remediation_level = match read_opt_enum::<RemediationLevel>(obj, "remediationLevel") {
            Ok(v) => v,
            Err(e) => return Err(e),
        };
        let report_confidence = match read_opt_enum::<ReportConfidence>(obj, "reportConfidence") {
            Ok(v) => v,
            Err(e) => return Err(e),
        };
        let environmental_score = match read_opt_number(obj, "environmentalScore") {
            Ok(v) => v,
            Err(e) => return Err(e),
        };
        let environmental_severity = match read_opt_enum::<Severity>(obj, "environmentalSeverity") {
            Ok(v) => v,
            Err(e) => return Err(e),
        };
        let confidentiality_requirement = match read_opt_enum::<SecurityRequirement>(obj, "confidentialityRequirement") {
            Ok(v) => v,
            Err(e) => return Err(e),
        };
        let integrity_requirement = match read_opt_enum::<SecurityRequirement>(obj, "integrityRequirement") {
            Ok(v) => v,
            Err(e) => return Err(e),
        };
        let availability_requirement = match read_opt_enum::<SecurityRequirement>(obj, "availabilityRequirement") {
            Ok(v) => v,
            Err(e) => return Err(e),
        };
        let modified_attack_vector = match read_opt_enum::<AttackVector>(obj, "modifiedAttackVector") {
            Ok(v) => v,
            Err(e) => return Err(e),
        };
        let modified_attack_complexity = match read_opt_enum::<AttackComplexity>(obj, "modifiedAttackComplexity") {
            Ok(v) => v,
            Err(e) => return Err(e),
        };
        let modified_privileges_required = match read_opt_enum::<PrivilegesRequired>(obj, "modifiedPrivilegesRequired") {
            Ok(v) => v,
            Err(e) => return Err(e),
        };
        let modified_user_interaction = match read_opt_enum::<UserInteraction>(obj, "modifiedUserInteraction") {
            Ok(v) => v,
            Err(e) => return Err(e),
        };
        let modified_scope = match read_opt_enum::<Scope>(obj, "modifiedScope") {
            Ok(v) => v,
            Err(e) => return Err(e),
        };
        let modified_confidentiality_impact = match read_opt_enum::<Impact>(obj, "modifiedConfidentialityImpact") {
            Ok(v) => v,
            Err(e) => return Err(e),
        };
        let modified_integrity_impact = match read_opt_enum::<Impact>(obj, "modifiedIntegrityImpact") {
            Ok(v) => v,
            Err(e) => return Err(e),
        };
        let modified_availability_impact = match read_opt_enum::<Impact>(obj, "modifiedAvailabilityImpact") {
            Ok(v) => v,
            Err(e) => return Err(e),
        };
        Ok(CvssV3 {
            version,
            vector_string,
            base_score,
            base_severity,
            attack_vector,
            attack_complexity,
            privileges_required,
            user_interaction,
            scope,
            confidentiality_impact,
            integrity_impact,
            availability_impact,
            temporal_score,
            temporal_severity,
            exploit_code_maturity,
            remediation_level,
            report_confidence,
            environmental_score,
            environmental_severity,
            confidentiality_requirement,
            integrity_requirement,
            availability_requirement,
            modified_attack_vector,
            modified_attack_complexity,
            modified_privileges_required,
            modified_user_interaction,
            modified_scope,
            modified_confidentiality_impact,
            modified_integrity_impact,
            modified_availability_impact,
        })
    }

    /// Writes this record as the members of a JSON object, leaving out
    /// every absent field.
    pub fn to_object(&self) -> (r: Vec<Member>)
        ensures
            obj_view(r@) == self.spec_members(),
            self.spec_valid() ==> Self::spec_parse(r@) is Ok,
            self.spec_valid() ==> Self::spec_parse(r@)->Ok_0.spec_members()
                == self.spec_members(),
    {
        let mut obj: Vec<Member> = Vec::new();
        assert(obj_view(obj@) =~= Seq::empty());
        write_enum(&mut obj, "version", &self.version);
        write_text(&mut obj, "vectorString", &self.vector_string);
        write_number(&mut obj, "baseScore", &self.base_score);
        write_enum(&mut obj, "baseSeverity", &self.base_severity);
        write_enum(&mut obj, "attackVector", &self.attack_vector);
        write_enum(&mut obj, "attackComplexity", &self.attack_complexity);
        write_enum(&mut obj, "privilegesRequired", &self.privileges_required);
        write_enum(&mut obj, "userInteraction", &self.user_interaction);
        write_enum(&mut obj, "scope", &self.scope);
        write_enum(&mut obj, "confidentialityImpact", &self.confidentiality_impact);
        write_enum(&mut obj, "integrityImpact", &self.integrity_impact);
        write_enum(&mut obj, "availabilityImpact", &self.availability_impact);
        write_opt_number(&mut obj, "temporalScore", &self.temporal_score);
        write_opt_enum(&mut obj, "temporalSeverity", &self.temporal_severity);
        write_opt_enum(&mut obj, "exploitCodeMaturity", &self.exploit_code_maturity);
        write_opt_enum(&mut obj, "remediationLevel", &self.remediation_level);
        write_opt_enum(&mut obj, "reportConfidence", &self.report_confidence);
        write_opt_number(&mut obj, "environmentalScore", &self.environmental_score);
        write_opt_enum(&mut obj, "environmentalSeverity", &self.environmental_severity);
        write_opt_enum(&mut obj, "confidentialityRequirement", &self.confidentiality_requirement);
        write_opt_enum(&mut obj, "integrityRequirement", &self.integrity_requirement);
        write_opt_enum(&mut obj, "availabilityRequirement", &self.availability_requirement);
        write_opt_enum(&mut obj, "modifiedAttackVector", &self.modified_attack_vector);
        write_opt_enum(&mut obj, "modifiedAttackComplexity", &self.modified_attack_complexity);
        write_opt_enum(&mut obj, "modifiedPrivilegesRequired", &self.modified_privileges_required);
        write_opt_enum(&mut obj, "modifiedUserInteraction", &self.modified_user_interaction);
        write_opt_enum(&mut obj, "modifiedScope", &self.modified_scope);
        write_opt_enum(&mut obj, "modifiedConfidentialityImpact", &self.modified_confidentiality_impact);
        write_opt_enum(&mut obj, "modifiedIntegrityImpact", &self.modified_integrity_impact);
        write_opt_enum(&mut obj, "modifiedAvailabilityImpact", &self.modified_availability_impact);
        proof {
            if self.spec_valid() {
                lemma_read_back(*self, obj@);
            }
        }
        obj
    }
}

impl CvssV3 {
    /// Whether `k` is the key of a field of this record.
    pub open spec fn spec_is_key(k: Seq<char>) -> bool {
        k == "version"@
            || k == "vectorString"@
            || k == "baseScore"@
            || k == "baseSeverity"@
            || k == "attackVector"@
            || k == "attackComplexity"@
            || k == "privilegesRequired"@
            || k == "userInteraction"@
            || k == "scope"@
            || k == "confidentialityImpact"@
            || k == "integrityImpact"@
            || k == "availabilityImpact"@
            || k == "temporalScore"@
            || k == "temporalSeverity"@
            || k == "exploitCodeMaturity"@
            || k == "remediationLevel"@
            || k == "reportConfidence"@
            || k == "environmentalScore"@
            || k == "environmentalSeverity"@
            || k == "confidentialityRequirement"@
            || k == "integrityRequirement"@
            || k == "availabilityRequirement"@
            || k == "modifiedAttackVector"@
            || k == "modifiedAttackComplexity"@
            || k == "modifiedPrivilegesRequired"@
            || k == "modifiedUserInteraction"@
            || k == "modifiedScope"@
            || k == "modifiedConfidentialityImpact"@
            || k == "modifiedIntegrityImpact"@
            || k == "modifiedAvailabilityImpact"@
    }

    /// Whether the record can be read back: a version 3.0 record has no
    /// base metric of the `NotDefined` value, which only 3.1 has.
    pub open spec fn spec_valid(self) -> bool {
        self.version == VersionV3::V3_0 ==> {
            &&& !self.attack_vector.spec_is_not_defined()
            &&& !self.attack_complexity.spec_is_not_defined()
            &&& !self.privileges_required.spec_is_not_defined()
            &&& !self.user_interaction.spec_is_not_defined()
            &&& !self.scope.spec_is_not_defined()
            &&& !self.confidentiality_impact.spec_is_not_defined()
            &&& !self.integrity_impact.spec_is_not_defined()
            &&& !self.availability_impact.spec_is_not_defined()
        }
    }
}

/// Reading an object and writing the record back gives the same object
/// up to the order of its members and without its `null` members: every
/// key holds the same value in both, and a key that holds `null` (an absent
/// optional field) is left out. This holds where the record knows every key.
pub proof fn lemma_round_trip(obj: Seq<Member>)
    requires
        CvssV3::spec_parse(obj) is Ok,
        keys_within(obj, |k: Seq<char>| CvssV3::spec_is_key(k)),
    ensures
        forall|k: Seq<char>|
            #[trigger] lookup_view(CvssV3::spec_parse(obj)->Ok_0.spec_members(), k)
                == present_value(obj, k),
{
    broadcast use lemma_lookup_view_concat;

    assert forall|k: Seq<char>|
        #[trigger] lookup_view(CvssV3::spec_parse(obj)->Ok_0.spec_members(), k)
            == present_value(obj, k) by {
        if lookup(obj, k) is Some {
            lemma_lookup_found(obj, k);
        }
        lemma_enum_round_trip::<VersionV3>(obj, "version", k);
        lemma_text_round_trip(obj, "vectorString", k);
        lemma_number_round_trip(obj, "baseScore", k);
        lemma_enum_round_trip::<Severity>(obj, "baseSeverity", k);
        lemma_enum_round_trip::<AttackVector>(obj, "attackVector", k);
        lemma_enum_round_trip::<AttackComplexity>(obj, "attackComplexity", k);
        lemma_enum_round_trip::<PrivilegesRequired>(obj, "privilegesRequired", k);
        lemma_enum_round_trip::<UserInteraction>(obj, "userInteraction", k);
        lemma_enum_round_trip::<Scope>(obj, "scope", k);
        lemma_enum_round_trip::<Impact>(obj, "confidentialityImpact", k);
        lemma_enum_round_trip::<Impact>(obj, "integrityImpact", k);
        lemma_enum_round_trip::<Impact>(obj, "availabilityImpact", k);
        lemma_opt_number_round_trip(obj, "temporalScore", k);
        lemma_opt_enum_round_trip::<Severity>(obj, "temporalSeverity", k);
        lemma_opt_enum_round_trip::<ExploitCodeMaturity>(obj, "exploitCodeMaturity", k);
        lemma_opt_enum_round_trip::<RemediationLevel>(obj, "remediationLevel", k);
        lemma_opt_enum_round_trip::<ReportConfidence>(obj, "reportConfidence", k);
        lemma_opt_number_round_trip(obj, "environmentalScore", k);
        lemma_opt_enum_round_trip::<Severity>(obj, "environmentalSeverity", k);
        lemma_opt_enum_round_trip::<SecurityRequirement>(obj, "confidentialityRequirement", k);
        lemma_opt_enum_round_trip::<SecurityRequirement>(obj, "integrityRequirement", k);
        lemma_opt_enum_round_trip::<SecurityRequirement>(obj, "availabilityRequirement", k);
        lemma_opt_enum_round_trip::<AttackVector>(obj, "modifiedAttackVector", k);
        lemma_opt_enum_round_trip::<AttackComplexity>(obj, "modifiedAttackComplexity", k);
        lemma_opt_enum_round_trip::<PrivilegesRequired>(obj, "modifiedPrivilegesRequired", k);
        lemma_opt_enum_round_trip::<UserInteraction>(obj, "modifiedUserInteraction", k);
        lemma_opt_enum_round_trip::<Scope>(obj, "modifiedScope", k);
        lemma_opt_enum_round_trip::<Impact>(obj, "modifiedConfidentialityImpact", k);
        lemma_opt_enum_round_trip::<Impact>(obj, "modifiedIntegrityImpact", k);
        lemma_opt_enum_round_trip::<Impact>(obj, "modifiedAvailabilityImpact", k);
    }
}

/// Writing a record and reading it back gives the record again: an object
/// whose members are those that `x` is written as reads as a record that
/// is written as the same members, so that each field equals that of `x`
/// (a string field by its characters).
pub proof fn lemma_read_back(x: CvssV3, obj: Seq<Member>)
    requires
        obj_view(obj) == x.spec_members(),
        x.spec_valid(),
    ensures
        CvssV3::spec_parse(obj) is Ok,
        CvssV3::spec_parse(obj)->Ok_0.spec_members() == x.spec_members(),
        value_view(lookup(obj, "version"@)) == Some(JsonView::Text(x.version.wire())),
        CvssV3::spec_parse(obj)->Ok_0.version == x.version,
{
    broadcast use
        lemma_lookup_view_concat, lemma_text_member_other, lemma_number_member_other,
        lemma_opt_number_member_other, lemma_enum_member_other, lemma_opt_enum_member_other,
    ;

    reveal_strlit("version");
    reveal_strlit("vectorString");
    reveal_strlit("baseScore");
    reveal_strlit("baseSeverity");
    reveal_strlit("attackVector");
    reveal_strlit("attackComplexity");
    reveal_strlit("privilegesRequired");
    reveal_strlit("userInteraction");
    reveal_strlit("scope");
    reveal_strlit("confidentialityImpact");
    reveal_strlit("integrityImpact");
    reveal_strlit("availabilityImpact");
    reveal_strlit("temporalScore");
    reveal_strlit("temporalSeverity");
    reveal_strlit("exploitCodeMaturity");
    reveal_strlit("remediationLevel");
    reveal_strlit("reportConfidence");
    reveal_strlit("environmentalScore");
    reveal_strlit("environmentalSeverity");
    reveal_strlit("confidentialityRequirement");
    reveal_strlit("integrityRequirement");
    reveal_strlit("availabilityRequirement");
    reveal_strlit("modifiedAttackVector");
    reveal_strlit("modifiedAttackComplexity");
    reveal_strlit("modifiedPrivilegesRequired");
    reveal_strlit("modifiedUserInteraction");
    reveal_strlit("modifiedScope");
    reveal_strlit("modifiedConfidentialityImpact");
    reveal_strlit("modifiedIntegrityImpact");
    reveal_strlit("modifiedAvailabilityImpact");
    assert(key_sig("version"@) == (7int, 'v', 'n'));
    assert(key_sig("vectorString"@) == (12int, 'v', 'g'));
    assert(key_sig("baseScore"@) == (9int, 'b', 'e'));
    assert(key_sig("baseSeverity"@) == (12int, 'b', 'y'));
    assert(key_sig("attackVector"@) == (12int, 'a', 'r'));
    assert(key_sig("attackComplexity"@) == (16int, 'a', 'y'));
    assert(key_sig("privilegesRequired"@) == (18int, 'p', 'd'));
    assert(key_sig("userInteraction"@) == (15int, 'u', 'n'));
    assert(key_sig("scope"@) == (5int, 's', 'e'));
    assert(key_sig("confidentialityImpact"@) == (21int, 'c', 't'));
    assert(key_sig("integrityImpact"@) == (15int, 'i', 't'));
    assert(key_sig("availabilityImpact"@) == (18int, 'a', 't'));
    assert(key_sig("temporalScore"@) == (13int, 't', 'e'));
    assert(key_sig("temporalSeverity"@) == (16int, 't', 'y'));
    assert(key_sig("exploitCodeMaturity"@) == (19int, 'e', 'y'));
    assert(key_sig("remediationLevel"@) == (16int, 'r', 'l'));
    assert(key_sig("reportConfidence"@) == (16int, 'r', 'e'));
    assert(key_sig("environmentalScore"@) == (18int, 'e', 'e'));
    assert(key_sig("environmentalSeverity"@) == (21int, 'e', 'y'));
    assert(key_sig("confidentialityRequirement"@) == (26int, 'c', 't'));
    assert(key_sig("integrityRequirement"@) == (20int, 'i', 't'));
    assert(key_sig("availabilityRequirement"@) == (23int, 'a', 't'));
    assert(key_sig("modifiedAttackVector"@) == (20int, 'm', 'r'));
    assert(key_sig("modifiedAttackComplexity"@) == (24int, 'm', 'y'));
    assert(key_sig("modifiedPrivilegesRequired"@) == (26int, 'm', 'd'));
    assert(key_sig("modifiedUserInteraction"@) == (23int, 'm', 'n'));
    assert(key_sig("modifiedScope"@) == (13int, 'm', 'e'));
    assert(key_sig("modifiedConfidentialityImpact"@) == (29int, 'm', 't'));
    assert(key_sig("modifiedIntegrityImpact"@) == (23int, 'm', 't'));
    assert(key_sig("modifiedAvailabilityImpact"@) == (26int, 'm', 't'));
    lemma_lookup_obj_view(obj, "version"@);
    lemma_enum_read_back::<VersionV3>(obj, "version", x.version);
    lemma_lookup_obj_view(obj, "vectorString"@);
    lemma_text_read_back(obj, "vectorString", x.vector_string);
    lemma_lookup_obj_view(obj, "baseScore"@);
    lemma_number_read_back(obj, "baseScore", x.base_score);
    lemma_lookup_obj_view(obj, "baseSeverity"@);
    lemma_enum_read_back::<Severity>(obj, "baseSeverity", x.base_severity);
    lemma_lookup_obj_view(obj, "attackVector"@);
    lemma_enum_read_back::<AttackVector>(obj, "attackVector", x.attack_vector);
    lemma_lookup_obj_view(obj, "attackComplexity"@);
    lemma_enum_read_back::<AttackComplexity>(obj, "attackComplexity", x.attack_complexity);
    lemma_lookup_obj_view(obj, "privilegesRequired"@);
    lemma_enum_read_back::<PrivilegesRequired>(obj, "privilegesRequired", x.privileges_required);
    lemma_lookup_obj_view(obj, "userInteraction"@);
    lemma_enum_read_back::<UserInteraction>(obj, "userInteraction", x.user_interaction);
    lemma_lookup_obj_view(obj, "scope"@);
    lemma_enum_read_back::<Scope>(obj, "scope", x.scope);
    lemma_lookup_obj_view(obj, "confidentialityImpact"@);
    lemma_enum_read_back::<Impact>(obj, "confidentialityImpact", x.confidentiality_impact);
    lemma_lookup_obj_view(obj, "integrityImpact"@);
    lemma_enum_read_back::<Impact>(obj, "integrityImpact", x.integrity_impact);
    lemma_lookup_obj_view(obj, "availabilityImpact"@);
    lemma_enum_read_back::<Impact>(obj, "availabilityImpact", x.availability_impact);
    lemma_lookup_obj_view(obj, "temporalScore"@);
    lemma_opt_number_read_back(obj, "temporalScore", x.temporal_score);
    lemma_lookup_obj_view(obj, "temporalSeverity"@);
    lemma_opt_enum_read_back::<Severity>(obj, "temporalSeverity", x.temporal_severity);
    lemma_lookup_obj_view(obj, "exploitCodeMaturity"@);
    lemma_opt_enum_read_back::<ExploitCodeMaturity>(obj, "exploitCodeMaturity", x.exploit_code_maturity);
    lemma_lookup_obj_view(obj, "remediationLevel"@);
    lemma_opt_enum_read_back::<RemediationLevel>(obj, "remediationLevel", x.remediation_level);
    lemma_lookup_obj_view(obj, "reportConfidence"@);
    lemma_opt_enum_read_back::<ReportConfidence>(obj, "reportConfidence", x.report_confidence);
    lemma_lookup_obj_view(obj, "environmentalScore"@);
    lemma_opt_number_read_back(obj, "environmentalScore", x.environmental_score);
    lemma_lookup_obj_view(obj, "environmentalSeverity"@);
    lemma_opt_enum_read_back::<Severity>(obj, "environmentalSeverity", x.environmental_severity);
    lemma_lookup_obj_view(obj, "confidentialityRequirement"@);
    lemma_opt_enum_read_back::<SecurityRequirement>(obj, "confidentialityRequirement", x.confidentiality_requirement);
    lemma_lookup_obj_view(obj, "integrityRequirement"@);
    lemma_opt_enum_read_back::<SecurityRequirement>(obj, "integrityRequirement", x.integrity_requirement);
    lemma_lookup_obj_view(obj, "availabilityRequirement"@);
    lemma_opt_enum_read_back::<SecurityRequirement>(obj, "availabilityRequirement", x.availability_requirement);
    lemma_lookup_obj_view(obj, "modifiedAttackVector"@);
    lemma_opt_enum_read_back::<AttackVector>(obj, "modifiedAttackVector", x.modified_attack_vector);
    lemma_lookup_obj_view(obj, "modifiedAttackComplexity"@);
    lemma_opt_enum_read_back::<AttackComplexity>(obj, "modifiedAttackComplexity", x.modified_attack_complexity);
    lemma_lookup_obj_view(obj, "modifiedPrivilegesRequired"@);
    lemma_opt_enum_read_back::<PrivilegesRequired>(obj, "modifiedPrivilegesRequired", x.modified_privileges_required);
    lemma_lookup_obj_view(obj, "modifiedUserInteraction"@);
    lemma_opt_enum_read_back::<UserInteraction>(obj, "modifiedUserInteraction", x.modified_user_interaction);
    lemma_lookup_obj_view(obj, "modifiedScope"@);
    lemma_opt_enum_read_back::<Scope>(obj, "modifiedScope", x.modified_scope);
    lemma_lookup_obj_view(obj, "modifiedConfidentialityImpact"@);
    lemma_opt_enum_read_back::<Impact>(obj, "modifiedConfidentialityImpact", x.modified_confidentiality_impact);
    lemma_lookup_obj_view(obj, "modifiedIntegrityImpact"@);
    lemma_opt_enum_read_back::<Impact>(obj, "modifiedIntegrityImpact", x.modified_integrity_impact);
    lemma_lookup_obj_view(obj, "modifiedAvailabilityImpact"@);
    lemma_opt_enum_read_back::<Impact>(obj, "modifiedAvailabilityImpact", x.modified_availability_impact);
}

/// The qualitative severity rating of a vulnerability.
#[derive(Clone, Copy, Debug, PartialEq, Eq, Structural)]
pub enum Severity {
    /// The value that CVSS calls None.
    Nil,
    Low,
    Medium,
    High,
    Critical,
}

impl WireToken for Severity {
    open spec fn wire(&self) -> Seq<char> {
        match self {
            Severity::Nil => "NONE"@,
            Severity::Low => "LOW"@,
            Severity::Medium => "MEDIUM"@,
            Severity::High => "HIGH"@,
            Severity::Critical => "CRITICAL"@,
        }
    }

    proof fn lemma_wire_injective(a: Self, b: Self) {
        reveal_strlit("NONE");
        reveal_strlit("LOW");
        reveal_strlit("MEDIUM");
        reveal_strlit("HIGH");
        reveal_strlit("CRITICAL");
        if a.wire() == b.wire() {
            assert(a.wire().len() == b.wire().len());
            assert(a.wire()[0] == b.wire()[0]);
        }
    }

    fn token(&self) -> (r: &'static str) {
        match self {
            Severity::Nil => "NONE",
            Severity::Low => "LOW",
            Severity::Medium => "MEDIUM",
            Severity::High => "HIGH",
            Severity::Critical => "CRITICAL",
        }
    }

    fn from_token(s: &str) -> (r: Option<Self>) {
        if str_eq(s, "NONE") {
            Some(Severity::Nil)
        } else if str_eq(s, "LOW") {
            Some(Severity::Low)
        } else if str_eq(s, "MEDIUM") {
            Some(Severity::Medium)
        } else if str_eq(s, "HIGH") {
            Some(Severity::High)
        } else if str_eq(s, "CRITICAL") {
            Some(Severity::Critical)
        } else {
            None
        }
    }
}

/// The attack vector metric.
#[derive(Clone, Copy, Debug, PartialEq, Eq, Structural)]
pub enum AttackVector {
    Network,
    AdjacentNetwork,
    Local,
    Physical,
    NotDefined,
}

impl WireToken for AttackVector {
    open spec fn wire(&self) -> Seq<char> {
        match self {
            AttackVector::Network => "NETWORK"@,
            AttackVector::AdjacentNetwork => "ADJACENT_NETWORK"@,
            AttackVector::Local => "LOCAL"@,
            AttackVector::Physical => "PHYSICAL"@,
            AttackVector::NotDefined => "NOT_DEFINED"@,
        }
    }

    proof fn lemma_wire_injective(a: Self, b: Self) {
        reveal_strlit("NETWORK");
        reveal_strlit("ADJACENT_NETWORK");
        reveal_strlit("LOCAL");
        reveal_strlit("PHYSICAL");
        reveal_strlit("NOT_DEFINED");
        if a.wire() == b.wire() {
            assert(a.wire().len() == b.wire().len());
        }
    }

    fn token(&self) -> (r: &'static str) {
        match self {
            AttackVector::Network => "NETWORK",
            AttackVector::AdjacentNetwork => "ADJACENT_NETWORK",
            AttackVector::Local => "LOCAL",
            AttackVector::Physical => "PHYSICAL",
            AttackVector::NotDefined => "NOT_DEFINED",
        }
    }

    fn from_token(s: &str) -> (r: Option<Self>) {
        if str_eq(s, "NETWORK") {
            Some(AttackVector::Network)
        } else if str_eq(s, "ADJACENT_NETWORK") {
            Some(AttackVector::AdjacentNetwork)
        } else if str_eq(s, "LOCAL") {
            Some(AttackVector::Local)
        } else if str_eq(s, "PHYSICAL") {
            Some(AttackVector::Physical)
        } else if str_eq(s, "NOT_DEFINED") {
            Some(AttackVector::NotDefined)
        } else {
            None
        }
    }
}

/// The attack complexity metric.
#[derive(Clone, Copy, Debug, PartialEq, Eq, Structural)]
pub enum AttackComplexity {
    Low,
    High,
    NotDefined,
}

impl WireToken for AttackComplexity {
    open spec fn wire(&self) -> Seq<char> {
        match self {
            AttackComplexity::Low => "LOW"@,
            AttackComplexity::High => "HIGH"@,
            AttackComplexity::NotDefined => "NOT_DEFINED"@,
        }
    }

    proof fn lemma_wire_injective(a: Self, b: Self) {
        reveal_strlit("LOW");
        reveal_strlit("HIGH");
        reveal_strlit("NOT_DEFINED");
        if a.wire() == b.wire() {
            assert(a.wire().len() == b.wire().len());
        }
    }

    fn token(&self) -> (r: &'static str) {
        match self {
            AttackComplexity::Low => "LOW",
            AttackComplexity::High => "HIGH",
            AttackComplexity::NotDefined => "NOT_DEFINED",
        }
    }

    fn from_token(s: &str) -> (r: Option<Self>) {
        if str_eq(s, "LOW") {
            Some(AttackComplexity::Low)
        } else if str_eq(s, "HIGH") {
            Some(AttackComplexity::High)
        } else if str_eq(s, "NOT_DEFINED") {
            Some(AttackComplexity::NotDefined)
        } else {
            None
        }
    }
}

/// The privileges required metric.
#[derive(Clone, Copy, Debug, PartialEq, Eq, Structural)]
pub enum PrivilegesRequired {
    /// The value that CVSS calls None.
    Nil,
    Low,
    High,
    NotDefined,
}

impl WireToken for PrivilegesRequired {
    open spec fn wire(&self) -> Seq<char> {
        match self {
            PrivilegesRequired::Nil => "NONE"@,
            PrivilegesRequired::Low => "LOW"@,
            PrivilegesRequired::High => "HIGH"@,
            PrivilegesRequired::NotDefined => "NOTDEFINED"@,
        }
    }

    proof fn lemma_wire_injective(a: Self, b: Self) {
        reveal_strlit("NONE");
        reveal_strlit("LOW");
        reveal_strlit("HIGH");
        reveal_strlit("NOTDEFINED");
        if a.wire() == b.wire() {
            assert(a.wire().len() == b.wire().len());
            assert(a.wire()[0] == b.wire()[0]);
        }
    }

    fn token(&self) -> (r: &'static str) {
        match self {
            PrivilegesRequired::Nil => "NONE",
            PrivilegesRequired::Low => "LOW",
            PrivilegesRequired::High => "HIGH",
            PrivilegesRequired::NotDefined => "NOTDEFINED",
        }
    }

    fn from_token(s: &str) -> (r: Option<Self>) {
        if str_eq(s, "NONE") {
            Some(PrivilegesRequired::Nil)
        } else if str_eq(s, "LOW") {
            Some(PrivilegesRequired::Low)
        } else if str_eq(s, "HIGH") {
            Some(PrivilegesRequired::High)
        } else if str_eq(s, "NOTDEFINED") {
            Some(PrivilegesRequired::NotDefined)
        } else {
            None
        }
    }
}

/// The user interaction metric.
#[derive(Clone, Copy, Debug, PartialEq, Eq, Structural)]
pub enum UserInteraction {
    /// The value that CVSS calls None.
    Nil,
    Required,
    NotDefined,
}

impl WireToken for UserInteraction {
    open spec fn wire(&self) -> Seq<char> {
        match self {
            UserInteraction::Nil => "NONE"@,
            UserInteraction::Required => "REQUIRED"@,
            UserInteraction::NotDefined => "NOT_DEFINED"@,
        }
    }

    proof fn lemma_wire_injective(a: Self, b: Self) {
        reveal_strlit("NONE");
        reveal_strlit("REQUIRED");
        reveal_strlit("NOT_DEFINED");
        if a.wire() == b.wire() {
            assert(a.wire().len() == b.wire().len());
        }
    }

    fn token(&self) -> (r: &'static str) {
        match self {
            UserInteraction::Nil => "NONE",
            UserInteraction::Required => "REQUIRED",
            UserInteraction::NotDefined => "NOT_DEFINED",
        }
    }

    fn from_token(s: &str) -> (r: Option<Self>) {
        if str_eq(s, "NONE") {
            Some(UserInteraction::Nil)
        } else if str_eq(s, "REQUIRED") {
            Some(UserInteraction::Required)
        } else if str_eq(s, "NOT_DEFINED") {
            Some(UserInteraction::NotDefined)
        } else {
            None
        }
    }
}

/// The scope metric.
#[derive(Clone, Copy, Debug, PartialEq, Eq, Structural)]
pub enum Scope {
    Unchanged,
    Changed,
    NotDefined,
}

impl WireToken for Scope {
    open spec fn wire(&self) -> Seq<char> {
        match self {
            Scope::Unchanged => "UNCHANGED"@,
            Scope::Changed => "CHANGED"@,
            Scope::NotDefined => "NOT_DEFINED"@,
        }
    }

    proof fn lemma_wire_injective(a: Self, b: Self) {
        reveal_strlit("UNCHANGED");
        reveal_strlit("CHANGED");
        reveal_strlit("NOT_DEFINED");
        if a.wire() == b.wire() {
            assert(a.wire().len() == b.wire().len());
        }
    }

    fn token(&self) -> (r: &'static str) {
        match self {
            Scope::Unchanged => "UNCHANGED",
            Scope::Changed => "CHANGED",
            Scope::NotDefined => "NOT_DEFINED",
        }
    }

    fn from_token(s: &str) -> (r: Option<Self>) {
        if str_eq(s, "UNCHANGED") {
            Some(Scope::Unchanged)
        } else if str_eq(s, "CHANGED") {
            Some(Scope::Changed)
        } else if str_eq(s, "NOT_DEFINED") {
            Some(Scope::NotDefined)
        } else {
            None
        }
    }
}

/// The impact metrics (confidentiality, integrity, availability).
#[derive(Clone, Copy, Debug, PartialEq, Eq, Structural)]
pub enum Impact {
    High,
    Low,
    /// The value that CVSS calls None.
    Nil,
    NotDefined,
}

impl WireToken for Impact {
    open spec fn wire(&self) -> Seq<char> {
        match self {
            Impact::High => "HIGH"@,
            Impact::Low => "LOW"@,
            Impact::Nil => "NONE"@,
            Impact::NotDefined => "NOT_DEFINED"@,
        }
    }

    proof fn lemma_wire_injective(a: Self, b: Self) {
        reveal_strlit("HIGH");
        reveal_strlit("LOW");
        reveal_strlit("NONE");
        reveal_strlit("NOT_DEFINED");
        if a.wire() == b.wire() {
            assert(a.wire().len() == b.wire().len());
            assert(a.wire()[0] == b.wire()[0]);
        }
    }

    fn token(&self) -> (r: &'static str) {
        match self {
            Impact::High => "HIGH",
            Impact::Low => "LOW",
            Impact::Nil => "NONE",
            Impact::NotDefined => "NOT_DEFINED",
        }
    }

    fn from_token(s: &str) -> (r: Option<Self>) {
        if str_eq(s, "HIGH") {
            Some(Impact::High)
        } else if str_eq(s, "LOW") {
            Some(Impact::Low)
        } else if str_eq(s, "NONE") {
            Some(Impact::Nil)
        } else if str_eq(s, "NOT_DEFINED") {
            Some(Impact::NotDefined)
        } else {
            None
        }
    }
}

/// The exploit code maturity metric.
#[derive(Clone, Copy, Debug, PartialEq, Eq, Structural)]
pub enum ExploitCodeMaturity {
    Unproven,
    ProofOfConcept,
    Functional,
    High,
    NotDefined,
}

impl WireToken for ExploitCodeMaturity {
    open spec fn wire(&self) -> Seq<char> {
        match self {
            ExploitCodeMaturity::Unproven => "UNPROVEN"@,
            ExploitCodeMaturity::ProofOfConcept => "PROOF_OF_CONCEPT"@,
            ExploitCodeMaturity::Functional => "FUNCTIONAL"@,
            ExploitCodeMaturity::High => "HIGH"@,
            ExploitCodeMaturity::NotDefined => "NOT_DEFINED"@,
        }
    }

    proof fn lemma_wire_injective(a: Self, b: Self) {
        reveal_strlit("UNPROVEN");
        reveal_strlit("PROOF_OF_CONCEPT");
        reveal_strlit("FUNCTIONAL");
        reveal_strlit("HIGH");
        reveal_strlit("NOT_DEFINED");
        if a.wire() == b.wire() {
            assert(a.wire().len() == b.wire().len());
        }
    }

    fn token(&self) -> (r: &'static str) {
        match self {
            ExploitCodeMaturity::Unproven => "UNPROVEN",
            ExploitCodeMaturity::ProofOfConcept => "PROOF_OF_CONCEPT",
            ExploitCodeMaturity::Functional => "FUNCTIONAL",
            ExploitCodeMaturity::High => "HIGH",
            ExploitCodeMaturity::NotDefined => "NOT_DEFINED",
        }
    }

    fn from_token(s: &str) -> (r: Option<Self>) {
        if str_eq(s, "UNPROVEN") {
            Some(ExploitCodeMaturity::Unproven)
        } else if str_eq(s, "PROOF_OF_CONCEPT") {
            Some(ExploitCodeMaturity::ProofOfConcept)
        } else if str_eq(s, "FUNCTIONAL") {
            Some(ExploitCodeMaturity::Functional)
        } else if str_eq(s, "HIGH") {
            Some(ExploitCodeMaturity::High)
        } else if str_eq(s, "NOT_DEFINED") {
            Some(ExploitCodeMaturity::NotDefined)
        } else {
            None
        }
    }
}

/// The remediation level metric.
#[derive(Clone, Copy, Debug, PartialEq, Eq, Structural)]
pub enum RemediationLevel {
    OfficialFix,
    TemporaryFix,
    Workaround,
    Unavailable,
    NotDefined,
}

impl WireToken for RemediationLevel {
    open spec fn wire(&self) -> Seq<char> {
        match self {
            RemediationLevel::OfficialFix => "OFFICIAL_FIX"@,
            RemediationLevel::TemporaryFix => "TEMPORARY_FIX"@,
            RemediationLevel::Workaround => "WORKAROUND"@,
            RemediationLevel::Unavailable => "UNAVAILABLE"@,
            RemediationLevel::NotDefined => "NOT_DEFINED"@,
        }
    }

    proof fn lemma_wire_injective(a: Self, b: Self) {
        reveal_strlit("OFFICIAL_FIX");
        reveal_strlit("TEMPORARY_FIX");
        reveal_strlit("WORKAROUND");
        reveal_strlit("UNAVAILABLE");
        reveal_strlit("NOT_DEFINED");
        if a.wire() == b.wire() {
            assert(a.wire().len() == b.wire().len());
            assert(a.wire()[0] == b.wire()[0]);
        }
    }

    fn token(&self) -> (r: &'static str) {
        match self {
            RemediationLevel::OfficialFix => "OFFICIAL_FIX",
            RemediationLevel::TemporaryFix => "TEMPORARY_FIX",
            RemediationLevel::Workaround => "WORKAROUND",
            RemediationLevel::Unavailable => "UNAVAILABLE",
            RemediationLevel::NotDefined => "NOT_DEFINED",
        }
    }

    fn from_token(s: &str) -> (r: Option<Self>) {
        if str_eq(s, "OFFICIAL_FIX") {
            Some(RemediationLevel::OfficialFix)
        } else if str_eq(s, "TEMPORARY_FIX") {
            Some(RemediationLevel::TemporaryFix)
        } else if str_eq(s, "WORKAROUND") {
            Some(RemediationLevel::Workaround)
        } else if str_eq(s, "UNAVAILABLE") {
            Some(RemediationLevel::Unavailable)
        } else if str_eq(s, "NOT_DEFINED") {
            Some(RemediationLevel::NotDefined)
        } else {
            None
        }
    }
}

/// The report confidence metric.
#[derive(Clone, Copy, Debug, PartialEq, Eq, Structural)]
pub enum ReportConfidence {
    Unknown,
    Reasonable,
    Confirmed,
    NotDefined,
}

impl WireToken for ReportConfidence {
    open spec fn wire(&self) -> Seq<char> {
        match self {
            ReportConfidence::Unknown => "UNKNOWN"@,
            ReportConfidence::Reasonable => "REASONABLE"@,
            ReportConfidence::Confirmed => "CONFIRMED"@,
            ReportConfidence::NotDefined => "NOT_DEFINED"@,
        }
    }

    proof fn lemma_wire_injective(a: Self, b: Self) {
        reveal_strlit("UNKNOWN");
        reveal_strlit("REASONABLE");
        reveal_strlit("CONFIRMED");
        reveal_strlit("NOT_DEFINED");
        if a.wire() == b.wire() {
            assert(a.wire().len() == b.wire().len());
        }
    }

    fn token(&self) -> (r: &'static str) {
        match self {
            ReportConfidence::Unknown => "UNKNOWN",
            ReportConfidence::Reasonable => "REASONABLE",
            ReportConfidence::Confirmed => "CONFIRMED",
            ReportConfidence::NotDefined => "NOT_DEFINED",
        }
    }

    fn from_token(s: &str) -> (r: Option<Self>) {
        if str_eq(s, "UNKNOWN") {
            Some(ReportConfidence::Unknown)
        } else if str_eq(s, "REASONABLE") {
            Some(ReportConfidence::Reasonable)
        } else if str_eq(s, "CONFIRMED") {
            Some(ReportConfidence::Confirmed)
        } else if str_eq(s, "NOT_DEFINED") {
            Some(ReportConfidence::NotDefined)
        } else {
            None
        }
    }
}

/// The security requirement metric.
#[derive(Clone, Copy, Debug, PartialEq, Eq, Structural)]
pub enum SecurityRequirement {
    Low,
    Medium,
    High,
    NotDefined,
}

impl WireToken for SecurityRequirement {
    open spec fn wire(&self) -> Seq<char> {
        match self {
            SecurityRequirement::Low => "LOW"@,
            SecurityRequirement::Medium => "MEDIUM"@,
            SecurityRequirement::High => "HIGH"@,
            SecurityRequirement::NotDefined => "NOT_DEFINED"@,
        }
    }

    proof fn lemma_wire_injective(a: Self, b: Self) {
        reveal_strlit("LOW");
        reveal_strlit("MEDIUM");
        reveal_strlit("HIGH");
        reveal_strlit("NOT_DEFINED");
        if a.wire() == b.wire() {
            assert(a.wire().len() == b.wire().len());
        }
    }

    fn token(&self) -> (r: &'static str) {
        match self {
            SecurityRequirement::Low => "LOW",
            SecurityRequirement::Medium => "MEDIUM",
            SecurityRequirement::High => "HIGH",
            SecurityRequirement::NotDefined => "NOT_DEFINED",
        }
    }

    fn from_token(s: &str) -> (r: Option<Self>) {
        if str_eq(s, "LOW") {
            Some(SecurityRequirement::Low)
        } else if str_eq(s, "MEDIUM") {
            Some(SecurityRequirement::Medium)
        } else if str_eq(s, "HIGH") {
            Some(SecurityRequirement::High)
        } else if str_eq(s, "NOT_DEFINED") {
            Some(SecurityRequirement::NotDefined)
        } else {
            None
        }
    }
}

impl Severity {
    /// The same rating on the five-level scale.
    pub open spec fn spec_unified(self) -> UnifiedSeverity {
        match self {
            Severity::Nil => UnifiedSeverity::Nil,
            Severity::Low => UnifiedSeverity::Low,
            Severity::Medium => UnifiedSeverity::Medium,
            Severity::High => UnifiedSeverity::High,
            Severity::Critical => UnifiedSeverity::Critical,
        }
    }

    /// The same rating on the five-level scale.
    pub fn unified(&self) -> (r: UnifiedSeverity)
        ensures
            r == self.spec_unified(),
    {
        match self {
            Severity::Nil => UnifiedSeverity::Nil,
            Severity::Low => UnifiedSeverity::Low,
            Severity::Medium => UnifiedSeverity::Medium,
            Severity::High => UnifiedSeverity::High,
            Severity::Critical => UnifiedSeverity::Critical,
        }
    }
}

impl Cvss for CvssV3 {
    open spec fn spec_version(&self) -> Version {
        match self.version {
            VersionV3::V3_0 => Version::V3_0,
            VersionV3::V3_1 => Version::V3_1,
        }
    }

    open spec fn spec_vector_string(&self) -> Seq<char> {
        self.vector_string@
    }

    open spec fn spec_base_score(&self) -> Seq<char> {
        self.base_score@
    }

    open spec fn spec_base_severity(&self) -> Option<UnifiedSeverity> {
        Some(self.base_severity.spec_unified())
    }

    fn version(&self) -> (r: Version) {
        match self.version {
            VersionV3::V3_0 => Version::V3_0,
            VersionV3::V3_1 => Version::V3_1,
        }
    }

    fn vector_string(&self) -> (r: &str) {
        self.vector_string.as_str()
    }

    fn base_score(&self) -> (r: &str) {
        self.base_score.as_str()
    }

    fn base_severity(&self) -> (r: Option<UnifiedSeverity>) {
        Some(self.base_severity.unified())
    }
}

/// A version 3 record must hold its base severity: without it reading
/// fails, and where the fields read before it are sound the error names it
/// as missing.
pub proof fn lemma_base_severity_required(obj: Seq<Member>)
    requires
        lookup(obj, "baseSeverity"@) is None,
    ensures
        CvssV3::spec_parse(obj) is Err,
        ({
            &&& enum_field::<VersionV3>(obj, "version") is Ok
            &&& text_field(obj, "vectorString") is Ok
            &&& number_field(obj, "baseScore") is Ok
        }) ==> CvssV3::spec_parse(obj) == Err::<CvssV3, ParseError>(
            ParseError::MissingRequiredField("baseSeverity"),
        ),
{
}

/// A vocabulary of a version 3 base metric, which version 3.1 extends with a
/// `NotDefined` value that version 3.0 does not have.
pub trait BaseMetric: WireToken {
    /// Whether this is the value that only version 3.1 has.
    spec fn spec_is_not_defined(&self) -> bool;

    /// Whether this is the value that only version 3.1 has.
    fn is_not_defined(&self) -> (r: bool)
        ensures
            r == self.spec_is_not_defined(),
    ;
}

/// The required base metric `key` of `obj`; where `strict` (a version 3.0
/// record), its `NotDefined` value is refused like any string outside the
/// vocabulary.
pub open spec fn base_metric_field<T: BaseMetric>(
    obj: Seq<Member>,
    key: &'static str,
    strict: bool,
) -> Result<T, ParseError> {
    match enum_field::<T>(obj, key) {
        Ok(v) => if strict && v.spec_is_not_defined() {
            Err(ParseError::UnknownEnumValue(key, lookup(obj, key@)->0->Text_0))
        } else {
            Ok(v)
        },
        Err(e) => Err(e),
    }
}

/// Reads the required base metric `key`, refusing `NotDefined` where
/// `strict`.
pub fn read_base_metric<T: BaseMetric>(obj: &Vec<Member>, key: &'static str, strict: bool) -> (r:
    Result<T, ParseError>)
    ensures
        r == base_metric_field::<T>(obj@, key, strict),
{
    match find(obj, key) {
        None => Err(ParseError::MissingRequiredField(key)),
        Some(JsonValue::Text(s)) => match decode_token::<T>(key, s) {
            Ok(v) => {
                if strict && v.is_not_defined() {
                    Err(ParseError::UnknownEnumValue(key, s.clone()))
                } else {
                    Ok(v)
                }
            },
            Err(e) => Err(e),
        },
        Some(_) => Err(ParseError::TypeMismatch(key, ValueKind::Text)),
    }
}

/// A base metric that spells its `NotDefined` value reads as that value in
/// a version 3.1 record, and is refused in a version 3.0 record with an
/// error that names the field and the string.
pub proof fn lemma_not_defined_only_in_v3_1<T: BaseMetric>(
    obj: Seq<Member>,
    key: &'static str,
    s: String,
    v: T,
)
    requires
        lookup(obj, key@) == Some(JsonValue::Text(s)),
        v.wire() == s@,
        v.spec_is_not_defined(),
    ensures
        base_metric_field::<T>(obj, key, false) == Ok::<T, ParseError>(v),
        base_metric_field::<T>(obj, key, true) == Err::<T, ParseError>(
            ParseError::UnknownEnumValue(key, s),
        ),
{
    lemma_vocabulary_exhaustive::<T>(obj, key, s);
}

impl BaseMetric for AttackVector {
    open spec fn spec_is_not_defined(&self) -> bool {
        *self is NotDefined
    }

    fn is_not_defined(&self) -> (r: bool) {
        match self {
            AttackVector::NotDefined => true,
            _ => false,
        }
    }
}

impl BaseMetric for AttackComplexity {
    open spec fn spec_is_not_defined(&self) -> bool {
        *self is NotDefined
    }

    fn is_not_defined(&self) -> (r: bool) {
        match self {
            AttackComplexity::NotDefined => true,
            _ => false,
        }
    }
}

impl BaseMetric for PrivilegesRequired {
    open spec fn spec_is_not_defined(&self) -> bool {
        *self is NotDefined
    }

    fn is_not_defined(&self) -> (r: bool) {
        match self {
            PrivilegesRequired::NotDefined => true,
            _ => false,
        }
    }
}

impl BaseMetric for UserInteraction {
    open spec fn spec_is_not_defined(&self) -> bool {
        *self is NotDefined
    }

    fn is_not_defined(&self) -> (r: bool) {
        match self {
            UserInteraction::NotDefined => true,
            _ => false,
        }
    }
}

impl BaseMetric for Scope {
    open spec fn spec_is_not_defined(&self) -> bool {
        *self is NotDefined
    }

    fn is_not_defined(&self) -> (r: bool) {
        match self {
            Scope::NotDefined => true,
            _ => false,
        }
    }
}

impl BaseMetric for Impact {
    open spec fn spec_is_not_defined(&self) -> bool {
        *self is NotDefined
    }

    fn is_not_defined(&self) -> (r: bool) {
        match self {
            Impact::NotDefined => true,
            _ => false,
        }
    }
}

} // verus!
