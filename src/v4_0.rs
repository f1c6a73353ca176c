//! Records of CVSS version 4.0.
//!
//! A version 4 record has no version field of its own: a `version` member
//! in the object is ignored.
use vstd::prelude::*;

use crate::field::{
    enum_field, enum_member, lemma_enum_member_other, lemma_enum_read_back, lemma_enum_round_trip,
    lemma_number_member_other, lemma_number_read_back, lemma_number_round_trip,
    lemma_opt_enum_member_other, lemma_opt_enum_read_back, lemma_opt_enum_round_trip,
    lemma_opt_number_member_other, lemma_text_member_other, lemma_text_read_back,
    lemma_text_round_trip, lemma_vocabulary_exhaustive, number_field, number_member, opt_enum_field,
    opt_enum_member, read_enum, read_number, read_opt_enum, read_text, text_field, text_member,
    write_enum, write_number, write_opt_enum, write_text, ParseError,
};
use crate::json::{
    key_sig, keys_within, lemma_lookup_found, lemma_lookup_obj_view, lemma_lookup_view_concat,
    lookup, lookup_view, obj_view, present_value, str_eq, JsonValue, JsonView, Member,
};
use crate::token::WireToken;
use crate::version::Version;
use crate::Cvss;
use crate::Severity as UnifiedSeverity;

verus! {

/// A CVSS v4.0 score object.
#[derive(Clone, Debug, PartialEq)]
pub struct CvssV4 {
    /// The CVSS vector string.
    pub vector_string: String,
    /// The base score, as written in the record.
    pub base_score: String,
    /// The qualitative severity rating for the base score.
    pub base_severity: Severity,
    /// Attack Vector (AV).
    pub attack_vector: AttackVector,
    /// Attack Complexity (AC).
    pub attack_complexity: AttackComplexity,
    /// Attack Requirements (AT).
    pub attack_requirements: AttackRequirements,
    /// Privileges Required (PR).
    pub privileges_required: PrivilegesRequired,
    /// User Interaction (UI).
    pub user_interaction: UserInteraction,
    /// Vulnerable System Confidentiality Impact (VC).
    pub vuln_confidentiality_impact: Impact,
    /// Vulnerable System Integrity Impact (VI).
    pub vuln_integrity_impact: Impact,
    /// Vulnerable System Availability Impact (VA).
    pub vuln_availability_impact: Impact,
    /// Subsequent System Confidentiality Impact (SC).
    pub sub_confidentiality_impact: Impact,
    /// Subsequent System Integrity Impact (SI).
    pub sub_integrity_impact: Impact,
    /// Subsequent System Availability Impact (SA).
    pub sub_availability_impact: Impact,
    /// Exploit Maturity (E).
    pub exploit_maturity: Option<ExploitMaturity>,
    /// Confidentiality Requirement (CR).
    pub confidentiality_requirement: Option<Requirement>,
    /// Integrity Requirement (IR).
    pub integrity_requirement: Option<Requirement>,
    /// Availability Requirement (AR).
    pub availability_requirement: Option<Requirement>,
    /// Modified Attack Vector (MAV).
    pub modified_attack_vector: Option<AttackVector>,
    /// Modified Attack Complexity (MAC).
    pub modified_attack_complexity: Option<AttackComplexity>,
    /// Modified Attack Requirements (MAT).
    pub modified_attack_requirements: Option<AttackRequirements>,
    /// Modified Privileges Required (MPR).
    pub modified_privileges_required: Option<PrivilegesRequired>,
    /// Modified User Interaction (MUI).
    pub modified_user_interaction: Option<UserInteraction>,
    /// Modified Vulnerable System Confidentiality Impact (MVC).
    pub modified_vuln_confidentiality_impact: Option<Impact>,
    /// Modified Vulnerable System Integrity Impact (MVI).
    pub modified_vuln_integrity_impact: Option<Impact>,
    /// Modified Vulnerable System Availability Impact (MVA).
    pub modified_vuln_availability_impact: Option<Impact>,
    /// Modified Subsequent System Confidentiality Impact (MSC).
    pub modified_sub_confidentiality_impact: Option<Impact>,
    /// Modified Subsequent System Integrity Impact (MSI).
    pub modified_sub_integrity_impact: Option<Impact>,
    /// Modified Subsequent System Availability Impact (MSA).
    pub modified_sub_availability_impact: Option<Impact>,
    /// Safety (S); its key is written `Safety`.
    pub safety: Option<Safety>,
    /// Automatable (AU); its key is written `Automatable`.
    pub automatable: Option<Automatable>,
    /// Recovery (R); its key is written `Recovery`.
    pub recovery: Option<Recovery>,
    /// Value Density (V).
    pub value_density: Option<ValueDensity>,
    /// Vulnerability Response Effort (RE).
    pub vulnerability_response_effort: Option<VulnerabilityResponseEffort>,
    /// Provider Urgency (U).
    pub provider_urgency: Option<ProviderUrgency>,
}

impl CvssV4 {
    /// What reading `obj` gives: the error of the first field, in the order
    /// of declaration, that cannot be read, or else the record of all fields.
    pub open spec fn spec_parse(obj: Seq<Member>) -> Result<CvssV4, ParseError> {
        let vector_string = text_field(obj, "vectorString");
        let base_score = number_field(obj, "baseScore");
        let base_severity = enum_field::<Severity>(obj, "baseSeverity");
        let attack_vector = enum_field::<AttackVector>(obj, "attackVector");
        let attack_complexity = enum_field::<AttackComplexity>(obj, "attackComplexity");
        let attack_requirements = enum_field::<AttackRequirements>(obj, "attackRequirements");
        let privileges_required = enum_field::<PrivilegesRequired>(obj, "privilegesRequired");
        let user_interaction = enum_field::<UserInteraction>(obj, "userInteraction");
        let vuln_confidentiality_impact = enum_field::<Impact>(obj, "vulnConfidentialityImpact");
        let vuln_integrity_impact = enum_field::<Impact>(obj, "vulnIntegrityImpact");
        let vuln_availability_impact = enum_field::<Impact>(obj, "vulnAvailabilityImpact");
        let sub_confidentiality_impact = enum_field::<Impact>(obj, "subConfidentialityImpact");
        let sub_integrity_impact = enum_field::<Impact>(obj, "subIntegrityImpact");
        let sub_availability_impact = enum_field::<Impact>(obj, "subAvailabilityImpact");
        let exploit_maturity = opt_enum_field::<ExploitMaturity>(obj, "exploitMaturity");
        let confidentiality_requirement = opt_enum_field::<Requirement>(obj, "confidentialityRequirement");
        let integrity_requirement = opt_enum_field::<Requirement>(obj, "integrityRequirement");
        let availability_requirement = opt_enum_field::<Requirement>(obj, "availabilityRequirement");
        let modified_attack_vector = opt_enum_field::<AttackVector>(obj, "modifiedAttackVector");
        let modified_attack_complexity = opt_enum_field::<AttackComplexity>(obj, "modifiedAttackComplexity");
        let modified_attack_requirements = opt_enum_field::<AttackRequirements>(obj, "modifiedAttackRequirements");
        let modified_privileges_required = opt_enum_field::<PrivilegesRequired>(obj, "modifiedPrivilegesRequired");
        let modified_user_interaction = opt_enum_field::<UserInteraction>(obj, "modifiedUserInteraction");
        let modified_vuln_confidentiality_impact = opt_enum_field::<Impact>(obj, "modifiedVulnConfidentialityImpact");
        let modified_vuln_integrity_impact = opt_enum_field::<Impact>(obj, "modifiedVulnIntegrityImpact");
        let modified_vuln_availability_impact = opt_enum_field::<Impact>(obj, "modifiedVulnAvailabilityImpact");
        let modified_sub_confidentiality_impact = opt_enum_field::<Impact>(obj, "modifiedSubConfidentialityImpact");
        let modified_sub_integrity_impact = opt_enum_field::<Impact>(obj, "modifiedSubIntegrityImpact");
        let modified_sub_availability_impact = opt_enum_field::<Impact>(obj, "modifiedSubAvailabilityImpact");
        let safety = opt_enum_field::<Safety>(obj, "Safety");
        let automatable = opt_enum_field::<Automatable>(obj, "Automatable");
        let recovery = opt_enum_field::<Recovery>(obj, "Recovery");
        let value_density = opt_enum_field::<ValueDensity>(obj, "valueDensity");
        let vulnerability_response_effort = opt_enum_field::<VulnerabilityResponseEffort>(obj, "vulnerabilityResponseEffort");
        let provider_urgency = opt_enum_field::<ProviderUrgency>(obj, "providerUrgency");
        if vector_string is Err {
            Err(vector_string->Err_0)
        } else if base_score is Err {
            Err(base_score->Err_0)
        } else if base_severity is Err {
            Err(base_severity->Err_0)
        } else if attack_vector is Err {
            Err(attack_vector->Err_0)
        } else if attack_complexity is Err {
            Err(attack_complexity->Err_0)
        } else if attack_requirements is Err {
            Err(attack_requirements->Err_0)
        } else if privileges_required is Err {
            Err(privileges_required->Err_0)
        } else if user_interaction is Err {
            Err(user_interaction->Err_0)
        } else if vuln_confidentiality_impact is Err {
            Err(vuln_confidentiality_impact->Err_0)
        } else if vuln_integrity_impact is Err {
            Err(vuln_integrity_impact->Err_0)
        } else if vuln_availability_impact is Err {
            Err(vuln_availability_impact->Err_0)
        } else if sub_confidentiality_impact is Err {
            Err(sub_confidentiality_impact->Err_0)
        } else if sub_integrity_impact is Err {
            Err(sub_integrity_impact->Err_0)
        } else if sub_availability_impact is Err {
            Err(sub_availability_impact->Err_0)
        } else if exploit_maturity is Err {
            Err(exploit_maturity->Err_0)
        } else if confidentiality_requirement is Err {
            Err(confidentiality_requirement->Err_0)
        } else if integrity_requirement is Err {
            Err(integrity_requirement->Err_0)
        } else if availability_requirement is Err {
            Err(availability_requirement->Err_0)
        } else if modified_attack_vector is Err {
            Err(modified_attack_vector->Err_0)
        } else if modified_attack_complexity is Err {
            Err(modified_attack_complexity->Err_0)
        } else if modified_attack_requirements is Err {
            Err(modified_attack_requirements->Err_0)
        } else if modified_privileges_required is Err {
            Err(modified_privileges_required->Err_0)
        } else if modified_user_interaction is Err {
            Err(modified_user_interaction->Err_0)
        } else if modified_vuln_confidentiality_impact is Err {
            Err(modified_vuln_confidentiality_impact->Err_0)
        } else if modified_vuln_integrity_impact is Err {
            Err(modified_vuln_integrity_impact->Err_0)
        } else if modified_vuln_availability_impact is Err {
            Err(modified_vuln_availability_impact->Err_0)
        } else if modified_sub_confidentiality_impact is Err {
            Err(modified_sub_confidentiality_impact->Err_0)
        } else if modified_sub_integrity_impact is Err {
            Err(modified_sub_integrity_impact->Err_0)
        } else if modified_sub_availability_impact is Err {
            Err(modified_sub_availability_impact->Err_0)
        } else if safety is Err {
            Err(safety->Err_0)
        } else if automatable is Err {
            Err(automatable->Err_0)
        } else if recovery is Err {
            Err(recovery->Err_0)
        } else if value_density is Err {
            Err(value_density->Err_0)
        } else if vulnerability_response_effort is Err {
            Err(vulnerability_response_effort->Err_0)
        } else if provider_urgency is Err {
            Err(provider_urgency->Err_0)
        } else {
            Ok(CvssV4 {
                vector_string: vector_string->Ok_0,
                base_score: base_score->Ok_0,
                base_severity: base_severity->Ok_0,
                attack_vector: attack_vector->Ok_0,
                attack_complexity: attack_complexity->Ok_0,
                attack_requirements: attack_requirements->Ok_0,
                privileges_required: privileges_required->Ok_0,
                user_interaction: user_interaction->Ok_0,
                vuln_confidentiality_impact: vuln_confidentiality_impact->Ok_0,
                vuln_integrity_impact: vuln_integrity_impact->Ok_0,
                vuln_availability_impact: vuln_availability_impact->Ok_0,
                sub_confidentiality_impact: sub_confidentiality_impact->Ok_0,
                sub_integrity_impact: sub_integrity_impact->Ok_0,
                sub_availability_impact: sub_availability_impact->Ok_0,
                exploit_maturity: exploit_maturity->Ok_0,
                confidentiality_requirement: confidentiality_requirement->Ok_0,
                integrity_requirement: integrity_requirement->Ok_0,
                availability_requirement: availability_requirement->Ok_0,
                modified_attack_vector: modified_attack_vector->Ok_0,
                modified_attack_complexity: modified_attack_complexity->Ok_0,
                modified_attack_requirements: modified_attack_requirements->Ok_0,
                modified_privileges_required: modified_privileges_required->Ok_0,
                modified_user_interaction: modified_user_interaction->Ok_0,
                modified_vuln_confidentiality_impact: modified_vuln_confidentiality_impact->Ok_0,
                modified_vuln_integrity_impact: modified_vuln_integrity_impact->Ok_0,
                modified_vuln_availability_impact: modified_vuln_availability_impact->Ok_0,
                modified_sub_confidentiality_impact: modified_sub_confidentiality_impact->Ok_0,
                modified_sub_integrity_impact: modified_sub_integrity_impact->Ok_0,
                modified_sub_availability_impact: modified_sub_availability_impact->Ok_0,
                safety: safety->Ok_0,
                automatable: automatable->Ok_0,
                recovery: recovery->Ok_0,
                value_density: value_density->Ok_0,
                vulnerability_response_effort: vulnerability_response_effort->Ok_0,
                provider_urgency: provider_urgency->Ok_0,
            })
        }
    }

    /// The members that this record is written as: every field that is
    /// present, in the order of declaration, and no other.
    pub open spec fn spec_members(self) -> Seq<(Seq<char>, JsonView)> {
        Seq::empty()
            + text_member("vectorString", self.vector_string)
            + number_member("baseScore", self.base_score)
            + enum_member("baseSeverity", self.base_severity)
            + enum_member("attackVector", self.attack_vector)
            + enum_member("attackComplexity", self.attack_complexity)
            + enum_member("attackRequirements", self.attack_requirements)
            + enum_member("privilegesRequired", self.privileges_required)
            + enum_member("userInteraction", self.user_interaction)
            + enum_member("vulnConfidentialityImpact", self.vuln_confidentiality_impact)
            + enum_member("vulnIntegrityImpact", self.vuln_integrity_impact)
            + enum_member("vulnAvailabilityImpact", self.vuln_availability_impact)
            + enum_member("subConfidentialityImpact", self.sub_confidentiality_impact)
            + enum_member("subIntegrityImpact", self.sub_integrity_impact)
            + enum_member("subAvailabilityImpact", self.sub_availability_impact)
            + opt_enum_member("exploitMaturity", self.exploit_maturity)
            + opt_enum_member("confidentialityRequirement", self.confidentiality_requirement)
            + opt_enum_member("integrityRequirement", self.integrity_requirement)
            + opt_enum_member("availabilityRequirement", self.availability_requirement)
            + opt_enum_member("modifiedAttackVector", self.modified_attack_vector)
            + opt_enum_member("modifiedAttackComplexity", self.modified_attack_complexity)
            + opt_enum_member("modifiedAttackRequirements", self.modified_attack_requirements)
            + opt_enum_member("modifiedPrivilegesRequired", self.modified_privileges_required)
            + opt_enum_member("modifiedUserInteraction", self.modified_user_interaction)
            + opt_enum_member("modifiedVulnConfidentialityImpact", self.modified_vuln_confidentiality_impact)
            + opt_enum_member("modifiedVulnIntegrityImpact", self.modified_vuln_integrity_impact)
            + opt_enum_member("modifiedVulnAvailabilityImpact", self.modified_vuln_availability_impact)
            + opt_enum_member("modifiedSubConfidentialityImpact", self.modified_sub_confidentiality_impact)
            + opt_enum_member("modifiedSubIntegrityImpact", self.modified_sub_integrity_impact)
            + opt_enum_member("modifiedSubAvailabilityImpact", self.modified_sub_availability_impact)
            + opt_enum_member("Safety", self.safety)
            + opt_enum_member("Automatable", self.automatable)
            + opt_enum_member("Recovery", self.recovery)
            + opt_enum_member("valueDensity", self.value_density)
            + opt_enum_member("vulnerabilityResponseEffort", self.vulnerability_response_effort)
            + opt_enum_member("providerUrgency", self.provider_urgency)
    }

    /// Reads a record from the members of a JSON object.
    pub fn from_object(obj: &Vec<Member>) -> (r: Result<CvssV4, ParseError>)
        ensures
            r == Self::spec_parse(obj@),
    {
        let vector_string = match read_text(obj, "vectorString") {
            Ok(v) => v,
            Err(e) => return Err(e),
        };
        let base_score = match read_number(obj, "baseScore") {
            Ok(v) => v,
            Err(e) => return Err(e),
        };
        let base_severity = match read_enum::<Severity>(obj, "baseSeverity") {
            Ok(v) => v,
            Err(e) => return Err(e),
        };
        let attack_vector = match read_enum::<AttackVector>(obj, "attackVector") {
            Ok(v) => v,
            Err(e) => return Err(e),
        };
        let attack_complexity = match read_enum::<AttackComplexity>(obj, "attackComplexity") {
            Ok(v) => v,
            Err(e) => return Err(e),
        };
        let attack_requirements = match read_enum::<AttackRequirements>(obj, "attackRequirements") {
            Ok(v) => v,
            Err(e) => return Err(e),
        };
        let privileges_required = match read_enum::<PrivilegesRequired>(obj, "privilegesRequired") {
            Ok(v) => v,
            Err(e) => return Err(e),
        };
        let user_interaction = match read_enum::<UserInteraction>(obj, "userInteraction") {
            Ok(v) => v,
            Err(e) => return Err(e),
        };
        let vuln_confidentiality_impact = match read_enum::<Impact>(obj, "vulnConfidentialityImpact") {
            Ok(v) => v,
            Err(e) => return Err(e),
        };
        let vuln_integrity_impact = match read_enum::<Impact>(obj, "vulnIntegrityImpact") {
            Ok(v) => v,
            Err(e) => return Err(e),
        };
        let vuln_availability_impact = match read_enum::<Impact>(obj, "vulnAvailabilityImpact") {
            Ok(v) => v,
            Err(e) => return Err(e),
        };
        let sub_confidentiality_impact = match read_enum::<Impact>(obj, "subConfidentialityImpact") {
            Ok(v) => v,
            Err(e) => return Err(e),
        };
        let sub_integrity_impact = match read_enum::<Impact>(obj, "subIntegrityImpact") {
            Ok(v) => v,
            Err(e) => return Err(e),
        };
        let sub_availability_impact = match read_enum::<Impact>(obj, "subAvailabilityImpact") {
            Ok(v) => v,
            Err(e) => return Err(e),
        };
        let exploit_maturity = match read_opt_enum::<ExploitMaturity>(obj, "exploitMaturity") {
            Ok(v) => v,
            Err(e) => return Err(e),
        };
        let confidentiality_requirement = match read_opt_enum::<Requirement>(obj, "confidentialityRequirement") {
            Ok(v) => v,
            Err(e) => return Err(e),
        };
        let integrity_requirement = match read_opt_enum::<Requirement>(obj, "integrityRequirement") {
            Ok(v) => v,
            Err(e) => return Err(e),
        };
        let availability_requirement = match read_opt_enum::<Requirement>(obj, "availabilityRequirement") {
            Ok(v) => v,
            Err(e) => return Err(e),
        };
        let modified_attack_vector = match read_opt_enum::<AttackVector>(obj, "modifiedAttackVector") {
            Ok(v) => v,
            Err(e) => return Err(e),
        };
        let modified_attack_complexity = match read_opt_enum::<AttackComplexity>(obj, "modifiedAttackComplexity") {
            Ok(v) => v,
            Err(e) => return Err(e),
        };
        let modified_attack_requirements = match read_opt_enum::<AttackRequirements>(obj, "modifiedAttackRequirements") {
            Ok(v) => v,
            Err(e) => return Err(e),
        };
        let modified_privileges_required = match read_opt_enum::<PrivilegesRequired>(obj, "modifiedPrivilegesRequired") {
            Ok(v) => v,
            Err(e) => return Err(e),
        };
        let modified_user_interaction = match read_opt_enum::<UserInteraction>(obj, "modifiedUserInteraction") {
            Ok(v) => v,
            Err(e) => return Err(e),
        };
        let modified_vuln_confidentiality_impact = match read_opt_enum::<Impact>(obj, "modifiedVulnConfidentialityImpact") {
            Ok(v) => v,
            Err(e) => return Err(e),
        };
        let modified_vuln_integrity_impact = match read_opt_enum::<Impact>(obj, "modifiedVulnIntegrityImpact") {
            Ok(v) => v,
            Err(e) => return Err(e),
        };
        let modified_vuln_availability_impact = match read_opt_enum::<Impact>(obj, "modifiedVulnAvailabilityImpact") {
            Ok(v) => v,
            Err(e) => return Err(e),
        };
        let modified_sub_confidentiality_impact = match read_opt_enum::<Impact>(obj, "modifiedSubConfidentialityImpact") {
            Ok(v) => v,
            Err(e) => return Err(e),
        };
        let modified_sub_integrity_impact = match read_opt_enum::<Impact>(obj, "modifiedSubIntegrityImpact") {
            Ok(v) => v,
            Err(e) => return Err(e),
        };
        let modified_sub_availability_impact = match read_opt_enum::<Impact>(obj, "modifiedSubAvailabilityImpact") {
            Ok(v) => v,
            Err(e) => return Err(e),
        };
        let safety = match read_opt_enum::<Safety>(obj, "Safety") {
            Ok(v) => v,
            Err(e) => return Err(e),
        };
        let automatable = match read_opt_enum::<Automatable>(obj, "Automatable") {
            Ok(v) => v,
            Err(e) => return Err(e),
        };
        let recovery = match read_opt_enum::<Recovery>(obj, "Recovery") {
            Ok(v) => v,
            Err(e) => return Err(e),
        };
        let value_density = match read_opt_enum::<ValueDensity>(obj, "valueDensity") {
            Ok(v) => v,
            Err(e) => return Err(e),
        };
        let vulnerability_response_effort = match read_opt_enum::<VulnerabilityResponseEffort>(obj, "vulnerabilityResponseEffort") {
            Ok(v) => v,
            Err(e) => return Err(e),
        };
        let provider_urgency = match read_opt_enum::<ProviderUrgency>(obj, "providerUrgency") {
            Ok(v) => v,
            Err(e) => return Err(e),
        };
        Ok(CvssV4 {
            vector_string,
            base_score,
            base_severity,
            attack_vector,
            attack_complexity,
            attack_requirements,
            privileges_required,
            user_interaction,
            vuln_confidentiality_impact,
            vuln_integrity_impact,
            vuln_availability_impact,
            sub_confidentiality_impact,
            sub_integrity_impact,
            sub_availability_impact,
            exploit_maturity,
            confidentiality_requirement,
            integrity_requirement,
            availability_requirement,
            modified_attack_vector,
            modified_attack_complexity,
            modified_attack_requirements,
            modified_privileges_required,
            modified_user_interaction,
            modified_vuln_confidentiality_impact,
            modified_vuln_integrity_impact,
            modified_vuln_availability_impact,
            modified_sub_confidentiality_impact,
            modified_sub_integrity_impact,
            modified_sub_availability_impact,
            safety,
            automatable,
            recovery,
            value_density,
            vulnerability_response_effort,
            provider_urgency,
        })
    }

    /// Writes this record as the members of a JSON object, leaving out
    /// every absent field.
    pub fn to_object(&self) -> (r: Vec<Member>)
        ensures
            obj_view(r@) == self.spec_members(),
            Self::spec_parse(r@) is Ok,
            Self::spec_parse(r@)->Ok_0.spec_members() == self.spec_members(),
    {
        let mut obj: Vec<Member> = Vec::new();
        assert(obj_view(obj@) =~= Seq::empty());
        write_text(&mut obj, "vectorString", &self.vector_string);
        write_number(&mut obj, "baseScore", &self.base_score);
        write_enum(&mut obj, "baseSeverity", &self.base_severity);
        write_enum(&mut obj, "attackVector", &self.attack_vector);
        write_enum(&mut obj, "attackComplexity", &self.attack_complexity);
        write_enum(&mut obj, "attackRequirements", &self.attack_requirements);
        write_enum(&mut obj, "privilegesRequired", &self.privileges_required);
        write_enum(&mut obj, "userInteraction", &self.user_interaction);
        write_enum(&mut obj, "vulnConfidentialityImpact", &self.vuln_confidentiality_impact);
        write_enum(&mut obj, "vulnIntegrityImpact", &self.vuln_integrity_impact);
        write_enum(&mut obj, "vulnAvailabilityImpact", &self.vuln_availability_impact);
        write_enum(&mut obj, "subConfidentialityImpact", &self.sub_confidentiality_impact);
        write_enum(&mut obj, "subIntegrityImpact", &self.sub_integrity_impact);
        write_enum(&mut obj, "subAvailabilityImpact", &self.sub_availability_impact);
        write_opt_enum(&mut obj, "exploitMaturity", &self.exploit_maturity);
        write_opt_enum(&mut obj, "confidentialityRequirement", &self.confidentiality_requirement);
        write_opt_enum(&mut obj, "integrityRequirement", &self.integrity_requirement);
        write_opt_enum(&mut obj, "availabilityRequirement", &self.availability_requirement);
        write_opt_enum(&mut obj, "modifiedAttackVector", &self.modified_attack_vector);
        write_opt_enum(&mut obj, "modifiedAttackComplexity", &self.modified_attack_complexity);
        write_opt_enum(&mut obj, "modifiedAttackRequirements", &self.modified_attack_requirements);
        write_opt_enum(&mut obj, "modifiedPrivilegesRequired", &self.modified_privileges_required);
        write_opt_enum(&mut obj, "modifiedUserInteraction", &self.modified_user_interaction);
        write_opt_enum(&mut obj, "modifiedVulnConfidentialityImpact", &self.modified_vuln_confidentiality_impact);
        write_opt_enum(&mut obj, "modifiedVulnIntegrityImpact", &self.modified_vuln_integrity_impact);
        write_opt_enum(&mut obj, "modifiedVulnAvailabilityImpact", &self.modified_vuln_availability_impact);
        write_opt_enum(&mut obj, "modifiedSubConfidentialityImpact", &self.modified_sub_confidentiality_impact);
        write_opt_enum(&mut obj, "modifiedSubIntegrityImpact", &self.modified_sub_integrity_impact);
        write_opt_enum(&mut obj, "modifiedSubAvailabilityImpact", &self.modified_sub_availability_impact);
        write_opt_enum(&mut obj, "Safety", &self.safety);
        write_opt_enum(&mut obj, "Automatable", &self.automatable);
        write_opt_enum(&mut obj, "Recovery", &self.recovery);
        write_opt_enum(&mut obj, "valueDensity", &self.value_density);
        write_opt_enum(&mut obj, "vulnerabilityResponseEffort", &self.vulnerability_response_effort);
        write_opt_enum(&mut obj, "providerUrgency", &self.provider_urgency);
        proof {
            lemma_read_back(*self, obj@);
        }
        obj
    }
}

impl CvssV4 {
    /// Whether `k` is the key of a field of this record.
    pub open spec fn spec_is_key(k: Seq<char>) -> bool {
        k == "vectorString"@
            || k == "baseScore"@
            || k == "baseSeverity"@
            || k == "attackVector"@
            || k == "attackComplexity"@
            || k == "attackRequirements"@
            || k == "privilegesRequired"@
            || k == "userInteraction"@
            || k == "vulnConfidentialityImpact"@
            || k == "vulnIntegrityImpact"@
            || k == "vulnAvailabilityImpact"@
            || k == "subConfidentialityImpact"@
            || k == "subIntegrityImpact"@
            || k == "subAvailabilityImpact"@
            || k == "exploitMaturity"@
            || k == "confidentialityRequirement"@
            || k == "integrityRequirement"@
            || k == "availabilityRequirement"@
            || k == "modifiedAttackVector"@
            || k == "modifiedAttackComplexity"@
            || k == "modifiedAttackRequirements"@
            || k == "modifiedPrivilegesRequired"@
            || k == "modifiedUserInteraction"@
            || k == "modifiedVulnConfidentialityImpact"@
            || k == "modifiedVulnIntegrityImpact"@
            || k == "modifiedVulnAvailabilityImpact"@
            || k == "modifiedSubConfidentialityImpact"@
            || k == "modifiedSubIntegrityImpact"@
            || k == "modifiedSubAvailabilityImpact"@
            || k == "Safety"@
            || k == "Automatable"@
            || k == "Recovery"@
            || k == "valueDensity"@
            || k == "vulnerabilityResponseEffort"@
            || k == "providerUrgency"@
    }
}

/// Reading an object and writing the record back gives the same object
/// up to the order of its members and without its `null` members: every
/// key holds the same value in both, and a key that holds `null` (an absent
/// optional field) is left out. This holds where the record knows every key.
pub proof fn lemma_round_trip(obj: Seq<Member>)
    requires
        CvssV4::spec_parse(obj) is Ok,
        keys_within(obj, |k: Seq<char>| CvssV4::spec_is_key(k)),
    ensures
        forall|k: Seq<char>|
            #[trigger] lookup_view(CvssV4::spec_parse(obj)->Ok_0.spec_members(), k)
                == present_value(obj, k),
{
    broadcast use lemma_lookup_view_concat;

    assert forall|k: Seq<char>|
        #[trigger] lookup_view(CvssV4::spec_parse(obj)->Ok_0.spec_members(), k)
            == present_value(obj, k) by {
        if lookup(obj, k) is Some {
            lemma_lookup_found(obj, k);
        }
        lemma_text_round_trip(obj, "vectorString", k);
        lemma_number_round_trip(obj, "baseScore", k);
        lemma_enum_round_trip::<Severity>(obj, "baseSeverity", k);
        lemma_enum_round_trip::<AttackVector>(obj, "attackVector", k);
        lemma_enum_round_trip::<AttackComplexity>(obj, "attackComplexity", k);
        lemma_enum_round_trip::<AttackRequirements>(obj, "attackRequirements", k);
        lemma_enum_round_trip::<PrivilegesRequired>(obj, "privilegesRequired", k);
        lemma_enum_round_trip::<UserInteraction>(obj, "userInteraction", k);
        lemma_enum_round_trip::<Impact>(obj, "vulnConfidentialityImpact", k);
        lemma_enum_round_trip::<Impact>(obj, "vulnIntegrityImpact", k);
        lemma_enum_round_trip::<Impact>(obj, "vulnAvailabilityImpact", k);
        lemma_enum_round_trip::<Impact>(obj, "subConfidentialityImpact", k);
        lemma_enum_round_trip::<Impact>(obj, "subIntegrityImpact", k);
        lemma_enum_round_trip::<Impact>(obj, "subAvailabilityImpact", k);
        lemma_opt_enum_round_trip::<ExploitMaturity>(obj, "exploitMaturity", k);
        lemma_opt_enum_round_trip::<Requirement>(obj, "confidentialityRequirement", k);
        lemma_opt_enum_round_trip::<Requirement>(obj, "integrityRequirement", k);
        lemma_opt_enum_round_trip::<Requirement>(obj, "availabilityRequirement", k);
        lemma_opt_enum_round_trip::<AttackVector>(obj, "modifiedAttackVector", k);
        lemma_opt_enum_round_trip::<AttackComplexity>(obj, "modifiedAttackComplexity", k);
        lemma_opt_enum_round_trip::<AttackRequirements>(obj, "modifiedAttackRequirements", k);
        lemma_opt_enum_round_trip::<PrivilegesRequired>(obj, "modifiedPrivilegesRequired", k);
        lemma_opt_enum_round_trip::<UserInteraction>(obj, "modifiedUserInteraction", k);
        lemma_opt_enum_round_trip::<Impact>(obj, "modifiedVulnConfidentialityImpact", k);
        lemma_opt_enum_round_trip::<Impact>(obj, "modifiedVulnIntegrityImpact", k);
        lemma_opt_enum_round_trip::<Impact>(obj, "modifiedVulnAvailabilityImpact", k);
        lemma_opt_enum_round_trip::<Impact>(obj, "modifiedSubConfidentialityImpact", k);
        lemma_opt_enum_round_trip::<Impact>(obj, "modifiedSubIntegrityImpact", k);
        lemma_opt_enum_round_trip::<Impact>(obj, "modifiedSubAvailabilityImpact", k);
        lemma_opt_enum_round_trip::<Safety>(obj, "Safety", k);
        lemma_opt_enum_round_trip::<Automatable>(obj, "Automatable", k);
        lemma_opt_enum_round_trip::<Recovery>(obj, "Recovery", k);
        lemma_opt_enum_round_trip::<ValueDensity>(obj, "valueDensity", k);
        lemma_opt_enum_round_trip::<VulnerabilityResponseEffort>(obj, "vulnerabilityResponseEffort", k);
        lemma_opt_enum_round_trip::<ProviderUrgency>(obj, "providerUrgency", k);
    }
}

/// Writing a record and reading it back gives the record again: an object
/// whose members are those that `x` is written as reads as a record that
/// is written as the same members, so that each field equals that of `x`
/// (a string field by its characters).
pub proof fn lemma_read_back(x: CvssV4, obj: Seq<Member>)
    requires
        obj_view(obj) == x.spec_members(),
    ensures
        CvssV4::spec_parse(obj) is Ok,
        CvssV4::spec_parse(obj)->Ok_0.spec_members() == x.spec_members(),
        lookup(obj, "version"@) is None,
{
    broadcast use
        lemma_lookup_view_concat, lemma_text_member_other, lemma_number_member_other,
        lemma_opt_number_member_other, lemma_enum_member_other, lemma_opt_enum_member_other,
    ;

    reveal_strlit("vectorString");
    reveal_strlit("baseScore");
    reveal_strlit("baseSeverity");
    reveal_strlit("attackVector");
    reveal_strlit("attackComplexity");
    reveal_strlit("attackRequirements");
    reveal_strlit("privilegesRequired");
    reveal_strlit("userInteraction");
    reveal_strlit("vulnConfidentialityImpact");
    reveal_strlit("vulnIntegrityImpact");
    reveal_strlit("vulnAvailabilityImpact");
    reveal_strlit("subConfidentialityImpact");
    reveal_strlit("subIntegrityImpact");
    reveal_strlit("subAvailabilityImpact");
    reveal_strlit("exploitMaturity");
    reveal_strlit("confidentialityRequirement");
    reveal_strlit("integrityRequirement");
    reveal_strlit("availabilityRequirement");
    reveal_strlit("modifiedAttackVector");
    reveal_strlit("modifiedAttackComplexity");
    reveal_strlit("modifiedAttackRequirements");
    reveal_strlit("modifiedPrivilegesRequired");
    reveal_strlit("modifiedUserInteraction");
    reveal_strlit("modifiedVulnConfidentialityImpact");
    reveal_strlit("modifiedVulnIntegrityImpact");
    reveal_strlit("modifiedVulnAvailabilityImpact");
    reveal_strlit("modifiedSubConfidentialityImpact");
    reveal_strlit("modifiedSubIntegrityImpact");
    reveal_strlit("modifiedSubAvailabilityImpact");
    reveal_strlit("Safety");
    reveal_strlit("Automatable");
    reveal_strlit("Recovery");
    reveal_strlit("valueDensity");
    reveal_strlit("vulnerabilityResponseEffort");
    reveal_strlit("providerUrgency");
    assert(key_sig("vectorString"@) == (12int, 'v', 'g'));
    assert(key_sig("baseScore"@) == (9int, 'b', 'e'));
    assert(key_sig("baseSeverity"@) == (12int, 'b', 'y'));
    assert(key_sig("attackVector"@) == (12int, 'a', 'r'));
    assert(key_sig("attackComplexity"@) == (16int, 'a', 'y'));
    assert(key_sig("attackRequirements"@) == (18int, 'a', 's'));
    assert(key_sig("privilegesRequired"@) == (18int, 'p', 'd'));
    assert(key_sig("userInteraction"@) == (15int, 'u', 'n'));
    assert(key_sig("vulnConfidentialityImpact"@) == (25int, 'v', 't'));
    assert(key_sig("vulnIntegrityImpact"@) == (19int, 'v', 't'));
    assert(key_sig("vulnAvailabilityImpact"@) == (22int, 'v', 't'));
    assert(key_sig("subConfidentialityImpact"@) == (24int, 's', 't'));
    assert(key_sig("subIntegrityImpact"@) == (18int, 's', 't'));
    assert(key_sig("subAvailabilityImpact"@) == (21int, 's', 't'));
    assert(key_sig("exploitMaturity"@) == (15int, 'e', 'y'));
    assert(key_sig("confidentialityRequirement"@) == (26int, 'c', 't'));
    assert(key_sig("integrityRequirement"@) == (20int, 'i', 't'));
    assert(key_sig("availabilityRequirement"@) == (23int, 'a', 't'));
    assert(key_sig("modifiedAttackVector"@) == (20int, 'm', 'r'));
    assert(key_sig("modifiedAttackComplexity"@) == (24int, 'm', 'y'));
    assert(key_sig("modifiedAttackRequirements"@) == (26int, 'm', 's'));
    assert(key_sig("modifiedPrivilegesRequired"@) == (26int, 'm', 'd'));
    assert(key_sig("modifiedUserInteraction"@) == (23int, 'm', 'n'));
    assert(key_sig("modifiedVulnConfidentialityImpact"@) == (33int, 'm', 't'));
    assert(key_sig("modifiedVulnIntegrityImpact"@) == (27int, 'm', 't'));
    assert(key_sig("modifiedVulnAvailabilityImpact"@) == (30int, 'm', 't'));
    assert(key_sig("modifiedSubConfidentialityImpact"@) == (32int, 'm', 't'));
    assert(key_sig("modifiedSubIntegrityImpact"@) == (26int, 'm', 't'));
    assert(key_sig("modifiedSubAvailabilityImpact"@) == (29int, 'm', 't'));
    assert(key_sig("Safety"@) == (6int, 'S', 'y'));
    assert(key_sig("Automatable"@) == (11int, 'A', 'e'));
    assert(key_sig("Recovery"@) == (8int, 'R', 'y'));
    assert(key_sig("valueDensity"@) == (12int, 'v', 'y'));
    assert(key_sig("vulnerabilityResponseEffort"@) == (27int, 'v', 't'));
    assert(key_sig("providerUrgency"@) == (15int, 'p', 'y'));
    reveal_strlit("version");
    assert(key_sig("version"@) == (7int, 'v', 'n'));
    lemma_lookup_obj_view(obj, "version"@);
    lemma_lookup_obj_view(obj, "vectorString"@);
    lemma_text_read_back(obj, "vectorString", x.vector_string);
    lemma_lookup_obj_view(obj, "baseScore"@);
    lemma_number_read_back(obj, "baseScore", x.base_score);
    lemma_lookup_obj_view(obj, "baseSeverity"@);
    lemma_enum_read_back::<Severity>(obj, "baseSeverity", x.base_severity);
    lemma_lookup_obj_view(obj, "attackVector"@);
    lemma_enum_read_back::<AttackVector>(obj, "attackVector", x.attack_vector);
    lemma_lookup_obj_view(obj, "attackComplexity"@);
    lemma_enum_read_back::<AttackComplexity>(obj, "attackComplexity", x.attack_complexity);
    lemma_lookup_obj_view(obj, "attackRequirements"@);
    lemma_enum_read_back::<AttackRequirements>(obj, "attackRequirements", x.attack_requirements);
    lemma_lookup_obj_view(obj, "privilegesRequired"@);
    lemma_enum_read_back::<PrivilegesRequired>(obj, "privilegesRequired", x.privileges_required);
    lemma_lookup_obj_view(obj, "userInteraction"@);
    lemma_enum_read_back::<UserInteraction>(obj, "userInteraction", x.user_interaction);
    lemma_lookup_obj_view(obj, "vulnConfidentialityImpact"@);
    lemma_enum_read_back::<Impact>(obj, "vulnConfidentialityImpact", x.vuln_confidentiality_impact);
    lemma_lookup_obj_view(obj, "vulnIntegrityImpact"@);
    lemma_enum_read_back::<Impact>(obj, "vulnIntegrityImpact", x.vuln_integrity_impact);
    lemma_lookup_obj_view(obj, "vulnAvailabilityImpact"@);
    lemma_enum_read_back::<Impact>(obj, "vulnAvailabilityImpact", x.vuln_availability_impact);
    lemma_lookup_obj_view(obj, "subConfidentialityImpact"@);
    lemma_enum_read_back::<Impact>(obj, "subConfidentialityImpact", x.sub_confidentiality_impact);
    lemma_lookup_obj_view(obj, "subIntegrityImpact"@);
    lemma_enum_read_back::<Impact>(obj, "subIntegrityImpact", x.sub_integrity_impact);
    lemma_lookup_obj_view(obj, "subAvailabilityImpact"@);
    lemma_enum_read_back::<Impact>(obj, "subAvailabilityImpact", x.sub_availability_impact);
    lemma_lookup_obj_view(obj, "exploitMaturity"@);
    lemma_opt_enum_read_back::<ExploitMaturity>(obj, "exploitMaturity", x.exploit_maturity);
    lemma_lookup_obj_view(obj, "confidentialityRequirement"@);
    lemma_opt_enum_read_back::<Requirement>(obj, "confidentialityRequirement", x.confidentiality_requirement);
    lemma_lookup_obj_view(obj, "integrityRequirement"@);
    lemma_opt_enum_read_back::<Requirement>(obj, "integrityRequirement", x.integrity_requirement);
    lemma_lookup_obj_view(obj, "availabilityRequirement"@);
    lemma_opt_enum_read_back::<Requirement>(obj, "availabilityRequirement", x.availability_requirement);
    lemma_lookup_obj_view(obj, "modifiedAttackVector"@);
    lemma_opt_enum_read_back::<AttackVector>(obj, "modifiedAttackVector", x.modified_attack_vector);
    lemma_lookup_obj_view(obj, "modifiedAttackComplexity"@);
    lemma_opt_enum_read_back::<AttackComplexity>(obj, "modifiedAttackComplexity", x.modified_attack_complexity);
    lemma_lookup_obj_view(obj, "modifiedAttackRequirements"@);
    lemma_opt_enum_read_back::<AttackRequirements>(obj, "modifiedAttackRequirements", x.modified_attack_requirements);
    lemma_lookup_obj_view(obj, "modifiedPrivilegesRequired"@);
    lemma_opt_enum_read_back::<PrivilegesRequired>(obj, "modifiedPrivilegesRequired", x.modified_privileges_required);
    lemma_lookup_obj_view(obj, "modifiedUserInteraction"@);
    lemma_opt_enum_read_back::<UserInteraction>(obj, "modifiedUserInteraction", x.modified_user_interaction);
    lemma_lookup_obj_view(obj, "modifiedVulnConfidentialityImpact"@);
    lemma_opt_enum_read_back::<Impact>(obj, "modifiedVulnConfidentialityImpact", x.modified_vuln_confidentiality_impact);
    lemma_lookup_obj_view(obj, "modifiedVulnIntegrityImpact"@);
    lemma_opt_enum_read_back::<Impact>(obj, "modifiedVulnIntegrityImpact", x.modified_vuln_integrity_impact);
    lemma_lookup_obj_view(obj, "modifiedVulnAvailabilityImpact"@);
    lemma_opt_enum_read_back::<Impact>(obj, "modifiedVulnAvailabilityImpact", x.modified_vuln_availability_impact);
    lemma_lookup_obj_view(obj, "modifiedSubConfidentialityImpact"@);
    lemma_opt_enum_read_back::<Impact>(obj, "modifiedSubConfidentialityImpact", x.modified_sub_confidentiality_impact);
    lemma_lookup_obj_view(obj, "modifiedSubIntegrityImpact"@);
    lemma_opt_enum_read_back::<Impact>(obj, "modifiedSubIntegrityImpact", x.modified_sub_integrity_impact);
    lemma_lookup_obj_view(obj, "modifiedSubAvailabilityImpact"@);
    lemma_opt_enum_read_back::<Impact>(obj, "modifiedSubAvailabilityImpact", x.modified_sub_availability_impact);
    lemma_lookup_obj_view(obj, "Safety"@);
    lemma_opt_enum_read_back::<Safety>(obj, "Safety", x.safety);
    lemma_lookup_obj_view(obj, "Automatable"@);
    lemma_opt_enum_read_back::<Automatable>(obj, "Automatable", x.automatable);
    lemma_lookup_obj_view(obj, "Recovery"@);
    lemma_opt_enum_read_back::<Recovery>(obj, "Recovery", x.recovery);
    lemma_lookup_obj_view(obj, "valueDensity"@);
    lemma_opt_enum_read_back::<ValueDensity>(obj, "valueDensity", x.value_density);
    lemma_lookup_obj_view(obj, "vulnerabilityResponseEffort"@);
    lemma_opt_enum_read_back::<VulnerabilityResponseEffort>(obj, "vulnerabilityResponseEffort", x.vulnerability_response_effort);
    lemma_lookup_obj_view(obj, "providerUrgency"@);
    lemma_opt_enum_read_back::<ProviderUrgency>(obj, "providerUrgency", x.provider_urgency);
}

/// The qualitative severity rating of a vulnerability.
#[derive(Clone, Copy, Debug, PartialEq, Eq, Structural)]
pub enum Severity {
    /// The value that CVSS calls None.
    Nil,
    Low,
    Medium,
    High,
    Critical,
}

impl WireToken for Severity {
    open spec fn wire(&self) -> Seq<char> {
        match self {
            Severity::Nil => "NONE"@,
            Severity::Low => "LOW"@,
            Severity::Medium => "MEDIUM"@,
            Severity::High => "HIGH"@,
            Severity::Critical => "CRITICAL"@,
        }
    }

    proof fn lemma_wire_injective(a: Self, b: Self) {
        reveal_strlit("NONE");
        reveal_strlit("LOW");
        reveal_strlit("MEDIUM");
        reveal_strlit("HIGH");
        reveal_strlit("CRITICAL");
        if a.wire() == b.wire() {
            assert(a.wire().len() == b.wire().len());
            assert(a.wire()[0] == b.wire()[0]);
        }
    }

    fn token(&self) -> (r: &'static str) {
        match self {
            Severity::Nil => "NONE",
            Severity::Low => "LOW",
            Severity::Medium => "MEDIUM",
            Severity::High => "HIGH",
            Severity::Critical => "CRITICAL",
        }
    }

    fn from_token(s: &str) -> (r: Option<Self>) {
        if str_eq(s, "NONE") {
            Some(Severity::Nil)
        } else if str_eq(s, "LOW") {
            Some(Severity::Low)
        } else if str_eq(s, "MEDIUM") {
            Some(Severity::Medium)
        } else if str_eq(s, "HIGH") {
            Some(Severity::High)
        } else if str_eq(s, "CRITICAL") {
            Some(Severity::Critical)
        } else {
            None
        }
    }
}

/// Attack Vector (AV) / Modified Attack Vector (MAV).
#[derive(Clone, Copy, Debug, PartialEq, Eq, Structural)]
pub enum AttackVector {
    Network,
    Adjacent,
    Local,
    Physical,
}

impl WireToken for AttackVector {
    open spec fn wire(&self) -> Seq<char> {
        match self {
            AttackVector::Network => "NETWORK"@,
            AttackVector::Adjacent => "ADJACENT"@,
            AttackVector::Local => "LOCAL"@,
            AttackVector::Physical => "PHYSICAL"@,
        }
    }

    proof fn lemma_wire_injective(a: Self, b: Self) {
        reveal_strlit("NETWORK");
        reveal_strlit("ADJACENT");
        reveal_strlit("LOCAL");
        reveal_strlit("PHYSICAL");
        if a.wire() == b.wire() {
            assert(a.wire().len() == b.wire().len());
            assert(a.wire()[0] == b.wire()[0]);
        }
    }

    fn token(&self) -> (r: &'static str) {
        match self {
            AttackVector::Network => "NETWORK",
            AttackVector::Adjacent => "ADJACENT",
            AttackVector::Local => "LOCAL",
            AttackVector::Physical => "PHYSICAL",
        }
    }

    fn from_token(s: &str) -> (r: Option<Self>) {
        if str_eq(s, "NETWORK") {
            Some(AttackVector::Network)
        } else if str_eq(s, "ADJACENT") {
            Some(AttackVector::Adjacent)
        } else if str_eq(s, "LOCAL") {
            Some(AttackVector::Local)
        } else if str_eq(s, "PHYSICAL") {
            Some(AttackVector::Physical)
        } else {
            None
        }
    }
}

/// Attack Complexity (AC) / Modified Attack Complexity (MAC).
#[derive(Clone, Copy, Debug, PartialEq, Eq, Structural)]
pub enum AttackComplexity {
    Low,
    High,
}

impl WireToken for AttackComplexity {
    open spec fn wire(&self) -> Seq<char> {
        match self {
            AttackComplexity::Low => "LOW"@,
            AttackComplexity::High => "HIGH"@,
        }
    }

    proof fn lemma_wire_injective(a: Self, b: Self) {
        reveal_strlit("LOW");
        reveal_strlit("HIGH");
        if a.wire() == b.wire() {
            assert(a.wire().len() == b.wire().len());
        }
    }

    fn token(&self) -> (r: &'static str) {
        match self {
            AttackComplexity::Low => "LOW",
            AttackComplexity::High => "HIGH",
        }
    }

    fn from_token(s: &str) -> (r: Option<Self>) {
        if str_eq(s, "LOW") {
            Some(AttackComplexity::Low)
        } else if str_eq(s, "HIGH") {
            Some(AttackComplexity::High)
        } else {
            None
        }
    }
}

/// Attack Requirements (AT) / Modified Attack Requirements (MAT).
#[derive(Clone, Copy, Debug, PartialEq, Eq, Structural)]
pub enum AttackRequirements {
    /// The value that CVSS calls None.
    Nil,
    Present,
}

impl WireToken for AttackRequirements {
    open spec fn wire(&self) -> Seq<char> {
        match self {
            AttackRequirements::Nil => "NONE"@,
            AttackRequirements::Present => "PRESENT"@,
        }
    }

    proof fn lemma_wire_injective(a: Self, b: Self) {
        reveal_strlit("NONE");
        reveal_strlit("PRESENT");
        if a.wire() == b.wire() {
            assert(a.wire().len() == b.wire().len());
        }
    }

    fn token(&self) -> (r: &'static str) {
        match self {
            AttackRequirements::Nil => "NONE",
            AttackRequirements::Present => "PRESENT",
        }
    }

    fn from_token(s: &str) -> (r: Option<Self>) {
        if str_eq(s, "NONE") {
            Some(AttackRequirements::Nil)
        } else if str_eq(s, "PRESENT") {
            Some(AttackRequirements::Present)
        } else {
            None
        }
    }
}

/// Privileges Required (PR) / Modified Privileges Required (MPR).
#[derive(Clone, Copy, Debug, PartialEq, Eq, Structural)]
pub enum PrivilegesRequired {
    /// The value that CVSS calls None.
    Nil,
    Low,
    High,
}

impl WireToken for PrivilegesRequired {
    open spec fn wire(&self) -> Seq<char> {
        match self {
            PrivilegesRequired::Nil => "NONE"@,
            PrivilegesRequired::Low => "LOW"@,
            PrivilegesRequired::High => "HIGH"@,
        }
    }

    proof fn lemma_wire_injective(a: Self, b: Self) {
        reveal_strlit("NONE");
        reveal_strlit("LOW");
        reveal_strlit("HIGH");
        if a.wire() == b.wire() {
            assert(a.wire().len() == b.wire().len());
            assert(a.wire()[0] == b.wire()[0]);
        }
    }

    fn token(&self) -> (r: &'static str) {
        match self {
            PrivilegesRequired::Nil => "NONE",
            PrivilegesRequired::Low => "LOW",
            PrivilegesRequired::High => "HIGH",
        }
    }

    fn from_token(s: &str) -> (r: Option<Self>) {
        if str_eq(s, "NONE") {
            Some(PrivilegesRequired::Nil)
        } else if str_eq(s, "LOW") {
            Some(PrivilegesRequired::Low)
        } else if str_eq(s, "HIGH") {
            Some(PrivilegesRequired::High)
        } else {
            None
        }
    }
}

/// User Interaction (UI) / Modified User Interaction (MUI).
#[derive(Clone, Copy, Debug, PartialEq, Eq, Structural)]
pub enum UserInteraction {
    /// The value that CVSS calls None.
    Nil,
    Passive,
    Active,
}

impl WireToken for UserInteraction {
    open spec fn wire(&self) -> Seq<char> {
        match self {
            UserInteraction::Nil => "NONE"@,
            UserInteraction::Passive => "PASSIVE"@,
            UserInteraction::Active => "ACTIVE"@,
        }
    }

    proof fn lemma_wire_injective(a: Self, b: Self) {
        reveal_strlit("NONE");
        reveal_strlit("PASSIVE");
        reveal_strlit("ACTIVE");
        if a.wire() == b.wire() {
            assert(a.wire().len() == b.wire().len());
        }
    }

    fn token(&self) -> (r: &'static str) {
        match self {
            UserInteraction::Nil => "NONE",
            UserInteraction::Passive => "PASSIVE",
            UserInteraction::Active => "ACTIVE",
        }
    }

    fn from_token(s: &str) -> (r: Option<Self>) {
        if str_eq(s, "NONE") {
            Some(UserInteraction::Nil)
        } else if str_eq(s, "PASSIVE") {
            Some(UserInteraction::Passive)
        } else if str_eq(s, "ACTIVE") {
            Some(UserInteraction::Active)
        } else {
            None
        }
    }
}

/// Impact metrics (VC, VI, VA, SC, SI, SA and their modified versions).
#[derive(Clone, Copy, Debug, PartialEq, Eq, Structural)]
pub enum Impact {
    High,
    Low,
    /// The value that CVSS calls None.
    Nil,
}

impl WireToken for Impact {
    open spec fn wire(&self) -> Seq<char> {
        match self {
            Impact::High => "HIGH"@,
            Impact::Low => "LOW"@,
            Impact::Nil => "NONE"@,
        }
    }

    proof fn lemma_wire_injective(a: Self, b: Self) {
        reveal_strlit("HIGH");
        reveal_strlit("LOW");
        reveal_strlit("NONE");
        if a.wire() == b.wire() {
            assert(a.wire().len() == b.wire().len());
            assert(a.wire()[0] == b.wire()[0]);
        }
    }

    fn token(&self) -> (r: &'static str) {
        match self {
            Impact::High => "HIGH",
            Impact::Low => "LOW",
            Impact::Nil => "NONE",
        }
    }

    fn from_token(s: &str) -> (r: Option<Self>) {
        if str_eq(s, "HIGH") {
            Some(Impact::High)
        } else if str_eq(s, "LOW") {
            Some(Impact::Low)
        } else if str_eq(s, "NONE") {
            Some(Impact::Nil)
        } else {
            None
        }
    }
}

/// Exploit Maturity (E).
#[derive(Clone, Copy, Debug, PartialEq, Eq, Structural)]
pub enum ExploitMaturity {
    Attacked,
    ProofOfConcept,
    Unreported,
    NotDefined,
}

impl WireToken for ExploitMaturity {
    open spec fn wire(&self) -> Seq<char> {
        match self {
            ExploitMaturity::Attacked => "ATTACKED"@,
            ExploitMaturity::ProofOfConcept => "PROOF_OF_CONCEPT"@,
            ExploitMaturity::Unreported => "UNREPORTED"@,
            ExploitMaturity::NotDefined => "NOT_DEFINED"@,
        }
    }

    proof fn lemma_wire_injective(a: Self, b: Self) {
        reveal_strlit("ATTACKED");
        reveal_strlit("PROOF_OF_CONCEPT");
        reveal_strlit("UNREPORTED");
        reveal_strlit("NOT_DEFINED");
        if a.wire() == b.wire() {
            assert(a.wire().len() == b.wire().len());
        }
    }

    fn token(&self) -> (r: &'static str) {
        match self {
            ExploitMaturity::Attacked => "ATTACKED",
            ExploitMaturity::ProofOfConcept => "PROOF_OF_CONCEPT",
            ExploitMaturity::Unreported => "UNREPORTED",
            ExploitMaturity::NotDefined => "NOT_DEFINED",
        }
    }

    fn from_token(s: &str) -> (r: Option<Self>) {
        if str_eq(s, "ATTACKED") {
            Some(ExploitMaturity::Attacked)
        } else if str_eq(s, "PROOF_OF_CONCEPT") {
            Some(ExploitMaturity::ProofOfConcept)
        } else if str_eq(s, "UNREPORTED") {
            Some(ExploitMaturity::Unreported)
        } else if str_eq(s, "NOT_DEFINED") {
            Some(ExploitMaturity::NotDefined)
        } else {
            None
        }
    }
}

/// Requirement metrics (CR, IR, AR).
#[derive(Clone, Copy, Debug, PartialEq, Eq, Structural)]
pub enum Requirement {
    High,
    Medium,
    Low,
}

impl WireToken for Requirement {
    open spec fn wire(&self) -> Seq<char> {
        match self {
            Requirement::High => "HIGH"@,
            Requirement::Medium => "MEDIUM"@,
            Requirement::Low => "LOW"@,
        }
    }

    proof fn lemma_wire_injective(a: Self, b: Self) {
        reveal_strlit("HIGH");
        reveal_strlit("MEDIUM");
        reveal_strlit("LOW");
        if a.wire() == b.wire() {
            assert(a.wire().len() == b.wire().len());
        }
    }

    fn token(&self) -> (r: &'static str) {
        match self {
            Requirement::High => "HIGH",
            Requirement::Medium => "MEDIUM",
            Requirement::Low => "LOW",
        }
    }

    fn from_token(s: &str) -> (r: Option<Self>) {
        if str_eq(s, "HIGH") {
            Some(Requirement::High)
        } else if str_eq(s, "MEDIUM") {
            Some(Requirement::Medium)
        } else if str_eq(s, "LOW") {
            Some(Requirement::Low)
        } else {
            None
        }
    }
}

/// Safety (S).
#[derive(Clone, Copy, Debug, PartialEq, Eq, Structural)]
pub enum Safety {
    Negligible,
    Present,
    NotDefined,
}

impl WireToken for Safety {
    open spec fn wire(&self) -> Seq<char> {
        match self {
            Safety::Negligible => "NEGLIGIBLE"@,
            Safety::Present => "PRESENT"@,
            Safety::NotDefined => "NOT_DEFINED"@,
        }
    }

    proof fn lemma_wire_injective(a: Self, b: Self) {
        reveal_strlit("NEGLIGIBLE");
        reveal_strlit("PRESENT");
        reveal_strlit("NOT_DEFINED");
        if a.wire() == b.wire() {
            assert(a.wire().len() == b.wire().len());
        }
    }

    fn token(&self) -> (r: &'static str) {
        match self {
            Safety::Negligible => "NEGLIGIBLE",
            Safety::Present => "PRESENT",
            Safety::NotDefined => "NOT_DEFINED",
        }
    }

    fn from_token(s: &str) -> (r: Option<Self>) {
        if str_eq(s, "NEGLIGIBLE") {
            Some(Safety::Negligible)
        } else if str_eq(s, "PRESENT") {
            Some(Safety::Present)
        } else if str_eq(s, "NOT_DEFINED") {
            Some(Safety::NotDefined)
        } else {
            None
        }
    }
}

/// Automatable (AU).
#[derive(Clone, Copy, Debug, PartialEq, Eq, Structural)]
pub enum Automatable {
    No,
    Yes,
    NotDefined,
}

impl WireToken for Automatable {
    open spec fn wire(&self) -> Seq<char> {
        match self {
            Automatable::No => "NO"@,
            Automatable::Yes => "YES"@,
            Automatable::NotDefined => "NOT_DEFINED"@,
        }
    }

    proof fn lemma_wire_injective(a: Self, b: Self) {
        reveal_strlit("NO");
        reveal_strlit("YES");
        reveal_strlit("NOT_DEFINED");
        if a.wire() == b.wire() {
            assert(a.wire().len() == b.wire().len());
        }
    }

    fn token(&self) -> (r: &'static str) {
        match self {
            Automatable::No => "NO",
            Automatable::Yes => "YES",
            Automatable::NotDefined => "NOT_DEFINED",
        }
    }

    fn from_token(s: &str) -> (r: Option<Self>) {
        if str_eq(s, "NO") {
            Some(Automatable::No)
        } else if str_eq(s, "YES") {
            Some(Automatable::Yes)
        } else if str_eq(s, "NOT_DEFINED") {
            Some(Automatable::NotDefined)
        } else {
            None
        }
    }
}

/// Recovery (R).
#[derive(Clone, Copy, Debug, PartialEq, Eq, Structural)]
pub enum Recovery {
    Automatic,
    User,
    Irrecoverable,
    NotDefined,
}

impl WireToken for Recovery {
    open spec fn wire(&self) -> Seq<char> {
        match self {
            Recovery::Automatic => "AUTOMATIC"@,
            Recovery::User => "USER"@,
            Recovery::Irrecoverable => "IRRECOVERABLE"@,
            Recovery::NotDefined => "NOT_DEFINED"@,
        }
    }

    proof fn lemma_wire_injective(a: Self, b: Self) {
        reveal_strlit("AUTOMATIC");
        reveal_strlit("USER");
        reveal_strlit("IRRECOVERABLE");
        reveal_strlit("NOT_DEFINED");
        if a.wire() == b.wire() {
            assert(a.wire().len() == b.wire().len());
        }
    }

    fn token(&self) -> (r: &'static str) {
        match self {
            Recovery::Automatic => "AUTOMATIC",
            Recovery::User => "USER",
            Recovery::Irrecoverable => "IRRECOVERABLE",
            Recovery::NotDefined => "NOT_DEFINED",
        }
    }

    fn from_token(s: &str) -> (r: Option<Self>) {
        if str_eq(s, "AUTOMATIC") {
            Some(Recovery::Automatic)
        } else if str_eq(s, "USER") {
            Some(Recovery::User)
        } else if str_eq(s, "IRRECOVERABLE") {
            Some(Recovery::Irrecoverable)
        } else if str_eq(s, "NOT_DEFINED") {
            Some(Recovery::NotDefined)
        } else {
            None
        }
    }
}

/// Value Density (V).
#[derive(Clone, Copy, Debug, PartialEq, Eq, Structural)]
pub enum ValueDensity {
    Diffuse,
    Concentrated,
    NotDefined,
}

impl WireToken for ValueDensity {
    open spec fn wire(&self) -> Seq<char> {
        match self {
            ValueDensity::Diffuse => "DIFFUSE"@,
            ValueDensity::Concentrated => "CONCENTRATED"@,
            ValueDensity::NotDefined => "NOT_DEFINED"@,
        }
    }

    proof fn lemma_wire_injective(a: Self, b: Self) {
        reveal_strlit("DIFFUSE");
        reveal_strlit("CONCENTRATED");
        reveal_strlit("NOT_DEFINED");
        if a.wire() == b.wire() {
            assert(a.wire().len() == b.wire().len());
        }
    }

    fn token(&self) -> (r: &'static str) {
        match self {
            ValueDensity::Diffuse => "DIFFUSE",
            ValueDensity::Concentrated => "CONCENTRATED",
            ValueDensity::NotDefined => "NOT_DEFINED",
        }
    }

    fn from_token(s: &str) -> (r: Option<Self>) {
        if str_eq(s, "DIFFUSE") {
            Some(ValueDensity::Diffuse)
        } else if str_eq(s, "CONCENTRATED") {
            Some(ValueDensity::Concentrated)
        } else if str_eq(s, "NOT_DEFINED") {
            Some(ValueDensity::NotDefined)
        } else {
            None
        }
    }
}

/// Vulnerability Response Effort (RE).
#[derive(Clone, Copy, Debug, PartialEq, Eq, Structural)]
pub enum VulnerabilityResponseEffort {
    Low,
    Moderate,
    High,
    NotDefined,
}

impl WireToken for VulnerabilityResponseEffort {
    open spec fn wire(&self) -> Seq<char> {
        match self {
            VulnerabilityResponseEffort::Low => "LOW"@,
            VulnerabilityResponseEffort::Moderate => "MODERATE"@,
            VulnerabilityResponseEffort::High => "HIGH"@,
            VulnerabilityResponseEffort::NotDefined => "NOT_DEFINED"@,
        }
    }

    proof fn lemma_wire_injective(a: Self, b: Self) {
        reveal_strlit("LOW");
        reveal_strlit("MODERATE");
        reveal_strlit("HIGH");
        reveal_strlit("NOT_DEFINED");
        if a.wire() == b.wire() {
            assert(a.wire().len() == b.wire().len());
        }
    }

    fn token(&self) -> (r: &'static str) {
        match self {
            VulnerabilityResponseEffort::Low => "LOW",
            VulnerabilityResponseEffort::Moderate => "MODERATE",
            VulnerabilityResponseEffort::High => "HIGH",
            VulnerabilityResponseEffort::NotDefined => "NOT_DEFINED",
        }
    }

    fn from_token(s: &str) -> (r: Option<Self>) {
        if str_eq(s, "LOW") {
            Some(VulnerabilityResponseEffort::Low)
        } else if str_eq(s, "MODERATE") {
            Some(VulnerabilityResponseEffort::Moderate)
        } else if str_eq(s, "HIGH") {
            Some(VulnerabilityResponseEffort::High)
        } else if str_eq(s, "NOT_DEFINED") {
            Some(VulnerabilityResponseEffort::NotDefined)
        } else {
            None
        }
    }
}

/// Provider Urgency (U).
#[derive(Clone, Copy, Debug, PartialEq, Eq, Structural)]
pub enum ProviderUrgency {
    Clear,
    Green,
    Amber,
    Red,
    NotDefined,
}

impl WireToken for ProviderUrgency {
    open spec fn wire(&self) -> Seq<char> {
        match self {
            ProviderUrgency::Clear => "CLEAR"@,
            ProviderUrgency::Green => "GREEN"@,
            ProviderUrgency::Amber => "AMBER"@,
            ProviderUrgency::Red => "RED"@,
            ProviderUrgency::NotDefined => "NOT_DEFINED"@,
        }
    }

    proof fn lemma_wire_injective(a: Self, b: Self) {
        reveal_strlit("CLEAR");
        reveal_strlit("GREEN");
        reveal_strlit("AMBER");
        reveal_strlit("RED");
        reveal_strlit("NOT_DEFINED");
        if a.wire() == b.wire() {
            assert(a.wire().len() == b.wire().len());
            assert(a.wire()[0] == b.wire()[0]);
        }
    }

    fn token(&self) -> (r: &'static str) {
        match self {
            ProviderUrgency::Clear => "CLEAR",
            ProviderUrgency::Green => "GREEN",
            ProviderUrgency::Amber => "AMBER",
            ProviderUrgency::Red => "RED",
            ProviderUrgency::NotDefined => "NOT_DEFINED",
        }
    }

    fn from_token(s: &str) -> (r: Option<Self>) {
        if str_eq(s, "CLEAR") {
            Some(ProviderUrgency::Clear)
        } else if str_eq(s, "GREEN") {
            Some(ProviderUrgency::Green)
        } else if str_eq(s, "AMBER") {
            Some(ProviderUrgency::Amber)
        } else if str_eq(s, "RED") {
            Some(ProviderUrgency::Red)
        } else if str_eq(s, "NOT_DEFINED") {
            Some(ProviderUrgency::NotDefined)
        } else {
            None
        }
    }
}

impl Severity {
    /// The same rating on the five-level scale.
    pub open spec fn spec_unified(self) -> UnifiedSeverity {
        match self {
            Severity::Nil => UnifiedSeverity::Nil,
            Severity::Low => UnifiedSeverity::Low,
            Severity::Medium => UnifiedSeverity::Medium,
            Severity::High => UnifiedSeverity::High,
            Severity::Critical => UnifiedSeverity::Critical,
        }
    }

    /// The same rating on the five-level scale.
    pub fn unified(&self) -> (r: UnifiedSeverity)
        ensures
            r == self.spec_unified(),
    {
        match self {
            Severity::Nil => UnifiedSeverity::Nil,
            Severity::Low => UnifiedSeverity::Low,
            Severity::Medium => UnifiedSeverity::Medium,
            Severity::High => UnifiedSeverity::High,
            Severity::Critical => UnifiedSeverity::Critical,
        }
    }
}

impl Cvss for CvssV4 {
    open spec fn spec_version(&self) -> Version {
        Version::V4_0
    }

    open spec fn spec_vector_string(&self) -> Seq<char> {
        self.vector_string@
    }

    open spec fn spec_base_score(&self) -> Seq<char> {
        self.base_score@
    }

    open spec fn spec_base_severity(&self) -> Option<UnifiedSeverity> {
        Some(self.base_severity.spec_unified())
    }

    fn version(&self) -> (r: Version) {
        Version::V4_0
    }

    fn vector_string(&self) -> (r: &str) {
        self.vector_string.as_str()
    }

    fn base_score(&self) -> (r: &str) {
        self.base_score.as_str()
    }

    fn base_severity(&self) -> (r: Option<UnifiedSeverity>) {
        Some(self.base_severity.unified())
    }
}

/// A version 4 record must hold its base severity: without it reading
/// fails, and where the fields read before it are sound the error names it
/// as missing.
pub proof fn lemma_base_severity_required(obj: Seq<Member>)
    requires
        lookup(obj, "baseSeverity"@) is None,
    ensures
        CvssV4::spec_parse(obj) is Err,
        ({
            &&& text_field(obj, "vectorString") is Ok
            &&& number_field(obj, "baseScore") is Ok
        }) ==> CvssV4::spec_parse(obj) == Err::<CvssV4, ParseError>(
            ParseError::MissingRequiredField("baseSeverity"),
        ),
{
}

/// A version 4 record refuses `ADJACENT_NETWORK`, the attack vector
/// spelling of version 3 (version 4 spells it `ADJACENT`); where the fields
/// read before it are sound the error names the field and the string.
pub proof fn lemma_rejects_v3_attack_vector(obj: Seq<Member>, s: String)
    requires
        lookup(obj, "attackVector"@) == Some(JsonValue::Text(s)),
        s@ == "ADJACENT_NETWORK"@,
    ensures
        CvssV4::spec_parse(obj) is Err,
        ({
            &&& text_field(obj, "vectorString") is Ok
            &&& number_field(obj, "baseScore") is Ok
            &&& enum_field::<Severity>(obj, "baseSeverity") is Ok
        }) ==> CvssV4::spec_parse(obj) == Err::<CvssV4, ParseError>(
            ParseError::UnknownEnumValue("attackVector", s),
        ),
{
    reveal_strlit("ADJACENT_NETWORK");
    reveal_strlit("NETWORK");
    reveal_strlit("ADJACENT");
    reveal_strlit("LOCAL");
    reveal_strlit("PHYSICAL");
    assert forall|v: AttackVector| #[trigger] v.wire() != s@ by {
        assert(v.wire().len() != s@.len());
    }
    lemma_vocabulary_exhaustive::<AttackVector>(obj, "attackVector", s);
}

} // verus!
