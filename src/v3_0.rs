//! Records of CVSS version 3.0 in its strict form: every base metric is
//! required, and no vocabulary has a `NOT_DEFINED` value.
use vstd::prelude::*;

use crate::field::{
    enum_field, enum_member, lemma_enum_member_other, lemma_enum_read_back, lemma_enum_round_trip,
    lemma_number_member_other, lemma_number_read_back, lemma_number_round_trip,
    lemma_opt_enum_member_other, lemma_opt_number_member_other, lemma_text_member_other,
    lemma_text_read_back, lemma_text_round_trip, number_field, number_member, read_enum,
    read_number, read_text, text_field, text_member, write_enum, write_number, write_text,
    ParseError,
};
use crate::json::{
    key_sig, keys_within, lemma_lookup_found, lemma_lookup_obj_view, lemma_lookup_view_concat,
    lookup, lookup_view, obj_view, present_value, str_eq, JsonView, Member,
};
use crate::token::WireToken;

verus! {

/// A CVSS v3.0 score object.
#[derive(Clone, Debug, PartialEq)]
pub struct CvssV3 {
    /// The version of the CVSS standard, as written in the record.
    pub version: String,
    /// The CVSS vector string.
    pub vector_string: String,
    /// The base score, as written in the record.
    pub base_score: String,
    /// The qualitative severity rating for the base score.
    pub base_severity: Severity,
    /// The attack vector metric.
    pub attack_vector: AttackVector,
    /// The attack complexity metric.
    pub attack_complexity: AttackComplexity,
    /// The privileges required metric.
    pub privileges_required: PrivilegesRequired,
    /// The user interaction metric.
    pub user_interaction: UserInteraction,
    /// The scope metric.
    pub scope: Scope,
    /// The confidentiality impact metric.
    pub confidentiality_impact: Impact,
    /// The integrity impact metric.
    pub integrity_impact: Impact,
    /// The availability impact metric.
    pub availability_impact: Impact,
}

impl CvssV3 {
    /// What reading `obj` gives: the error of the first field, in the order
    /// of declaration, that cannot be read, or else the record of all fields.
    pub open spec fn spec_parse(obj: Seq<Member>) -> Result<CvssV3, ParseError> {
        let version = text_field(obj, "version");
        let vector_string = text_field(obj, "vectorString");
        let base_score = number_field(obj, "baseScore");
        let base_severity = enum_field::<Severity>(obj, "baseSeverity");
        let attack_vector = enum_field::<AttackVector>(obj, "attackVector");
        let attack_complexity = enum_field::<AttackComplexity>(obj, "attackComplexity");
        let privileges_required = enum_field::<PrivilegesRequired>(obj, "privilegesRequired");
        let user_interaction = enum_field::<UserInteraction>(obj, "userInteraction");
        let scope = enum_field::<Scope>(obj, "scope");
        let confidentiality_impact = enum_field::<Impact>(obj, "confidentialityImpact");
        let integrity_impact = enum_field::<Impact>(obj, "integrityImpact");
        let availability_impact = enum_field::<Impact>(obj, "availabilityImpact");
        if version is Err {
            Err(version->Err_0)
        } else if vector_string is Err {
            Err(vector_string->Err_0)
        } else if base_score is Err {
            Err(base_score->Err_0)
        } else if base_severity is Err {
            Err(base_severity->Err_0)
        } else if attack_vector is Err {
            Err(attack_vector->Err_0)
        } else if attack_complexity is Err {
            Err(attack_complexity->Err_0)
        } else if privileges_required is Err {
            Err(privileges_required->Err_0)
        } else if user_interaction is Err {
            Err(user_interaction->Err_0)
        } else if scope is Err {
            Err(scope->Err_0)
        } else if confidentiality_impact is Err {
            Err(confidentiality_impact->Err_0)
        } else if integrity_impact is Err {
            Err(integrity_impact->Err_0)
        } else if availability_impact is Err {
            Err(availability_impact->Err_0)
        } else {
            Ok(CvssV3 {
                version: version->Ok_0,
                vector_string: vector_string->Ok_0,
                base_score: base_score->Ok_0,
                base_severity: base_severity->Ok_0,
                attack_vector: attack_vector->Ok_0,
                attack_complexity: attack_complexity->Ok_0,
                privileges_required: privileges_required->Ok_0,
                user_interaction: user_interaction->Ok_0,
                scope: scope->Ok_0,
                confidentiality_impact: confidentiality_impact->Ok_0,
                integrity_impact: integrity_impact->Ok_0,
                availability_impact: availability_impact->Ok_0,
            })
        }
    }

    /// The members that this record is written as: every field that is
    /// present, in the order of declaration, and no other.
    pub open spec fn spec_members(self) -> Seq<(Seq<char>, JsonView)> {
        Seq::empty()
            + text_member("version", self.version)
            + text_member("vectorString", self.vector_string)
            + number_member("baseScore", self.base_score)
            + enum_member("baseSeverity", self.base_severity)
            + enum_member("attackVector", self.attack_vector)
            + enum_member("attackComplexity", self.attack_complexity)
            + enum_member("privilegesRequired", self.privileges_required)
            + enum_member("userInteraction", self.user_interaction)
            + enum_member("scope", self.scope)
            + enum_member("confidentialityImpact", self.confidentiality_impact)
            + enum_member("integrityImpact", self.integrity_impact)
            + enum_member("availabilityImpact", self.availability_impact)
    }

    /// Reads a record from the members of a JSON object.
    pub fn from_object(obj: &Vec<Member>) -> (r: Result<CvssV3, ParseError>)
        ensures
            r == Self::spec_parse(obj@),
    {
        let version = match read_text(obj, "version") {
            Ok(v) => v,
            Err(e) => return Err(e),
        };
        let vector_string = match read_text(obj, "vectorString") {
            Ok(v) => v,
            Err(e) => return Err(e),
        };
        let base_score = match read_number(obj, "baseScore") {
            Ok(v) => v,
            Err(e) => return Err(e),
        };
        let base_severity = match read_enum::<Severity>(obj, "baseSeverity") {
            Ok(v) => v,
            Err(e) => return Err(e),
        };
        let attack_vector = match read_enum::<AttackVector>(obj, "attackVector") {
            Ok(v) => v,
            Err(e) => return Err(e),
        };
        let attack_complexity = match read_enum::<AttackComplexity>(obj, "attackComplexity") {
            Ok(v) => v,
            Err(e) => return Err(e),
        };
        let privileges_required = match read_enum::<PrivilegesRequired>(obj, "privilegesRequired") {
            Ok(v) => v,
            Err(e) => return Err(e),
        };
        let user_interaction = match read_enum::<UserInteraction>(obj, "userInteraction") {
            Ok(v) => v,
            Err(e) => return Err(e),
        };
        let scope = match read_enum::<Scope>(obj, "scope") {
            Ok(v) => v,
            Err(e) => return Err(e),
        };
        let confidentiality_impact = match read_enum::<Impact>(obj, "confidentialityImpact") {
            Ok(v) => v,
            Err(e) => return Err(e),
        };
        let integrity_impact = match read_enum::<Impact>(obj, "integrityImpact") {
            Ok(v) => v,
            Err(e) => return Err(e),
        };
        let availability_impact = match read_enum::<Impact>(obj, "availabilityImpact") {
            Ok(v) => v,
            Err(e) => return Err(e),
        };
        Ok(CvssV3 {
            version,
            vector_string,
            base_score,
            base_severity,
            attack_vector,
            attack_complexity,
            privileges_required,
            user_interaction,
            scope,
            confidentiality_impact,
            integrity_impact,
            availability_impact,
        })
    }

    /// Writes this record as the members of a JSON object, leaving out
    /// every absent field.
    pub fn to_object(&self) -> (r: Vec<Member>)
        ensures
            obj_view(r@) == self.spec_members(),
            Self::spec_parse(r@) is Ok,
            Self::spec_parse(r@)->Ok_0.spec_members() == self.spec_members(),
    {
        let mut obj: Vec<Member> = Vec::new();
        assert(obj_view(obj@) =~= Seq::empty());
        write_text(&mut obj, "version", &self.version);
        write_text(&mut obj, "vectorString", &self.vector_string);
        write_number(&mut obj, "baseScore", &self.base_score);
        write_enum(&mut obj, "baseSeverity", &self.base_severity);
        write_enum(&mut obj, "attackVector", &self.attack_vector);
        write_enum(&mut obj, "attackComplexity", &self.attack_complexity);
        write_enum(&mut obj, "privilegesRequired", &self.privileges_required);
        write_enum(&mut obj, "userInteraction", &self.user_interaction);
        write_enum(&mut obj, "scope", &self.scope);
        write_enum(&mut obj, "confidentialityImpact", &self.confidentiality_impact);
        write_enum(&mut obj, "integrityImpact", &self.integrity_impact);
        write_enum(&mut obj, "availabilityImpact", &self.availability_impact);
        proof {
            lemma_read_back(*self, obj@);
        }
        obj
    }
}

impl CvssV3 {
    /// Whether `k` is the key of a field of this record.
    pub open spec fn spec_is_key(k: Seq<char>) -> bool {
        k == "version"@
            || k == "vectorString"@
            || k == "baseScore"@
            || k == "baseSeverity"@
            || k == "attackVector"@
            || k == "attackComplexity"@
            || k == "privilegesRequired"@
            || k == "userInteraction"@
            || k == "scope"@
            || k == "confidentialityImpact"@
            || k == "integrityImpact"@
            || k == "availabilityImpact"@
    }
}

/// Reading an object and writing the record back gives the same object
/// up to the order of its members and without its `null` members: every
/// key holds the same value in both, and a key that holds `null` (an absent
/// optional field) is left out. This holds where the record knows every key.
pub proof fn lemma_round_trip(obj: Seq<Member>)
    requires
        CvssV3::spec_parse(obj) is Ok,
        keys_within(obj, |k: Seq<char>| CvssV3::spec_is_key(k)),
    ensures
        forall|k: Seq<char>|
            #[trigger] lookup_view(CvssV3::spec_parse(obj)->Ok_0.spec_members(), k)
                == present_value(obj, k),
{
    broadcast use lemma_lookup_view_concat;

    assert forall|k: Seq<char>|
        #[trigger] lookup_view(CvssV3::spec_parse(obj)->Ok_0.spec_members(), k)
            == present_value(obj, k) by {
        if lookup(obj, k) is Some {
            lemma_lookup_found(obj, k);
        }
        lemma_text_round_trip(obj, "version", k);
        lemma_text_round_trip(obj, "vectorString", k);
        lemma_number_round_trip(obj, "baseScore", k);
        lemma_enum_round_trip::<Severity>(obj, "baseSeverity", k);
        lemma_enum_round_trip::<AttackVector>(obj, "attackVector", k);
        lemma_enum_round_trip::<AttackComplexity>(obj, "attackComplexity", k);
        lemma_enum_round_trip::<PrivilegesRequired>(obj, "privilegesRequired", k);
        lemma_enum_round_trip::<UserInteraction>(obj, "userInteraction", k);
        lemma_enum_round_trip::<Scope>(obj, "scope", k);
        lemma_enum_round_trip::<Impact>(obj, "confidentialityImpact", k);
        lemma_enum_round_trip::<Impact>(obj, "integrityImpact", k);
        lemma_enum_round_trip::<Impact>(obj, "availabilityImpact", k);
    }
}

/// Writing a record and reading it back gives the record again: an object
/// whose members are those that `x` is written as reads as a record that
/// is written as the same members, so that each field equals that of `x`
/// (a string field by its characters).
pub proof fn lemma_read_back(x: CvssV3, obj: Seq<Member>)
    requires
        obj_view(obj) == x.spec_members(),
    ensures
        CvssV3::spec_parse(obj) is Ok,
        CvssV3::spec_parse(obj)->Ok_0.spec_members() == x.spec_members(),
{
    broadcast use
        lemma_lookup_view_concat, lemma_text_member_other, lemma_number_member_other,
        lemma_opt_number_member_other, lemma_enum_member_other, lemma_opt_enum_member_other,
    ;

    reveal_strlit("version");
    reveal_strlit("vectorString");
    reveal_strlit("baseScore");
    reveal_strlit("baseSeverity");
    reveal_strlit("attackVector");
    reveal_strlit("attackComplexity");
    reveal_strlit("privilegesRequired");
    reveal_strlit("userInteraction");
    reveal_strlit("scope");
    reveal_strlit("confidentialityImpact");
    reveal_strlit("integrityImpact");
    reveal_strlit("availabilityImpact");
    assert(key_sig("version"@) == (7int, 'v', 'n'));
    assert(key_sig("vectorString"@) == (12int, 'v', 'g'));
    assert(key_sig("baseScore"@) == (9int, 'b', 'e'));
    assert(key_sig("baseSeverity"@) == (12int, 'b', 'y'));
    assert(key_sig("attackVector"@) == (12int, 'a', 'r'));
    assert(key_sig("attackComplexity"@) == (16int, 'a', 'y'));
    assert(key_sig("privilegesRequired"@) == (18int, 'p', 'd'));
    assert(key_sig("userInteraction"@) == (15int, 'u', 'n'));
    assert(key_sig("scope"@) == (5int, 's', 'e'));
    assert(key_sig("confidentialityImpact"@) == (21int, 'c', 't'));
    assert(key_sig("integrityImpact"@) == (15int, 'i', 't'));
    assert(key_sig("availabilityImpact"@) == (18int, 'a', 't'));
    lemma_lookup_obj_view(obj, "version"@);
    lemma_text_read_back(obj, "version", x.version);
    lemma_lookup_obj_view(obj, "vectorString"@);
    lemma_text_read_back(obj, "vectorString", x.vector_string);
    lemma_lookup_obj_view(obj, "baseScore"@);
    lemma_number_read_back(obj, "baseScore", x.base_score);
    lemma_lookup_obj_view(obj, "baseSeverity"@);
    lemma_enum_read_back::<Severity>(obj, "baseSeverity", x.base_severity);
    lemma_lookup_obj_view(obj, "attackVector"@);
    lemma_enum_read_back::<AttackVector>(obj, "attackVector", x.attack_vector);
    lemma_lookup_obj_view(obj, "attackComplexity"@);
    lemma_enum_read_back::<AttackComplexity>(obj, "attackComplexity", x.attack_complexity);
    lemma_lookup_obj_view(obj, "privilegesRequired"@);
    lemma_enum_read_back::<PrivilegesRequired>(obj, "privilegesRequired", x.privileges_required);
    lemma_lookup_obj_view(obj, "userInteraction"@);
    lemma_enum_read_back::<UserInteraction>(obj, "userInteraction", x.user_interaction);
    lemma_lookup_obj_view(obj, "scope"@);
    lemma_enum_read_back::<Scope>(obj, "scope", x.scope);
    lemma_lookup_obj_view(obj, "confidentialityImpact"@);
    lemma_enum_read_back::<Impact>(obj, "confidentialityImpact", x.confidentiality_impact);
    lemma_lookup_obj_view(obj, "integrityImpact"@);
    lemma_enum_read_back::<Impact>(obj, "integrityImpact", x.integrity_impact);
    lemma_lookup_obj_view(obj, "availabilityImpact"@);
    lemma_enum_read_back::<Impact>(obj, "availabilityImpact", x.availability_impact);
}

/// The qualitative severity rating of a vulnerability.
#[derive(Clone, Copy, Debug, PartialEq, Eq, Structural)]
pub enum Severity {
    /// The value that CVSS calls None.
    Nil,
    Low,
    Medium,
    High,
    Critical,
}

impl WireToken for Severity {
    open spec fn wire(&self) -> Seq<char> {
        match self {
            Severity::Nil => "None"@,
            Severity::Low => "Low"@,
            Severity::Medium => "Medium"@,
            Severity::High => "High"@,
            Severity::Critical => "Critical"@,
        }
    }

    proof fn lemma_wire_injective(a: Self, b: Self) {
        reveal_strlit("None");
        reveal_strlit("Low");
        reveal_strlit("Medium");
        reveal_strlit("High");
        reveal_strlit("Critical");
        if a.wire() == b.wire() {
            assert(a.wire().len() == b.wire().len());
            assert(a.wire()[0] == b.wire()[0]);
        }
    }

    fn token(&self) -> (r: &'static str) {
        match self {
            Severity::Nil => "None",
            Severity::Low => "Low",
            Severity::Medium => "Medium",
            Severity::High => "High",
            Severity::Critical => "Critical",
        }
    }

    fn from_token(s: &str) -> (r: Option<Self>) {
        if str_eq(s, "None") {
            Some(Severity::Nil)
        } else if str_eq(s, "Low") {
            Some(Severity::Low)
        } else if str_eq(s, "Medium") {
            Some(Severity::Medium)
        } else if str_eq(s, "High") {
            Some(Severity::High)
        } else if str_eq(s, "Critical") {
            Some(Severity::Critical)
        } else {
            None
        }
    }
}

/// The attack vector metric.
#[derive(Clone, Copy, Debug, PartialEq, Eq, Structural)]
pub enum AttackVector {
    Network,
    AdjacentNetwork,
    Local,
    Physical,
}

impl WireToken for AttackVector {
    open spec fn wire(&self) -> Seq<char> {
        match self {
            AttackVector::Network => "NETWORK"@,
            AttackVector::AdjacentNetwork => "ADJACENT_NETWORK"@,
            AttackVector::Local => "LOCAL"@,
            AttackVector::Physical => "PHYSICAL"@,
        }
    }

    proof fn lemma_wire_injective(a: Self, b: Self) {
        reveal_strlit("NETWORK");
        reveal_strlit("ADJACENT_NETWORK");
        reveal_strlit("LOCAL");
        reveal_strlit("PHYSICAL");
        if a.wire() == b.wire() {
            assert(a.wire().len() == b.wire().len());
        }
    }

    fn token(&self) -> (r: &'static str) {
        match self {
            AttackVector::Network => "NETWORK",
            AttackVector::AdjacentNetwork => "ADJACENT_NETWORK",
            AttackVector::Local => "LOCAL",
            AttackVector::Physical => "PHYSICAL",
        }
    }

    fn from_token(s: &str) -> (r: Option<Self>) {
        if str_eq(s, "NETWORK") {
            Some(AttackVector::Network)
        } else if str_eq(s, "ADJACENT_NETWORK") {
            Some(AttackVector::AdjacentNetwork)
        } else if str_eq(s, "LOCAL") {
            Some(AttackVector::Local)
        } else if str_eq(s, "PHYSICAL") {
            Some(AttackVector::Physical)
        } else {
            None
        }
    }
}

/// The attack complexity metric.
#[derive(Clone, Copy, Debug, PartialEq, Eq, Structural)]
pub enum AttackComplexity {
    Low,
    High,
}

impl WireToken for AttackComplexity {
    open spec fn wire(&self) -> Seq<char> {
        match self {
            AttackComplexity::Low => "LOW"@,
            AttackComplexity::High => "HIGH"@,
        }
    }

    proof fn lemma_wire_injective(a: Self, b: Self) {
        reveal_strlit("LOW");
        reveal_strlit("HIGH");
        if a.wire() == b.wire() {
            assert(a.wire().len() == b.wire().len());
        }
    }

    fn token(&self) -> (r: &'static str) {
        match self {
            AttackComplexity::Low => "LOW",
            AttackComplexity::High => "HIGH",
        }
    }

    fn from_token(s: &str) -> (r: Option<Self>) {
        if str_eq(s, "LOW") {
            Some(AttackComplexity::Low)
        } else if str_eq(s, "HIGH") {
            Some(AttackComplexity::High)
        } else {
            None
        }
    }
}

/// The privileges required metric.
#[derive(Clone, Copy, Debug, PartialEq, Eq, Structural)]
pub enum PrivilegesRequired {
    /// The value that CVSS calls None.
    Nil,
    Low,
    High,
}

impl WireToken for PrivilegesRequired {
    open spec fn wire(&self) -> Seq<char> {
        match self {
            PrivilegesRequired::Nil => "NONE"@,
            PrivilegesRequired::Low => "LOW"@,
            PrivilegesRequired::High => "HIGH"@,
        }
    }

    proof fn lemma_wire_injective(a: Self, b: Self) {
        reveal_strlit("NONE");
        reveal_strlit("LOW");
        reveal_strlit("HIGH");
        if a.wire() == b.wire() {
            assert(a.wire().len() == b.wire().len());
            assert(a.wire()[0] == b.wire()[0]);
        }
    }

    fn token(&self) -> (r: &'static str) {
        match self {
            PrivilegesRequired::Nil => "NONE",
            PrivilegesRequired::Low => "LOW",
            PrivilegesRequired::High => "HIGH",
        }
    }

    fn from_token(s: &str) -> (r: Option<Self>) {
        if str_eq(s, "NONE") {
            Some(PrivilegesRequired::Nil)
        } else if str_eq(s, "LOW") {
            Some(PrivilegesRequired::Low)
        } else if str_eq(s, "HIGH") {
            Some(PrivilegesRequired::High)
        } else {
            None
        }
    }
}

/// The user interaction metric.
#[derive(Clone, Copy, Debug, PartialEq, Eq, Structural)]
pub enum UserInteraction {
    /// The value that CVSS calls None.
    Nil,
    Required,
}

impl WireToken for UserInteraction {
    open spec fn wire(&self) -> Seq<char> {
        match self {
            UserInteraction::Nil => "NONE"@,
            UserInteraction::Required => "REQUIRED"@,
        }
    }

    proof fn lemma_wire_injective(a: Self, b: Self) {
        reveal_strlit("NONE");
        reveal_strlit("REQUIRED");
        if a.wire() == b.wire() {
            assert(a.wire().len() == b.wire().len());
        }
    }

    fn token(&self) -> (r: &'static str) {
        match self {
            UserInteraction::Nil => "NONE",
            UserInteraction::Required => "REQUIRED",
        }
    }

    fn from_token(s: &str) -> (r: Option<Self>) {
        if str_eq(s, "NONE") {
            Some(UserInteraction::Nil)
        } else if str_eq(s, "REQUIRED") {
            Some(UserInteraction::Required)
        } else {
            None
        }
    }
}

/// The scope metric.
#[derive(Clone, Copy, Debug, PartialEq, Eq, Structural)]
pub enum Scope {
    Unchanged,
    Changed,
}

impl WireToken for Scope {
    open spec fn wire(&self) -> Seq<char> {
        match self {
            Scope::Unchanged => "UNCHANGED"@,
            Scope::Changed => "CHANGED"@,
        }
    }

    proof fn lemma_wire_injective(a: Self, b: Self) {
        reveal_strlit("UNCHANGED");
        reveal_strlit("CHANGED");
        if a.wire() == b.wire() {
            assert(a.wire().len() == b.wire().len());
        }
    }

    fn token(&self) -> (r: &'static str) {
        match self {
            Scope::Unchanged => "UNCHANGED",
            Scope::Changed => "CHANGED",
        }
    }

    fn from_token(s: &str) -> (r: Option<Self>) {
        if str_eq(s, "UNCHANGED") {
            Some(Scope::Unchanged)
        } else if str_eq(s, "CHANGED") {
            Some(Scope::Changed)
        } else {
            None
        }
    }
}

/// The impact metrics (confidentiality, integrity, availability).
#[derive(Clone, Copy, Debug, PartialEq, Eq, Structural)]
pub enum Impact {
    High,
    Low,
    /// The value that CVSS calls None.
    Nil,
}

impl WireToken for Impact {
    open spec fn wire(&self) -> Seq<char> {
        match self {
            Impact::High => "HIGH"@,
            Impact::Low => "LOW"@,
            Impact::Nil => "NONE"@,
        }
    }

    proof fn lemma_wire_injective(a: Self, b: Self) {
        reveal_strlit("HIGH");
        reveal_strlit("LOW");
        reveal_strlit("NONE");
        if a.wire() == b.wire() {
            assert(a.wire().len() == b.wire().len());
            assert(a.wire()[0] == b.wire()[0]);
        }
    }

    fn token(&self) -> (r: &'static str) {
        match self {
            Impact::High => "HIGH",
            Impact::Low => "LOW",
            Impact::Nil => "NONE",
        }
    }

    fn from_token(s: &str) -> (r: Option<Self>) {
        if str_eq(s, "HIGH") {
            Some(Impact::High)
        } else if str_eq(s, "LOW") {
            Some(Impact::Low)
        } else if str_eq(s, "NONE") {
            Some(Impact::Nil)
        } else {
            None
        }
    }
}

} // verus!
