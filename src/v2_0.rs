//! Records of CVSS version 2.0.
use vstd::prelude::*;

use crate::field::{
    enum_field, enum_member, lemma_enum_member_other, lemma_enum_read_back, lemma_enum_round_trip,
    lemma_number_member_other, lemma_number_read_back, lemma_number_round_trip,
    lemma_opt_enum_member_other, lemma_opt_enum_read_back, lemma_opt_enum_round_trip,
    lemma_opt_number_member_other, lemma_opt_number_read_back, lemma_opt_number_round_trip,
    lemma_text_member_other, lemma_text_read_back, lemma_text_round_trip, number_field,
    number_member, opt_enum_field, opt_enum_member, opt_number_field, opt_number_member, read_enum,
    read_number, read_opt_enum, read_opt_number, read_text, text_field, text_member, write_enum,
    write_number, write_opt_enum, write_opt_number, write_text, ParseError,
};
use crate::json::{
    key_sig, keys_within, lemma_lookup_found, lemma_lookup_obj_view, lemma_lookup_view_concat,
    lookup, lookup_view, obj_view, present_value, str_eq, value_view, JsonView, Member,
};
use crate::token::WireToken;
use crate::version::{Version, VersionV2};
use crate::Cvss;
use crate::Severity as UnifiedSeverity;

verus! {

/// A CVSS v2.0 score object.
#[derive(Clone, Debug, PartialEq)]
pub struct CvssV2 {
    /// The version of the CVSS standard.
    pub version: VersionV2,
    /// The CVSS vector string.
    pub vector_string: String,
    /// The qualitative severity rating.
    pub severity: Option<Severity>,
    /// The base score, as written in the record.
    pub base_score: String,
    /// The temporal score, as written in the record.
    pub temporal_score: Option<String>,
    /// The environmental score, as written in the record.
    pub environmental_score: Option<String>,
    /// The access vector metric.
    pub access_vector: AccessVector,
    /// The access complexity metric.
    pub access_complexity: AccessComplexity,
    /// The authentication metric.
    pub authentication: Authentication,
    /// The confidentiality impact metric.
    pub confidentiality_impact: Impact,
    /// The integrity impact metric.
    pub integrity_impact: Impact,
    /// The availability impact metric.
    pub availability_impact: Impact,
}

impl CvssV2 {
    /// What reading `obj` gives: the error of the first field, in the order
    /// of declaration, that cannot be read, or else the record of all fields.
    pub open spec fn spec_parse(obj: Seq<Member>) -> Result<CvssV2, ParseError> {
        let version = enum_field::<VersionV2>(obj, "version");
        let vector_string = text_field(obj, "vectorString");
        let severity = opt_enum_field::<Severity>(obj, "severity");
        let base_score = number_field(obj, "baseScore");
        let temporal_score = opt_number_field(obj, "temporalScore");
        let environmental_score = opt_number_field(obj, "environmentalScore");
        let access_vector = enum_field::<AccessVector>(obj, "accessVector");
        let access_complexity = enum_field::<AccessComplexity>(obj, "accessComplexity");
        let authentication = enum_field::<Authentication>(obj, "authentication");
        let confidentiality_impact = enum_field::<Impact>(obj, "confidentialityImpact");
        let integrity_impact = enum_field::<Impact>(obj, "integrityImpact");
        let availability_impact = enum_field::<Impact>(obj, "availabilityImpact");
        if version is Err {
            Err(version->Err_0)
        } else if vector_string is Err {
            Err(vector_string->Err_0)
        } else if severity is Err {
            Err(severity->Err_0)
        } else if base_score is Err {
            Err(base_score->Err_0)
        } else if temporal_score is Err {
            Err(temporal_score->Err_0)
        } else if environmental_score is Err {
            Err(environmental_score->Err_0)
        } else if access_vector is Err {
            Err(access_vector->Err_0)
        } else if access_complexity is Err {
            Err(access_complexity->Err_0)
        } else if authentication is Err {
            Err(authentication->Err_0)
        } else if confidentiality_impact is Err {
            Err(confidentiality_impact->Err_0)
        } else if integrity_impact is Err {
            Err(integrity_impact->Err_0)
        } else if availability_impact is Err {
            Err(availability_impact->Err_0)
        } else {
            Ok(CvssV2 {
                version: version->Ok_0,
                vector_string: vector_string->Ok_0,
                severity: severity->Ok_0,
                base_score: base_score->Ok_0,
                temporal_score: temporal_score->Ok_0,
                environmental_score: environmental_score->Ok_0,
                access_vector: access_vector->Ok_0,
                access_complexity: access_complexity->Ok_0,
                authentication: authentication->Ok_0,
                confidentiality_impact: confidentiality_impact->Ok_0,
                integrity_impact: integrity_impact->Ok_0,
                availability_impact: availability_impact->Ok_0,
            })
        }
    }

    /// The members that this record is written as: every field that is
    /// present, in the order of declaration, and no other.
    pub open spec fn spec_members(self) -> Seq<(Seq<char>, JsonView)> {
        Seq::empty()
            + enum_member("version", self.version)
            + text_member("vectorString", self.vector_string)
            + opt_enum_member("severity", self.severity)
            + number_member("baseScore", self.base_score)
            + opt_number_member("temporalScore", self.temporal_score)
            + opt_number_member("environmentalScore", self.environmental_score)
            + enum_member("accessVector", self.access_vector)
            + enum_member("accessComplexity", self.access_complexity)
            + enum_member("authentication", self.authentication)
            + enum_member("confidentialityImpact", self.confidentiality_impact)
            + enum_member("integrityImpact", self.integrity_impact)
            + enum_member("availabilityImpact", self.availability_impact)
    }

    /// Reads a record from the members of a JSON object.
    pub fn from_object(obj: &Vec<Member>) -> (r: Result<CvssV2, ParseError>)
        ensures
            r == Self::spec_parse(obj@),
    {
        let version = match read_enum::<VersionV2>(obj, "version") {
            Ok(v) => v,
            Err(e) => return Err(e),
        };
        let vector_string = match read_text(obj, "vectorString") {
            Ok(v) => v,
            Err(e) => return Err(e),
        };
        let severity = match read_opt_enum::<Severity>(obj, "severity") {
            Ok(v) => v,
            Err(e) => return Err(e),
        };
        let base_score = match read_number(obj, "baseScore") {
            Ok(v) => v,
            Err(e) => return Err(e),
        };
        let temporal_score = match read_opt_number(obj, "temporalScore") {
            Ok(v) => v,
            Err(e) => return Err(e),
        };
        let environmental_score = match read_opt_number(obj, "environmentalScore") {
            Ok(v) => v,
            Err(e) => return Err(e),
        };
        let access_vector = match read_enum::<AccessVector>(obj, "accessVector") {
            Ok(v) => v,
            Err(e) => return Err(e),
        };
        let access_complexity = match read_enum::<AccessComplexity>(obj, "accessComplexity") {
            Ok(v) => v,
            Err(e) => return Err(e),
        };
        let authentication = match read_enum::<Authentication>(obj, "authentication") {
            Ok(v) => v,
            Err(e) => return Err(e),
        };
        let confidentiality_impact = match read_enum::<Impact>(obj, "confidentialityImpact") {
            Ok(v) => v,
            Err(e) => return Err(e),
        };
        let integrity_impact = match read_enum::<Impact>(obj, "integrityImpact") {
            Ok(v) => v,
            Err(e) => return Err(e),
        };
        let availability_impact = match read_enum::<Impact>(obj, "availabilityImpact") {
            Ok(v) => v,
            Err(e) => return Err(e),
        };
        Ok(CvssV2 {
            version,
            vector_string,
            severity,
            base_score,
            temporal_score,
            environmental_score,
            access_vector,
            access_complexity,
            authentication,
            confidentiality_impact,
            integrity_impact,
            availability_impact,
        })
    }

    /// Writes this record as the members of a JSON object, leaving out
    /// every absent field.
    pub fn to_object(&self) -> (r: Vec<Member>)
        ensures
            obj_view(r@) == self.spec_members(),
            Self::spec_parse(r@) is Ok,
            Self::spec_parse(r@)->Ok_0.spec_members() == self.spec_members(),
    {
        let mut obj: Vec<Member> = Vec::new();
        assert(obj_view(obj@) =~= Seq::empty());
        write_enum(&mut obj, "version", &self.version);
        write_text(&mut obj, "vectorString", &self.vector_string);
        write_opt_enum(&mut obj, "severity", &self.severity);
        write_number(&mut obj, "baseScore", &self.base_score);
        write_opt_number(&mut obj, "temporalScore", &self.temporal_score);
        write_opt_number(&mut obj, "environmentalScore", &self.environmental_score);
        write_enum(&mut obj, "accessVector", &self.access_vector);
        write_enum(&mut obj, "accessComplexity", &self.access_complexity);
        write_enum(&mut obj, "authentication", &self.authentication);
        write_enum(&mut obj, "confidentialityImpact", &self.confidentiality_impact);
        write_enum(&mut obj, "integrityImpact", &self.integrity_impact);
        write_enum(&mut obj, "availabilityImpact", &self.availability_impact);
        proof {
            lemma_read_back(*self, obj@);
        }
        obj
    }
}

impl CvssV2 {
    /// Whether `k` is the key of a field of this record.
    pub open spec fn spec_is_key(k: Seq<char>) -> bool {
        k == "version"@
            || k == "vectorString"@
            || k == "severity"@
            || k == "baseScore"@
            || k == "temporalScore"@
            || k == "environmentalScore"@
            || k == "accessVector"@
            || k == "accessComplexity"@
            || k == "authentication"@
            || k == "confidentialityImpact"@
            || k == "integrityImpact"@
            || k == "availabilityImpact"@
    }
}

/// Reading an object and writing the record back gives the same object
/// up to the order of its members and without its `null` members: every
/// key holds the same value in both, and a key that holds `null` (an absent
/// optional field) is left out. This holds where the record knows every key.
pub proof fn lemma_round_trip(obj: Seq<Member>)
    requires
        CvssV2::spec_parse(obj) is Ok,
        keys_within(obj, |k: Seq<char>| CvssV2::spec_is_key(k)),
    ensures
        forall|k: Seq<char>|
            #[trigger] lookup_view(CvssV2::spec_parse(obj)->Ok_0.spec_members(), k)
                == present_value(obj, k),
{
    broadcast use lemma_lookup_view_concat;

    assert forall|k: Seq<char>|
        #[trigger] lookup_view(CvssV2::spec_parse(obj)->Ok_0.spec_members(), k)
            == present_value(obj, k) by {
        if lookup(obj, k) is Some {
            lemma_lookup_found(obj, k);
        }
        lemma_enum_round_trip::<VersionV2>(obj, "version", k);
        lemma_text_round_trip(obj, "vectorString", k);
        lemma_opt_enum_round_trip::<Severity>(obj, "severity", k);
        lemma_number_round_trip(obj, "baseScore", k);
        lemma_opt_number_round_trip(obj, "temporalScore", k);
        lemma_opt_number_round_trip(obj, "environmentalScore", k);
        lemma_enum_round_trip::<AccessVector>(obj, "accessVector", k);
        lemma_enum_round_trip::<AccessComplexity>(obj, "accessComplexity", k);
        lemma_enum_round_trip::<Authentication>(obj, "authentication", k);
        lemma_enum_round_trip::<Impact>(obj, "confidentialityImpact", k);
        lemma_enum_round_trip::<Impact>(obj, "integrityImpact", k);
        lemma_enum_round_trip::<Impact>(obj, "availabilityImpact", k);
    }
}

/// Writing a record and reading it back gives the record again: an object
/// whose members are those that `x` is written as reads as a record that
/// is written as the same members, so that each field equals that of `x`
/// (a string field by its characters).
pub proof fn lemma_read_back(x: CvssV2, obj: Seq<Member>)
    requires
        obj_view(obj) == x.spec_members(),
    ensures
        CvssV2::spec_parse(obj) is Ok,
        CvssV2::spec_parse(obj)->Ok_0.spec_members() == x.spec_members(),
        value_view(lookup(obj, "version"@)) == Some(JsonView::Text(x.version.wire())),
        CvssV2::spec_parse(obj)->Ok_0.version == x.version,
{
    broadcast use
        lemma_lookup_view_concat, lemma_text_member_other, lemma_number_member_other,
        lemma_opt_number_member_other, lemma_enum_member_other, lemma_opt_enum_member_other,
    ;

    reveal_strlit("version");
    reveal_strlit("vectorString");
    reveal_strlit("severity");
    reveal_strlit("baseScore");
    reveal_strlit("temporalScore");
    reveal_strlit("environmentalScore");
    reveal_strlit("accessVector");
    reveal_strlit("accessComplexity");
    reveal_strlit("authentication");
    reveal_strlit("confidentialityImpact");
    reveal_strlit("integrityImpact");
    reveal_strlit("availabilityImpact");
    assert(key_sig("version"@) == (7int, 'v', 'n'));
    assert(key_sig("vectorString"@) == (12int, 'v', 'g'));
    assert(key_sig("severity"@) == (8int, 's', 'y'));
    assert(key_sig("baseScore"@) == (9int, 'b', 'e'));
    assert(key_sig("temporalScore"@) == (13int, 't', 'e'));
    assert(key_sig("environmentalScore"@) == (18int, 'e', 'e'));
    assert(key_sig("accessVector"@) == (12int, 'a', 'r'));
    assert(key_sig("accessComplexity"@) == (16int, 'a', 'y'));
    assert(key_sig("authentication"@) == (14int, 'a', 'n'));
    assert(key_sig("confidentialityImpact"@) == (21int, 'c', 't'));
    assert(key_sig("integrityImpact"@) == (15int, 'i', 't'));
    assert(key_sig("availabilityImpact"@) == (18int, 'a', 't'));
    lemma_lookup_obj_view(obj, "version"@);
    lemma_enum_read_back::<VersionV2>(obj, "version", x.version);
    lemma_lookup_obj_view(obj, "vectorString"@);
    lemma_text_read_back(obj, "vectorString", x.vector_string);
    lemma_lookup_obj_view(obj, "severity"@);
    lemma_opt_enum_read_back::<Severity>(obj, "severity", x.severity);
    lemma_lookup_obj_view(obj, "baseScore"@);
    lemma_number_read_back(obj, "baseScore", x.base_score);
    lemma_lookup_obj_view(obj, "temporalScore"@);
    lemma_opt_number_read_back(obj, "temporalScore", x.temporal_score);
    lemma_lookup_obj_view(obj, "environmentalScore"@);
    lemma_opt_number_read_back(obj, "environmentalScore", x.environmental_score);
    lemma_lookup_obj_view(obj, "accessVector"@);
    lemma_enum_read_back::<AccessVector>(obj, "accessVector", x.access_vector);
    lemma_lookup_obj_view(obj, "accessComplexity"@);
    lemma_enum_read_back::<AccessComplexity>(obj, "accessComplexity", x.access_complexity);
    lemma_lookup_obj_view(obj, "authentication"@);
    lemma_enum_read_back::<Authentication>(obj, "authentication", x.authentication);
    lemma_lookup_obj_view(obj, "confidentialityImpact"@);
    lemma_enum_read_back::<Impact>(obj, "confidentialityImpact", x.confidentiality_impact);
    lemma_lookup_obj_view(obj, "integrityImpact"@);
    lemma_enum_read_back::<Impact>(obj, "integrityImpact", x.integrity_impact);
    lemma_lookup_obj_view(obj, "availabilityImpact"@);
    lemma_enum_read_back::<Impact>(obj, "availabilityImpact", x.availability_impact);
}

/// The qualitative severity rating of a vulnerability.
#[derive(Clone, Copy, Debug, PartialEq, Eq, Structural)]
pub enum Severity {
    Low,
    Medium,
    High,
}

impl WireToken for Severity {
    open spec fn wire(&self) -> Seq<char> {
        match self {
            Severity::Low => "Low"@,
            Severity::Medium => "Medium"@,
            Severity::High => "High"@,
        }
    }

    proof fn lemma_wire_injective(a: Self, b: Self) {
        reveal_strlit("Low");
        reveal_strlit("Medium");
        reveal_strlit("High");
        if a.wire() == b.wire() {
            assert(a.wire().len() == b.wire().len());
        }
    }

    fn token(&self) -> (r: &'static str) {
        match self {
            Severity::Low => "Low",
            Severity::Medium => "Medium",
            Severity::High => "High",
        }
    }

    fn from_token(s: &str) -> (r: Option<Self>) {
        if str_eq(s, "Low") {
            Some(Severity::Low)
        } else if str_eq(s, "Medium") {
            Some(Severity::Medium)
        } else if str_eq(s, "High") {
            Some(Severity::High)
        } else {
            None
        }
    }
}

/// The access vector metric.
#[derive(Clone, Copy, Debug, PartialEq, Eq, Structural)]
pub enum AccessVector {
    Network,
    AdjacentNetwork,
    Local,
}

impl WireToken for AccessVector {
    open spec fn wire(&self) -> Seq<char> {
        match self {
            AccessVector::Network => "NETWORK"@,
            AccessVector::AdjacentNetwork => "ADJACENT_NETWORK"@,
            AccessVector::Local => "LOCAL"@,
        }
    }

    proof fn lemma_wire_injective(a: Self, b: Self) {
        reveal_strlit("NETWORK");
        reveal_strlit("ADJACENT_NETWORK");
        reveal_strlit("LOCAL");
        if a.wire() == b.wire() {
            assert(a.wire().len() == b.wire().len());
        }
    }

    fn token(&self) -> (r: &'static str) {
        match self {
            AccessVector::Network => "NETWORK",
            AccessVector::AdjacentNetwork => "ADJACENT_NETWORK",
            AccessVector::Local => "LOCAL",
        }
    }

    fn from_token(s: &str) -> (r: Option<Self>) {
        if str_eq(s, "NETWORK") {
            Some(AccessVector::Network)
        } else if str_eq(s, "ADJACENT_NETWORK") {
            Some(AccessVector::AdjacentNetwork)
        } else if str_eq(s, "LOCAL") {
            Some(AccessVector::Local)
        } else {
            None
        }
    }
}

/// The access complexity metric.
#[derive(Clone, Copy, Debug, PartialEq, Eq, Structural)]
pub enum AccessComplexity {
    High,
    Medium,
    Low,
}

impl WireToken for AccessComplexity {
    open spec fn wire(&self) -> Seq<char> {
        match self {
            AccessComplexity::High => "HIGH"@,
            AccessComplexity::Medium => "MEDIUM"@,
            AccessComplexity::Low => "LOW"@,
        }
    }

    proof fn lemma_wire_injective(a: Self, b: Self) {
        reveal_strlit("HIGH");
        reveal_strlit("MEDIUM");
        reveal_strlit("LOW");
        if a.wire() == b.wire() {
            assert(a.wire().len() == b.wire().len());
        }
    }

    fn token(&self) -> (r: &'static str) {
        match self {
            AccessComplexity::High => "HIGH",
            AccessComplexity::Medium => "MEDIUM",
            AccessComplexity::Low => "LOW",
        }
    }

    fn from_token(s: &str) -> (r: Option<Self>) {
        if str_eq(s, "HIGH") {
            Some(AccessComplexity::High)
        } else if str_eq(s, "MEDIUM") {
            Some(AccessComplexity::Medium)
        } else if str_eq(s, "LOW") {
            Some(AccessComplexity::Low)
        } else {
            None
        }
    }
}

/// The authentication metric.
#[derive(Clone, Copy, Debug, PartialEq, Eq, Structural)]
pub enum Authentication {
    Multiple,
    Single,
    /// The value that CVSS calls None.
    Nil,
}

impl WireToken for Authentication {
    open spec fn wire(&self) -> Seq<char> {
        match self {
            Authentication::Multiple => "MULTIPLE"@,
            Authentication::Single => "SINGLE"@,
            Authentication::Nil => "NONE"@,
        }
    }

    proof fn lemma_wire_injective(a: Self, b: Self) {
        reveal_strlit("MULTIPLE");
        reveal_strlit("SINGLE");
        reveal_strlit("NONE");
        if a.wire() == b.wire() {
            assert(a.wire().len() == b.wire().len());
        }
    }

    fn token(&self) -> (r: &'static str) {
        match self {
            Authentication::Multiple => "MULTIPLE",
            Authentication::Single => "SINGLE",
            Authentication::Nil => "NONE",
        }
    }

    fn from_token(s: &str) -> (r: Option<Self>) {
        if str_eq(s, "MULTIPLE") {
            Some(Authentication::Multiple)
        } else if str_eq(s, "SINGLE") {
            Some(Authentication::Single)
        } else if str_eq(s, "NONE") {
            Some(Authentication::Nil)
        } else {
            None
        }
    }
}

/// The impact metrics (confidentiality, integrity, availability).
#[derive(Clone, Copy, Debug, PartialEq, Eq, Structural)]
pub enum Impact {
    /// The value that CVSS calls None.
    Nil,
    Partial,
    Complete,
}

impl WireToken for Impact {
    open spec fn wire(&self) -> Seq<char> {
        match self {
            Impact::Nil => "NONE"@,
            Impact::Partial => "PARTIAL"@,
            Impact::Complete => "COMPLETE"@,
        }
    }

    proof fn lemma_wire_injective(a: Self, b: Self) {
        reveal_strlit("NONE");
        reveal_strlit("PARTIAL");
        reveal_strlit("COMPLETE");
        if a.wire() == b.wire() {
            assert(a.wire().len() == b.wire().len());
        }
    }

    fn token(&self) -> (r: &'static str) {
        match self {
            Impact::Nil => "NONE",
            Impact::Partial => "PARTIAL",
            Impact::Complete => "COMPLETE",
        }
    }

    fn from_token(s: &str) -> (r: Option<Self>) {
        if str_eq(s, "NONE") {
            Some(Impact::Nil)
        } else if str_eq(s, "PARTIAL") {
            Some(Impact::Partial)
        } else if str_eq(s, "COMPLETE") {
            Some(Impact::Complete)
        } else {
            None
        }
    }
}

impl Severity {
    /// The same rating on the five-level scale.
    pub open spec fn spec_unified(self) -> UnifiedSeverity {
        match self {
            Severity::Low => UnifiedSeverity::Low,
            Severity::Medium => UnifiedSeverity::Medium,
            Severity::High => UnifiedSeverity::High,
        }
    }

    /// The same rating on the five-level scale.
    pub fn unified(&self) -> (r: UnifiedSeverity)
        ensures
            r == self.spec_unified(),
    {
        match self {
            Severity::Low => UnifiedSeverity::Low,
            Severity::Medium => UnifiedSeverity::Medium,
            Severity::High => UnifiedSeverity::High,
        }
    }
}

impl Cvss for CvssV2 {
    open spec fn spec_version(&self) -> Version {
        Version::V2_0
    }

    open spec fn spec_vector_string(&self) -> Seq<char> {
        self.vector_string@
    }

    open spec fn spec_base_score(&self) -> Seq<char> {
        self.base_score@
    }

    open spec fn spec_base_severity(&self) -> Option<UnifiedSeverity> {
        match self.severity {
            Some(s) => Some(s.spec_unified()),
            None => None,
        }
    }

    fn version(&self) -> (r: Version) {
        match self.version {
            VersionV2::V2_0 => Version::V2_0,
        }
    }

    fn vector_string(&self) -> (r: &str) {
        self.vector_string.as_str()
    }

    fn base_score(&self) -> (r: &str) {
        self.base_score.as_str()
    }

    fn base_severity(&self) -> (r: Option<UnifiedSeverity>) {
        match &self.severity {
            Some(s) => Some(s.unified()),
            None => None,
        }
    }
}

/// A version 2 record may leave out its severity: the absent field never
/// makes reading fail, the record reads as soon as its other fields do, and
/// it then has no base severity.
pub proof fn lemma_severity_optional(obj: Seq<Member>)
    requires
        lookup(obj, "severity"@) is None,
    ensures
        opt_enum_field::<Severity>(obj, "severity") == Ok::<Option<Severity>, ParseError>(None),
        ({
            &&& enum_field::<VersionV2>(obj, "version") is Ok
            &&& text_field(obj, "vectorString") is Ok
            &&& number_field(obj, "baseScore") is Ok
            &&& opt_number_field(obj, "temporalScore") is Ok
            &&& opt_number_field(obj, "environmentalScore") is Ok
            &&& enum_field::<AccessVector>(obj, "accessVector") is Ok
            &&& enum_field::<AccessComplexity>(obj, "accessComplexity") is Ok
            &&& enum_field::<Authentication>(obj, "authentication") is Ok
            &&& enum_field::<Impact>(obj, "confidentialityImpact") is Ok
            &&& enum_field::<Impact>(obj, "integrityImpact") is Ok
            &&& enum_field::<Impact>(obj, "availabilityImpact") is Ok
        }) ==> CvssV2::spec_parse(obj) is Ok,
        CvssV2::spec_parse(obj) matches Ok(c) ==> c.spec_base_severity() is None,
{
}

} // verus!
