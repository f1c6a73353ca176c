//! Typed records for CVSS score objects of versions 2.0, 3.0, 3.1 and 4.0.
//!
//! A record is read from a JSON object that the caller has already decoded
//! into a list of members (`json::Member`), checked field by field against
//! the closed vocabularies of its version, and can be written back to such
//! a list. Scores are kept as the number text of the record: this layer
//! carries them and does not check their range.
use vstd::prelude::*;

pub mod field;
pub mod json;
pub mod token;
pub mod v2_0;
pub mod v3;
pub mod v3_0;
pub mod v4_0;
pub mod version;

use crate::field::{ParseError, ValueKind};
use crate::json::{find, lookup, str_eq, JsonValue, JsonView, Member};
use crate::token::WireToken;

verus! {

/// A record of any version; it owns the record that it holds.
pub enum AnyCvss {
    V2(v2_0::CvssV2),
    V3(v3::CvssV3),
    V4(v4_0::CvssV4),
}

/// The qualitative severity of a vulnerability, on one scale for all
/// versions: `Nil < Low < Medium < High < Critical`, where `Nil` is the
/// rating that CVSS calls None.
#[derive(Clone, Copy, Debug, PartialEq, Eq, PartialOrd, Ord, Structural)]
pub enum Severity {
    Nil,
    Low,
    Medium,
    High,
    Critical,
}

/// What every record offers, whatever its version.
pub trait Cvss {
    /// The version that the record declares.
    spec fn spec_version(&self) -> version::Version;

    /// The characters of the vector string.
    spec fn spec_vector_string(&self) -> Seq<char>;

    /// The characters of the base score, as written in the record.
    spec fn spec_base_score(&self) -> Seq<char>;

    /// The base severity on the common scale, where the record has one.
    spec fn spec_base_severity(&self) -> Option<Severity>;

    /// Returns the version of the CVSS standard.
    fn version(&self) -> (r: version::Version)
        ensures
            r == self.spec_version(),
    ;

    /// Returns the CVSS vector string.
    fn vector_string(&self) -> (r: &str)
        ensures
            r@ == self.spec_vector_string(),
    ;

    /// Returns the base score, as written in the record.
    fn base_score(&self) -> (r: &str)
        ensures
            r@ == self.spec_base_score(),
    ;

    /// Returns the base severity.
    fn base_severity(&self) -> (r: Option<Severity>)
        ensures
            r == self.spec_base_severity(),
    ;
}

impl AnyCvss {
    /// What reading `obj` gives. The `version` member picks the record
    /// shape: `"2.0"` version 2, `"3.0"` and `"3.1"` version 3, `"4.0"`
    /// version 4; an object without one is read as version 4, whose
    /// producers may leave it out. Any other version string is refused.
    pub open spec fn spec_parse(obj: Seq<Member>) -> Result<AnyCvss, ParseError> {
        match lookup(obj, "version"@) {
            None => match v4_0::CvssV4::spec_parse(obj) {
                Ok(c) => Ok(AnyCvss::V4(c)),
                Err(e) => Err(e),
            },
            Some(JsonValue::Text(s)) => if s@ == "2.0"@ {
                match v2_0::CvssV2::spec_parse(obj) {
                    Ok(c) => Ok(AnyCvss::V2(c)),
                    Err(e) => Err(e),
                }
            } else if s@ == "3.0"@ || s@ == "3.1"@ {
                match v3::CvssV3::spec_parse(obj) {
                    Ok(c) => Ok(AnyCvss::V3(c)),
                    Err(e) => Err(e),
                }
            } else if s@ == "4.0"@ {
                match v4_0::CvssV4::spec_parse(obj) {
                    Ok(c) => Ok(AnyCvss::V4(c)),
                    Err(e) => Err(e),
                }
            } else {
                Err(ParseError::UnknownEnumValue("version", s))
            },
            Some(_) => Err(ParseError::TypeMismatch("version", ValueKind::Text)),
        }
    }

    /// Reads a record of whichever version `obj` declares.
    pub fn from_object(obj: &Vec<Member>) -> (r: Result<AnyCvss, ParseError>)
        ensures
            r == Self::spec_parse(obj@),
            r matches Ok(c) ==> c.spec_valid(),
    {
        match find(obj, "version") {
            None => match v4_0::CvssV4::from_object(obj) {
                Ok(c) => Ok(AnyCvss::V4(c)),
                Err(e) => Err(e),
            },
            Some(JsonValue::Text(s)) => {
                if str_eq(s.as_str(), "2.0") {
                    match v2_0::CvssV2::from_object(obj) {
                        Ok(c) => Ok(AnyCvss::V2(c)),
                        Err(e) => Err(e),
                    }
                } else if str_eq(s.as_str(), "3.0") || str_eq(s.as_str(), "3.1") {
                    match v3::CvssV3::from_object(obj) {
                        Ok(c) => Ok(AnyCvss::V3(c)),
                        Err(e) => Err(e),
                    }
                } else if str_eq(s.as_str(), "4.0") {
                    match v4_0::CvssV4::from_object(obj) {
                        Ok(c) => Ok(AnyCvss::V4(c)),
                        Err(e) => Err(e),
                    }
                } else {
                    Err(ParseError::UnknownEnumValue("version", s.clone()))
                }
            },
            Some(_) => Err(ParseError::TypeMismatch("version", ValueKind::Text)),
        }
    }

    /// Whether the record can be read back; every record that is read can.
    pub open spec fn spec_valid(&self) -> bool {
        match self {
            AnyCvss::V3(c) => c.spec_valid(),
            _ => true,
        }
    }

    /// The members that the record is written as.
    pub open spec fn spec_members(&self) -> Seq<(Seq<char>, JsonView)> {
        match self {
            AnyCvss::V2(c) => c.spec_members(),
            AnyCvss::V3(c) => c.spec_members(),
            AnyCvss::V4(c) => c.spec_members(),
        }
    }

    /// Writes the record as the members of a JSON object. Read back, they
    /// give a record of the same version that is written as the same
    /// members.
    pub fn to_object(&self) -> (r: Vec<Member>)
        ensures
            json::obj_view(r@) == self.spec_members(),
            self.spec_valid() ==> AnyCvss::spec_parse(r@) is Ok,
            self.spec_valid() ==> AnyCvss::spec_parse(r@)->Ok_0.spec_members()
                == self.spec_members(),
            self.spec_valid() ==> AnyCvss::spec_parse(r@)->Ok_0.spec_version()
                == self.spec_version(),
    {
        proof {
            reveal_strlit("2.0");
            reveal_strlit("3.0");
            reveal_strlit("3.1");
            reveal_strlit("4.0");
        }
        match self {
            AnyCvss::V2(c) => {
                let r = c.to_object();
                proof {
                    v2_0::lemma_read_back(*c, r@);
                }
                r
            },
            AnyCvss::V3(c) => {
                let r = c.to_object();
                proof {
                    if c.spec_valid() {
                        v3::lemma_read_back(*c, r@);
                        let s = lookup(r@, "version"@)->0->Text_0;
                        assert(s@[0] != "2.0"@[0] && s@[0] != "4.0"@[0]);
                    }
                }
                r
            },
            AnyCvss::V4(c) => {
                let r = c.to_object();
                proof {
                    v4_0::lemma_read_back(*c, r@);
                }
                r
            },
        }
    }
}

/// Records of versions 3.0 and 3.1 read into the same shape, and `version`
/// tells them apart by the tag that the record declares.
pub proof fn lemma_version_discrimination(obj: Seq<Member>, s: String)
    requires
        lookup(obj, "version"@) == Some(JsonValue::Text(s)),
        AnyCvss::spec_parse(obj) is Ok,
    ensures
        s@ == "3.0"@ ==> {
            &&& AnyCvss::spec_parse(obj)->Ok_0 is V3
            &&& AnyCvss::spec_parse(obj)->Ok_0.spec_version() == version::Version::V3_0
        },
        s@ == "3.1"@ ==> {
            &&& AnyCvss::spec_parse(obj)->Ok_0 is V3
            &&& AnyCvss::spec_parse(obj)->Ok_0.spec_version() == version::Version::V3_1
        },
{
    reveal_strlit("2.0");
    reveal_strlit("3.0");
    reveal_strlit("3.1");
    reveal_strlit("4.0");
    assert(version::VersionV3::V3_0.wire() == "3.0"@);
    assert(version::VersionV3::V3_1.wire() == "3.1"@);
    field::lemma_vocabulary_exhaustive::<version::VersionV3>(obj, "version", s);
    if s@ == "3.0"@ || s@ == "3.1"@ {
        assert(s@[0] != "2.0"@[0] && s@[0] != "4.0"@[0]);
        assert(AnyCvss::spec_parse(obj) matches Ok(AnyCvss::V3(c)) && c == v3::CvssV3::spec_parse(
            obj,
        )->Ok_0);
        if s@ == "3.0"@ {
            assert(v3::CvssV3::spec_parse(obj)->Ok_0.version == version::VersionV3::V3_0);
        } else {
            assert(v3::CvssV3::spec_parse(obj)->Ok_0.version == version::VersionV3::V3_1);
        }
    }
}

impl Cvss for AnyCvss {
    open spec fn spec_version(&self) -> version::Version {
        match self {
            AnyCvss::V2(c) => c.spec_version(),
            AnyCvss::V3(c) => c.spec_version(),
            AnyCvss::V4(c) => c.spec_version(),
        }
    }

    open spec fn spec_vector_string(&self) -> Seq<char> {
        match self {
            AnyCvss::V2(c) => c.spec_vector_string(),
            AnyCvss::V3(c) => c.spec_vector_string(),
            AnyCvss::V4(c) => c.spec_vector_string(),
        }
    }

    open spec fn spec_base_score(&self) -> Seq<char> {
        match self {
            AnyCvss::V2(c) => c.spec_base_score(),
            AnyCvss::V3(c) => c.spec_base_score(),
            AnyCvss::V4(c) => c.spec_base_score(),
        }
    }

    open spec fn spec_base_severity(&self) -> Option<Severity> {
        match self {
            AnyCvss::V2(c) => c.spec_base_severity(),
            AnyCvss::V3(c) => c.spec_base_severity(),
            AnyCvss::V4(c) => c.spec_base_severity(),
        }
    }

    fn version(&self) -> (r: version::Version) {
        match self {
            AnyCvss::V2(c) => c.version(),
            AnyCvss::V3(c) => c.version(),
            AnyCvss::V4(c) => c.version(),
        }
    }

    fn vector_string(&self) -> (r: &str) {
        match self {
            AnyCvss::V2(c) => c.vector_string(),
            AnyCvss::V3(c) => c.vector_string(),
            AnyCvss::V4(c) => c.vector_string(),
        }
    }

    fn base_score(&self) -> (r: &str) {
        match self {
            AnyCvss::V2(c) => c.base_score(),
            AnyCvss::V3(c) => c.base_score(),
            AnyCvss::V4(c) => c.base_score(),
        }
    }

    fn base_severity(&self) -> (r: Option<Severity>) {
        match self {
            AnyCvss::V2(c) => c.base_severity(),
            AnyCvss::V3(c) => c.base_severity(),
            AnyCvss::V4(c) => c.base_severity(),
        }
    }
}

} // verus!
