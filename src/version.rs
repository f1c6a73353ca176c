//! The version tags of CVSS records.
use vstd::prelude::*;

use crate::json::str_eq;
use crate::token::WireToken;

verus! {

/// A CVSS version, whichever record shape it uses; spelled as its number.
#[derive(Clone, Copy, Debug, PartialEq, Eq, PartialOrd, Ord, Structural)]
pub enum Version {
    V2_0,
    V3_0,
    V3_1,
    V4_0,
}

impl WireToken for Version {
    open spec fn wire(&self) -> Seq<char> {
        match self {
            Version::V2_0 => "2.0"@,
            Version::V3_0 => "3.0"@,
            Version::V3_1 => "3.1"@,
            Version::V4_0 => "4.0"@,
        }
    }

    proof fn lemma_wire_injective(a: Self, b: Self) {
        reveal_strlit("2.0");
        reveal_strlit("3.0");
        reveal_strlit("3.1");
        reveal_strlit("4.0");
        if a.wire() == b.wire() {
            assert(a.wire().len() == b.wire().len());
            assert(a.wire()[0] == b.wire()[0]);
            assert(a.wire()[2] == b.wire()[2]);
        }
    }

    fn token(&self) -> (r: &'static str) {
        match self {
            Version::V2_0 => "2.0",
            Version::V3_0 => "3.0",
            Version::V3_1 => "3.1",
            Version::V4_0 => "4.0",
        }
    }

    fn from_token(s: &str) -> (r: Option<Self>) {
        if str_eq(s, "2.0") {
            Some(Version::V2_0)
        } else if str_eq(s, "3.0") {
            Some(Version::V3_0)
        } else if str_eq(s, "3.1") {
            Some(Version::V3_1)
        } else if str_eq(s, "4.0") {
            Some(Version::V4_0)
        } else {
            None
        }
    }
}

/// The version tag of a version 2 record.
#[derive(Clone, Copy, Debug, PartialEq, Eq, Structural)]
pub enum VersionV2 {
    V2_0,
}

impl WireToken for VersionV2 {
    open spec fn wire(&self) -> Seq<char> {
        match self {
            VersionV2::V2_0 => "2.0"@,
        }
    }

    proof fn lemma_wire_injective(a: Self, b: Self) {
        reveal_strlit("2.0");
        if a.wire() == b.wire() {
            assert(a.wire().len() == b.wire().len());
        }
    }

    fn token(&self) -> (r: &'static str) {
        match self {
            VersionV2::V2_0 => "2.0",
        }
    }

    fn from_token(s: &str) -> (r: Option<Self>) {
        if str_eq(s, "2.0") {
            Some(VersionV2::V2_0)
        } else {
            None
        }
    }
}

/// The version tag of a version 3 record: 3.0 or 3.1.
#[derive(Clone, Copy, Debug, PartialEq, Eq, Structural)]
pub enum VersionV3 {
    V3_0,
    V3_1,
}

impl WireToken for VersionV3 {
    open spec fn wire(&self) -> Seq<char> {
        match self {
            VersionV3::V3_0 => "3.0"@,
            VersionV3::V3_1 => "3.1"@,
        }
    }

    proof fn lemma_wire_injective(a: Self, b: Self) {
        reveal_strlit("3.0");
        reveal_strlit("3.1");
        if a.wire() == b.wire() {
            assert(a.wire().len() == b.wire().len());
            assert(a.wire()[2] == b.wire()[2]);
        }
    }

    fn token(&self) -> (r: &'static str) {
        match self {
            VersionV3::V3_0 => "3.0",
            VersionV3::V3_1 => "3.1",
        }
    }

    fn from_token(s: &str) -> (r: Option<Self>) {
        if str_eq(s, "3.0") {
            Some(VersionV3::V3_0)
        } else if str_eq(s, "3.1") {
            Some(VersionV3::V3_1)
        } else {
            None
        }
    }
}

/// The version tag of a version 4 record.
#[derive(Clone, Copy, Debug, PartialEq, Eq, Structural)]
pub enum VersionV4 {
    V4_0,
}

impl WireToken for VersionV4 {
    open spec fn wire(&self) -> Seq<char> {
        match self {
            VersionV4::V4_0 => "4.0"@,
        }
    }

    proof fn lemma_wire_injective(a: Self, b: Self) {
        reveal_strlit("4.0");
        if a.wire() == b.wire() {
            assert(a.wire().len() == b.wire().len());
        }
    }

    fn token(&self) -> (r: &'static str) {
        match self {
            VersionV4::V4_0 => "4.0",
        }
    }

    fn from_token(s: &str) -> (r: Option<Self>) {
        if str_eq(s, "4.0") {
            Some(VersionV4::V4_0)
        } else {
            None
        }
    }
}

} // verus!
