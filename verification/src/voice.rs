//! Voices: their type and status vocabularies, the stored record and the
//! requests that create, change and select voices.

use vstd::prelude::*;
use crate::text::str_eq;
use crate::clock::Timestamp;

verus! {

/// Voice type
#[derive(Debug, Clone, Copy, PartialEq, Eq, Structural)]
pub enum VoiceType {
    Prebuilt,
    Custom,
    Cloned,
}

impl VoiceType {
    /// The stored text of the value.
    pub open spec fn text(self) -> Seq<char> {
        match self {
            VoiceType::Prebuilt => "prebuilt"@,
            VoiceType::Custom => "custom"@,
            VoiceType::Cloned => "cloned"@,
        }
    }

    /// The value whose stored text is `s`, if any.
    pub open spec fn parse(s: Seq<char>) -> Option<VoiceType> {
        if s == "prebuilt"@ {
            Some(VoiceType::Prebuilt)
        } else if s == "custom"@ {
            Some(VoiceType::Custom)
        } else if s == "cloned"@ {
            Some(VoiceType::Cloned)
        } else {
            None
        }
    }

    pub fn as_str(&self) -> (r: &'static str)
        ensures
            r@ == self.text(),
    {
        match self {
            VoiceType::Prebuilt => "prebuilt",
            VoiceType::Custom => "custom",
            VoiceType::Cloned => "cloned",
        }
    }

    pub fn from_str(s: &str) -> (r: Option<Self>)
        ensures
            r == Self::parse(s@),
    {
        if str_eq(s, "prebuilt") {
            Some(VoiceType::Prebuilt)
        } else if str_eq(s, "custom") {
            Some(VoiceType::Custom)
        } else if str_eq(s, "cloned") {
            Some(VoiceType::Cloned)
        } else {
            None
        }
    }
}

/// Parsing the stored text of a value gives that value back.
pub proof fn voice_type_round_trip(k: VoiceType)
    ensures
        VoiceType::parse(k.text()) == Some(k),
{
        reveal_strlit("prebuilt");
        reveal_strlit("custom");
        reveal_strlit("cloned");
        assert("prebuilt"@.len() != "custom"@.len());
        assert("prebuilt"@.len() != "cloned"@.len());
        assert("custom"@[1] != "cloned"@[1]);
}

/// Whatever parses to a value is exactly that value's stored text.
pub proof fn voice_type_parse_exact(s: Seq<char>)
    ensures
        VoiceType::parse(s) matches Some(k) ==> k.text() == s,
{
}

/// Distinct values are stored as distinct texts.
pub proof fn voice_type_text_injective(a: VoiceType, b: VoiceType)
    ensures
        a.text() == b.text() ==> a == b,
{
    voice_type_round_trip(a);
    voice_type_round_trip(b);
}

/// Voice status
#[derive(Debug, Clone, Copy, PartialEq, Eq, Structural)]
pub enum VoiceStatus {
    Active,
    Inactive,
    Deprecated,
}

impl VoiceStatus {
    /// The stored text of the value.
    pub open spec fn text(self) -> Seq<char> {
        match self {
            VoiceStatus::Active => "active"@,
            VoiceStatus::Inactive => "inactive"@,
            VoiceStatus::Deprecated => "deprecated"@,
        }
    }

    /// The value whose stored text is `s`, if any.
    pub open spec fn parse(s: Seq<char>) -> Option<VoiceStatus> {
        if s == "active"@ {
            Some(VoiceStatus::Active)
        } else if s == "inactive"@ {
            Some(VoiceStatus::Inactive)
        } else if s == "deprecated"@ {
            Some(VoiceStatus::Deprecated)
        } else {
            None
        }
    }

    pub fn as_str(&self) -> (r: &'static str)
        ensures
            r@ == self.text(),
    {
        match self {
            VoiceStatus::Active => "active",
            VoiceStatus::Inactive => "inactive",
            VoiceStatus::Deprecated => "deprecated",
        }
    }

    pub fn from_str(s: &str) -> (r: Option<Self>)
        ensures
            r == Self::parse(s@),
    {
        if str_eq(s, "active") {
            Some(VoiceStatus::Active)
        } else if str_eq(s, "inactive") {
            Some(VoiceStatus::Inactive)
        } else if str_eq(s, "deprecated") {
            Some(VoiceStatus::Deprecated)
        } else {
            None
        }
    }
}

/// Parsing the stored text of a value gives that value back.
pub proof fn voice_status_round_trip(k: VoiceStatus)
    ensures
        VoiceStatus::parse(k.text()) == Some(k),
{
        reveal_strlit("active");
        reveal_strlit("inactive");
        reveal_strlit("deprecated");
        assert("active"@.len() != "inactive"@.len());
        assert("active"@.len() != "deprecated"@.len());
        assert("inactive"@.len() != "deprecated"@.len());
}

/// Whatever parses to a value is exactly that value's stored text.
pub proof fn voice_status_parse_exact(s: Seq<char>)
    ensures
        VoiceStatus::parse(s) matches Some(k) ==> k.text() == s,
{
}

/// Distinct values are stored as distinct texts.
pub proof fn voice_status_text_injective(a: VoiceStatus, b: VoiceStatus)
    ensures
        a.text() == b.text() ==> a == b,
{
    voice_status_round_trip(a);
    voice_status_round_trip(b);
}

/// Audio voice entity. The stored quality score is a floating-point number
/// that no decision here reads; it stays with the storage layer.
#[derive(Debug, Clone)]
pub struct AudioVoice {
    pub id: i64,
    pub voice_no: String,
    pub tenant_id: i64,
    pub organization_id: i64,
    pub user_id: i64,
    pub name: String,
    pub description: Option<String>,
    pub language: String,
    pub gender: Option<String>,
    pub voice_type: String,
    pub provider_code: Option<String>,
    pub provider_voice_id: Option<String>,
    pub provider_config_json: Option<String>,
    pub clone_reference_url: Option<String>,
    pub clone_parameters_json: Option<String>,
    pub status: String,
    pub is_public: bool,
    pub usage_count: i64,
    pub created_at: Timestamp,
    pub updated_at: Timestamp,
    pub deleted: bool,
    pub version: i64,
}

/// Create voice request
#[derive(Debug, Clone)]
pub struct CreateVoiceRequest {
    pub tenant_id: i64,
    pub organization_id: i64,
    pub user_id: i64,
    pub name: String,
    pub description: Option<String>,
    pub language: String,
    pub gender: Option<String>,
    pub voice_type: VoiceType,
    pub provider_code: Option<String>,
    pub provider_voice_id: Option<String>,
    pub provider_config_json: Option<String>,
    pub clone_reference_url: Option<String>,
    pub clone_parameters_json: Option<String>,
    pub is_public: bool,
}

/// Update voice request
#[derive(Debug, Clone)]
pub struct UpdateVoiceRequest {
    pub name: Option<String>,
    pub description: Option<String>,
    pub language: Option<String>,
    pub gender: Option<String>,
    pub voice_type: Option<VoiceType>,
    pub provider_code: Option<String>,
    pub provider_voice_id: Option<String>,
    pub provider_config_json: Option<String>,
    pub clone_reference_url: Option<String>,
    pub clone_parameters_json: Option<String>,
    pub status: Option<VoiceStatus>,
    pub is_public: Option<bool>,
}

/// Voice filter
#[derive(Debug, Clone)]
pub struct VoiceFilter {
    pub tenant_id: Option<i64>,
    pub user_id: Option<i64>,
    pub language: Option<String>,
    pub gender: Option<String>,
    pub voice_type: Option<VoiceType>,
    pub status: Option<VoiceStatus>,
    pub is_public: Option<bool>,
    pub created_after: Option<Timestamp>,
    pub created_before: Option<Timestamp>,
}

/// Voice list result
#[derive(Debug, Clone)]
pub struct VoiceListResult {
    pub voices: Vec<AudioVoice>,
    pub total: i64,
    pub has_more: bool,
    pub next_cursor: Option<String>,
}

/// The names under which each voice type is stored: `prebuilt`, `custom`, `cloned`.
pub proof fn voice_type_names()
    ensures
        VoiceType::Prebuilt.text() == "prebuilt"@,
        VoiceType::Custom.text() == "custom"@,
        VoiceType::Cloned.text() == "cloned"@,
{
}

/// The names under which each voice status is stored: `active`, `inactive`, `deprecated`.
pub proof fn voice_status_names()
    ensures
        VoiceStatus::Active.text() == "active"@,
        VoiceStatus::Inactive.text() == "inactive"@,
        VoiceStatus::Deprecated.text() == "deprecated"@,
{
}

} // verus!
