//! The alert endpoints: which notification channels a test request names,
//! the CAP alert profiles, and the shapes of their answers.
use vstd::prelude::*;

use crate::text::string_of;
use crate::web::json::{entry_lookup, JsonValue};
use crate::web::streams::{url_is_valid, url_parses};


verus! {

/// The CAP alert profiles a preview can use.
#[derive(Debug, Clone, Copy, PartialEq, Eq, Structural)]
pub enum CapProfile {
    SevereWeather,
    ExtremeWeather,
    FireAlert,
    PublicSafety,
    HealthAlert,
    EnvironmentalHazard,
    TransportationAlert,
    InfrastructureAlert,
    CbrneAlert,
    SecurityAlert,
    TestAlert,
    AllClear,
}

/// The snake-case name of a profile, as requests write it.
pub open spec fn profile_key(p: CapProfile) -> Seq<char> {
    match p {
        CapProfile::SevereWeather => "severe_weather"@,
        CapProfile::ExtremeWeather => "extreme_weather"@,
        CapProfile::FireAlert => "fire_alert"@,
        CapProfile::PublicSafety => "public_safety"@,
        CapProfile::HealthAlert => "health_alert"@,
        CapProfile::EnvironmentalHazard => "environmental_hazard"@,
        CapProfile::TransportationAlert => "transportation_alert"@,
        CapProfile::InfrastructureAlert => "infrastructure_alert"@,
        CapProfile::CbrneAlert => "cbrne_alert"@,
        CapProfile::SecurityAlert => "security_alert"@,
        CapProfile::TestAlert => "test_alert"@,
        CapProfile::AllClear => "all_clear"@,
    }
}

/// The name of a profile as a preview reports it (its variant name).
pub open spec fn profile_label(p: CapProfile) -> Seq<char> {
    match p {
        CapProfile::SevereWeather => "SevereWeather"@,
        CapProfile::ExtremeWeather => "ExtremeWeather"@,
        CapProfile::FireAlert => "FireAlert"@,
        CapProfile::PublicSafety => "PublicSafety"@,
        CapProfile::HealthAlert => "HealthAlert"@,
        CapProfile::EnvironmentalHazard => "EnvironmentalHazard"@,
        CapProfile::TransportationAlert => "TransportationAlert"@,
        CapProfile::InfrastructureAlert => "InfrastructureAlert"@,
        CapProfile::CbrneAlert => "CbrneAlert"@,
        CapProfile::SecurityAlert => "SecurityAlert"@,
        CapProfile::TestAlert => "TestAlert"@,
        CapProfile::AllClear => "AllClear"@,
    }
}

impl CapProfile {
    /// The snake-case name of a profile.
    pub fn key(&self) -> (r: &'static str)
        ensures
            r@ == profile_key(*self),
    {
        match self {
            CapProfile::SevereWeather => "severe_weather",
            CapProfile::ExtremeWeather => "extreme_weather",
            CapProfile::FireAlert => "fire_alert",
            CapProfile::PublicSafety => "public_safety",
            CapProfile::HealthAlert => "health_alert",
            CapProfile::EnvironmentalHazard => "environmental_hazard",
            CapProfile::TransportationAlert => "transportation_alert",
            CapProfile::InfrastructureAlert => "infrastructure_alert",
            CapProfile::CbrneAlert => "cbrne_alert",
            CapProfile::SecurityAlert => "security_alert",
            CapProfile::TestAlert => "test_alert",
            CapProfile::AllClear => "all_clear",
        }
    }

    /// The name a preview reports for a profile.
    pub fn label(&self) -> (r: &'static str)
        ensures
            r@ == profile_label(*self),
    {
        match self {
            CapProfile::SevereWeather => "SevereWeather",
            CapProfile::ExtremeWeather => "ExtremeWeather",
            CapProfile::FireAlert => "FireAlert",
            CapProfile::PublicSafety => "PublicSafety",
            CapProfile::HealthAlert => "HealthAlert",
            CapProfile::EnvironmentalHazard => "EnvironmentalHazard",
            CapProfile::TransportationAlert => "TransportationAlert",
            CapProfile::InfrastructureAlert => "InfrastructureAlert",
            CapProfile::CbrneAlert => "CbrneAlert",
            CapProfile::SecurityAlert => "SecurityAlert",
            CapProfile::TestAlert => "TestAlert",
            CapProfile::AllClear => "AllClear",
        }
    }
}

/// All profiles, in the order the health answer lists them.
pub fn all_profiles() -> (r: Vec<CapProfile>)
    ensures
        r@ == seq![
            CapProfile::SevereWeather,
            CapProfile::ExtremeWeather,
            CapProfile::FireAlert,
            CapProfile::PublicSafety,
            CapProfile::HealthAlert,
            CapProfile::EnvironmentalHazard,
            CapProfile::TransportationAlert,
            CapProfile::InfrastructureAlert,
            CapProfile::CbrneAlert,
            CapProfile::SecurityAlert,
            CapProfile::TestAlert,
            CapProfile::AllClear,
        ],
{
    let mut v: Vec<CapProfile> = Vec::new();
    v.push(CapProfile::SevereWeather);
    v.push(CapProfile::ExtremeWeather);
    v.push(CapProfile::FireAlert);
    v.push(CapProfile::PublicSafety);
    v.push(CapProfile::HealthAlert);
    v.push(CapProfile::EnvironmentalHazard);
    v.push(CapProfile::TransportationAlert);
    v.push(CapProfile::InfrastructureAlert);
    v.push(CapProfile::CbrneAlert);
    v.push(CapProfile::SecurityAlert);
    v.push(CapProfile::TestAlert);
    v.push(CapProfile::AllClear);
    v
}

/// A request for a CAP alert preview.
#[derive(Debug)]
pub struct CapPreviewRequest {
    pub profile: CapProfile,
    pub sender: String,
    pub custom_title: Option<String>,
    pub custom_description: Option<String>,
    pub custom_instruction: Option<String>,
}

/// The classification of a previewed alert.
#[derive(Debug)]
pub struct CapMetadata {
    pub urgency: String,
    pub severity: String,
    pub certainty: String,
    pub categories: Vec<String>,
    pub response_types: Vec<String>,
}

impl CapMetadata {
    /// The classification of an alert without information blocks: all
    /// `Unknown`, no categories and no response types.
    pub fn unknown() -> (r: Self)
        ensures
            r.urgency@ == "Unknown"@,
            r.severity@ == "Unknown"@,
            r.certainty@ == "Unknown"@,
            r.categories@.len() == 0,
            r.response_types@.len() == 0,
    {
        CapMetadata {
            urgency: string_of("Unknown"),
            severity: string_of("Unknown"),
            certainty: string_of("Unknown"),
            categories: Vec::new(),
            response_types: Vec::new(),
        }
    }
}

/// A CAP alert preview.
#[derive(Debug)]
pub struct CapPreviewResponse {
    pub cap_xml: String,
    pub profile_used: String,
    pub sender: String,
    pub alert_id: String,
    pub metadata: CapMetadata,
}

/// How one channel took a test notification.
#[derive(Debug)]
pub struct ChannelResult {
    pub channel: String,
    pub success: bool,
    pub error: Option<String>,
}

/// The answer to a test notification.
#[derive(Debug)]
pub struct TestNotificationResponse {
    pub message: String,
    pub notification_id: String,
    pub channels_attempted: Vec<String>,
    pub results: Vec<ChannelResult>,
}

impl TestNotificationResponse {
    /// The answer once every channel was tried.
    pub fn completed(
        notification_id: String,
        channels_attempted: Vec<String>,
        results: Vec<ChannelResult>,
    ) -> (r: Self)
        ensures
            r.message@ == "Test notification completed"@,
            r.notification_id == notification_id,
            r.channels_attempted == channels_attempted,
            r.results == results,
    {
        TestNotificationResponse {
            message: string_of("Test notification completed"),
            notification_id,
            channels_attempted,
            results,
        }
    }
}

/// The channels a test request names: Pushover when it gives a user key,
/// and a webhook when it gives a URL that parses; a URL that does not
/// parse, or no channel at all, is refused with its message.
pub open spec fn channels_named(pushover_user_key: bool, webhook_url: Option<Seq<char>>) -> Result<
    Seq<Seq<char>>,
    Seq<char>,
> {
    let first = if pushover_user_key {
        seq!["pushover"@]
    } else {
        Seq::empty()
    };
    match webhook_url {
        Some(u) => if url_parses(u) {
            Ok(first.push("webhook"@))
        } else {
            Err("Invalid webhook URL format"@)
        },
        None => if first.len() == 0 {
            Err("No notification channels provided. Include pushover_user_key or webhook_url."@)
        } else {
            Ok(first)
        },
    }
}

/// The channels a test request names (see `channels_named`).
pub fn notification_channels(pushover_user_key: Option<&str>, webhook_url: Option<&str>) -> (r:
    Result<Vec<String>, String>)
    ensures
        match r {
            Ok(v) => channels_named(
                pushover_user_key is Some,
                match webhook_url {
                    Some(u) => Some(u@),
                    None => None,
                },
            ) == Ok::<Seq<Seq<char>>, Seq<char>>(v@.map_values(|s: String| s@)),
            Err(m) => channels_named(
                pushover_user_key is Some,
                match webhook_url {
                    Some(u) => Some(u@),
                    None => None,
                },
            ) == Err::<Seq<Seq<char>>, Seq<char>>(m@),
        },
{
    let mut names: Vec<String> = Vec::new();
    if pushover_user_key.is_some() {
        names.push(string_of("pushover"));
    }
    let ghost first = names@.map_values(|s: String| s@);
    proof {
        if pushover_user_key is Some {
            assert(first =~= seq!["pushover"@]);
        } else {
            assert(first =~= Seq::<Seq<char>>::empty());
        }
    }
    match webhook_url {
        Some(u) => {
            if url_is_valid(u) {
                names.push(string_of("webhook"));
                assert(names@.map_values(|s: String| s@) =~= first.push("webhook"@));
                Ok(names)
            } else {
                Err(string_of("Invalid webhook URL format"))
            }
        },
        None => {
            if names.len() == 0 {
                Err(
                    string_of(
                        "No notification channels provided. Include pushover_user_key or webhook_url.",
                    ),
                )
            } else {
                Ok(names)
            }
        },
    }
}

fn text_value(s: &str) -> (r: JsonValue)
    ensures
        r matches JsonValue::Str(t) && t@ == s@,
{
    JsonValue::Str(string_of(s))
}

/// The state of the notification system: healthy, the Pushover and
/// webhook adapters available, web push not implemented, and the CAP
/// profiles by name.
pub fn notification_health() -> (r: JsonValue)
    ensures
        r matches JsonValue::Object(es) && entry_lookup(es@, "status"@) matches Some(
            JsonValue::Str(s),
        ) && s@ == "healthy"@,
{
    let mut adapters: Vec<(String, JsonValue)> = Vec::new();
    adapters.push((string_of("pushover"), text_value("available")));
    adapters.push((string_of("webhook"), text_value("available")));
    adapters.push((string_of("webpush"), text_value("not_implemented")));
    let profiles = all_profiles();
    let mut names: Vec<JsonValue> = Vec::new();
    let mut i: usize = 0;
    while i < profiles.len()
        invariant
            i <= profiles@.len(),
        decreases profiles@.len() - i,
    {
        names.push(text_value(profiles[i].key()));
        i += 1;
    }
    let mut es: Vec<(String, JsonValue)> = Vec::new();
    es.push((string_of("status"), text_value("healthy")));
    es.push((string_of("adapters"), JsonValue::Object(adapters)));
    es.push((string_of("cap_profiles"), JsonValue::Array(names)));
    proof {
        reveal_strlit("status");
        assert(es@[0].0@ == "status"@);
    }
    JsonValue::Object(es)
}

} // verus!
