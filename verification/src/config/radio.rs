//! Radio access technologies and mobile traffic profiles.

use vstd::prelude::*;

verus! {

/// Supported radio access technologies.
#[derive(Debug, Clone, Copy, PartialEq, Eq, Structural)]
pub enum RadioTechnology {
    Gen3Umts,
    Gen4Lte,
    Gen5NrSub6,
    Gen5NrMmWave,
}

/// Mobile traffic application profile.
#[derive(Debug, Clone, Copy, PartialEq, Eq, Structural)]
pub enum TrafficProfile {
    VideoStream,
    CloudGaming,
    VoiceCall,
    Idle,
    WebBrowse,
}

/// The display label of a traffic profile.
pub open spec fn profile_label(p: TrafficProfile) -> Seq<char> {
    match p {
        TrafficProfile::VideoStream => "Video Stream"@,
        TrafficProfile::CloudGaming => "Cloud Gaming"@,
        TrafficProfile::VoiceCall => "Voice Call"@,
        TrafficProfile::Idle => "Idle"@,
        TrafficProfile::WebBrowse => "Web Browse"@,
    }
}

/// The RGB rendering colour of a traffic profile.
pub open spec fn profile_rgb(p: TrafficProfile) -> Seq<u8> {
    match p {
        TrafficProfile::VideoStream => seq![0u8, 120u8, 200u8],
        TrafficProfile::CloudGaming => seq![220u8, 50u8, 50u8],
        TrafficProfile::VoiceCall => seq![0u8, 180u8, 100u8],
        TrafficProfile::Idle => seq![150u8, 150u8, 150u8],
        TrafficProfile::WebBrowse => seq![200u8, 140u8, 0u8],
    }
}

/// The display label of a radio technology.
pub open spec fn technology_label(t: RadioTechnology) -> Seq<char> {
    match t {
        RadioTechnology::Gen3Umts => "3G UMTS"@,
        RadioTechnology::Gen4Lte => "4G LTE"@,
        RadioTechnology::Gen5NrSub6 => "5G NR Sub-6"@,
        RadioTechnology::Gen5NrMmWave => "5G NR mmWave"@,
    }
}

impl TrafficProfile {
    /// Short human-readable label.
    pub fn label(&self) -> (s: &'static str)
        ensures
            s@ == profile_label(*self),
    {
        match self {
            TrafficProfile::VideoStream => "Video Stream",
            TrafficProfile::CloudGaming => "Cloud Gaming",
            TrafficProfile::VoiceCall => "Voice Call",
            TrafficProfile::Idle => "Idle",
            TrafficProfile::WebBrowse => "Web Browse",
        }
    }

    /// RGB colour used for rendering.
    pub fn color(&self) -> (c: [u8; 3])
        ensures
            c@ == profile_rgb(*self),
    {
        let c: [u8; 3] = match self {
            TrafficProfile::VideoStream => [0, 120, 200],
            TrafficProfile::CloudGaming => [220, 50, 50],
            TrafficProfile::VoiceCall => [0, 180, 100],
            TrafficProfile::Idle => [150, 150, 150],
            TrafficProfile::WebBrowse => [200, 140, 0],
        };
        assert(c@ =~= profile_rgb(*self));
        c
    }
}

/// Short label of a radio technology, as the inspector shows it beside the serving cell.
pub fn tech_label(tech: &RadioTechnology) -> (s: &'static str)
    ensures
        s@ == technology_label(*tech),
{
    match tech {
        RadioTechnology::Gen3Umts => "3G UMTS",
        RadioTechnology::Gen4Lte => "4G LTE",
        RadioTechnology::Gen5NrSub6 => "5G NR Sub-6",
        RadioTechnology::Gen5NrMmWave => "5G NR mmWave",
    }
}

/// The colour in which the map draws a mobile of the given profile.
pub fn profile_color(profile: &TrafficProfile) -> (c: [u8; 3])
    ensures
        c@ == profile_rgb(*profile),
{
    profile.color()
}

} // verus!
