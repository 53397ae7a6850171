use vstd::prelude::*;
use vstd::utf8::is_ascii_chars;

use crate::telemetry::GeoPosition;
use crate::text::chars_equal;
use crate::types::GpsFixType;

verus! {

/// A three-step judgement of a reading, shown green, yellow or red.
#[derive(Debug, Clone, Copy, PartialEq, Eq, Structural)]
pub enum Level {
    Good,
    Warning,
    Critical,
}

/// Quality of the companion's cellular signal.
#[derive(Debug, Clone, Copy, PartialEq, Eq, Structural)]
pub enum SignalQuality {
    Excellent,
    Good,
    Fair,
    Poor,
}

/// How the companion computer is powered.
#[derive(Debug, Clone, Copy, PartialEq, Eq, Structural)]
pub enum CompanionPower {
    /// On its own battery, with the judgement of its charge.
    Battery(Level),
    /// From the aircraft's supply (BEC).
    External,
}

/// The judgement of a remaining battery capacity in percent: above 50 is
/// good, above 20 a warning, anything else critical.
pub open spec fn battery_level(pct: i8) -> Level {
    if pct > 50 {
        Level::Good
    } else if pct > 20 {
        Level::Warning
    } else {
        Level::Critical
    }
}

/// The judgement of an RC signal strength (0-255): above half of full scale
/// is good, above a fifth a warning, anything else critical.
pub open spec fn rssi_level(rssi: u8) -> Level {
    if rssi >= 128 {
        Level::Good
    } else if rssi > 51 {
        Level::Warning
    } else {
        Level::Critical
    }
}

/// The judgement of a GPS fix: 3D, DGPS and RTK-fixed are good, 2D and
/// RTK-float a warning, anything else critical.
pub open spec fn gps_fix_level(fix: GpsFixType) -> Level {
    match fix {
        GpsFixType::Fix3D | GpsFixType::DGps | GpsFixType::RtkFixed => Level::Good,
        GpsFixType::Fix2D | GpsFixType::RtkFloat => Level::Warning,
        _ => Level::Critical,
    }
}

/// The bottom status bar.
pub struct StatusBar;

impl StatusBar {
    /// The link indicator: red when the link is down, yellow when it is up
    /// without heartbeats, green when heartbeats arrive.
    pub fn link_level(connected: bool, heartbeat_ok: bool) -> (res: Level)
        ensures
            res == (if !connected {
                Level::Critical
            } else if heartbeat_ok {
                Level::Good
            } else {
                Level::Warning
            }),
    {
        if connected {
            if heartbeat_ok {
                Level::Good
            } else {
                Level::Warning
            }
        } else {
            Level::Critical
        }
    }

    /// The color of the battery reading.
    pub fn battery_level(remaining_pct: i8) -> (res: Level)
        ensures
            res == battery_level(remaining_pct),
    {
        if remaining_pct > 50 {
            Level::Good
        } else if remaining_pct > 20 {
            Level::Warning
        } else {
            Level::Critical
        }
    }
}

/// The telemetry side panel.
pub struct TelemetryPanel;

impl TelemetryPanel {
    /// The color of the battery bar; a negative (unknown) capacity shows as
    /// an empty bar.
    pub fn battery_level(remaining_pct: i8) -> (res: Level)
        ensures
            res == battery_level(remaining_pct),
    {
        StatusBar::battery_level(remaining_pct)
    }

    /// The color of the RC signal bar.
    pub fn rssi_level(rssi: u8) -> (res: Level)
        ensures
            res == rssi_level(rssi),
    {
        if rssi >= 128 {
            Level::Good
        } else if rssi > 51 {
            Level::Warning
        } else {
            Level::Critical
        }
    }

    /// The color of the GPS fix reading.
    pub fn gps_fix_level(fix: GpsFixType) -> (res: Level)
        ensures
            res == gps_fix_level(fix),
    {
        match fix {
            GpsFixType::Fix3D | GpsFixType::DGps | GpsFixType::RtkFixed => Level::Good,
            GpsFixType::Fix2D | GpsFixType::RtkFloat => Level::Warning,
            _ => Level::Critical,
        }
    }

    /// Whether the target waypoint row is shown: once a waypoint past the
    /// first (home) is active.
    pub fn shows_target_waypoint(current_wp: u16) -> (res: bool)
        ensures
            res == (current_wp > 0),
    {
        current_wp > 0
    }
}

/// The companion computer panel.
pub struct CompanionPanel;

impl CompanionPanel {
    /// The quality of a signal strength in dBm, graded so that -70 dBm
    /// reads good and -100 dBm reads poor: above -70 (up to 0) excellent,
    /// -85 to -70 good, -99 to -86 fair, anything else (-100 and below, or
    /// a positive reading) poor.
    pub fn signal_quality(signal_dbm: i32) -> (res: SignalQuality)
        ensures
            res == (if -69 <= signal_dbm <= 0 {
                SignalQuality::Excellent
            } else if -85 <= signal_dbm <= -70 {
                SignalQuality::Good
            } else if -99 <= signal_dbm <= -86 {
                SignalQuality::Fair
            } else {
                SignalQuality::Poor
            }),
    {
        if -69 <= signal_dbm && signal_dbm <= 0 {
            SignalQuality::Excellent
        } else if -85 <= signal_dbm && signal_dbm <= -70 {
            SignalQuality::Good
        } else if -99 <= signal_dbm && signal_dbm <= -86 {
            SignalQuality::Fair
        } else {
            SignalQuality::Poor
        }
    }

    /// An uptime in seconds as whole minutes and remaining seconds.
    pub fn uptime(uptime_s: u64) -> (res: (u64, u64))
        ensures
            res.0 == uptime_s / 60,
            res.1 == uptime_s % 60,
            res.0 * 60 + res.1 == uptime_s,
            res.1 < 60,
    {
        (uptime_s / 60, uptime_s % 60)
    }

    /// The power reading of the companion: a negative battery percentage
    /// means external power; otherwise below 20 is critical, below 50 a
    /// warning, anything else good.
    pub fn power(battery_pct: i8) -> (res: CompanionPower)
        ensures
            res == (if battery_pct < 0 {
                CompanionPower::External
            } else if battery_pct < 20 {
                CompanionPower::Battery(Level::Critical)
            } else if battery_pct < 50 {
                CompanionPower::Battery(Level::Warning)
            } else {
                CompanionPower::Battery(Level::Good)
            }),
    {
        if battery_pct >= 0 {
            if battery_pct < 20 {
                CompanionPower::Battery(Level::Critical)
            } else if battery_pct < 50 {
                CompanionPower::Battery(Level::Warning)
            } else {
                CompanionPower::Battery(Level::Good)
            }
        } else {
            CompanionPower::External
        }
    }
}

/// The map panel.
pub struct MapView;

impl MapView {
    /// Whether a position is a real fix: the exact origin (0, 0) stands for
    /// "no GPS yet".
    pub fn has_position(position: &GeoPosition) -> (res: bool)
        ensures
            res == (position.lat_e7 != 0 || position.lon_e7 != 0),
    {
        position.lat_e7 != 0 || position.lon_e7 != 0
    }
}

/// The text that `str::to_lowercase` makes of a text.
pub uninterp spec fn lowercase(s: Seq<char>) -> Seq<char>;

/// A character with ASCII upper case mapped to lower case.
pub open spec fn ascii_lower(c: char) -> char {
    if 'A' <= c <= 'Z' {
        ((c as u32) + 32) as char
    } else {
        c
    }
}

/// Calls `str::to_lowercase`. Its documentation defines lowercase by the
/// Unicode `Lowercase` property, which maps ASCII letters to their ASCII
/// lower case and leaves other ASCII characters alone; what it does to other
/// characters is left to the name `lowercase`.
#[verifier::external_body]
fn str_to_lowercase(s: &str) -> (res: String)
    ensures
        res@ == lowercase(s@),
        is_ascii_chars(s@) ==> res@ == s@.map_values(|c: char| ascii_lower(c)),
{
    s.to_lowercase()
}

/// The color (red, green, blue) of a detection class, by its name in lower case.
pub open spec fn class_rgb(lower: Seq<char>) -> (u8, u8, u8) {
    if lower == "person"@ {
        (255, 100, 100)
    } else if lower == "car"@ {
        (100, 200, 255)
    } else if lower == "truck"@ {
        (100, 255, 200)
    } else if lower == "bicycle"@ {
        (255, 200, 100)
    } else if lower == "building"@ {
        (200, 150, 255)
    } else if lower == "animal"@ {
        (150, 255, 100)
    } else {
        (255, 255, 100)
    }
}

/// The overlay of the companion's detections on the video.
pub struct DetectionOverlay;

impl DetectionOverlay {
    /// The color of a detection class, compared without regard to case.
    pub fn class_color(label: &str) -> (res: (u8, u8, u8))
        ensures
            res == class_rgb(lowercase(label@)),
    {
        Self::color_of_lowercase(str_to_lowercase(label).as_str())
    }

    /// The color of a detection class given its name in lower case.
    pub fn color_of_lowercase(lower: &str) -> (res: (u8, u8, u8))
        ensures
            res == class_rgb(lower@),
    {
        if chars_equal(lower, "person") {
            (255, 100, 100)
        } else if chars_equal(lower, "car") {
            (100, 200, 255)
        } else if chars_equal(lower, "truck") {
            (100, 255, 200)
        } else if chars_equal(lower, "bicycle") {
            (255, 200, 100)
        } else if chars_equal(lower, "building") {
            (200, 150, 255)
        } else if chars_equal(lower, "animal") {
            (150, 255, 100)
        } else {
            (255, 255, 100)
        }
    }
}

/// The GPS fix judgement, fix by fix: a 3D, DGPS or RTK-fixed solution is
/// good, a 2D or RTK-float one a warning, and no GPS, no fix or an unknown
/// fix type critical.
pub proof fn lemma_gps_fix_levels(code: u8)
    ensures
        gps_fix_level(GpsFixType::Fix3D) == Level::Good,
        gps_fix_level(GpsFixType::DGps) == Level::Good,
        gps_fix_level(GpsFixType::RtkFixed) == Level::Good,
        gps_fix_level(GpsFixType::Fix2D) == Level::Warning,
        gps_fix_level(GpsFixType::RtkFloat) == Level::Warning,
        gps_fix_level(GpsFixType::NoGps) == Level::Critical,
        gps_fix_level(GpsFixType::NoFix) == Level::Critical,
        gps_fix_level(GpsFixType::Unknown(code)) == Level::Critical,
{
}

/// The battery judgement as fractions of a full charge: good above half,
/// a warning above a fifth up to half, critical at a fifth or below (an
/// unknown, negative capacity counts as empty).
pub proof fn lemma_battery_levels(pct: i8)
    ensures
        (battery_level(pct) == Level::Good) == (2 * pct > 100),
        (battery_level(pct) == Level::Warning) == (5 * pct > 100 && 2 * pct <= 100),
        (battery_level(pct) == Level::Critical) == (5 * pct <= 100),
{
}

/// The RC signal judgement as fractions of the full scale 255: good above
/// half, a warning above a fifth up to half, critical at a fifth or below.
pub proof fn lemma_rssi_levels(rssi: u8)
    ensures
        (rssi_level(rssi) == Level::Good) == (2 * rssi > 255),
        (rssi_level(rssi) == Level::Warning) == (5 * rssi > 255 && 2 * rssi <= 255),
        (rssi_level(rssi) == Level::Critical) == (5 * rssi <= 255),
{
}

/// A stronger signal or a fuller battery never reads worse.
pub proof fn lemma_levels_monotone(a: u8, b: u8, p: i8, q: i8)
    ensures
        a <= b ==> level_rank(rssi_level(a)) <= level_rank(rssi_level(b)),
        p <= q ==> level_rank(battery_level(p)) <= level_rank(battery_level(q)),
{
}

/// The rank of a judgement, from critical (0) to good (2).
pub open spec fn level_rank(l: Level) -> int {
    match l {
        Level::Critical => 0,
        Level::Warning => 1,
        Level::Good => 2,
    }
}

/// The detection classes and their colors; any other class is yellow
/// (255, 255, 100).
pub proof fn lemma_class_colors(other: Seq<char>)
    requires
        other != "person"@,
        other != "car"@,
        other != "truck"@,
        other != "bicycle"@,
        other != "building"@,
        other != "animal"@,
    ensures
        class_rgb("person"@) == (255u8, 100u8, 100u8),
        class_rgb("car"@) == (100u8, 200u8, 255u8),
        class_rgb("truck"@) == (100u8, 255u8, 200u8),
        class_rgb("bicycle"@) == (255u8, 200u8, 100u8),
        class_rgb("building"@) == (200u8, 150u8, 255u8),
        class_rgb("animal"@) == (150u8, 255u8, 100u8),
        class_rgb(other) == (255u8, 255u8, 100u8),
{
    reveal_strlit("person");
    reveal_strlit("car");
    reveal_strlit("truck");
    reveal_strlit("bicycle");
    reveal_strlit("building");
    reveal_strlit("animal");
    assert("car"@.len() != "person"@.len());
    assert("truck"@.len() != "person"@.len() && "truck"@.len() != "car"@.len());
    assert("bicycle"@ != "person"@ && "bicycle"@ != "car"@ && "bicycle"@ != "truck"@);
    assert("building"@.len() == 8 && "bicycle"@.len() == 7);
    assert("animal"@[0] != "person"@[0]);
    assert("animal"@ != "person"@ && "animal"@ != "car"@ && "animal"@ != "truck"@);
}

} // verus!
