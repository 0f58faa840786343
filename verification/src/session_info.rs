//! The data model of the capture's embedded session metadata document. The
//! engine only extracts and code-page-decodes the document's text; turning
//! that text into these values is the job of an external structured-document
//! parser, so these types carry plain values and no logic. Fractional fields
//! keep the raw bits of their IEEE-754 single.

use vstd::prelude::*;

verus! {

/// Track, series and weekend facts of the capture.
pub struct WeekendInfo {
    pub track_name: String,
    pub track_id: i32,
    pub track_length: String,
    pub track_length_official: String,
    pub track_display_name: String,
    pub track_display_short_name: String,
    pub track_config_name: String,
    pub track_city: String,
    pub track_country: String,
    pub track_altitude: String,
    pub track_latitude: String,
    pub track_longitude: String,
    pub track_north_offset: String,
    pub track_num_turns: i32,
    pub track_pit_speed_limit: String,
    pub track_type: String,
    pub track_direction: String,
    pub track_weather_type: String,
    pub track_skies: String,
    pub track_surface_temp: String,
    pub track_air_temp: String,
    pub track_air_pressure: String,
    pub track_wind_vel: String,
    pub track_wind_dir: String,
    pub track_relative_humidity: String,
    pub track_fog_level: String,
    pub track_cleanup: i32,
    pub track_dynamic_track: i32,
    pub track_version: String,
    pub series_id: i32,
    pub season_id: i32,
    pub session_id: i32,
    pub sub_session_id: i32,
    pub league_id: i32,
    pub official: i32,
    pub race_week: i32,
    pub event_type: String,
    pub category: String,
    pub sim_mode: String,
    pub team_racing: i32,
    pub min_drivers: i32,
    pub max_drivers: i32,
    pub dc_rule_set: String,
    pub qualifier_must_start_race: i32,
    pub num_car_classes: i32,
    pub num_car_types: i32,
    pub heat_racing: i32,
    pub build_type: String,
    pub build_target: String,
    pub build_version: String,
    pub weekend_options: WeekendOptions,
}

/// Options the weekend was configured with.
pub struct WeekendOptions {
    pub num_starters: i32,
    pub starting_grid: String,
    pub qualify_scoring: String,
    pub course_cautions: String,
    pub standing_start: i32,
    pub short_parade_lap: i32,
    pub restarts: String,
    pub weather_type: String,
    pub skies: String,
    pub wind_direction: String,
    pub wind_speed: String,
    pub weather_temp: String,
    pub relative_humidity: String,
    pub fog_level: String,
    pub time_of_day: String,
    pub date: String,
    pub earth_rotation_speedup_factor: i32,
    pub unofficial: i32,
    pub commercial_mode: String,
    pub night_mode: String,
    pub is_fixed_setup: i32,
    pub strict_laps_checking: String,
    pub has_open_registration: i32,
    pub hardcore_level: i32,
    pub num_joker_laps: i32,
    pub incident_limit: String,
    pub fast_repairs_limit: String,
    pub green_white_checkered_limit: i32,
}

/// The whole session metadata document.
pub struct SessionInfo {
    pub weekend_info: WeekendInfo,
    pub session_info: Sessions,
    pub camera_info: CameraInfo,
    pub radio_info: RadioInfo,
    pub driver_info: DriverInfo,
    pub split_time_info: SplitTimeInfo,
    pub car_setup: CarSetup,
}

/// The car setup the capture was recorded with.
pub struct CarSetup {
    pub tires: Tires,
    pub chassis: Chassis,
}

/// Chassis settings, one corner at a time.
pub struct Chassis {
    pub front: ChassisFront,
    pub left_front: ChassisLeftFront,
    pub left_rear: ChassisLeftRear,
    pub in_car_dials: InCarDials,
    pub right_front: ChassisRightFront,
    pub right_rear: ChassisRightRear,
    pub rear: ChassisRear,
}

/// In-car dial settings.
pub struct InCarDials {
    pub dash_display_page: String,
    pub brake_pressure_bias: String,
    pub brake_pads: String,
    pub abs_setting: String,
    pub tc_setting: String,
}

/// Right-front corner settings.
pub struct ChassisRightFront {
    pub corner_weight: String,
    pub ride_height: String,
    pub spring_rate: String,
    pub spring_perch_offset: String,
    pub bump_stiffness: String,
    pub rebound_stiffness: String,
    pub camber: String,
}

/// Right-rear corner settings.
pub struct ChassisRightRear {
    pub corner_weight: String,
    pub ride_height: String,
    pub spring_perch_offset: String,
    pub bump_stiffness: String,
    pub rebound_stiffness: String,
    pub camber: String,
    pub toe_in: String,
}

/// Left-front corner settings.
pub struct ChassisLeftFront {
    pub corner_weight: String,
    pub ride_height: String,
    pub spring_rate: String,
    pub spring_perch_offset: String,
    pub bump_stiffness: String,
    pub rebound_stiffness: String,
    pub camber: String,
}

/// Left-rear corner settings.
pub struct ChassisLeftRear {
    pub corner_weight: String,
    pub ride_height: String,
    pub spring_perch_offset: String,
    pub bump_stiffness: String,
    pub rebound_stiffness: String,
    pub camber: String,
    pub toe_in: String,
}

/// Front chassis settings.
pub struct ChassisFront {
    pub arb_setting: i32,
    pub toe_in: String,
    pub cross_weight: String,
    pub nose_weight: String,
}

/// Rear chassis settings.
pub struct ChassisRear {
    pub fuel_level: String,
    pub arb_setting: i32,
    pub wing_setting: i32,
    pub diff_clutches: i32,
}

/// Tire settings, one corner at a time.
pub struct Tires {
    pub left_front: LeftTire,
    pub left_rear: LeftTire,
    pub right_front: RightTire,
    pub right_rear: RightTire,
}

/// A left-side tire.
pub struct LeftTire {
    pub starting_pressure: String,
    pub last_hot_pressure: String,
    pub last_temps_omi: String,
    pub tread_remaining: String,
}

/// A right-side tire.
pub struct RightTire {
    pub starting_pressure: String,
    pub last_hot_pressure: String,
    pub last_temps_imo: String,
    pub tread_remaining: String,
}

/// The track's timing sectors.
pub struct SplitTimeInfo {
    pub sectors: Vec<Sector>,
}

/// One timing sector and where on the lap it starts.
pub struct Sector {
    pub sector_num: i32,
    /// Raw bits of the IEEE-754 single giving the sector's start, as a
    /// fraction of the lap.
    pub sector_start_pct_bits: u32,
}

/// The recording driver and the field of drivers.
pub struct DriverInfo {
    pub driver_car_idx: i32,
    pub driver_user_id: i32,
    pub pace_car_idx: i32,
    pub driver_head_pos_x_bits: u32,
    pub driver_head_pos_y_bits: u32,
    pub driver_head_pos_z_bits: u32,
    pub driver_car_is_electric: i32,
    pub driver_car_idle_rpm_bits: u32,
    pub driver_car_red_line_bits: u32,
    pub driver_car_eng_cylinder_count: i32,
    pub driver_car_fuel_kg_per_ltr_bits: u32,
    pub driver_car_fuel_max_ltr_bits: u32,
    pub driver_car_max_fuel_pct_bits: u32,
    pub driver_car_gear_num_forward: i32,
    pub driver_car_gear_neutral: i32,
    pub driver_car_gear_reverse: i32,
    pub driver_car_sl_first_rpm_bits: u32,
    pub driver_car_sl_shift_rpm_bits: u32,
    pub driver_car_sl_last_rpm_bits: u32,
    pub driver_car_sl_blink_rpm_bits: u32,
    pub driver_car_version: String,
    pub driver_pit_trk_pct_bits: u32,
    pub driver_car_est_lap_time_bits: u32,
    pub driver_setup_name: String,
    pub driver_setup_is_modified_bits: u32,
    pub driver_setup_load_type_name: String,
    pub driver_setup_passed_tech: i32,
    pub driver_incident_count: i32,
    pub drivers: Vec<Driver>,
}

/// One entry of the driver roster.
pub struct Driver {
    pub car_idx: i32,
    pub user_name: String,
    pub abbrev_name: Option<String>,
    pub initials: Option<String>,
    pub user_id: i32,
    pub team_id: i32,
    pub team_name: String,
    pub car_number: String,
    pub car_number_raw: i32,
    pub car_path: String,
    pub car_class_id: i32,
    pub car_id: i32,
    pub car_is_pace_car: i32,
    pub car_is_ai: i32,
    pub car_is_electric: i32,
    pub car_screen_name: String,
    pub car_screen_name_short: String,
    pub car_class_short_name: Option<String>,
    pub car_class_rel_speed: i32,
    pub car_class_license_level: i32,
    pub car_class_max_fuel_pct: String,
    pub car_class_weight_penalty: String,
    pub car_class_power_adjust: String,
    pub car_class_dry_tire_set_limit: String,
    pub car_class_color: i32,
    pub car_class_est_lap_time_bits: u32,
    pub i_rating: i32,
    pub lic_level: i32,
    pub lic_sub_level: i32,
    pub lic_string: String,
    pub lic_color: String,
    pub is_spectator: i32,
    pub car_design_str: String,
    pub helmet_design_str: String,
    pub suit_design_str: String,
    pub car_number_design_str: String,
    pub car_sponsor_1: i32,
    pub car_sponsor_2: i32,
    pub cur_driver_incident_count: i32,
    pub team_incident_count: i32,
}

/// The radios the capture knows of.
pub struct RadioInfo {
    pub selected_radio_num: i32,
    pub radios: Vec<Radio>,
}

/// One radio and its frequencies.
pub struct Radio {
    pub radio_num: i32,
    pub hop_count: i32,
    pub num_frequencies: i32,
    pub tuned_to_frequency_num: i32,
    pub scanning_is_on: i32,
    pub frequencies: Vec<RadioFrequency>,
}

/// One radio frequency.
pub struct RadioFrequency {
    pub frequency_num: i32,
    pub frequency_name: String,
    pub priority: i32,
    pub car_idx: i32,
    pub entry_idx: i32,
    pub club_id: i32,
    pub can_scan: i32,
    pub can_squawk: i32,
    pub muted: i32,
    pub is_mutable: i32,
    pub is_deletable: i32,
}

/// The camera groups the capture knows of.
pub struct CameraInfo {
    pub groups: Vec<CameraGroup>,
}

/// One camera group.
pub struct CameraGroup {
    pub group_num: i32,
    pub group_name: String,
    pub cameras: Vec<Camera>,
}

/// One camera of a group.
pub struct Camera {
    pub camera_num: i32,
    pub camera_name: String,
}

/// The sessions run during the weekend.
pub struct Sessions {
    pub sessions: Vec<Session>,
}

/// One session of the weekend and its results.
pub struct Session {
    pub session_num: i32,
    pub session_laps: String,
    pub session_time: String,
    pub session_num_laps_to_avg: i32,
    pub session_type: String,
    pub session_track_rubber_state: String,
    pub session_name: String,
    pub session_sub_type: Option<String>,
    pub session_skipped: i32,
    pub session_run_groups_used: i32,
    pub session_enforce_tire_compound_change: i32,
    pub results_fastest_lap: Vec<FastestLap>,
    pub results_average_lap_time_bits: u32,
    pub results_num_caution_flags: i32,
    pub results_num_caution_laps: i32,
    pub results_num_lead_changes: i32,
    pub results_laps_complete: i32,
    pub results_official: i32,
}

/// A session's fastest lap record.
pub struct FastestLap {
    pub car_idx: i32,
    pub fastes_lap: Option<i32>,
    pub fastest_time_bits: u32,
}

} // verus!
