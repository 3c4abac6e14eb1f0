use ota_server::task::{
    gray_percentages_text, minute_of_day, minutes_of_day_now, parse_hm, StageStep, UpgradeTask,
};

fn task(stage: i64, pcts: &str, start: Option<&str>, end: Option<&str>) -> UpgradeTask {
    UpgradeTask {
        id: 1,
        task_name: "t".to_string(),
        firmware_id: 2,
        device_type: "sensor".to_string(),
        gray_stage: stage,
        gray_percentages: pcts.to_string(),
        min_battery_level: None,
        require_wifi: false,
        time_window_start: start.map(|s| s.to_string()),
        time_window_end: end.map(|s| s.to_string()),
        status: "running".to_string(),
        auto_paused: false,
        created_at: 0,
        updated_at: 0,
    }
}

#[test]
fn percentages_read_or_default() {
    assert_eq!(task(0, "[1, 2,3]", None, None).get_gray_percentages(), vec![1, 2, 3]);
    assert_eq!(task(0, "not json", None, None).get_gray_percentages(), vec![5, 20, 50, 100]);
    assert_eq!(task(0, "[1.5]", None, None).get_gray_percentages(), vec![5, 20, 50, 100]);
}

#[test]
fn created_percentages_read_back() {
    let text = gray_percentages_text(&Some(vec![10, -2, 100]));
    assert_eq!(text, "[10,-2,100]");
    assert_eq!(task(0, &text, None, None).get_gray_percentages(), vec![10, -2, 100]);
    assert_eq!(gray_percentages_text(&None), "[5,20,50,100]");
    let default_text = gray_percentages_text(&None);
    assert_eq!(task(0, &default_text, None, None).get_gray_percentages(), vec![5, 20, 50, 100]);
    assert_eq!(gray_percentages_text(&Some(vec![])), "[]");
}

#[test]
fn current_percentage() {
    assert_eq!(task(0, "[5,20]", None, None).get_current_gray_percentage(), 5);
    assert_eq!(task(1, "[5,20]", None, None).get_current_gray_percentage(), 20);
    assert_eq!(task(2, "[5,20]", None, None).get_current_gray_percentage(), 100);
    assert_eq!(task(-4, "[5,20]", None, None).get_current_gray_percentage(), 100);
}

#[test]
fn stage_steps() {
    assert_eq!(
        task(0, "[5,20,50]", None, None).stage_step(),
        StageStep::Advance { next_stage: 1, percentage: 20 }
    );
    assert_eq!(
        task(1, "[5,20,50]", None, None).stage_step(),
        StageStep::Advance { next_stage: 2, percentage: 50 }
    );
    assert_eq!(task(2, "[5,20,50]", None, None).stage_step(), StageStep::Complete);
    assert_eq!(task(7, "[5,20,50]", None, None).stage_step(), StageStep::Complete);
    assert_eq!(task(-3, "[5,20,50]", None, None).stage_step(), StageStep::Complete);
}

#[test]
fn hm_parsing() {
    assert_eq!(parse_hm("08:30"), Some((8, 30)));
    assert_eq!(parse_hm("+8:+5"), Some((8, 5)));
    assert_eq!(parse_hm("8"), None);
    assert_eq!(parse_hm("8:30:00"), None);
    assert_eq!(parse_hm("a:30"), None);
    assert_eq!(parse_hm(":30"), None);
    assert_eq!(parse_hm("4294967296:0"), None);
}

#[test]
fn windows() {
    let day = task(0, "[]", Some("08:00"), Some("17:30"));
    assert!(day.is_time_window_valid_at(8 * 60));
    assert!(day.is_time_window_valid_at(17 * 60 + 30));
    assert!(!day.is_time_window_valid_at(7 * 60 + 59));
    assert!(!day.is_time_window_valid_at(18 * 60));
    let night = task(0, "[]", Some("22:00"), Some("06:00"));
    assert!(night.is_time_window_valid_at(23 * 60));
    assert!(night.is_time_window_valid_at(5 * 60));
    assert!(!night.is_time_window_valid_at(12 * 60));
    assert!(task(0, "[]", Some("x"), Some("06:00")).is_time_window_valid_at(12 * 60));
    assert!(task(0, "[]", None, Some("06:00")).is_time_window_valid_at(12 * 60));
    let always = task(0, "[]", None, None);
    assert_eq!(always.is_time_window_valid(), Some(true));
    assert!(always.time_window_in_range());
    assert!(!task(0, "[]", Some("99999999:00"), Some("06:00")).time_window_in_range());
}

#[test]
fn minutes_of_the_utc_day() {
    assert_eq!(minute_of_day(0), 0);
    assert_eq!(minute_of_day(59), 0);
    assert_eq!(minute_of_day(60), 1);
    assert_eq!(minute_of_day(86399), 1439);
    assert_eq!(minute_of_day(86400 + 8 * 3600 + 30 * 60), 8 * 60 + 30);
    assert!(minutes_of_day_now().unwrap() < 1440);
}
