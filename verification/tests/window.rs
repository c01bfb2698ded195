use chrono::NaiveDate;
use ntp_toolbox::checker::{NtpChecker, ServerCommand, StopStep};
use ntp_toolbox::civil::LocalTime;
use ntp_toolbox::millis::{Millis, SyncStatus};
use ntp_toolbox::probe::{check_ntp_server, query_target, NtpResult, SyncOutcome};
use ntp_toolbox::text::{before, chars_of, contains, decimal_text, is_white_space, trim};
use ntp_toolbox::view::{
    quick_buttons, render_info_card, render_quick_label, status_color, status_text, CardValue,
    ResultContent,
};

fn millis(value: f64) -> Millis {
    Millis { bits: value.to_bits() }
}

fn found(offset_ms: f64, stratum: u8) -> NtpResult {
    NtpResult {
        server_time: "S".to_string(),
        local_time: "L".to_string(),
        offset_ms: millis(offset_ms),
        delay_ms: millis(12.5),
        stratum,
    }
}

fn time(ms: u32) -> LocalTime {
    LocalTime::new(2024, 2, 29, 23, 5, 9, ms * 1_000_000).unwrap()
}

#[test]
fn white_space_is_what_unicode_says() {
    for n in 0..=0x10ffffu32 {
        if let Some(c) = char::from_u32(n) {
            assert_eq!(is_white_space(c), c.is_whitespace());
        }
    }
}

#[test]
fn trimming_agrees_with_the_standard_library() {
    for s in ["", " ", "\t\n", "a", " a", "a ", " a b ", "\u{3000}时间\u{a0}", "\u{200b}x"] {
        assert_eq!(trim(s), s.trim());
        assert_eq!(trim(&trim(s)), trim(s));
    }
}

#[test]
fn characters_are_found() {
    assert!(contains("a:b", ':'));
    assert!(contains("时间", '间'));
    assert!(!contains("", ':'));
    assert!(!contains("ab", ':'));
    assert_eq!(chars_of("时a"), vec!['时', 'a']);
}

#[test]
fn text_is_cut_before_the_first_separator() {
    assert_eq!(before("host:123", ':'), "host");
    assert_eq!(before("a:b:c", ':'), "a");
    assert_eq!(before(":b", ':'), "");
    assert_eq!(before("host", ':'), "host");
    assert_eq!(before("", ':'), "");
}

#[test]
fn decimals_agree_with_the_standard_library() {
    for n in [0, 7, 9, 10, 99, 100, 255, 1234567890, u32::MAX] {
        assert_eq!(decimal_text(n), n.to_string());
    }
}

#[test]
fn a_bare_host_is_asked_on_port_123() {
    assert_eq!(query_target("ntp.aliyun.com"), "ntp.aliyun.com:123");
    assert_eq!(query_target(""), ":123");
}

#[test]
fn an_address_with_a_port_is_asked_as_it_stands() {
    assert_eq!(query_target("127.0.0.1:10123"), "127.0.0.1:10123");
    assert_eq!(query_target("::1"), "::1");
    assert_eq!(query_target(&query_target("host")), query_target("host"));
}

#[test]
fn times_are_shown_to_the_millisecond() {
    assert_eq!(time(7).text(), "2024-02-29 23:05:09.007");
    let rounded_down = LocalTime::new(1, 1, 1, 0, 0, 0, 999_999_999).unwrap();
    assert_eq!(rounded_down.text(), "0001-01-01 00:00:00.999");
}

#[test]
fn times_are_shown_as_the_calendar_crate_shows_them() {
    let pattern = "%Y-%m-%d %H:%M:%S.%3f";
    for year in [-262_143, -10_000, -9999, -1, 0, 1, 999, 9999, 10_000, 262_142] {
        for nano in [0, 1_000_000, 123_456_789] {
            let shown = LocalTime::new(year, 12, 31, 1, 2, 3, nano).unwrap().text();
            let date = NaiveDate::from_ymd_opt(year, 12, 31).unwrap();
            let expected = date.and_hms_nano_opt(1, 2, 3, nano).unwrap().format(pattern);
            assert_eq!(shown, expected.to_string());
        }
    }
}

#[test]
fn years_beyond_four_digits_carry_a_sign() {
    assert_eq!(
        LocalTime::new(10_000, 1, 1, 0, 0, 0, 0).unwrap().text(),
        "+10000-01-01 00:00:00.000"
    );
    assert_eq!(LocalTime::new(-5, 1, 1, 0, 0, 0, 0).unwrap().text(), "-0005-01-01 00:00:00.000");
}

#[test]
fn a_leap_second_is_second_sixty() {
    let leap = LocalTime::new(2016, 12, 31, 23, 59, 59, 1_500_000_000).unwrap();
    assert_eq!(leap.text(), "2016-12-31 23:59:60.500");
}

#[test]
fn times_that_do_not_exist_are_refused() {
    let exists = |y, mo, d, h, mi, s, n| LocalTime::new(y, mo, d, h, mi, s, n).is_some();
    assert!(exists(2024, 2, 29, 0, 0, 0, 0));
    assert!(!exists(2023, 2, 29, 0, 0, 0, 0));
    assert!(!exists(1900, 2, 29, 0, 0, 0, 0));
    assert!(exists(2000, 2, 29, 0, 0, 0, 0));
    assert!(exists(-4, 2, 29, 0, 0, 0, 0));
    assert!(!exists(2024, 4, 31, 0, 0, 0, 0));
    assert!(!exists(2024, 0, 1, 0, 0, 0, 0));
    assert!(!exists(2024, 13, 1, 0, 0, 0, 0));
    assert!(!exists(2024, 1, 0, 0, 0, 0, 0));
    assert!(!exists(2024, 1, 1, 24, 0, 0, 0));
    assert!(!exists(2024, 1, 1, 0, 60, 0, 0));
    assert!(!exists(2024, 1, 1, 0, 0, 60, 0));
    assert!(!exists(2024, 1, 1, 0, 0, 58, 1_000_000_000));
    assert!(!exists(2024, 1, 1, 0, 0, 59, 2_000_000_000));
    assert!(!exists(262_143, 1, 1, 0, 0, 0, 0));
    assert!(!exists(-262_144, 1, 1, 0, 0, 0, 0));
}

#[test]
fn the_calendar_agrees_with_the_calendar_crate() {
    for year in [-401, -400, -100, -4, -1, 0, 1900, 1999, 2000, 2023, 2024, 2100] {
        for month in 0..=13 {
            for day in 0..=32 {
                assert_eq!(
                    LocalTime::new(year, month, day, 0, 0, 0, 0).is_some(),
                    NaiveDate::from_ymd_opt(year, month, day).is_some()
                );
            }
        }
    }
}

#[test]
fn an_answer_becomes_a_result() {
    let result = check_ntp_server(SyncOutcome::Synchronized {
        server_time: Some(time(1)),
        local_time: time(2),
        offset_ms: millis(-3.25),
        delay_ms: millis(4.5),
        stratum: 2,
    })
    .unwrap();
    assert_eq!(result.server_time, "2024-02-29 23:05:09.001");
    assert_eq!(result.local_time, "2024-02-29 23:05:09.002");
    assert_eq!(f64::from_bits(result.offset_ms.bits), -3.25);
    assert_eq!(f64::from_bits(result.delay_ms.bits), 4.5);
    assert_eq!(result.stratum, 2);
}

#[test]
fn a_time_beyond_the_calendar_is_an_error() {
    let message = check_ntp_server(SyncOutcome::Synchronized {
        server_time: None,
        local_time: time(2),
        offset_ms: millis(0.0),
        delay_ms: millis(0.0),
        stratum: 2,
    })
    .unwrap_err();
    assert_eq!(message, "时间格式解析失败");
}

#[test]
fn a_failed_query_keeps_its_message() {
    let message = check_ntp_server(SyncOutcome::Failed("timed out".to_string())).unwrap_err();
    assert_eq!(message, "timed out");
}

#[test]
fn offsets_are_rated_as_floating_point_compares_them() {
    let values = [
        0.0,
        f64::MIN_POSITIVE,
        5e-324,
        1.0,
        32.0,
        49.99999999999999,
        50.0,
        50.00000000000001,
        64.0,
        199.99999999999997,
        200.0,
        200.00000000000003,
        1e300,
        f64::INFINITY,
        f64::NAN,
    ];
    for value in values {
        for offset in [value, -value] {
            let expected = if offset.abs() < 50.0 {
                SyncStatus::Excellent
            } else if offset.abs() < 200.0 {
                SyncStatus::Fair
            } else {
                SyncStatus::NeedsCalibration
            };
            assert_eq!(millis(offset).status(), expected);
        }
    }
}

#[test]
fn ratings_have_their_colours_and_words() {
    assert_eq!(status_color(SyncStatus::Excellent), 0x38a169);
    assert_eq!(status_color(SyncStatus::Fair), 0xdd6b20);
    assert_eq!(status_color(SyncStatus::NeedsCalibration), 0xe53e3e);
    assert_eq!(status_text(SyncStatus::Excellent), "同步状态: 极佳");
    assert_eq!(status_text(SyncStatus::Fair), "同步状态: 一般");
    assert_eq!(status_text(SyncStatus::NeedsCalibration), "同步状态: 需校准");
}

#[test]
fn a_new_window_is_idle() {
    let checker = NtpChecker::new();
    assert!(!checker.loading && checker.result.is_none());
    assert!(!checker.local_server_running && checker.local_server_error.is_none());
    assert!(!checker.local_server_handle && !checker.local_server_stop_tx);
    assert_eq!(NtpChecker::default_server(), "ntp.aliyun.com:123");
}

#[test]
fn a_check_runs_on_the_trimmed_input() {
    let mut checker = NtpChecker::new();
    assert_eq!(checker.click_check("  host \n"), Some("host".to_string()));
    assert!(checker.loading && checker.result.is_none());
    checker.finish_check(Ok(found(1.0, 2)));
    assert!(!checker.loading);
    assert!(matches!(checker.result, Some(Ok(_))));
}

#[test]
fn a_blank_input_is_refused() {
    let mut checker = NtpChecker::new();
    assert_eq!(checker.click_check(" \t\u{3000}"), None);
    assert!(!checker.loading);
    match &checker.result {
        Some(Err(message)) => assert_eq!(message, "请输入服务器地址"),
        _ => panic!("no error"),
    }
    assert_eq!(checker.start_check("a"), Some("a".to_string()));
    assert!(checker.result.is_none());
}

#[test]
fn one_check_runs_at_a_time() {
    let mut checker = NtpChecker::new();
    assert!(checker.click_check("a").is_some());
    assert!(checker.click_check("b").is_none());
    assert!(checker.click_check("").is_none());
    assert!(checker.loading && checker.result.is_none());
}

#[test]
fn the_server_button_starts_and_stops() {
    let mut checker = NtpChecker::new();
    match checker.toggle_local_server() {
        ServerCommand::Start { address, debug } => {
            assert_eq!(address, "127.0.0.1:10123");
            assert!(debug);
        }
        ServerCommand::Stop(_) => panic!("nothing to stop"),
    }
    assert!(!checker.local_server_running);
    checker.server_started(Ok(()));
    assert!(checker.local_server_running);
    match checker.toggle_local_server() {
        ServerCommand::Stop(steps) => {
            assert_eq!(steps, vec![StopStep::Signal, StopStep::JoinInBackground]);
        }
        ServerCommand::Start { .. } => panic!("already running"),
    }
    assert!(!checker.local_server_running);
    assert!(!checker.local_server_handle && !checker.local_server_stop_tx);
}

#[test]
fn a_failed_start_is_shown_and_can_be_retried() {
    let mut checker = NtpChecker::new();
    checker.toggle_local_server();
    checker.server_started(Err("in use".to_string()));
    assert!(!checker.local_server_running);
    assert_eq!(checker.local_server_error, Some("in use".to_string()));
    assert_eq!(checker.render_server_panel().status.text, "错误: in use");
    checker.toggle_local_server();
    assert_eq!(checker.local_server_error, Some("in use".to_string()));
    checker.server_started(Ok(()));
    assert!(checker.local_server_running && checker.local_server_error.is_none());
}

#[test]
fn closing_stops_what_runs() {
    let mut checker = NtpChecker::new();
    assert_eq!(checker.close(), vec![]);
    checker.toggle_local_server();
    checker.server_started(Ok(()));
    assert_eq!(checker.close(), vec![StopStep::Signal, StopStep::Join]);
    assert_eq!(checker.close(), vec![]);
}

#[test]
fn closing_does_no_more_than_what_is_held_asks_for() {
    let mut checker = NtpChecker::new();
    checker.local_server_stop_tx = true;
    assert_eq!(checker.close(), vec![StopStep::Signal]);
    checker.local_server_handle = true;
    assert_eq!(checker.close(), vec![StopStep::Join]);
}

#[test]
fn the_content_follows_the_check() {
    let mut checker = NtpChecker::new();
    match checker.render_result_content() {
        ResultContent::Prompt(label) => {
            assert_eq!(label.text, "请输入服务器地址，然后点击“开始检查”按钮。");
            assert_eq!(label.color, 0xa0aec0);
        }
        _ => panic!("no prompt"),
    }
    assert_eq!(checker.render_check_button(), "开始检查");
    checker.click_check("a");
    match checker.render_result_content() {
        ResultContent::Loading(label) => {
            assert_eq!(label.text, "正在向 NTP 服务器发送 UDP 请求，请稍候...");
            assert_eq!(label.color, 0x3182ce);
        }
        _ => panic!("not loading"),
    }
    assert_eq!(checker.render_check_button(), "检查中...");
    checker.finish_check(Err("no answer".to_string()));
    match checker.render_result_content() {
        ResultContent::Failure { title, message } => {
            assert_eq!(title.text, "检测失败");
            assert_eq!(title.color, 0xe53e3e);
            assert_eq!(message.text, "no answer");
            assert_eq!(message.color, 0x718096);
        }
        _ => panic!("no failure"),
    }
}

#[test]
fn a_report_shows_five_cards() {
    let mut checker = NtpChecker::new();
    checker.finish_check(Ok(found(-60.0, 15)));
    let report = match checker.render_result_content() {
        ResultContent::Report(report) => report,
        _ => panic!("no report"),
    };
    assert_eq!(report.title.text, "检测报告");
    assert_eq!(report.title.color, 0x2d3748);
    assert_eq!(report.status.text, "同步状态: 一般");
    assert_eq!(report.status.color, 0xdd6b20);
    assert_eq!(report.server_time.label.text, "服务器 NTP 时间");
    assert_eq!(report.server_time.label.color, 0x718096);
    assert!(matches!(&report.server_time.value, CardValue::Text(text) if text == "S"));
    assert_eq!(report.server_time.value_color, 0x2d3748);
    assert_eq!(report.local_time.label.text, "本地系统时间");
    assert_eq!(report.local_time.label.color, 0x718096);
    assert!(matches!(&report.local_time.value, CardValue::Text(text) if text == "L"));
    assert_eq!(report.local_time.value_color, 0x2d3748);
    assert_eq!(report.offset.label.text, "时间偏差 (Offset)");
    assert_eq!(report.offset.label.color, 0x718096);
    assert!(matches!(report.offset.value, CardValue::Milliseconds(ms) if ms == millis(-60.0)));
    assert_eq!(report.offset.value_color, 0xdd6b20);
    assert_eq!(report.delay.label.text, "往返延迟 (RTT)");
    assert_eq!(report.delay.label.color, 0x718096);
    assert!(matches!(report.delay.value, CardValue::Milliseconds(ms) if ms == millis(12.5)));
    assert_eq!(report.delay.value_color, 0x3182ce);
    assert_eq!(report.stratum.label.text, "层级 (Stratum)");
    assert_eq!(report.stratum.label.color, 0x718096);
    assert!(matches!(&report.stratum.value, CardValue::Text(text) if text == "Stratum 15"));
    assert_eq!(report.stratum.value_color, 0x4a5568);
}

#[test]
fn a_card_shows_a_grey_label_and_a_coloured_value() {
    let card = render_info_card("标签", CardValue::Text("v".to_string()), 0x123456);
    assert_eq!(card.label.text, "标签");
    assert_eq!(card.label.color, 0x718096);
    assert!(matches!(&card.value, CardValue::Text(text) if text == "v"));
    assert_eq!(card.value_color, 0x123456);
}

#[test]
fn a_result_can_be_cloned() {
    let result = found(1.5, 3);
    let copy = result.clone();
    assert_eq!(copy.server_time, result.server_time);
    assert_eq!(copy.local_time, result.local_time);
    assert_eq!(copy.offset_ms, result.offset_ms);
    assert_eq!(copy.delay_ms, result.delay_ms);
    assert_eq!(copy.stratum, result.stratum);
}

#[test]
fn the_panel_follows_the_server() {
    let mut checker = NtpChecker::new();
    let panel = checker.render_server_panel();
    assert_eq!(panel.title.text, "本地临时 NTP 服务器 (127.0.0.1:10123)");
    assert_eq!(panel.title.color, 0x2d3748);
    assert_eq!(panel.status.text, "状态: 已停止");
    assert_eq!(panel.status.color, 0x718096);
    assert_eq!(panel.button, "启动服务");
    checker.server_started(Ok(()));
    let panel = checker.render_server_panel();
    assert_eq!(
        panel.status.text,
        "状态: 正在运行 (您可以使用下方 127.0.0.1:10123 进行快捷检测)"
    );
    assert_eq!(panel.status.color, 0x38a169);
    assert_eq!(panel.button, "停止服务");
    checker.server_started(Err("e".to_string()));
    assert_eq!(checker.render_server_panel().status.color, 0xe53e3e);
}

#[test]
fn quick_buttons_show_hosts_and_fill_in_addresses() {
    let expected = [
        ("btn_aliyun", "ntp.aliyun.com", "阿里云NTP", "ntp.aliyun.com:123"),
        ("btn_ntsc", "ntp.ntsc.ac.cn", "国家授时中心", "ntp.ntsc.ac.cn:123"),
        ("btn_cn", "192.168.1.1", "经典内网", "192.168.1.1:123"),
        ("btn_apple", "127.0.0.1", "本地服务器", "127.0.0.1:10123"),
    ];
    assert_eq!(render_quick_label().text, "快捷源:");
    assert_eq!(render_quick_label().color, 0x4a5568);
    let buttons = quick_buttons();
    assert_eq!(buttons.len(), 4);
    for (button, (id, text, tooltip, address)) in buttons.iter().zip(expected) {
        assert_eq!(button.id, id);
        assert_eq!(button.text, text);
        assert_eq!(button.tooltip, tooltip);
        assert_eq!(button.address, address);
        assert_eq!(query_target(&button.address), address);
    }
}
