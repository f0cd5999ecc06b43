//! Tests of the playback handle: lifecycle, surface attachment, commands,
//! the state snapshot, and error rendering.

use mpv_embed::errors::{check_err, MpvError};
use mpv_embed::handle::{
    create, flag_value, init_options, load_command, option_strings_encodable, seek_command,
    state_property_names, stop_command, wid_option_name, wid_value, DoubleRead, FlagRead,
    InitAction, InitFlow, Lifecycle, MpvHandle, StateSnapshot,
};
use mpv_embed::symbols::SymbolTableShape;
use mpv_embed::text::{dec_of_status, dec_of_u32};

fn fresh_handle() -> MpvHandle {
    let table = Ok(SymbolTableShape { has_set_log_level: false });
    let (h, quiet) = create(&table, false).expect("creation succeeds on a non-null instance");
    assert!(!quiet);
    h
}

/// Drives an initialization run in which every engine call answers with
/// `statuses` in turn.
fn run_init(flow: &mut InitFlow, statuses: &[i32]) -> Vec<(String, String)> {
    let mut applied = Vec::new();
    let mut i = 0;
    while let Some(action) = flow.next_action() {
        if let InitAction::SetOption(k, v) = action {
            applied.push((k, v));
        }
        flow.feed(statuses[i]);
        i += 1;
    }
    applied
}

#[test]
fn create_fails_on_null_instance() {
    let table = Ok(SymbolTableShape { has_set_log_level: true });
    let r = create(&table, true);
    assert!(matches!(r, Err(MpvError::CreateFailed)));
    assert_eq!(
        MpvError::CreateFailed.message(),
        "mpv_create failed".to_string()
    );
}

#[test]
fn create_requests_log_suppression_only_when_available() {
    let with = Ok(SymbolTableShape { has_set_log_level: true });
    let (h, quiet) = create(&with, false).unwrap();
    assert_eq!(h.state, Lifecycle::Created);
    assert!(!h.attached);
    assert!(quiet);

    let without = Ok(SymbolTableShape { has_set_log_level: false });
    let (_, quiet) = create(&without, false).unwrap();
    assert!(!quiet);
}

#[test]
fn init_applies_the_baseline_options_in_order() {
    let opts = init_options();
    let expected = vec![
        ("force-window", "yes"),
        ("keep-open", "yes"),
        ("ytdl", "no"),
        ("vo", "gpu"),
        ("gpu-context", "d3d11"),
        ("hwdec", "auto-safe"),
        ("video-sync", "display-resample"),
    ];
    assert_eq!(opts.len(), 7);
    for (got, want) in opts.iter().zip(expected.iter()) {
        assert_eq!(got.0, want.0);
        assert_eq!(got.1, want.1);
    }

    let mut h = fresh_handle();
    let mut flow = InitFlow::new();
    let applied = run_init(&mut flow, &[0; 8]);
    assert_eq!(applied.len(), 7);
    assert_eq!(applied[6].0, "video-sync");
    assert!(h.init(&flow).is_ok());
    assert_eq!(h.state, Lifecycle::Initialized);
}

#[test]
fn init_failure_names_the_offending_option() {
    let mut h = fresh_handle();
    let mut flow = InitFlow::new();
    // The first three options apply; setting "vo" answers -7.
    run_init(&mut flow, &[0, 0, 0, -7]);
    match h.init(&flow) {
        Err(MpvError::Native { code, context }) => {
            assert_eq!(code, -7);
            assert_eq!(context, "vo");
        },
        _ => panic!("initialization must fail on a negative option status"),
    }
    assert_eq!(h.state, Lifecycle::Created);
}

#[test]
fn init_failure_names_the_initialize_step() {
    let mut h = fresh_handle();
    let mut flow = InitFlow::new();
    // All seven options apply; the initialize call itself answers -2.
    run_init(&mut flow, &[0, 0, 0, 0, 0, 0, 0, -2]);
    match h.init(&flow) {
        Err(MpvError::Native { code, context }) => {
            assert_eq!(code, -2);
            assert_eq!(context, "initialize");
            assert_eq!(
                MpvError::Native { code, context }.message(),
                "mpv error -2: initialize".to_string()
            );
        },
        _ => panic!("initialization must fail on a negative initialize status"),
    }
}

#[test]
fn attach_option_failure_falls_back_to_property() {
    // The option attempt is engineered to fail and the property attempt to
    // succeed: the operation succeeds and the attached flag is set.
    let mut h = fresh_handle();
    assert!(!h.attached);
    let r = h.attach_hwnd(12345, -1, 0);
    assert!(r.is_ok());
    assert!(h.attached);
    assert_eq!(h.state, Lifecycle::Created);
}

#[test]
fn attach_failure_message_carries_both_codes_and_the_window_id() {
    let mut h = fresh_handle();
    let r = h.attach_hwnd(12345, -2, -13);
    let e = r.expect_err("attachment must fail when both attempts fail");
    match e {
        MpvError::AttachFailed { option_status, property_status, window_id } => {
            assert_eq!(option_status, -2);
            assert_eq!(property_status, -13);
            assert_eq!(window_id, 12345);
        },
        _ => panic!("expected the attach failure variant"),
    }
    let msg = e.message();
    assert_eq!(msg, "Failed to set wid: option=-2, property=-13, hwnd=12345");
    assert!(msg.contains("-2"));
    assert!(msg.contains("-13"));
    assert!(msg.contains("12345"));
    assert!(!h.attached);
}

#[test]
fn attach_option_success_ignores_property_confirmation_failure() {
    let mut h = fresh_handle();
    let r = h.attach_hwnd(77, 0, -5);
    assert!(r.is_ok());
    assert!(h.attached);
}

#[test]
fn wid_encoding_and_flag_encoding() {
    assert_eq!(wid_option_name(), "wid");
    assert_eq!(wid_value(12345), 12345i64);
    assert_eq!(wid_value(u32::MAX), u32::MAX as i64);
    assert_eq!(flag_value(true), 1);
    assert_eq!(flag_value(false), 0);
}

#[test]
fn load_command_builds_a_replace_style_load() {
    let args = load_command(&"file:///test.mp4".to_string()).unwrap();
    assert_eq!(args, vec!["loadfile", "file:///test.mp4", "replace"]);
}

#[test]
fn load_command_refuses_an_embedded_nul() {
    let r = load_command(&"file:///te\0st.mp4".to_string());
    assert!(matches!(r, Err(MpvError::Encoding)));
    assert_eq!(
        MpvError::Encoding.message(),
        "string contains an embedded nul byte".to_string()
    );
}

#[test]
fn option_strings_are_checked_before_any_engine_call() {
    assert!(option_strings_encodable(&"vo".to_string(), &"gpu".to_string()).is_ok());
    let bad_key = option_strings_encodable(&"v\0o".to_string(), &"gpu".to_string());
    assert!(matches!(bad_key, Err(MpvError::Encoding)));
    let bad_value = option_strings_encodable(&"vo".to_string(), &"g\0pu".to_string());
    assert!(matches!(bad_value, Err(MpvError::Encoding)));
}

#[test]
fn seek_command_refuses_an_embedded_nul() {
    let r = seek_command(&"5.\05".to_string(), true);
    assert!(matches!(r, Err(MpvError::Encoding)));
}

#[test]
fn seek_command_selects_the_mode_token() {
    let rel = seek_command(&"5.5".to_string(), true).unwrap();
    assert_eq!(rel, vec!["seek", "5.5", "relative"]);
    let abs = seek_command(&"60".to_string(), false).unwrap();
    assert_eq!(abs, vec!["seek", "60", "absolute"]);
}

#[test]
fn stop_command_has_no_arguments() {
    assert_eq!(stop_command(), vec!["stop"]);
}

#[test]
fn status_translation_carries_code_and_context() {
    assert!(check_err(0, "seek").is_ok());
    assert!(check_err(17, "seek").is_ok());
    match check_err(-12, "seek") {
        Err(e @ MpvError::Native { .. }) => {
            assert_eq!(e.message(), "mpv error -12: seek".to_string());
        },
        _ => panic!("a negative status must fail"),
    }
}

#[test]
fn decimal_rendering_is_exact() {
    assert_eq!(dec_of_u32(0), "0");
    assert_eq!(dec_of_u32(9), "9");
    assert_eq!(dec_of_u32(405), "405");
    assert_eq!(dec_of_u32(u32::MAX), "4294967295");
    assert_eq!(dec_of_status(0), "0");
    assert_eq!(dec_of_status(-1), "-1");
    assert_eq!(dec_of_status(i32::MIN), "-2147483648");
    assert_eq!(dec_of_status(i32::MAX), "2147483647");
}

#[test]
fn state_snapshot_never_fails() {
    // Every property read fails: all fields keep their defaults and the
    // snapshot still reports ready.
    let h = fresh_handle();
    let failed_flag = FlagRead { status: -10, value: 0 };
    let failed_double = DoubleRead { status: -10, bits: 0 };
    let s = h.get_state(failed_flag, failed_double, failed_double, failed_double, failed_flag);
    assert_eq!(
        s,
        StateSnapshot {
            ready: true,
            paused: false,
            time_bits: 0,
            duration_bits: 0,
            volume_bits: 0,
            mute: false,
        }
    );
}

#[test]
fn state_snapshot_keeps_successful_reads() {
    let h = fresh_handle();
    let time = DoubleRead { status: 0, bits: (90.5f64).to_bits() };
    let duration = DoubleRead { status: 0, bits: (120.0f64).to_bits() };
    let volume = DoubleRead { status: -1, bits: 55 };
    let paused = FlagRead { status: 0, value: 1 };
    let mute = FlagRead { status: 0, value: 0 };
    let s = h.get_state(paused, time, duration, volume, mute);
    assert!(s.ready);
    assert!(s.paused);
    assert!(!s.mute);
    assert_eq!(f64::from_bits(s.time_bits), 90.5);
    assert_eq!(f64::from_bits(s.duration_bits), 120.0);
    // The failed volume read keeps its zero default, not the buffer noise.
    assert_eq!(f64::from_bits(s.volume_bits), 0.0);
}

#[test]
fn state_property_names_in_read_order() {
    assert_eq!(
        state_property_names(),
        vec!["pause", "time-pos", "duration", "volume", "mute"]
    );
}

#[test]
fn shutdown_destroys_at_most_once() {
    let mut h = fresh_handle();
    assert!(h.shutdown());
    assert_eq!(h.state, Lifecycle::Shutdown);
    assert!(!h.shutdown());
    assert!(!h.shutdown());
    assert_eq!(h.state, Lifecycle::Shutdown);
}

#[test]
fn full_playback_scenario_reports_paused() {
    // create → init with defaults → load → pause(true) → get_state.
    let mut h = fresh_handle();
    let mut flow = InitFlow::new();
    run_init(&mut flow, &[0; 8]);
    h.init(&flow).unwrap();
    assert_eq!(h.state, Lifecycle::Initialized);

    let args = load_command(&"file:///test.mp4".to_string()).unwrap();
    assert_eq!(args[1], "file:///test.mp4");
    h.load(0).unwrap();

    assert_eq!(flag_value(true), 1);
    h.pause(true, 0).unwrap();

    // The engine now reports the paused flag as set.
    let paused = FlagRead { status: 0, value: 1 };
    let zero = DoubleRead { status: 0, bits: 0 };
    let mute = FlagRead { status: 0, value: 0 };
    let s = h.get_state(paused, zero, zero, zero, mute);
    assert!(s.paused);
    assert!(s.ready);
}

#[test]
fn set_option_string_and_property_setters_translate_statuses() {
    let h = fresh_handle();
    assert!(h.set_option_string(0).is_ok());
    match h.set_option_string(-4) {
        Err(MpvError::Native { code, context }) => {
            assert_eq!(code, -4);
            assert_eq!(context, "set_option_string");
        },
        _ => panic!("a negative status must fail"),
    }
    match h.set_volume(-3) {
        Err(MpvError::Native { code, context }) => {
            assert_eq!(code, -3);
            assert_eq!(context, "volume");
        },
        _ => panic!("a negative status must fail"),
    }
    match h.set_mute(true, -6) {
        Err(MpvError::Native { code, context }) => {
            assert_eq!(code, -6);
            assert_eq!(context, "mute");
        },
        _ => panic!("a negative status must fail"),
    }
    match h.stop(-9) {
        Err(MpvError::Native { code, context }) => {
            assert_eq!(code, -9);
            assert_eq!(context, "stop");
        },
        _ => panic!("a negative status must fail"),
    }
    assert!(h.pause(false, 0).is_ok());
    assert!(h.seek(0).is_ok());
    match h.seek(-1) {
        Err(MpvError::Native { code, context }) => {
            assert_eq!(code, -1);
            assert_eq!(context, "seek");
        },
        _ => panic!("a negative status must fail"),
    }
}
