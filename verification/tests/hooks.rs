use guga_ura::config::Config;
use guga_ura::fps_hook::{
    hooked_set_target_frame_rate, hooked_set_vsync_count, FpsHooks, FrameSetting, NO_OVERRIDE,
};
use guga_ura::http_hook::{
    hooked_compress_request, hooked_decompress_response, HookAction, HookCall, InstallReply,
    InstallStage, InstallTarget, PayloadError, PayloadHook,
};
use guga_ura::interceptor::{EngineOutcome, HookError, Interceptor};
use guga_ura::notifier::{notify_request, notify_response};
use guga_ura::symbols::LookupError;

fn fps(target_fps: i32, vsync_count: i32) -> FpsHooks {
    FpsHooks { target_fps, vsync_count, frame_rate_setter: 0, vsync_setter: 0 }
}

fn sample_config() -> Config {
    Config {
        notifier_host: "http://127.0.0.1:4693".to_string(),
        timeout_ms: 250,
        target_fps: 120,
        vsync_count: 0,
    }
}

#[test]
fn default_config_has_the_documented_values() {
    let config = Config::default();
    assert_eq!(config.notifier_host, "http://127.0.0.1:4693");
    assert_eq!(config.timeout_ms, 100);
    assert_eq!(config.target_fps, -1);
    assert_eq!(config.vsync_count, -1);
    assert_eq!(Config::default_notifier_host(), "http://127.0.0.1:4693");
    assert_eq!(Config::default_timeout_ms(), 100);
    assert_eq!(Config::default_target_fps(), -1);
    assert_eq!(Config::default_vsync_count(), -1);
}

#[test]
fn load_keeps_a_stored_config_and_falls_back_to_defaults() {
    let (kept, save) = Config::load(Some(sample_config()));
    assert_eq!(kept.timeout_ms, 250);
    assert_eq!(kept.target_fps, 120);
    assert!(!save);
    let (fresh, save) = Config::load(None);
    assert_eq!(fresh.notifier_host, "http://127.0.0.1:4693");
    assert_eq!(fresh.timeout_ms, 100);
    assert!(save);
}

#[test]
fn sentinel_leaves_every_frame_rate_unchanged() {
    let hooks = fps(NO_OVERRIDE, NO_OVERRIDE);
    for value in [i32::MIN, -2, -1, 0, 1, 30, 60, 144, i32::MAX] {
        assert_eq!(hooked_set_target_frame_rate(&hooks, value), value);
        assert_eq!(hooked_set_vsync_count(&hooks, value), value);
    }
}

#[test]
fn override_of_120_replaces_a_request_for_60() {
    let hooks = fps(120, NO_OVERRIDE);
    assert_eq!(hooked_set_target_frame_rate(&hooks, 60), 120);
    assert_eq!(hooked_set_vsync_count(&hooks, 1), 1);
}

#[test]
fn vsync_override_is_independent_of_the_frame_rate_override() {
    let hooks = fps(NO_OVERRIDE, 0);
    assert_eq!(hooked_set_vsync_count(&hooks, 1), 0);
    assert_eq!(hooked_set_target_frame_rate(&hooks, 30), 30);
}

#[test]
fn frame_hooks_are_always_both_named() {
    let (hooks, settings) = guga_ura::fps_hook::init(-1, -1);
    assert_eq!(hooks, fps(-1, -1));
    assert_eq!(settings, [FrameSetting::TargetFrameRate, FrameSetting::VSyncCount]);
    let (hooks, settings) = guga_ura::fps_hook::init(240, 1);
    assert_eq!(hooks, fps(240, 1));
    assert_eq!(settings, [FrameSetting::TargetFrameRate, FrameSetting::VSyncCount]);
    assert_eq!(
        FrameSetting::TargetFrameRate.icall_signature(),
        "UnityEngine.Application::set_targetFrameRate(System.Int32)"
    );
    assert_eq!(
        FrameSetting::VSyncCount.icall_signature(),
        "UnityEngine.QualitySettings::set_vSyncCount(System.Int32)"
    );
}

#[test]
fn notifications_address_the_two_endpoints() {
    let config = sample_config();
    let request = notify_request(&config, &[1, 2, 3]);
    assert_eq!(request.url, "http://127.0.0.1:4693/notify/request");
    assert_eq!(request.body, vec![1, 2, 3]);
    assert_eq!(request.timeout_ms, 250);
    let response = notify_response(&config, &[]);
    assert_eq!(response.url, "http://127.0.0.1:4693/notify/response");
    assert!(response.body.is_empty());
    assert_eq!(response.timeout_ms, 250);
}

#[test]
fn outbound_buffer_is_captured_before_the_call_is_forwarded() {
    let config = sample_config();
    let buffer = vec![0x82u8, 0xa1, 0x61, 0x01, 0x00, 0xff];
    let actions = hooked_compress_request(&config, HookCall::Entered(Some(buffer.clone())));
    assert_eq!(actions.len(), 2);
    match &actions[0] {
        HookAction::Notify(n) => {
            assert_eq!(n.url, "http://127.0.0.1:4693/notify/request");
            assert_eq!(n.body, buffer);
            assert_eq!(n.timeout_ms, 250);
        }
        HookAction::Forward => panic!("forwarded before the capture"),
    }
    assert!(matches!(actions[1], HookAction::Forward));
    let after = hooked_compress_request(&config, HookCall::Returned(Some(vec![9, 9])));
    assert!(after.is_empty());
}

#[test]
fn null_outbound_buffer_is_forwarded_without_capture() {
    let config = sample_config();
    let actions = hooked_compress_request(&config, HookCall::Entered(None));
    assert_eq!(actions.len(), 1);
    assert!(matches!(actions[0], HookAction::Forward));
}

#[test]
fn inbound_capture_holds_the_returned_bytes_not_the_raw_input() {
    let config = sample_config();
    let raw = vec![0x1fu8, 0x8b, 0x08];
    let decompressed = vec![0x93u8, 0x01, 0x02, 0x03];
    let entry = hooked_decompress_response(&config, HookCall::Entered(Some(raw)));
    assert_eq!(entry.len(), 1);
    assert!(matches!(entry[0], HookAction::Forward));
    let exit = hooked_decompress_response(&config, HookCall::Returned(Some(decompressed.clone())));
    assert_eq!(exit.len(), 1);
    match &exit[0] {
        HookAction::Notify(n) => {
            assert_eq!(n.url, "http://127.0.0.1:4693/notify/response");
            assert_eq!(n.body, decompressed);
        }
        HookAction::Forward => panic!("forwarded twice"),
    }
}

#[test]
fn null_inbound_result_is_not_captured() {
    let config = sample_config();
    assert!(hooked_decompress_response(&config, HookCall::Returned(None)).is_empty());
    let entry = hooked_decompress_response(&config, HookCall::Entered(None));
    assert_eq!(entry.len(), 1);
    assert!(matches!(entry[0], HookAction::Forward));
}

#[test]
fn payload_install_runs_through_all_stages() {
    let mut table = Interceptor::new();
    let stage = guga_ura::http_hook::init();
    assert!(matches!(stage, InstallStage::FindAssembly));
    assert_eq!(stage.finished(), None);
    let stage = stage.advance(InstallReply::Lookup(Ok(0x10)), &mut table);
    assert!(matches!(stage, InstallStage::FindClass { image: 0x10 }));
    let stage = stage.advance(InstallReply::Lookup(Ok(0x20)), &mut table);
    assert!(matches!(stage, InstallStage::FindCompress { class: 0x20 }));
    let stage = stage.advance(InstallReply::Lookup(Ok(0x30)), &mut table);
    assert!(matches!(stage, InstallStage::FindDecompress { class: 0x20, compress: 0x30 }));
    let stage = stage.advance(InstallReply::Lookup(Ok(0x40)), &mut table);
    assert!(matches!(stage, InstallStage::HookCompress { compress: 0x30, decompress: 0x40 }));
    let stage = stage.advance(InstallReply::Hooked(EngineOutcome::Enabled(0x3000)), &mut table);
    assert!(matches!(stage, InstallStage::HookDecompress { decompress: 0x40 }));
    assert_eq!(table.get_trampoline(0x30), Some(0x3000));
    let stage = stage.advance(InstallReply::Hooked(EngineOutcome::Enabled(0x4000)), &mut table);
    assert!(matches!(stage, InstallStage::Installed));
    assert_eq!(stage.finished(), Some(true));
    assert_eq!(table.get_trampoline(0x40), Some(0x4000));
}

#[test]
fn payload_install_stops_at_the_first_failed_lookup() {
    let mut table = Interceptor::new();
    let stage = guga_ura::http_hook::init()
        .advance(InstallReply::Lookup(Err(LookupError::NotReady)), &mut table);
    match &stage {
        InstallStage::Failed(PayloadError::Lookup { target, cause }) => {
            assert_eq!(*target, InstallTarget::Assembly);
            assert_eq!(*cause, LookupError::NotReady);
        }
        _ => panic!("expected a failed lookup"),
    }
    assert_eq!(stage.finished(), Some(false));
    let stage = stage.advance(InstallReply::Lookup(Ok(0x10)), &mut table);
    assert!(matches!(stage, InstallStage::Failed(_)));
}

#[test]
fn null_method_address_counts_as_not_found() {
    let mut table = Interceptor::new();
    let stage = guga_ura::http_hook::init()
        .advance(InstallReply::Lookup(Ok(0x10)), &mut table)
        .advance(InstallReply::Lookup(Ok(0x20)), &mut table)
        .advance(InstallReply::Lookup(Ok(0)), &mut table);
    match stage {
        InstallStage::Failed(PayloadError::Lookup { target, cause }) => {
            assert_eq!(target, InstallTarget::Method(PayloadHook::CompressRequest));
            assert_eq!(cause, LookupError::NotFound);
        }
        _ => panic!("expected a failed lookup"),
    }
}

#[test]
fn payload_install_reports_the_hook_that_the_engine_refused() {
    let mut table = Interceptor::new();
    let stage = guga_ura::http_hook::init()
        .advance(InstallReply::Lookup(Ok(0x10)), &mut table)
        .advance(InstallReply::Lookup(Ok(0x20)), &mut table)
        .advance(InstallReply::Lookup(Ok(0x30)), &mut table)
        .advance(InstallReply::Lookup(Ok(0x40)), &mut table)
        .advance(InstallReply::Hooked(EngineOutcome::Enabled(0x3000)), &mut table)
        .advance(
            InstallReply::Hooked(EngineOutcome::EnableFailed("MH_ERROR_NOT_CREATED".to_string())),
            &mut table,
        );
    match stage {
        InstallStage::Failed(PayloadError::Hook { hook, error: HookError::Enable(d) }) => {
            assert_eq!(hook, PayloadHook::DecompressResponse);
            assert_eq!(d, "MH_ERROR_NOT_CREATED");
        }
        _ => panic!("expected a refused hook"),
    }
    assert_eq!(table.get_trampoline(0x30), Some(0x3000));
    assert_eq!(table.get_trampoline(0x40), None);
}

#[test]
fn reply_that_is_not_due_changes_nothing() {
    let mut table = Interceptor::new();
    let stage = guga_ura::http_hook::init()
        .advance(InstallReply::Hooked(EngineOutcome::Enabled(0x3000)), &mut table);
    assert!(matches!(stage, InstallStage::FindAssembly));
    assert!(table.unhook_all().is_empty());
}

#[test]
fn frame_hooks_are_recorded_one_by_one() {
    let mut table = Interceptor::new();
    let (mut hooks, _) = guga_ura::fps_hook::init(120, -1);
    assert_eq!(hooks.trampoline(&table, FrameSetting::TargetFrameRate), None);
    let refused = hooks.on_hooked(
        &mut table,
        FrameSetting::VSyncCount,
        0x2200,
        EngineOutcome::CreateFailed("MH_ERROR_UNSUPPORTED_FUNCTION".to_string()),
    );
    assert!(matches!(refused, Err(HookError::Create(_))));
    assert_eq!(hooks.vsync_setter, 0);
    let hooked =
        hooks.on_hooked(&mut table, FrameSetting::TargetFrameRate, 0x1100, EngineOutcome::Enabled(0xaa00));
    assert_eq!(hooked.ok(), Some(0xaa00));
    assert_eq!(hooks.frame_rate_setter, 0x1100);
    assert_eq!(hooks.trampoline(&table, FrameSetting::TargetFrameRate), Some(0xaa00));
    assert_eq!(hooks.trampoline(&table, FrameSetting::VSyncCount), None);
    assert_eq!(hooked_set_target_frame_rate(&hooks, 60), 120);
}
