use ota_component::error::OtaErr;
use ota_component::logic::{HcType, OtaLogic, OtaLogicIn, OtaLogicOut};
use ota_component::transport::{ResponseOtaHc, TransportOut};

// 2024-01-15 06:44:56.152 UTC, 13:44 at the device's offset.
const T1: u64 = 1705301096152;

#[test]
fn test_random_values() {
    for _ in 0..10 {
        let ota_logic = OtaLogic::new(7);

        // Check the number of elements in outputs
        assert_eq!(ota_logic.outputs.len(), 0);

        // Check the range for rnd_check
        assert!(ota_logic.rnd_check >= 30 && ota_logic.rnd_check <= 50);

        // Check the range for rnd_update_ota
        assert!(ota_logic.rnd_update_ota <= 120 && ota_logic.rnd_update_ota >= 1);
    }
}

#[test]
fn test_compare_hour_ota() {
    // Window offset of 30 minutes: the target time is 02:30.
    let mut ota_logic = OtaLogic::from_parts(1, 0, 40, 30);

    ota_logic.compare_hour_ota(2, 30, false);
    assert_eq!(ota_logic.outputs.len(), 1);
    assert_eq!(ota_logic.outputs.pop_front(), Some(OtaLogicOut::SuppentEvent));

    ota_logic.compare_hour_ota(4, 30, false);
    assert_eq!(ota_logic.outputs.len(), 0);

    ota_logic.compare_hour_ota(1, 59, false);
    assert_eq!(ota_logic.outputs.len(), 0);

    ota_logic.compare_hour_ota(4, 01, false);
    assert_eq!(ota_logic.outputs.len(), 0);

    ota_logic.compare_hour_ota(1, 30, true);
    assert_eq!(ota_logic.outputs.len(), 1);
    assert_eq!(ota_logic.outputs.pop_front(), Some(OtaLogicOut::SuppentEvent));
}

#[test]
fn test_on_tick() {
    // The last check lies after both ticks, as when the clock jumped back.
    let mut ota_logic = OtaLogic::from_parts(1, 1800000000, 40, 30);
    ota_logic.on_tick(1705301096152);
    ota_logic.on_tick(1705301197152);
    assert_eq!(ota_logic.outputs.len(), 0);

    // The last check was at the first tick.
    ota_logic.last_date_time = 1705301096;
    ota_logic.on_tick(1705301096152);
    ota_logic.on_tick(1705301196152);
    assert_eq!(ota_logic.outputs.len(), 2);
    assert_eq!(ota_logic.outputs.pop_front(), Some(OtaLogicOut::CheckOtaEvent));
    assert_eq!(ota_logic.outputs.pop_front(), Some(OtaLogicOut::KeepAliveEvent));

    ota_logic.hc.allow_ota = true;
    ota_logic.on_tick(1705301196152);
    assert_eq!(ota_logic.outputs.len(), 1);
    assert_eq!(ota_logic.outputs.pop_front(), Some(OtaLogicOut::SuppentEvent));
    assert!(!ota_logic.hc.allow_ota);
}

#[test]
fn test_on_event() {
    let mut ota_logic = OtaLogic::from_parts(1, 0, 40, 30);

    //check ota
    ota_logic.outputs.push_back(OtaLogicOut::CheckOtaEvent);
    assert_eq!(ota_logic.outputs.len(), 1);
    assert_eq!(ota_logic.outputs.pop_front(), Some(OtaLogicOut::CheckOtaEvent));

    //check response
    let res = ResponseOtaHc::default();
    ota_logic.on_event(OtaLogicIn::Transport(Ok(TransportOut::ResponseRequest(res))));
    assert_eq!(ota_logic.outputs.len(), 1);
    assert_eq!(ota_logic.outputs.pop_front(), Some(OtaLogicOut::CompareVersionEvent));

    // check keep alive
    ota_logic.outputs.push_back(OtaLogicOut::KeepAliveEvent);
    assert_eq!(ota_logic.outputs.len(), 1);

    // link fetched: the verification queues behind the keep-alive
    ota_logic.on_event(OtaLogicIn::Transport(Ok(TransportOut::ResponseLink)));
    assert_eq!(ota_logic.outputs.len(), 2);
    assert_eq!(ota_logic.outputs.pop_front(), Some(OtaLogicOut::KeepAliveEvent));
    assert_eq!(ota_logic.outputs.pop_front(), Some(OtaLogicOut::VerifyEvent));

    // check err
    ota_logic.on_event(OtaLogicIn::Transport(Err(OtaErr::DownloadErr)));
    assert_eq!(ota_logic.outputs.len(), 1);
    assert_eq!(ota_logic.outputs.pop_front(), Some(OtaLogicOut::CheckOtaEvent));

    ota_logic.on_event(OtaLogicIn::Transport(Err(OtaErr::LinkErr)));
    assert_eq!(ota_logic.outputs.len(), 1);
    assert_eq!(ota_logic.outputs.pop_front(), Some(OtaLogicOut::CheckOtaEvent));

    ota_logic.on_event(OtaLogicIn::Transport(Err(OtaErr::NoLinkResErr)));
    assert_eq!(ota_logic.outputs.len(), 1);
    assert_eq!(ota_logic.outputs.pop_front(), Some(OtaLogicOut::CheckOtaEvent));

    ota_logic.on_event(OtaLogicIn::Transport(Err(OtaErr::ServerNoReturnErr)));
    assert_eq!(ota_logic.outputs.len(), 1);
    assert_eq!(ota_logic.outputs.pop_front(), Some(OtaLogicOut::CheckOtaEvent));

    ota_logic.on_event(OtaLogicIn::Transport(Err(OtaErr::NotEnoughMemoryErr)));
    assert_eq!(ota_logic.outputs.len(), 1);
    assert_eq!(ota_logic.outputs.pop_front(), Some(OtaLogicOut::SuppentEvent));

    ota_logic.on_event(OtaLogicIn::Transport(Err(OtaErr::VerifyErr)));
    assert_eq!(ota_logic.outputs.len(), 1);
    assert_eq!(ota_logic.outputs.pop_front(), Some(OtaLogicOut::GetLinkEvent));

    // check suppend and update
    ota_logic.on_event(OtaLogicIn::Transport(Ok(TransportOut::ResponseSuppend)));
    assert_eq!(ota_logic.outputs.len(), 1);
    assert_eq!(ota_logic.outputs.pop_front(), Some(OtaLogicOut::UpdateOtaEvent(ota_logic.hc.hc_type)));
}

#[test]
fn window_offset_eighteen_matches_only_its_minute() {
    let mut l = OtaLogic::from_parts(1, 0, 40, 18);
    l.compare_hour_ota(2, 18, false);
    assert_eq!(l.pop_action(), Some(OtaLogicOut::SuppentEvent));
    assert_eq!(l.pop_action(), None);
    l.compare_hour_ota(4, 18, false);
    assert_eq!(l.outputs.len(), 0);
    l.compare_hour_ota(1, 59, false);
    assert_eq!(l.outputs.len(), 0);
    l.compare_hour_ota(1, 30, true);
    assert_eq!(l.pop_action(), Some(OtaLogicOut::SuppentEvent));
    assert_eq!(l.outputs.len(), 0);
}

#[test]
fn window_offset_past_the_hour() {
    // Offset 75: target 03:15.
    let mut l = OtaLogic::from_parts(1, 0, 40, 75);
    l.compare_hour_ota(3, 15, false);
    assert_eq!(l.outputs.len(), 1);
    l.compare_hour_ota(2, 15, false);
    assert_eq!(l.outputs.len(), 1);
}

#[test]
fn tick_inside_window_at_target_minute() {
    // 2024-01-14 19:18:00 UTC is 02:18 at the device's offset.
    let mut l = OtaLogic::from_parts(1, 1705259880, 40, 18);
    l.on_tick(1705259880000);
    assert_eq!(l.pop_action(), Some(OtaLogicOut::SuppentEvent));
    assert_eq!(l.pop_action(), None);
    // 02:17 does not match.
    let mut l = OtaLogic::from_parts(1, 1705259820, 40, 18);
    l.on_tick(1705259820000);
    assert_eq!(l.outputs.len(), 0);
}

#[test]
fn ticks_less_than_a_minute_apart_check_once() {
    let mut l = OtaLogic::from_parts(1, 0, 40, 30);
    l.on_tick(T1);
    l.on_tick(T1 + 59_000);
    assert_eq!(l.pop_action(), Some(OtaLogicOut::CheckOtaEvent));
    assert_eq!(l.pop_action(), Some(OtaLogicOut::KeepAliveEvent));
    assert_eq!(l.pop_action(), None);
    assert_eq!(l.last_date_time, 1705301096);
    l.on_tick(T1 + 60_000);
    assert_eq!(l.pop_action(), Some(OtaLogicOut::CheckOtaEvent));
    assert_eq!(l.pop_action(), Some(OtaLogicOut::KeepAliveEvent));
    assert_eq!(l.pop_action(), None);
}

#[test]
fn retry_backoff_grows_hundredfold_and_saturates() {
    let mut l = OtaLogic::from_parts(1, 0, 40, 30);
    assert_eq!(l.timeout, 3);
    assert_eq!(l.on_event(OtaLogicIn::Transport(Err(OtaErr::LinkErr))), Some(3));
    assert_eq!(l.timeout, 300);
    assert_eq!(l.on_event(OtaLogicIn::Transport(Err(OtaErr::VerifyNotEqualErr))), Some(300));
    assert_eq!(l.timeout, 30000);
    assert_eq!(l.pop_action(), Some(OtaLogicOut::CheckOtaEvent));
    assert_eq!(l.pop_action(), Some(OtaLogicOut::GetLinkEvent));
    l.timeout = u64::MAX / 10;
    assert_eq!(l.on_event(OtaLogicIn::Transport(Err(OtaErr::NotEnoughMemoryErr))), Some(u64::MAX / 10));
    assert_eq!(l.timeout, u64::MAX);
}

#[test]
fn unclassified_errors_are_absorbed() {
    let mut l = OtaLogic::from_parts(1, 0, 40, 30);
    for e in [
        OtaErr::UserCalendarErr,
        OtaErr::NoSignalErr,
        OtaErr::VersionErr,
        OtaErr::CheckVersionErr,
        OtaErr::HttpErr,
        OtaErr::MqttErr,
        OtaErr::TimoutErr,
    ] {
        assert_eq!(l.on_event(OtaLogicIn::Transport(Err(e))), None);
    }
    assert_eq!(l.outputs.len(), 0);
    assert_eq!(l.timeout, 3);
}

#[test]
fn keep_alive_ack_enqueues_nothing() {
    let mut l = OtaLogic::from_parts(1, 0, 40, 30);
    assert_eq!(l.on_event(OtaLogicIn::Transport(Ok(TransportOut::ResponseKeepAlive))), None);
    assert_eq!(l.outputs.len(), 0);
}

#[test]
fn check_response_stores_link_and_version() {
    let mut l = OtaLogic::from_parts(1, 0, 40, 30);
    let mut res = ResponseOtaHc::default();
    res.success = true;
    res.data.link = "http://host/fw.bin".to_string();
    res.data.version_name = "2.0.0".to_string();
    l.on_event(OtaLogicIn::Transport(Ok(TransportOut::ResponseRequest(res))));
    assert_eq!(l.hc.link, "http://host/fw.bin");
    assert_eq!(l.hc.version_name, "2.0.0");
    assert_eq!(l.pop_action(), Some(OtaLogicOut::CompareVersionEvent));
}

#[test]
fn suspend_ack_applies_for_the_hardware_class() {
    let mut l = OtaLogic::from_parts(1, 0, 40, 30);
    l.hc.hc_type = HcType::Hc02;
    l.on_event(OtaLogicIn::Transport(Ok(TransportOut::ResponseSuppend)));
    assert_eq!(l.pop_action(), Some(OtaLogicOut::UpdateOtaEvent(HcType::Hc02)));
}

#[test]
fn only_a_pushed_link_fetch_is_queued() {
    let mut l = OtaLogic::from_parts(1, 0, 40, 30);
    for a in [
        OtaLogicOut::CheckOtaEvent,
        OtaLogicOut::UpdateOtaEvent(HcType::Hc01),
        OtaLogicOut::CompareVersionEvent,
        OtaLogicOut::VerifyEvent,
        OtaLogicOut::KeepAliveEvent,
        OtaLogicOut::SuppentEvent,
    ] {
        l.on_event(OtaLogicIn::Push(a));
    }
    assert_eq!(l.outputs.len(), 0);
    l.on_event(OtaLogicIn::Push(OtaLogicOut::GetLinkEvent));
    assert_eq!(l.pop_action(), Some(OtaLogicOut::GetLinkEvent));
}

#[test]
fn queue_drains_first_in_first_out() {
    let mut l = OtaLogic::from_parts(1, 0, 40, 30);
    l.on_event(OtaLogicIn::Transport(Ok(TransportOut::ResponseLink)));
    l.on_tick(T1);
    assert_eq!(l.pop_action(), Some(OtaLogicOut::VerifyEvent));
    l.on_event(OtaLogicIn::Transport(Ok(TransportOut::ResponseSuppend)));
    l.on_event(OtaLogicIn::Transport(Err(OtaErr::DownloadErr)));
    let mut drained = Vec::new();
    while let Some(a) = l.pop_action() {
        drained.push(a);
    }
    assert_eq!(
        drained,
        vec![
            OtaLogicOut::CheckOtaEvent,
            OtaLogicOut::KeepAliveEvent,
            OtaLogicOut::UpdateOtaEvent(HcType::Hc01),
            OtaLogicOut::CheckOtaEvent,
        ]
    );
}
