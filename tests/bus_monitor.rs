use h264_iframe_filter::bus_monitor::{
    drive_run, BusMessage, ErrorMessage, LifecycleDriver, PipelineState, Reaction, RunError,
    RunPhase, StateChange,
};
use h264_iframe_filter::pipeline::StageKind;

fn error_from(src: &str) -> BusMessage {
    BusMessage::Error(ErrorMessage {
        src: src.to_string(),
        error: "Internal data stream error.".to_string(),
        debug: Some("streaming stopped, reason not-negotiated".to_string()),
    })
}

fn state_change() -> BusMessage {
    BusMessage::StateChanged(StateChange {
        src: Some("/GstPipeline:h264_filter_pipeline".to_string()),
        old: PipelineState::Ready,
        current: PipelineState::Paused,
        pending: PipelineState::Playing,
    })
}

#[test]
fn missing_stage_fails_before_any_state_change() {
    let mut avail = vec![true; 7];
    avail[3] = false;
    let r = drive_run(&avail, vec![BusMessage::Eos]);
    assert!(r.requests.is_empty());
    assert_eq!(r.messages_read, 0);
    match r.outcome {
        Err(RunError::MissingElement(m)) => {
            assert_eq!(m.stage, StageKind::Classifier);
            assert_eq!(m.factory(), "frame_filter");
        }
        _ => panic!("expected a missing element"),
    }
}

#[test]
fn bus_error_stops_pipeline_and_names_stage() {
    let msgs = vec![
        state_change(),
        BusMessage::Other,
        error_from("/GstPipeline:h264_filter_pipeline/GstH264Parse:parser"),
        BusMessage::Eos,
    ];
    let r = drive_run(&vec![true; 7], msgs);
    assert_eq!(r.requests, vec![PipelineState::Playing, PipelineState::Null]);
    assert_eq!(r.messages_read, 3);
    match r.outcome {
        Err(RunError::Message(e)) => {
            assert_eq!(e.src, "/GstPipeline:h264_filter_pipeline/GstH264Parse:parser");
            assert_eq!(e.error, "Internal data stream error.");
            assert!(e.debug.is_some());
        }
        _ => panic!("expected a bus error"),
    }
}

#[test]
fn end_of_stream_ends_cleanly() {
    let msgs = vec![state_change(), BusMessage::Eos, error_from("late")];
    let r = drive_run(&vec![true; 7], msgs);
    assert_eq!(r.requests, vec![PipelineState::Playing, PipelineState::Null]);
    assert_eq!(r.messages_read, 2);
    assert!(r.outcome.is_ok());
}

#[test]
fn empty_bus_ends_cleanly() {
    let r = drive_run(&vec![true; 7], Vec::new());
    assert_eq!(r.requests, vec![PipelineState::Playing, PipelineState::Null]);
    assert_eq!(r.messages_read, 0);
    assert!(r.outcome.is_ok());
}

#[test]
fn driver_steps_through_a_run() {
    let mut d = LifecycleDriver::new();
    assert_eq!(d.current_phase(), RunPhase::Idle);
    assert_eq!(d.start(), PipelineState::Playing);
    assert!(matches!(d.on_message(BusMessage::Other), Reaction::Continue));
    match d.on_message(state_change()) {
        Reaction::Report(s) => assert_eq!(s.current, PipelineState::Paused),
        _ => panic!("expected a report"),
    }
    assert_eq!(d.current_phase(), RunPhase::Running);
    match d.on_message(error_from("src")) {
        Reaction::Stop(Err(e)) => assert_eq!(e.src, "src"),
        _ => panic!("expected a stop with an error"),
    }
    assert_eq!(d.current_phase(), RunPhase::Failed);
    assert_eq!(d.shut_down(), PipelineState::Null);
    assert_eq!(d.current_phase(), RunPhase::Failed);
}

#[test]
fn driver_finishes_on_end_of_stream() {
    let mut d = LifecycleDriver::new();
    d.start();
    assert!(matches!(d.on_message(BusMessage::Eos), Reaction::Stop(Ok(()))));
    assert_eq!(d.current_phase(), RunPhase::Finished);
    assert_eq!(d.shut_down(), PipelineState::Null);
}
