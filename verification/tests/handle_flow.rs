use wosim::handle::{HandleFlow, HandleFlowExt, HandleFlowResult, HandleFlowResultExt, ResultExt};

#[test]
fn handle_flow_handled_is_err() {
    let f: HandleFlow = HandleFlowExt::handled();
    assert_eq!(f, Err(()));
    let f: HandleFlow = HandleFlowExt::unhandled();
    assert_eq!(f, Ok(()));
}

#[test]
fn handle_flow_into_flow_result_keeps_handledness() {
    let h: HandleFlow = Err(());
    let r: HandleFlowResult<String> = h.into_flow_result();
    assert_eq!(r, Err(Ok(())));
    let u: HandleFlow = Ok(());
    let r: HandleFlowResult<String> = u.into_flow_result();
    assert_eq!(r, Ok(()));
}

#[test]
fn flow_result_into_result_outcomes() {
    let handled: HandleFlowResult<u32> = HandleFlowResultExt::handled();
    assert_eq!(handled, Err(Ok(())));
    assert_eq!(handled.into_result(), Ok(()));
    let unhandled: HandleFlowResult<u32> = HandleFlowResultExt::unhandled();
    assert_eq!(unhandled.into_result(), Ok(()));
    let failed: HandleFlowResult<u32> = HandleFlowResultExt::error(7);
    assert_eq!(failed, Err(Err(7)));
    assert_eq!(failed.into_result(), Err(7));
}

#[test]
fn result_marking_round_trips() {
    let ok: Result<(), u8> = Ok(());
    assert_eq!(ok.into_handled(), Err(Ok(())));
    assert_eq!(ok.into_unhandled(), Ok(()));
    let err: Result<(), u8> = Err(3);
    assert_eq!(err.into_handled(), Err(Err(3)));
    assert_eq!(err.into_unhandled(), Err(Err(3)));
    assert_eq!(err.into_handled().into_result(), Err(3));
    assert_eq!(err.into_unhandled().into_result(), Err(3));
    assert_eq!(ok.into_handled().into_result(), Ok(()));
}
