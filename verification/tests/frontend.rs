use stellarust::data::MyJsonFile;
use stellarust::frontend::api_request::{self, fetch_outcome, fetched_document, FetchError, FetchState};
use stellarust::frontend::app::{self, App};
use stellarust::frontend::event_source_service::{self, EventSourceComponent, SourceStatus};
use stellarust::frontend::fetch_service::{self, is_success, response_msg};
use stellarust::frontend::header::{PageHeader, Props};
use stellarust::frontend::ws_service::{self, status_msg, Command, SocketStatus, WebsocketComponent, WsAction};

fn props(e: &str, p: &str) -> Props {
    Props { empire_name: e.to_string(), player_name: p.to_string() }
}

#[test]
fn header_redraws_only_on_a_real_change() {
    let mut h = PageHeader::create(props("A", "B"));
    assert!(!h.update(()));
    assert!(!h.change(props("A", "B")));
    assert!(h.change(props("A", "C")));
    assert_eq!(h.props.player_name, "C");
    assert!(!h.change(props("A", "C")));
    assert!(h.change(props("Z", "C")));
    assert_eq!(h.props.empire_name, "Z");
}

#[test]
fn header_labels() {
    let h = PageHeader::create(props("THE GREAT KHANATE", "George"));
    assert_eq!(h.empire_label(), "THE GREAT KHANATE");
    assert_eq!(h.player_label(), "(George)");
}

#[test]
fn root_component() {
    let mut a = App::create();
    assert!(!a.clicked);
    assert!(!a.change());
    assert!(a.update(app::Msg::Click));
    assert!(a.clicked);
    let p = App::header_props();
    assert_eq!(p.empire_name, "THE GREAT KHANATE");
    assert_eq!(p.player_name, "George");
}

#[test]
fn event_source_keeps_the_last_readable_message() {
    let mut c = EventSourceComponent::create();
    assert_eq!(c.view_data(), "Data hasn't fetched yet.");
    assert!(c.update(event_source_service::Msg::EsReady(Ok("hi \"there\"".to_string()))));
    assert_eq!(c.data.as_deref(), Some("hi \"there\""));
    assert_eq!(c.view_data(), "Event source data \"hi \\\"there\\\"\"");
    assert!(c.update(event_source_service::Msg::EsReady(Err("bad".to_string()))));
    assert_eq!(c.data.as_deref(), Some("hi \"there\""));
    assert!(c.update(event_source_service::Msg::EsCheckState));
    assert!(!c.change());
}

#[test]
fn event_source_status() {
    let (m, log) = event_source_service::status_msg(SourceStatus::Error);
    assert!(matches!(m, event_source_service::Msg::EsCheckState));
    assert!(log);
    let (m, log) = event_source_service::status_msg(SourceStatus::Open);
    assert!(matches!(m, event_source_service::Msg::EsCheckState));
    assert!(!log);
}

fn doc(name: &str, number: u32) -> MyJsonFile {
    MyJsonFile { name: name.to_string(), number }
}

#[test]
fn http_success_range() {
    assert!(!is_success(199));
    assert!(is_success(200));
    assert!(is_success(204));
    assert!(is_success(299));
    assert!(!is_success(300));
    assert!(!is_success(404));
}

#[test]
fn fetch_component_flow() {
    let mut c = fetch_service::ApiComponent::create();
    assert!(!c.fetching && c.data.is_none());
    let (render, cmd) = c.update(fetch_service::Msg::FetchData);
    assert!(render && matches!(cmd, fetch_service::Command::Fetch) && c.fetching);
    let msg = response_msg(200, Ok(doc("n", 4)));
    let (render, cmd) = c.update(msg);
    assert!(render && matches!(cmd, fetch_service::Command::Keep) && !c.fetching);
    assert_eq!(c.data.as_ref().unwrap().name, "n");
    assert_eq!(c.data.as_ref().unwrap().number, 4);
    assert!(matches!(response_msg(500, Ok(doc("x", 1))), fetch_service::Msg::Ignore));
    let (render, _) = c.update(fetch_service::Msg::Ignore);
    assert!(!render);
    assert!(c.data.is_some());
    c.update(fetch_service::Msg::FetchReady(Err("unreadable".to_string())));
    assert!(c.data.is_none());
}

#[test]
fn request_component_flow() {
    let mut c = api_request::ApiComponent::create();
    assert!(matches!(c.json, FetchState::NotFetching));
    let out = c.update(api_request::Msg::GetJson);
    assert!(!out.render && out.start_fetch);
    assert!(matches!(c.json, FetchState::NotFetching));
    let follow = out.follow_up.unwrap();
    assert!(matches!(follow, api_request::Msg::SetFetchState(FetchState::Fetching)));
    assert!(c.update(follow).render);
    assert!(matches!(c.json, FetchState::Fetching));
    let done = fetch_outcome(Ok(fetched_document()));
    c.update(done);
    match &c.json {
        FetchState::Success(d) => {
            assert_eq!(d.name, "what is up");
            assert_eq!(d.number, 7);
        }
        _ => panic!("expected success"),
    }
    c.update(fetch_outcome(Err(FetchError { err: "JsValue(TypeError)".to_string() })));
    match &c.json {
        FetchState::Failed(e) => assert_eq!(e.err, "JsValue(TypeError)"),
        _ => panic!("expected failure"),
    }
    assert!(!c.change());
}

#[test]
fn websocket_component_flow() {
    let mut c = WebsocketComponent::create();
    assert!(!c.connected && c.data.is_none());
    assert!(!c.connect_disabled() && c.socket_buttons_disabled());
    let (render, cmd) = c.update(WsAction::Connect.into());
    assert!(render && matches!(cmd, Command::Open) && c.connected);
    assert!(c.connect_disabled() && !c.socket_buttons_disabled());
    let (render, cmd) = c.update(ws_service::Msg::WsAction(WsAction::SendData));
    assert!(render);
    match cmd {
        Command::Send(d) => {
            assert_eq!(d.name, "websocket out");
            assert_eq!(d.number, 23);
        }
        _ => panic!("expected a send"),
    }
    let received = ws_service::MyJsonFile { name: "in".to_string(), number: -5 };
    let (render, cmd) = c.update(ws_service::Msg::WsReady(Ok(received)));
    assert!(render && matches!(cmd, Command::Keep));
    assert_eq!(c.data.as_ref().unwrap().number, -5);
    let (render, cmd) = c.update(status_msg(SocketStatus::Closed));
    assert!(render && matches!(cmd, Command::Close) && !c.connected);
    let (render, cmd) = c.update(status_msg(SocketStatus::Opened));
    assert!(!render && matches!(cmd, Command::Keep));
    c.update(WsAction::Connect.into());
    let (_, cmd) = c.update(WsAction::Disconnect.into());
    assert!(matches!(cmd, Command::Close) && !c.connected);
    assert!(matches!(status_msg(SocketStatus::Error), ws_service::Msg::WsAction(WsAction::Lost)));
    c.update(ws_service::Msg::WsReady(Err("bad json".to_string())));
    assert!(c.data.is_none());
    assert!(!c.change());
}
