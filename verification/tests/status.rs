use worker::clock::unix_time;
use worker::identity::NodeIdentity;
use worker::load::LoadState;
use worker::status::{
    frame_health, frame_info, frame_root, frame_status, get_uptime, health_at, health_handler,
    info_handler, root_handler, status_handler, uptime_between, HealthResponse, InfoResponse,
    RootResponse, StatusResponse, ACTIVE, ACTIVE_CONNECTIONS, HEALTHY, HEALTH_PATH, INFO_PATH,
    ROOT_PATH, RUNNING_MESSAGE, STATUS_PATH,
};

fn node() -> NodeIdentity {
    NodeIdentity::with_id("abc".to_string())
}

fn loaded(load: i32) -> LoadState {
    let mut state = LoadState::new();
    state.write(load);
    state
}

#[test]
fn endpoints_have_their_documented_paths() {
    assert_eq!(ROOT_PATH, "/");
    assert_eq!(HEALTH_PATH, "/api/health");
    assert_eq!(INFO_PATH, "/api/info");
    assert_eq!(STATUS_PATH, "/api/status");
}

#[test]
fn status_constants_are_fixed() {
    assert_eq!(RUNNING_MESSAGE, "Worker node is running");
    assert_eq!(HEALTHY, "healthy");
    assert_eq!(ACTIVE, "active");
    assert_eq!(ACTIVE_CONNECTIONS, 0);
}

#[test]
fn root_names_the_node_and_its_port() {
    let response = root_handler(&node());
    assert_eq!(
        response,
        RootResponse {
            message: "Worker node is running".to_string(),
            node_id: "abc".to_string(),
            port: 9000,
        }
    );
    assert_eq!(
        response.to_json(),
        Ok(r#"{"message":"Worker node is running","node_id":"abc","port":9000}"#.to_string())
    );
}

#[test]
fn root_writes_the_port_as_a_number() {
    let identity = NodeIdentity::new("n1".to_string(), 80, "master".to_string(), 8081);
    let body = root_handler(&identity).to_json().unwrap();
    assert_eq!(body, r#"{"message":"Worker node is running","node_id":"n1","port":80}"#);
    let value: serde_json::Value = serde_json::from_str(&body).unwrap();
    assert_eq!(value.as_object().map(|members| members.len()), Some(3));
    assert_eq!(value["message"].as_str(), Some("Worker node is running"));
    assert_eq!(value["node_id"].as_str(), Some("n1"));
    assert_eq!(value["port"].as_u64(), Some(80));
    assert!(value["port"].as_str().is_none());
}

#[test]
fn health_right_after_startup_shows_load_zero_and_uptime_zero() {
    let response = health_at(&node(), &LoadState::new(), 1_700_000_000, 1_700_000_000);
    assert_eq!(
        response,
        HealthResponse {
            status: "healthy".to_string(),
            node_id: "abc".to_string(),
            load: 0,
            uptime: 0,
        }
    );
    assert_eq!(
        response.to_json(),
        Ok(r#"{"status":"healthy","node_id":"abc","load":0,"uptime":0}"#.to_string())
    );
}

#[test]
fn health_shows_the_current_load_and_the_seconds_since_start() {
    let response = health_at(&node(), &loaded(42), 1_700_000_000, 1_700_000_125);
    assert_eq!(response.load, 42);
    assert_eq!(response.uptime, 125);
    assert_eq!(
        response.to_json(),
        Ok(r#"{"status":"healthy","node_id":"abc","load":42,"uptime":125}"#.to_string())
    );
}

#[test]
fn health_by_the_clock_fixes_everything_but_the_uptime() {
    let started_at = unix_time();
    let response = health_handler(&node(), &loaded(9), started_at);
    assert_eq!(response.status, "healthy");
    assert_eq!(response.node_id, "abc");
    assert_eq!(response.load, 9);
    assert!(response.uptime < 60);
}

#[test]
fn info_shows_identity_load_and_capacity() {
    let response = info_handler(&node(), &loaded(17));
    assert_eq!(
        response,
        InfoResponse {
            node_id: "abc".to_string(),
            port: 9000,
            load: 17,
            capacity: 100,
            master_address: "master".to_string(),
        }
    );
    assert_eq!(
        response.to_json(),
        Ok(
            r#"{"node_id":"abc","port":9000,"load":17,"capacity":100,"master_address":"master"}"#
                .to_string()
        )
    );
}

#[test]
fn info_asked_twice_without_a_tick_gives_the_same_load() {
    let identity = node();
    let state = loaded(63);
    let first = info_handler(&identity, &state);
    let _ = health_handler(&identity, &state, 0);
    let _ = status_handler(&identity, &state);
    let second = info_handler(&identity, &state);
    assert_eq!(first.load, second.load);
    assert_eq!(first, second);
    assert_eq!(state.read(), 63);
}

#[test]
fn status_shows_an_active_node_without_connections() {
    let response = status_handler(&node(), &loaded(5));
    assert_eq!(
        response,
        StatusResponse {
            status: "active".to_string(),
            node_id: "abc".to_string(),
            load: 5,
            active_connections: 0,
        }
    );
    assert_eq!(
        response.to_json(),
        Ok(r#"{"status":"active","node_id":"abc","load":5,"active_connections":0}"#.to_string())
    );
}

#[test]
fn bodies_escape_their_strings() {
    let identity = NodeIdentity::new("a\"b".to_string(), 1, "m\\n".to_string(), 2);
    assert_eq!(
        info_handler(&identity, &loaded(-1)).to_json(),
        Ok("{\"node_id\":\"a\\\"b\",\"port\":1,\"load\":-1,\"capacity\":100,\"master_address\":\"m\\\\n\"}"
            .to_string())
    );
    assert_eq!(
        status_handler(&identity, &loaded(0)).to_json(),
        Ok("{\"status\":\"active\",\"node_id\":\"a\\\"b\",\"load\":0,\"active_connections\":0}"
            .to_string())
    );
}

#[test]
fn bodies_are_read_back_by_a_json_reader() {
    let body = health_at(&node(), &loaded(33), 10, 25).to_json().unwrap();
    let value: serde_json::Value = serde_json::from_str(&body).unwrap();
    assert_eq!(value["status"].as_str(), Some("healthy"));
    assert_eq!(value["node_id"].as_str(), Some("abc"));
    assert_eq!(value["load"].as_i64(), Some(33));
    assert_eq!(value["uptime"].as_u64(), Some(15));
}

#[test]
fn framing_of_bodies_takes_literals_as_they_are() {
    assert_eq!(frame_root("\"m\"", "\"n\"", 1), r#"{"message":"m","node_id":"n","port":1}"#);
    assert_eq!(
        frame_root("\"m\"", "\"n\"", 65535),
        r#"{"message":"m","node_id":"n","port":65535}"#
    );
    assert_eq!(
        frame_health("\"h\"", "\"n\"", -2, u64::MAX),
        r#"{"status":"h","node_id":"n","load":-2,"uptime":18446744073709551615}"#
    );
    assert_eq!(
        frame_info("\"n\"", 65535, i32::MIN, 100, "\"m\""),
        r#"{"node_id":"n","port":65535,"load":-2147483648,"capacity":100,"master_address":"m"}"#
    );
    assert_eq!(
        frame_status("\"s\"", "\"n\"", 7, 12),
        r#"{"status":"s","node_id":"n","load":7,"active_connections":12}"#
    );
}

#[test]
fn uptime_is_the_difference_in_seconds() {
    assert_eq!(uptime_between(100, 100), 0);
    assert_eq!(uptime_between(100, 101), 1);
    assert_eq!(uptime_between(0, u64::MAX), u64::MAX);
}

#[test]
fn uptime_is_zero_when_the_clock_went_back() {
    assert_eq!(uptime_between(100, 99), 0);
    assert_eq!(uptime_between(u64::MAX, 0), 0);
}

#[test]
fn uptime_by_the_clock_starts_near_zero() {
    let started_at = unix_time();
    assert!(get_uptime(started_at) < 60);
    assert_eq!(get_uptime(u64::MAX), 0);
    assert!(get_uptime(0) > 1_577_836_800);
}
