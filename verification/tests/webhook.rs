use deployer::classify::{classify, handle_webhook, Decision, DeployConfig, InboundEvent};
use deployer::payload::parse_payload;
use hmac::{Hmac, KeyInit, Mac};
use sha2::Sha256;

fn sign(secret: &str, body: &[u8]) -> String {
    let mut mac =
        Hmac::<Sha256>::new_from_slice(secret.as_bytes()).expect("HMAC accepts any key length");
    mac.update(body);
    format!("sha256={}", hex::encode(mac.finalize().into_bytes()))
}

fn config() -> DeployConfig {
    DeployConfig {
        webhook_secret: String::from("s3cret"),
        expected_repo_full_name: vec![String::from("org/repo"), String::from("org/other")],
        deploy_script_path: String::from("/opt/deploy/deploy.sh"),
        dev_dir: String::from("/srv/dev"),
        scripts_dir: String::from("/var/log/scripts"),
    }
}

fn event(event_type: &str, body: &str, signed: bool) -> InboundEvent {
    InboundEvent {
        event_type: String::from(event_type),
        signature: if signed { Some(sign("s3cret", body.as_bytes())) } else { None },
        raw_body: body.as_bytes().to_vec(),
    }
}

const TAG_BODY: &str =
    "{\"ref\":\"refs/tags/v2.0.0\",\"deleted\":false,\"repository\":{\"full_name\":\"org/repo\"}}";

#[test]
fn ping_is_ignored_without_signature_check() {
    let ev = event("ping", TAG_BODY, false);
    match classify(&ev, &config()) {
        Decision::Ignore(reason) => assert_eq!(reason, "not push"),
        _ => panic!("ping must be ignored"),
    }
}

#[test]
fn missing_signature_rejected() {
    let ev = event("push", TAG_BODY, false);
    match classify(&ev, &config()) {
        Decision::Reject(reason, code) => {
            assert_eq!(reason, "missing signature");
            assert_eq!(code, 401);
        },
        _ => panic!("unsigned push must be rejected"),
    }
}

#[test]
fn bad_signature_rejected() {
    let mut ev = event("push", TAG_BODY, true);
    ev.signature = Some(sign("wrong secret", TAG_BODY.as_bytes()));
    match classify(&ev, &config()) {
        Decision::Reject(reason, code) => {
            assert_eq!(reason, "bad signature");
            assert_eq!(code, 401);
        },
        _ => panic!("badly signed push must be rejected"),
    }
}

#[test]
fn invalid_payload_rejected() {
    let ev = event("push", "not json at all", true);
    match classify(&ev, &config()) {
        Decision::Reject(reason, code) => {
            assert_eq!(reason, "invalid payload");
            assert_eq!(code, 400);
        },
        _ => panic!("an unparsable body must be rejected"),
    }
}

#[test]
fn unknown_repository_rejected() {
    let body = "{\"ref\":\"refs/tags/v1.0.0\",\"repository\":{\"full_name\":\"intruder/repo\"}}";
    let ev = event("push", body, true);
    match classify(&ev, &config()) {
        Decision::Reject(reason, code) => {
            assert_eq!(reason, "repo mismatch");
            assert_eq!(code, 403);
        },
        _ => panic!("an unknown repository must be rejected"),
    }
}

#[test]
fn branch_ref_is_ignored() {
    let body = "{\"ref\":\"refs/heads/main\",\"repository\":{\"full_name\":\"org/repo\"}}";
    let ev = event("push", body, true);
    match classify(&ev, &config()) {
        Decision::Ignore(reason) => assert_eq!(reason, "not a tag ref"),
        _ => panic!("a branch push must be ignored"),
    }
}

#[test]
fn deleted_tag_is_ignored() {
    let body =
        "{\"ref\":\"refs/tags/v1.0.0\",\"deleted\":true,\"repository\":{\"full_name\":\"org/repo\"}}";
    let ev = event("push", body, true);
    match classify(&ev, &config()) {
        Decision::Ignore(reason) => assert_eq!(reason, "tag deleted"),
        _ => panic!("a deleted tag must be ignored"),
    }
}

#[test]
fn tag_push_triggers_deploy() {
    let ev = event("push", TAG_BODY, true);
    match classify(&ev, &config()) {
        Decision::Trigger(req) => {
            assert_eq!(req.repository_full_name, "org/repo");
            assert_eq!(req.repository_short_name, "repo");
            assert_eq!(req.tag, "v2.0.0");
            assert_eq!(req.script_path, "/opt/deploy/deploy.sh");
            assert_eq!(req.dev_dir, "/srv/dev");
            assert_eq!(req.scripts_dir, "/var/log/scripts");
        },
        _ => panic!("a fresh tag push must trigger"),
    }
}

#[test]
fn tag_extraction_drops_only_the_prefix() {
    let body = "{\"ref\":\"refs/tags/v1.2.3\",\"repository\":{\"full_name\":\"org/repo\"}}";
    let ev = event("push", body, true);
    match classify(&ev, &config()) {
        Decision::Trigger(req) => assert_eq!(req.tag, "v1.2.3"),
        _ => panic!("a fresh tag push must trigger"),
    }
}

#[test]
fn short_name_falls_back_to_full_name() {
    let body = "{\"ref\":\"refs/tags/v1.0.0\",\"repository\":{\"full_name\":\"org/other\"}}";
    let mut cfg = config();
    cfg.expected_repo_full_name = vec![String::from("org/other"), String::from("standalone")];
    let ev = event("push", body, true);
    match classify(&ev, &cfg) {
        Decision::Trigger(req) => assert_eq!(req.repository_short_name, "other"),
        _ => panic!("must trigger"),
    }
    let body2 = "{\"ref\":\"refs/tags/v1.0.0\",\"repository\":{\"full_name\":\"standalone\"}}";
    let ev2 = event("push", body2, true);
    match classify(&ev2, &cfg) {
        Decision::Trigger(req) => assert_eq!(req.repository_short_name, "standalone"),
        _ => panic!("must trigger"),
    }
}

#[test]
fn handle_webhook_end_to_end_trigger() {
    let ev = event("push", TAG_BODY, true);
    let resp = handle_webhook(&ev, &config());
    assert_eq!(resp.status, 200);
    assert_eq!(resp.body, "deploy triggered");
    let req = resp.deploy.expect("a deploy request must be produced");
    assert_eq!(req.tag, "v2.0.0");
}

#[test]
fn handle_webhook_ignored_body_text() {
    let ev = event("ping", TAG_BODY, false);
    let resp = handle_webhook(&ev, &config());
    assert_eq!(resp.status, 200);
    assert_eq!(resp.body, "ignored (not push)");
    assert!(resp.deploy.is_none());
}

#[test]
fn handle_webhook_reject_statuses() {
    let unsigned = event("push", TAG_BODY, false);
    let resp = handle_webhook(&unsigned, &config());
    assert_eq!(resp.status, 401);
    assert_eq!(resp.body, "missing signature");
    assert!(resp.deploy.is_none());

    let bad_json = event("push", "[1, 2, 3]", true);
    let resp = handle_webhook(&bad_json, &config());
    assert_eq!(resp.status, 400);
    assert_eq!(resp.body, "invalid payload");
}

#[test]
fn repeated_request_triggers_twice() {
    let ev = event("push", TAG_BODY, true);
    let cfg = config();
    let first = handle_webhook(&ev, &cfg);
    let second = handle_webhook(&ev, &cfg);
    let first_req = first.deploy.expect("first request must trigger");
    let second_req = second.deploy.expect("second request must trigger too");
    assert_eq!(first_req.tag, second_req.tag);
    assert_eq!(first_req.repository_full_name, second_req.repository_full_name);
}

#[test]
fn payload_defaults_for_absent_fields() {
    let p = parse_payload(b"{}").expect("an empty object parses");
    assert_eq!(p.ref_name, "");
    assert!(!p.deleted);
    assert_eq!(p.repository_full_name, "");
    assert!(parse_payload(b"{broken").is_none());
    assert!(parse_payload(b"[]").is_none());
}

#[test]
fn payload_with_wrongly_typed_field_does_not_parse() {
    assert!(parse_payload(b"{\"ref\":5}").is_none());
    assert!(parse_payload(b"{\"deleted\":\"yes\"}").is_none());
    assert!(parse_payload(b"{\"repository\":5}").is_none());
    assert!(parse_payload(b"{\"repository\":{\"full_name\":5}}").is_none());
    let p = parse_payload(b"{\"repository\":{}}").expect("an absent full_name defaults");
    assert_eq!(p.repository_full_name, "");
}

#[test]
fn wrongly_typed_field_rejected_as_invalid_payload() {
    let ev = event("push", "{\"ref\":5,\"repository\":{\"full_name\":\"org/repo\"}}", true);
    match classify(&ev, &config()) {
        Decision::Reject(reason, code) => {
            assert_eq!(reason, "invalid payload");
            assert_eq!(code, 400);
        },
        _ => panic!("a wrongly typed field must be rejected"),
    }
}
