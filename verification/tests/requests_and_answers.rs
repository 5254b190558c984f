use voucher_claim::headers::{is_valid_header_value, header_redeem, referer_for, validate_headers, Header, HeaderError};
use voucher_claim::json::{catalog_id, redeem_message, JsonValue};
use voucher_claim::redeem::{
    catalog_settled, judge_catalog_answer, judge_redeem_answer, redeem_worker_count, validation_done,
    worker_count_from, CatalogAnswer, RedeemVerdict, RedeemWorker, RetryBudget, RetryStep, WorkerEnd, WorkerStep,
    CLAIMED_MESSAGE, MAX_ATTEMPTS,
};
use voucher_claim::request::{
    catalog_detail_body, redeem_coupon_body, validate_redeem_body, CATALOG_DETAIL_QUERY, REDEEM_COUPON_QUERY,
    VALIDATE_REDEEM_QUERY,
};

fn pairs(hs: &[Header]) -> Vec<(String, String)> {
    hs.iter().map(|h| (h.name.clone(), h.value.clone())).collect()
}

fn names(hs: &[Header]) -> Vec<String> {
    hs.iter().map(|h| h.name.clone()).collect()
}

#[test]
fn validation_headers_carry_the_cookie_last() {
    let hs = validate_headers("sid=abc").unwrap();
    let p = pairs(&hs);
    assert_eq!(p.len(), 18);
    assert_eq!(p[0], ("Connection".to_string(), "keep-alive".to_string()));
    assert_eq!(p[6], ("Referer".to_string(), "https://www.tokopedia.com/rewards/kupon/detail/GC25OCTA".to_string()));
    assert_eq!(p[17], ("cookie".to_string(), "sid=abc".to_string()));
    assert!(!names(&hs).contains(&"x-tkpd-akamai".to_string()));
    assert_eq!(
        p[7].1,
        "\"Not A(Brand\";v=\"8\", \"Google Chrome\";v=\"129\", \"Chromium\";v=\"129\""
    );
}

#[test]
fn header_redeem_names_the_coupon_page_and_the_claim() {
    let hs = header_redeem("GC10DECA", "sid=abc").unwrap();
    let p = pairs(&hs);
    assert_eq!(p.len(), 19);
    assert_eq!(p[6], ("Referer".to_string(), "https://www.tokopedia.com/rewards/kupon/detail/GC10DECA".to_string()));
    assert_eq!(p[15], ("x-tkpd-akamai".to_string(), "claimcoupon".to_string()));
    assert_eq!(p[18], ("cookie".to_string(), "sid=abc".to_string()));
    assert_eq!(p[14], ("X-Source".to_string(), "tokopedia-lite".to_string()));
}

#[test]
fn headers_refuse_what_a_header_cannot_carry() {
    assert!(matches!(validate_headers("a\nb"), Err(HeaderError::InvalidCookie)));
    assert!(matches!(header_redeem("GC\u{7f}", "ok"), Err(HeaderError::InvalidReferer)));
    assert!(matches!(header_redeem("bad\r", "also\nbad"), Err(HeaderError::InvalidReferer)));
    assert!(matches!(header_redeem("GC1", "x\u{1}"), Err(HeaderError::InvalidCookie)));
    assert!(header_redeem("GC1", "tab\there é").is_ok());
}

#[test]
fn header_values_follow_http_rules() {
    assert!(is_valid_header_value("plain text ~"));
    assert!(is_valid_header_value("\t"));
    assert!(is_valid_header_value("héllo"));
    assert!(!is_valid_header_value("a\u{7f}"));
    assert!(!is_valid_header_value("\u{0}"));
    assert_eq!(referer_for("X"), "https://www.tokopedia.com/rewards/kupon/detail/X");
}

#[test]
fn request_bodies_hold_one_operation() {
    let v = validate_redeem_body(777);
    assert_eq!(v.len(), 1);
    assert_eq!(v[0].operation_name, "validateRedeem");
    assert_eq!(v[0].variables.catalog_id, 777);
    assert_eq!(v[0].variables.is_gift, 0);
    assert_eq!(v[0].variables.gift_email, "");
    assert_eq!(v[0].variables.notes, "");
    assert_eq!(v[0].query, VALIDATE_REDEEM_QUERY);
    assert!(v[0].query.starts_with("mutation validateRedeem("));

    let r = redeem_coupon_body(-3);
    assert_eq!(r[0].operation_name, "redeemCoupon");
    assert_eq!(r[0].variables.catalog_id, -3);
    assert_eq!(r[0].query, REDEEM_COUPON_QUERY);
    assert!(r[0].query.contains("apiVersion: \"2.0.0\""));

    let s = catalog_detail_body("GC10DECA");
    assert_eq!(s.len(), 1);
    assert_eq!(s[0].operation_name, "CatalogDetailQuery");
    assert_eq!(s[0].variables.slug, "GC10DECA");
    assert_eq!(s[0].query, CATALOG_DETAIL_QUERY);
}

fn obj(entries: Vec<(&str, JsonValue)>) -> JsonValue {
    JsonValue::Object(entries.into_iter().map(|(k, v)| (k.to_string(), v)).collect())
}

#[test]
fn redeem_message_is_read_from_its_path() {
    let body = obj(vec![(
        "data",
        obj(vec![("hachikoRedeem", obj(vec![
            ("coupons", JsonValue::Array(vec![])),
            ("redeemMessage", JsonValue::Str("Kupon berhasil diklaim".to_string())),
        ]))]),
    )]);
    assert_eq!(redeem_message(&body), Some("Kupon berhasil diklaim".to_string()));
    let no_message = obj(vec![("data", obj(vec![("hachikoRedeem", JsonValue::Null)]))]);
    assert_eq!(redeem_message(&no_message), None);
    let not_text = obj(vec![("data", obj(vec![("hachikoRedeem", obj(vec![("redeemMessage", JsonValue::Int(1))]))]))]);
    assert_eq!(redeem_message(&not_text), None);
    assert_eq!(redeem_message(&JsonValue::Array(vec![])), None);
}

#[test]
fn catalog_id_is_read_from_the_first_answer() {
    let body = JsonValue::Array(vec![obj(vec![(
        "data",
        obj(vec![
            ("tokopoints", JsonValue::Null),
            ("hachikoCatalogDetail", obj(vec![("title", JsonValue::Str("t".into())), ("id", JsonValue::Int(98765))])),
        ]),
    )])]);
    assert_eq!(catalog_id(&body), Some(98765));
    let float_id = JsonValue::Array(vec![obj(vec![(
        "data",
        obj(vec![("hachikoCatalogDetail", obj(vec![("id", JsonValue::OtherNumber)]))]),
    )])]);
    assert_eq!(catalog_id(&float_id), None);
    assert_eq!(catalog_id(&JsonValue::Array(vec![])), None);
    assert_eq!(catalog_id(&obj(vec![("data", JsonValue::Null)])), None);
}

#[test]
fn validation_is_settled_by_status_ok() {
    assert!(validation_done(200));
    assert!(!validation_done(429));
    assert!(!validation_done(500));
}

#[test]
fn catalog_answers_are_judged() {
    assert_eq!(judge_catalog_answer(200, Some(5)), CatalogAnswer::Found(5));
    assert_eq!(judge_catalog_answer(200, None), CatalogAnswer::IdMissing);
    assert_eq!(judge_catalog_answer(403, Some(5)), CatalogAnswer::Refused(403));
}

#[test]
fn redeem_answers_are_judged() {
    assert!(matches!(judge_redeem_answer(200, Some(CLAIMED_MESSAGE.to_string())), RedeemVerdict::Claimed));
    match judge_redeem_answer(200, Some("Kuota habis".to_string())) {
        RedeemVerdict::Unexpected(m) => assert_eq!(m, "Kuota habis"),
        _ => panic!("expected an unexpected message"),
    }
    assert!(matches!(judge_redeem_answer(200, None), RedeemVerdict::MessageMissing));
    assert!(matches!(judge_redeem_answer(400, Some(CLAIMED_MESSAGE.to_string())), RedeemVerdict::NotAccepted));
    assert!(matches!(judge_redeem_answer(200, Some("kupon berhasil diklaim".to_string())), RedeemVerdict::Unexpected(_)));
}

#[test]
fn a_worker_sends_at_most_three_requests() {
    let mut w = RedeemWorker::new();
    let mut sent = Vec::new();
    loop {
        match w.next_step(false) {
            WorkerStep::Send(n) => {
                sent.push(n);
                w.record(&RedeemVerdict::NotAccepted);
            }
            WorkerStep::Finish(end) => {
                assert_eq!(end, WorkerEnd::Exhausted);
                break;
            }
        }
    }
    assert_eq!(sent, vec![1, 2, 3]);
    assert_eq!(MAX_ATTEMPTS, 3);
}

#[test]
fn a_claim_ends_the_worker() {
    let mut w = RedeemWorker::new();
    assert_eq!(w.next_step(false), WorkerStep::Send(1));
    w.record(&RedeemVerdict::Claimed);
    assert_eq!(w.next_step(false), WorkerStep::Finish(WorkerEnd::Claimed));
    assert_eq!(w.next_step(true), WorkerStep::Finish(WorkerEnd::Claimed));
}

#[test]
fn a_stop_request_ends_the_worker() {
    let mut w = RedeemWorker::new();
    assert_eq!(w.next_step(false), WorkerStep::Send(1));
    w.record(&RedeemVerdict::MessageMissing);
    assert_eq!(w.next_step(true), WorkerStep::Finish(WorkerEnd::Stopped));
    assert_eq!(w.attempts, 1);
    assert_eq!(w.next_step(false), WorkerStep::Send(2));
}

#[test]
fn worker_count_is_at_least_four() {
    assert_eq!(worker_count_from(2, 2), 4);
    assert_eq!(worker_count_from(4, 4), 4);
    assert_eq!(worker_count_from(8, 8), 8);
    assert_eq!(worker_count_from(8, 6), 6);
    assert_eq!(redeem_worker_count(), std::cmp::max(num_cpus::get(), 4));
}

#[test]
fn catalog_lookup_is_settled_by_an_id() {
    assert!(catalog_settled(CatalogAnswer::Found(1)));
    assert!(!catalog_settled(CatalogAnswer::IdMissing));
    assert!(!catalog_settled(CatalogAnswer::Refused(500)));
}

#[test]
fn a_failing_request_is_sent_three_times_then_given_up() {
    let mut budget = RetryBudget::new();
    let mut sent = 0;
    loop {
        sent += 1;
        match budget.after_answer(validation_done(503)) {
            RetryStep::SendAgain => continue,
            RetryStep::GiveUp => break,
            RetryStep::Done => panic!("503 does not settle the validation"),
        }
    }
    assert_eq!(sent, 3);
    assert_eq!(budget.sent, MAX_ATTEMPTS);
}

#[test]
fn a_settled_request_stops_at_once() {
    let mut budget = RetryBudget::new();
    assert_eq!(budget.after_answer(false), RetryStep::SendAgain);
    assert_eq!(budget.after_answer(true), RetryStep::Done);
    let mut last = RetryBudget { sent: 2 };
    assert_eq!(last.after_answer(true), RetryStep::Done);
    let mut full = RetryBudget { sent: u32::MAX };
    assert_eq!(full.after_answer(false), RetryStep::GiveUp);
    assert_eq!(full.sent, u32::MAX);
}
