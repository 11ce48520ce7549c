use better_tor::network::{
    country_reply_accepted, geo_country, IpInfo, IpResolver, Lookup, Reply, Request, RetryPolicy,
    PRIMARY_ATTEMPTS, RETRY_PAUSE_SECS,
};

#[derive(Default)]
struct Fakes {
    primary: Vec<Reply>,
    fallback: Option<Reply>,
    country: Option<Reply>,
    geo: Option<Reply>,
    primary_calls: usize,
    fallback_calls: usize,
    country_ips: Vec<String>,
    waits: Vec<u64>,
}

fn resolve(policy: RetryPolicy, f: &mut Fakes) -> IpInfo {
    let (mut r, mut req) = IpResolver::start(policy);
    loop {
        let reply = match req {
            Request::Primary { wait_secs } => {
                f.waits.push(wait_secs);
                let reply = f.primary.get(f.primary_calls).cloned().unwrap_or(Reply::Unreachable);
                f.primary_calls += 1;
                reply
            }
            Request::Fallback => {
                f.fallback_calls += 1;
                f.fallback.clone().unwrap_or(Reply::Unreachable)
            }
            Request::Country { ref ip } => {
                f.country_ips.push(ip.clone());
                f.country.clone().unwrap_or(Reply::Unreachable)
            }
            Request::Geo { .. } => f.geo.clone().unwrap_or(Reply::Unreachable),
            Request::Done(info) => return info,
            Request::Stop => panic!("stopped without a result"),
        };
        req = r.on_reply(reply);
    }
}

fn body(s: &str) -> Reply {
    Reply::Body(s.to_string())
}

#[test]
fn primary_success_on_last_attempt() {
    let mut f = Fakes::default();
    f.primary = vec![Reply::Unreachable; 11];
    f.primary.push(body("{\"IsTor\":true,\"IP\":\"1.2.3.4\"}"));
    f.fallback = Some(body("9.9.9.9"));
    f.country = Some(body("Germany\n"));
    let info = resolve(RetryPolicy::standard(), &mut f);
    assert_eq!(info.ip, "1.2.3.4");
    assert_eq!(info.country, "Germany");
    assert_eq!(f.primary_calls, 12);
    assert_eq!(f.fallback_calls, 0);
    assert_eq!(f.country_ips, vec!["1.2.3.4".to_string()]);
    assert_eq!(f.waits[0], 0);
    assert!(f.waits[1..].iter().all(|w| *w == RETRY_PAUSE_SECS));
}

#[test]
fn fallback_after_all_attempts_fail() {
    let mut f = Fakes::default();
    f.primary = vec![Reply::Unreachable; 12];
    f.fallback = Some(body("5.6.7.8\n"));
    let info = resolve(RetryPolicy::standard(), &mut f);
    assert_eq!(info.ip, "5.6.7.8");
    assert_eq!(info.country, "Unknown");
    assert_eq!(f.primary_calls, PRIMARY_ATTEMPTS as usize);
    assert_eq!(f.fallback_calls, 1);
    assert_eq!(f.country_ips, vec!["5.6.7.8".to_string()]);
}

#[test]
fn malformed_payloads_are_retried_without_pause() {
    let mut f = Fakes::default();
    f.primary = vec![body("<html>"), Reply::Unreadable, body("{\"IP\":7}"), body("{\"ip\":\"1.1.1.1\"}")];
    f.primary.push(body("{\"IP\":\"8.8.4.4\"}"));
    let info = resolve(RetryPolicy::standard(), &mut f);
    assert_eq!(info.ip, "8.8.4.4");
    assert_eq!(f.waits, vec![0, 0, 0, 0, 0]);
}

#[test]
fn no_source_gives_the_failure_text() {
    let mut f = Fakes::default();
    let info = resolve(RetryPolicy::standard(), &mut f);
    assert_eq!(info.ip, "Error obtaining IP");
    assert_eq!(info.country, "Unknown");
    assert_eq!(f.primary_calls, 12);
    assert_eq!(f.fallback_calls, 1);
    assert!(f.country_ips.is_empty());
}

#[test]
fn unreadable_fallback_gives_the_failure_text() {
    let mut f = Fakes::default();
    f.fallback = Some(Reply::Unreadable);
    let info = resolve(RetryPolicy { attempts: 2, pause_secs: 0 }, &mut f);
    assert_eq!(info.ip, "Error obtaining IP");
    assert_eq!(f.primary_calls, 2);
}

#[test]
fn no_attempts_goes_straight_to_fallback() {
    let mut f = Fakes::default();
    f.fallback = Some(body("  10.0.0.1 \r\n"));
    let info = resolve(RetryPolicy { attempts: 0, pause_secs: 5 }, &mut f);
    assert_eq!(info.ip, "10.0.0.1");
    assert_eq!(f.primary_calls, 0);
}

#[test]
fn country_error_marker_falls_back_to_geolocation() {
    let mut f = Fakes::default();
    f.primary = vec![body("{\"IP\":\"1.2.3.4\"}")];
    f.country = Some(body("ERROR: rate limited"));
    f.geo = Some(body("{\"status\":\"success\",\"country\":\"Testland\"}"));
    let info = resolve(RetryPolicy::standard(), &mut f);
    assert_eq!(info.country, "Testland");
    f.primary_calls = 0;
    f.country = Some(body("error"));
    let info = resolve(RetryPolicy::standard(), &mut f);
    assert_eq!(info.country, "Testland");
}

#[test]
fn both_country_sources_failing_gives_unknown() {
    let mut f = Fakes::default();
    f.primary = vec![body("{\"IP\":\"1.2.3.4\"}")];
    f.country = Some(body("Error"));
    f.geo = Some(body("{\"status\":\"fail\",\"country\":\"Testland\"}"));
    let info = resolve(RetryPolicy::standard(), &mut f);
    assert_eq!(info.ip, "1.2.3.4");
    assert_eq!(info.country, "Unknown");
    f.primary_calls = 0;
    f.country = None;
    f.geo = None;
    let info = resolve(RetryPolicy::standard(), &mut f);
    assert_eq!(info.country, "Unknown");
    f.primary_calls = 0;
    f.country = Some(body("   \n"));
    f.geo = Some(body("not json"));
    let info = resolve(RetryPolicy::standard(), &mut f);
    assert_eq!(info.country, "Unknown");
}

#[test]
fn country_reply_rules() {
    assert!(country_reply_accepted("Brazil", "brazil"));
    assert!(!country_reply_accepted("", ""));
    assert!(!country_reply_accepted("Some Error", "some error"));
    assert!(!country_reply_accepted("Undefined", "undefined error"));
}

#[test]
fn geolocation_rules() {
    let s = |x: &str| Some(x.to_string());
    assert_eq!(geo_country(s("Testland"), s("success")), s("Testland"));
    assert_eq!(geo_country(s("Testland"), s("fail")), None);
    assert_eq!(geo_country(s("Testland"), None), None);
    assert_eq!(geo_country(None, s("success")), None);
    assert_eq!(geo_country(s("Testland"), s("Success")), None);
}

#[test]
fn finished_resolver_stops() {
    let (mut r, _) = IpResolver::start(RetryPolicy::standard());
    r.lookup = Lookup::Finished;
    assert!(matches!(r.on_reply(body("x")), Request::Stop));
}
