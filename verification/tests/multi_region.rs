use logid::{
    AuthReply, DetailedLogResult, EnvManager, LogQueryResponse, LogData, LogidError,
    MultiRegionLogQuery, QueryStep,
};

fn env_of(pairs: &[(&str, &str)]) -> EnvManager {
    EnvManager::from_vars(pairs.iter().map(|(k, v)| (k.to_string(), v.to_string())).collect())
}

fn dispatcher(regions: &[&str]) -> MultiRegionLogQuery {
    MultiRegionLogQuery::new(regions, &env_of(&[("CAS_SESSION", "cookie")]), None).unwrap()
}

fn result_for(region: &str) -> DetailedLogResult {
    DetailedLogResult {
        logid: "id".to_string(),
        messages: Vec::new(),
        meta: None,
        tag_infos: None,
        total_items: 0,
        scan_time_range: None,
        level_list: None,
        timestamp: "t".to_string(),
        region: region.to_string(),
        region_display_name: region.to_string(),
    }
}

/// Queries one region the way a host program does, with a token endpoint
/// that answers as told.
fn run_query(all: &mut MultiRegionLogQuery, region: &str, auth_status: u16) -> Result<DetailedLogResult, LogidError> {
    let call = match all.query_logs_region(region, "id", &[], 0) {
        QueryStep::Refused(error) => return Err(error),
        QueryStep::Send(call) => call,
        QueryStep::Authenticate(_) => {
            let reply = AuthReply { status: auth_status, body: "body".to_string(), token: Some("tok".to_string()) };
            all.accept_auth_reply(region, Ok(reply), "id", &[], 0)?
        }
    };
    assert_eq!(call.token, "tok");
    let response = LogQueryResponse {
        data: Some(LogData { items: Vec::new(), meta: None, tag_infos: None }),
        meta: None,
        tag_infos: None,
        timestamp: "t".to_string(),
        region: region.to_string(),
        region_display_name: region.to_string(),
    };
    all.get_log_details_region(region, "id", response, None)
}

#[test]
fn dispatcher_sets_up_each_name_once() {
    let all = dispatcher(&["us", "i18n", "us", "cn"]);
    assert_eq!(all.managed_regions(), vec!["us".to_string(), "i18n".to_string(), "cn".to_string()]);
    assert_eq!(all.get_client("us").unwrap().region(), "us");
    assert_eq!(all.get_client("cn").unwrap().region(), "cn");
    assert!(all.get_client("US").is_none());
    assert!(dispatcher(&[]).managed_regions().is_empty());
}

#[test]
fn dispatcher_keeps_names_as_they_were_given() {
    let all = dispatcher(&["US"]);
    assert_eq!(all.managed_regions(), vec!["US".to_string()]);
    assert_eq!(all.get_client("US").unwrap().region(), "us");
    assert!(all.get_client("us").is_none());
}

#[test]
fn dispatcher_construction_is_all_or_nothing() {
    let env = env_of(&[("CAS_SESSION_US", "u")]);
    match MultiRegionLogQuery::new(&["us", "i18n"], &env, None) {
        Err(LogidError::MissingCredentials(report)) => {
            assert_eq!(report, "未找到 CAS_SESSION_I18n 或 CAS_SESSION 环境变量");
        }
        _ => panic!("a region without a credential fails the whole"),
    }
    match MultiRegionLogQuery::new(&["us", "moon"], &env, None) {
        Err(LogidError::UnsupportedRegion(name)) => assert_eq!(name, "moon"),
        _ => panic!("an unknown region fails the whole"),
    }
    match MultiRegionLogQuery::new(&["moon", "i18n"], &env, None) {
        Err(LogidError::UnsupportedRegion(name)) => assert_eq!(name, "moon"),
        _ => panic!("the first name that cannot be set up decides the error"),
    }
    match MultiRegionLogQuery::new(&["us"], &env, Some(r#"{"patterns": ["fine", "(", "["]}"#)) {
        Err(LogidError::FilterConfigError(report)) => {
            assert!(report.starts_with("无效的正则表达式 '(': "));
        }
        _ => panic!("a pattern that does not compile fails the whole"),
    }
    assert!(matches!(
        MultiRegionLogQuery::new(&["us"], &env, Some(r#"{"patterns": ["("]}"#)),
        Err(LogidError::FilterConfigError(_))
    ));
    assert!(matches!(
        MultiRegionLogQuery::new(&["us"], &env, Some("{")),
        Err(LogidError::JsonParseError(_))
    ));
    assert!(MultiRegionLogQuery::new(&[], &env, Some("{")).is_ok());
    assert!(matches!(
        MultiRegionLogQuery::new(&["i18n"], &env, Some("{")),
        Err(LogidError::MissingCredentials(_))
    ));
}

#[test]
fn unknown_region_is_unsupported() {
    let mut all = dispatcher(&["us", "cn"]);
    match all.query_logs_region("eu", "id", &[], 0) {
        QueryStep::Refused(LogidError::UnsupportedRegion(report)) => {
            assert_eq!(report, "未找到 eu 区域的查询客户端");
        }
        _ => panic!("a name without a client is an unsupported region"),
    }
    let reply = AuthReply { status: 200, body: String::new(), token: Some("t".to_string()) };
    assert!(matches!(
        all.accept_auth_reply("eu", Ok(reply), "id", &[], 0),
        Err(LogidError::UnsupportedRegion(_))
    ));
    assert!(matches!(run_query(&mut all, "eu", 200), Err(LogidError::UnsupportedRegion(_))));
}

#[test]
fn unwired_region_is_not_configured() {
    let all = dispatcher(&["us", "cn"]);
    match all.query_logs_region("cn", "id", &[], 0) {
        QueryStep::Refused(LogidError::RegionNotConfigured(region)) => assert_eq!(region, "cn"),
        _ => panic!("a region without a log endpoint is not configured"),
    }
}

#[test]
fn token_of_one_region_is_not_the_token_of_another() {
    let mut all = dispatcher(&["us", "i18n"]);
    let reply = AuthReply { status: 200, body: String::new(), token: Some("t-us".to_string()) };
    all.accept_auth_reply("us", Ok(reply), "id", &[], 0).unwrap();
    assert!(matches!(all.query_logs_region("us", "id", &[], 1), QueryStep::Send(call) if call.token == "t-us"));
    assert!(matches!(all.query_logs_region("i18n", "id", &[], 1), QueryStep::Authenticate(_)));
}

#[test]
fn query_all_records_every_region() {
    let mut all = dispatcher(&["us", "i18n", "cn"]);
    let mut round = all.query_all();
    assert!(!round.is_complete());
    let mut asked = Vec::new();
    loop {
        let region = match round.next_region() {
            Some(region) => region.to_string(),
            None => break,
        };
        let status = if region == "i18n" { 500 } else { 200 };
        let outcome = if region == "cn" { Ok(result_for("cn")) } else { run_query(&mut all, &region, status) };
        asked.push(region);
        round.record(outcome);
    }
    assert_eq!(asked, vec!["us", "i18n", "cn"]);
    assert!(round.is_complete());
    let results = round.into_results().unwrap();
    assert_eq!(results.len(), 3);
    assert_eq!(results[0].0, "us");
    assert_eq!(results[1].0, "i18n");
    assert_eq!(results[2].0, "cn");
    assert!(results[0].1.is_ok());
    assert!(matches!(&results[1].1, Err(LogidError::AuthenticationFailed(report))
        if report == "HTTP 500: body"));
    assert!(results[2].1.is_ok());
    assert_eq!(results.iter().filter(|(_, outcome)| outcome.is_err()).count(), 1);
    assert_eq!(results.iter().filter(|(_, outcome)| outcome.is_ok()).count(), 2);
}

#[test]
fn query_all_is_not_over_before_every_region_answered() {
    let all = dispatcher(&["us", "i18n"]);
    let mut round = all.query_all();
    assert_eq!(round.next_region(), Some("us"));
    round.record(Err(LogidError::NetworkError("down".to_string())));
    assert_eq!(round.next_region(), Some("i18n"));
    assert!(!round.is_complete());
    assert!(round.into_results().is_none());
    let empty = dispatcher(&[]).query_all();
    assert!(empty.is_complete());
    assert_eq!(empty.into_results().unwrap().len(), 0);
}
