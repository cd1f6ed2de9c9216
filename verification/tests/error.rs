use logid::LogidError;

#[test]
fn error_messages() {
    let s = |t: &str| t.to_string();
    assert_eq!(LogidError::UnsupportedRegion(s("eu")).message(), "不支持的区域: eu");
    assert_eq!(
        LogidError::RegionNotConfigured(s("cn")).message(),
        "区域 cn 未配置，请提供相应的日志服务配置"
    );
    assert_eq!(LogidError::AuthenticationFailed(s("x")).message(), "认证失败: x");
    assert_eq!(LogidError::MissingCredentials(s("x")).message(), "缺少认证凭据: x");
    assert_eq!(
        LogidError::QueryFailed(s("us"), s("HTTP 500: oops")).message(),
        "日志查询失败 [区域: us]: HTTP 500: oops"
    );
    assert_eq!(LogidError::NetworkError(s("x")).message(), "网络请求失败: x");
    assert_eq!(LogidError::JsonParseError(s("x")).message(), "JSON 解析失败: x");
    assert_eq!(LogidError::RegexError(s("x")).message(), "正则表达式错误: x");
    assert_eq!(LogidError::EnvError(s("x")).message(), "环境变量错误: x");
    assert_eq!(LogidError::EnvFileNotFound(s("x")).message(), "环境配置文件未找到: x");
    assert_eq!(LogidError::IoError(s("x")).message(), "IO 错误: x");
    assert_eq!(LogidError::FilterConfigError(s("x")).message(), "过滤配置文件格式错误: x");
    assert_eq!(LogidError::InternalError(s("x")).message(), "内部错误: x");
}

#[test]
fn error_clone_is_the_same_error() {
    let error = LogidError::QueryFailed("us".to_string(), "why".to_string());
    assert_eq!(error.clone().message(), error.message());
    assert!(matches!(error.clone(), LogidError::QueryFailed(region, detail) if region == "us" && detail == "why"));
    let error = LogidError::IoError("disk".to_string());
    assert!(matches!(error.clone(), LogidError::IoError(detail) if detail == "disk"));
}
