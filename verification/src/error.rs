//! The errors of the client, each with the text it is reported under.

use crate::text::join3;
use vstd::prelude::*;
use vstd::string::StringExecFns;

verus! {

/// What can go wrong while a client is set up or a query is answered.
#[derive(Debug)]
pub enum LogidError {
    /// The region key is outside the closed set of regions.
    UnsupportedRegion(String),
    /// The region is known but no log endpoint is wired for it.
    RegionNotConfigured(String),
    /// The token endpoint refused the credential or sent no token.
    AuthenticationFailed(String),
    /// No usable session credential was found for the region.
    MissingCredentials(String),
    /// The log endpoint refused the query, or its payload had the wrong
    /// shape; holds the region key and the detail.
    QueryFailed(String, String),
    /// The transport failed or timed out.
    NetworkError(String),
    /// A text was no valid JSON, or not the JSON that was expected.
    JsonParseError(String),
    /// A pattern could not be used.
    RegexError(String),
    /// The environment could not be read.
    EnvError(String),
    /// The environment file does not exist.
    EnvFileNotFound(String),
    /// Reading or writing failed.
    IoError(String),
    /// The redaction patterns cannot be compiled.
    FilterConfigError(String),
    /// The client failed in a way that is no fault of its input.
    InternalError(String),
}

impl Clone for LogidError {
    fn clone(&self) -> (copy: Self)
        ensures
            copy == *self,
    {
        match self {
            LogidError::UnsupportedRegion(s) => LogidError::UnsupportedRegion(s.clone()),
            LogidError::RegionNotConfigured(s) => LogidError::RegionNotConfigured(s.clone()),
            LogidError::AuthenticationFailed(s) => LogidError::AuthenticationFailed(s.clone()),
            LogidError::MissingCredentials(s) => LogidError::MissingCredentials(s.clone()),
            LogidError::QueryFailed(r, s) => LogidError::QueryFailed(r.clone(), s.clone()),
            LogidError::NetworkError(s) => LogidError::NetworkError(s.clone()),
            LogidError::JsonParseError(s) => LogidError::JsonParseError(s.clone()),
            LogidError::RegexError(s) => LogidError::RegexError(s.clone()),
            LogidError::EnvError(s) => LogidError::EnvError(s.clone()),
            LogidError::EnvFileNotFound(s) => LogidError::EnvFileNotFound(s.clone()),
            LogidError::IoError(s) => LogidError::IoError(s.clone()),
            LogidError::FilterConfigError(s) => LogidError::FilterConfigError(s.clone()),
            LogidError::InternalError(s) => LogidError::InternalError(s.clone()),
        }
    }
}

impl LogidError {
    /// The text an error is reported under: a fixed heading for its kind,
    /// then what the error holds.
    pub open spec fn report(self) -> Seq<char> {
        match self {
            LogidError::UnsupportedRegion(s) => "不支持的区域: "@ + s@,
            LogidError::RegionNotConfigured(s) => "区域 "@ + s@ + " 未配置，请提供相应的日志服务配置"@,
            LogidError::AuthenticationFailed(s) => "认证失败: "@ + s@,
            LogidError::MissingCredentials(s) => "缺少认证凭据: "@ + s@,
            LogidError::QueryFailed(r, s) => "日志查询失败 [区域: "@ + r@ + "]: "@ + s@,
            LogidError::NetworkError(s) => "网络请求失败: "@ + s@,
            LogidError::JsonParseError(s) => "JSON 解析失败: "@ + s@,
            LogidError::RegexError(s) => "正则表达式错误: "@ + s@,
            LogidError::EnvError(s) => "环境变量错误: "@ + s@,
            LogidError::EnvFileNotFound(s) => "环境配置文件未找到: "@ + s@,
            LogidError::IoError(s) => "IO 错误: "@ + s@,
            LogidError::FilterConfigError(s) => "过滤配置文件格式错误: "@ + s@,
            LogidError::InternalError(s) => "内部错误: "@ + s@,
        }
    }

    /// Writes the error as the text it is reported under.
    pub fn message(&self) -> (text: String)
        ensures
            text@ == self.report(),
    {
        match self {
            LogidError::UnsupportedRegion(s) => String::from_str("不支持的区域: ").concat(s.as_str()),
            LogidError::RegionNotConfigured(s) => join3(
                "区域 ",
                s.as_str(),
                " 未配置，请提供相应的日志服务配置",
            ),
            LogidError::AuthenticationFailed(s) => String::from_str("认证失败: ").concat(s.as_str()),
            LogidError::MissingCredentials(s) => String::from_str("缺少认证凭据: ").concat(s.as_str()),
            LogidError::QueryFailed(r, s) => join3("日志查询失败 [区域: ", r.as_str(), "]: ").concat(
                s.as_str(),
            ),
            LogidError::NetworkError(s) => String::from_str("网络请求失败: ").concat(s.as_str()),
            LogidError::JsonParseError(s) => String::from_str("JSON 解析失败: ").concat(s.as_str()),
            LogidError::RegexError(s) => String::from_str("正则表达式错误: ").concat(s.as_str()),
            LogidError::EnvError(s) => String::from_str("环境变量错误: ").concat(s.as_str()),
            LogidError::EnvFileNotFound(s) => String::from_str("环境配置文件未找到: ").concat(
                s.as_str(),
            ),
            LogidError::IoError(s) => String::from_str("IO 错误: ").concat(s.as_str()),
            LogidError::FilterConfigError(s) => String::from_str("过滤配置文件格式错误: ").concat(
                s.as_str(),
            ),
            LogidError::InternalError(s) => String::from_str("内部错误: ").concat(s.as_str()),
        }
    }
}

} // verus!
