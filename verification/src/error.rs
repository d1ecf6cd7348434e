//! The errors of parsing and importing proxy nodes.
use vstd::prelude::*;
use vstd::string::StringExecFns;

verus! {

/// Why a link, a subscription or an import was refused.
#[derive(Clone, Debug, PartialEq, Eq)]
pub enum ProxyError {
    /// The link has no `://`.
    NoScheme,
    /// The link's scheme is none of the supported protocols.
    UnsupportedScheme(String),
    /// The URL parser refused the link; the parser's message.
    InvalidUrl(String),
    /// The link names no host.
    NoHost,
    /// A `vmess` link does not start with `vmess://`.
    InvalidVmessUri,
    /// The body of a `vmess` link is not base64.
    VmessBase64,
    /// The decoded body of a `vmess` link is not UTF-8.
    VmessUtf8,
    /// The decoded body of a `vmess` link is not JSON.
    VmessJson,
    /// The text is not JSON; the parser's message.
    InvalidJson(String),
    /// The JSON has no `outbounds` array.
    NoOutbounds,
    /// The text is not YAML; the parser's message.
    InvalidYaml(String),
    /// The YAML has no `proxies` sequence.
    NoProxies,
    /// No format yielded a node.
    UnrecognizedFormat,
    /// The URL to import is empty.
    EmptyUrl,
    /// The URL to import is neither a share link nor an http(s) URL.
    UnsupportedUrl,
    /// A share link was given where a subscription was asked for.
    ShareLinkIsNode,
    /// The fetched content is one node where a subscription was asked for.
    ContentIsNode,
}

pub enum ErrorView {
    NoScheme,
    UnsupportedScheme(Seq<char>),
    InvalidUrl(Seq<char>),
    NoHost,
    InvalidVmessUri,
    VmessBase64,
    VmessUtf8,
    VmessJson,
    InvalidJson(Seq<char>),
    NoOutbounds,
    InvalidYaml(Seq<char>),
    NoProxies,
    UnrecognizedFormat,
    EmptyUrl,
    UnsupportedUrl,
    ShareLinkIsNode,
    ContentIsNode,
}

impl View for ProxyError {
    type V = ErrorView;

    open spec fn view(&self) -> ErrorView {
        match self {
            ProxyError::NoScheme => ErrorView::NoScheme,
            ProxyError::UnsupportedScheme(s) => ErrorView::UnsupportedScheme(s@),
            ProxyError::InvalidUrl(s) => ErrorView::InvalidUrl(s@),
            ProxyError::NoHost => ErrorView::NoHost,
            ProxyError::InvalidVmessUri => ErrorView::InvalidVmessUri,
            ProxyError::VmessBase64 => ErrorView::VmessBase64,
            ProxyError::VmessUtf8 => ErrorView::VmessUtf8,
            ProxyError::VmessJson => ErrorView::VmessJson,
            ProxyError::InvalidJson(s) => ErrorView::InvalidJson(s@),
            ProxyError::NoOutbounds => ErrorView::NoOutbounds,
            ProxyError::InvalidYaml(s) => ErrorView::InvalidYaml(s@),
            ProxyError::NoProxies => ErrorView::NoProxies,
            ProxyError::UnrecognizedFormat => ErrorView::UnrecognizedFormat,
            ProxyError::EmptyUrl => ErrorView::EmptyUrl,
            ProxyError::UnsupportedUrl => ErrorView::UnsupportedUrl,
            ProxyError::ShareLinkIsNode => ErrorView::ShareLinkIsNode,
            ProxyError::ContentIsNode => ErrorView::ContentIsNode,
        }
    }
}

/// The message shown for an error.
pub open spec fn error_message_spec(e: ErrorView) -> Seq<char> {
    match e {
        ErrorView::NoScheme => "Invalid URI: no scheme"@,
        ErrorView::UnsupportedScheme(s) => "不支持的 URI 协议: "@ + s,
        ErrorView::InvalidUrl(s) => s,
        ErrorView::NoHost => "No host"@,
        ErrorView::InvalidVmessUri => "无效的 vmess URI"@,
        ErrorView::VmessBase64 => "vmess URI base64 解码失败"@,
        ErrorView::VmessUtf8 => "vmess URI 不是有效 UTF-8"@,
        ErrorView::VmessJson => "vmess URI JSON 解析失败"@,
        ErrorView::InvalidJson(s) => s,
        ErrorView::NoOutbounds => "No outbounds array found"@,
        ErrorView::InvalidYaml(s) => s,
        ErrorView::NoProxies => "No proxies array found in YAML"@,
        ErrorView::UnrecognizedFormat => "Unable to parse subscription content: unrecognized format"@,
        ErrorView::EmptyUrl => "URL 不能为空"@,
        ErrorView::UnsupportedUrl => "不支持的 URL 格式，请输入 http(s) 链接或节点分享链接"@,
        ErrorView::ShareLinkIsNode => "该链接为单个节点分享链接，请使用「从 URL 中导入节点」"@,
        ErrorView::ContentIsNode => "该链接内容为单个节点，请使用「从 URL 中导入节点」"@,
    }
}

impl ProxyError {
    /// The message shown for this error.
    pub fn message(&self) -> (res: String)
        ensures
            res@ == error_message_spec(self@),
    {
        match self {
            ProxyError::NoScheme => "Invalid URI: no scheme".to_owned(),
            ProxyError::UnsupportedScheme(s) => {
                let mut m = "不支持的 URI 协议: ".to_owned();
                m.append(s.as_str());
                m
            },
            ProxyError::InvalidUrl(s) => s.clone(),
            ProxyError::NoHost => "No host".to_owned(),
            ProxyError::InvalidVmessUri => "无效的 vmess URI".to_owned(),
            ProxyError::VmessBase64 => "vmess URI base64 解码失败".to_owned(),
            ProxyError::VmessUtf8 => "vmess URI 不是有效 UTF-8".to_owned(),
            ProxyError::VmessJson => "vmess URI JSON 解析失败".to_owned(),
            ProxyError::InvalidJson(s) => s.clone(),
            ProxyError::NoOutbounds => "No outbounds array found".to_owned(),
            ProxyError::InvalidYaml(s) => s.clone(),
            ProxyError::NoProxies => "No proxies array found in YAML".to_owned(),
            ProxyError::UnrecognizedFormat => {
                "Unable to parse subscription content: unrecognized format".to_owned()
            },
            ProxyError::EmptyUrl => "URL 不能为空".to_owned(),
            ProxyError::UnsupportedUrl => {
                "不支持的 URL 格式，请输入 http(s) 链接或节点分享链接".to_owned()
            },
            ProxyError::ShareLinkIsNode => {
                "该链接为单个节点分享链接，请使用「从 URL 中导入节点」".to_owned()
            },
            ProxyError::ContentIsNode => {
                "该链接内容为单个节点，请使用「从 URL 中导入节点」".to_owned()
            },
        }
    }
}

}
