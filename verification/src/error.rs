//! Errors reported by the library, their user-facing messages and the
//! recovery hints shown with them.

use vstd::prelude::*;
use crate::text::{string_of, push_str, push_dec, dec, has_substring, contains_str};

verus! {

/// What a failed network request reported about itself.
#[derive(Debug, Clone)]
pub struct NetworkFailure {
    /// The request timed out.
    pub is_timeout: bool,
    /// The connection could not be made.
    pub is_connect: bool,
    /// The transport's own description.
    pub message: String,
}

/// The kinds of file-system failure that the hints tell apart.
#[derive(Debug, Clone, Copy, PartialEq, Eq, Structural)]
pub enum IoErrorKind {
    PermissionDenied,
    NotFound,
    Other,
}

/// A failed file-system operation.
#[derive(Debug, Clone)]
pub struct IoFailure {
    pub kind: IoErrorKind,
    pub message: String,
}

/// What went wrong.
#[derive(Debug)]
pub enum WarpError {
    /// No API key is configured.
    NoApiKey,
    /// A request failed in transport.
    Network(NetworkFailure),
    /// The API answered with an error.
    ApiError { code: String, message: String, hint: Option<String> },
    /// A configuration problem.
    Config(String),
    /// A file-system operation failed.
    Io(IoFailure),
    /// Data could not be converted to or from JSON.
    Serialization(String),
    /// CSV output failed.
    Csv(String),
    /// A response could not be parsed.
    Parse(String),
    /// The user gave an invalid value.
    InvalidInput(String),
    /// Something asked for does not exist.
    NotFound(String),
    /// The operation was stopped after this many seconds.
    Timeout(u64),
    /// The API refused for too many requests.
    RateLimit,
    /// The cache failed.
    Cache(String),
    /// The server failed.
    ServerError(String),
    /// The API key was refused.
    AuthenticationFailed(String),
    /// Any other failure.
    Other(String),
}

/// The message shown for an error.
pub open spec fn error_text(e: WarpError) -> Seq<char> {
    match e {
        WarpError::NoApiKey => "🔑 API 키가 설정되지 않았습니다"@,
        WarpError::Network(_) => "🌐 네트워크 오류가 발생했습니다"@,
        WarpError::ApiError { code, message, .. } =>
            "⚠️ API 오류 ("@ + code@ + "): "@ + message@,
        WarpError::Config(m) => "⚙️ 설정 오류: "@ + m@,
        WarpError::Io(_) => "💾 파일 시스템 오류가 발생했습니다"@,
        WarpError::Serialization(_) => "📄 데이터 변환 오류가 발생했습니다"@,
        WarpError::Csv(_) => "📊 CSV 처리 오류가 발생했습니다"@,
        WarpError::Parse(m) => "🔍 응답 파싱 오류: "@ + m@,
        WarpError::InvalidInput(m) => "❌ 잘못된 입력: "@ + m@,
        WarpError::NotFound(m) => "🔎 찾을 수 없음: "@ + m@,
        WarpError::Timeout(s) => "⏱️ 시간 초과: "@ + dec(s as nat) + "초 후 작업이 중단되었습니다"@,
        WarpError::RateLimit => "⏳ 요청 한도 초과"@,
        WarpError::Cache(m) => "💾 캐시 오류: "@ + m@,
        WarpError::ServerError(m) => "🚨 서버 오류: "@ + m@,
        WarpError::AuthenticationFailed(m) => "🔐 인증 실패: "@ + m@,
        WarpError::Other(m) => "⚠️ "@ + m@,
    }
}

/// The hint shown when no API key is configured.
pub open spec fn no_api_key_hint() -> Seq<char> {
    "💡 해결 방법:\n1. https://open.law.go.kr 에서 API 키를 발급받으세요\n2. 다음 명령어로 API 키를 설정하세요:\nwarp config set law.nlic.key YOUR_API_KEY"@
}

/// The hint shown for a network failure.
pub open spec fn network_hint(f: NetworkFailure) -> Seq<char> {
    "💡 해결 방법:\n"@ + if f.is_timeout {
        "• 네트워크 연결이 느립니다. 잠시 후 다시 시도해주세요\n"@
    } else if f.is_connect {
        "• 인터넷 연결을 확인해주세요\n"@ + "• 방화벽이나 프록시 설정을 확인해주세요\n"@
    } else {
        "• 인터넷 연결 상태를 확인해주세요\n"@ + "• 문제가 지속되면 잠시 후 다시 시도해주세요\n"@
    }
}

/// The hint shown for a file-system failure.
pub open spec fn io_hint(f: IoFailure) -> Seq<char> {
    "💡 해결 방법:\n"@ + match f.kind {
        IoErrorKind::PermissionDenied =>
            "• 파일 또는 디렉토리에 대한 권한이 없습니다\n"@ + "• sudo 명령어를 사용하거나 권한을 확인하세요\n"@,
        IoErrorKind::NotFound =>
            "• 파일 또는 디렉토리를 찾을 수 없습니다\n"@ + "• 경로를 다시 확인해주세요\n"@,
        IoErrorKind::Other =>
            "• 파일 시스템 오류가 발생했습니다\n"@ + "• 디스크 공간과 권한을 확인하세요\n"@,
    }
}

/// The text of an optional string.
pub open spec fn opt_text(o: Option<String>) -> Option<Seq<char>> {
    match o {
        Some(s) => Some(s@),
        None => None,
    }
}

/// The recovery hint shown with an error, if it has one.
pub open spec fn error_hint(e: WarpError) -> Option<Seq<char>> {
    match e {
        WarpError::NoApiKey => Some(no_api_key_hint()),
        WarpError::ApiError { hint, .. } => opt_text(hint),
        WarpError::Network(f) => Some(network_hint(f)),
        WarpError::RateLimit => Some(
            "💡 해결 방법:\n• API 요청 한도를 초과했습니다\n• 잠시 후(약 1분) 다시 시도해주세요\n• 빈번한 요청은 피해주세요"@),
        WarpError::Cache(_) => Some(
            "💡 해결 방법:\n• 캐시 디렉토리의 권한을 확인해주세요\n• warp cache clear 명령으로 캐시를 초기화해보세요\n• 디스크 공간이 충분한지 확인하세요"@),
        WarpError::AuthenticationFailed(_) => Some(
            "💡 해결 방법:\n• API 키가 올바른지 확인해주세요\n• warp config get law.nlic.key 명령으로 현재 설정을 확인하세요\n• 키가 만료되었다면 새로 발급받으세요"@),
        WarpError::Parse(m) => if has_substring(m@, "XML"@) || has_substring(m@, "JSON"@) {
            Some("💡 해결 방법:\n• API 응답 형식이 예상과 다릅니다\n• --verbose 옵션으로 자세한 정보를 확인하세요\n• 문제가 지속되면 GitHub에 이슈를 등록해주세요"@)
        } else {
            None
        },
        WarpError::InvalidInput(_) => Some(
            "💡 해결 방법:\n• 입력한 값을 다시 확인해주세요\n• warp --help 명령으로 사용법을 확인하세요"@),
        WarpError::NotFound(item) => Some(
            "💡 해결 방법:\n• '"@ + item@ + "' 항목을 찾을 수 없습니다\n• 검색어나 ID를 다시 확인해주세요\n• 다른 검색어로 시도해보세요"@),
        WarpError::ServerError(_) => Some(
            "💡 해결 방법:\n• 서버에 일시적인 문제가 있습니다\n• 잠시 후 다시 시도해주세요\n• 문제가 지속되면 https://www.law.go.kr 서비스 상태를 확인하세요"@),
        WarpError::Io(f) => Some(io_hint(f)),
        _ => None,
    }
}

/// Whether trying the same request again may succeed.
pub open spec fn retryable(e: WarpError) -> bool {
    e is Network || e is Timeout || e is ServerError || e is RateLimit
}

fn clone_opt_string(o: &Option<String>) -> (res: Option<String>)
    ensures
        opt_text(res) == opt_text(*o),
{
    match o {
        Some(s) => Some(s.clone()),
        None => None,
    }
}

/// `prefix` followed by `rest`.
fn joined(prefix: &str, rest: &str) -> (res: String)
    ensures
        res@ == prefix@ + rest@,
{
    let mut s = string_of(prefix);
    push_str(&mut s, rest);
    s
}

impl WarpError {
    /// An API error with an optional hint.
    pub fn api_error(code: &str, message: &str, hint: Option<String>) -> (res: WarpError)
        ensures
            res matches WarpError::ApiError { code: c, message: m, hint: h }
                && c@ == code@ && m@ == message@ && opt_text(h) == opt_text(hint),
    {
        WarpError::ApiError { code: string_of(code), message: string_of(message), hint }
    }

    /// The message shown to the user.
    pub fn to_string(&self) -> (res: String)
        ensures
            res@ == error_text(*self),
    {
        match self {
            WarpError::NoApiKey => string_of("🔑 API 키가 설정되지 않았습니다"),
            WarpError::Network(_) => string_of("🌐 네트워크 오류가 발생했습니다"),
            WarpError::ApiError { code, message, .. } => {
                let mut s = joined("⚠️ API 오류 (", code.as_str());
                push_str(&mut s, "): ");
                push_str(&mut s, message.as_str());
                s
            }
            WarpError::Config(m) => joined("⚙️ 설정 오류: ", m.as_str()),
            WarpError::Io(_) => string_of("💾 파일 시스템 오류가 발생했습니다"),
            WarpError::Serialization(_) => string_of("📄 데이터 변환 오류가 발생했습니다"),
            WarpError::Csv(_) => string_of("📊 CSV 처리 오류가 발생했습니다"),
            WarpError::Parse(m) => joined("🔍 응답 파싱 오류: ", m.as_str()),
            WarpError::InvalidInput(m) => joined("❌ 잘못된 입력: ", m.as_str()),
            WarpError::NotFound(m) => joined("🔎 찾을 수 없음: ", m.as_str()),
            WarpError::Timeout(secs) => {
                let mut s = string_of("⏱️ 시간 초과: ");
                push_dec(&mut s, *secs);
                push_str(&mut s, "초 후 작업이 중단되었습니다");
                s
            }
            WarpError::RateLimit => string_of("⏳ 요청 한도 초과"),
            WarpError::Cache(m) => joined("💾 캐시 오류: ", m.as_str()),
            WarpError::ServerError(m) => joined("🚨 서버 오류: ", m.as_str()),
            WarpError::AuthenticationFailed(m) => joined("🔐 인증 실패: ", m.as_str()),
            WarpError::Other(m) => joined("⚠️ ", m.as_str()),
        }
    }

    /// The recovery hint for the error, if it has one.
    pub fn hint(&self) -> (res: Option<String>)
        ensures
            opt_text(res) == error_hint(*self),
    {
        match self {
            WarpError::NoApiKey => Some(string_of(
                "💡 해결 방법:\n1. https://open.law.go.kr 에서 API 키를 발급받으세요\n2. 다음 명령어로 API 키를 설정하세요:\nwarp config set law.nlic.key YOUR_API_KEY")),
            WarpError::ApiError { hint, .. } => clone_opt_string(hint),
            WarpError::Network(f) => {
                let mut h = string_of("💡 해결 방법:\n");
                if f.is_timeout {
                    push_str(&mut h, "• 네트워크 연결이 느립니다. 잠시 후 다시 시도해주세요\n");
                } else if f.is_connect {
                    push_str(&mut h, "• 인터넷 연결을 확인해주세요\n");
                    push_str(&mut h, "• 방화벽이나 프록시 설정을 확인해주세요\n");
                } else {
                    push_str(&mut h, "• 인터넷 연결 상태를 확인해주세요\n");
                    push_str(&mut h, "• 문제가 지속되면 잠시 후 다시 시도해주세요\n");
                }
                Some(h)
            }
            WarpError::RateLimit => Some(string_of(
                "💡 해결 방법:\n• API 요청 한도를 초과했습니다\n• 잠시 후(약 1분) 다시 시도해주세요\n• 빈번한 요청은 피해주세요")),
            WarpError::Cache(_) => Some(string_of(
                "💡 해결 방법:\n• 캐시 디렉토리의 권한을 확인해주세요\n• warp cache clear 명령으로 캐시를 초기화해보세요\n• 디스크 공간이 충분한지 확인하세요")),
            WarpError::AuthenticationFailed(_) => Some(string_of(
                "💡 해결 방법:\n• API 키가 올바른지 확인해주세요\n• warp config get law.nlic.key 명령으로 현재 설정을 확인하세요\n• 키가 만료되었다면 새로 발급받으세요")),
            WarpError::Parse(m) => {
                if contains_str(m.as_str(), "XML") || contains_str(m.as_str(), "JSON") {
                    Some(string_of(
                        "💡 해결 방법:\n• API 응답 형식이 예상과 다릅니다\n• --verbose 옵션으로 자세한 정보를 확인하세요\n• 문제가 지속되면 GitHub에 이슈를 등록해주세요"))
                } else {
                    None
                }
            }
            WarpError::InvalidInput(_) => Some(string_of(
                "💡 해결 방법:\n• 입력한 값을 다시 확인해주세요\n• warp --help 명령으로 사용법을 확인하세요")),
            WarpError::NotFound(item) => {
                let mut h = joined("💡 해결 방법:\n• '", item.as_str());
                push_str(&mut h, "' 항목을 찾을 수 없습니다\n• 검색어나 ID를 다시 확인해주세요\n• 다른 검색어로 시도해보세요");
                Some(h)
            }
            WarpError::ServerError(_) => Some(string_of(
                "💡 해결 방법:\n• 서버에 일시적인 문제가 있습니다\n• 잠시 후 다시 시도해주세요\n• 문제가 지속되면 https://www.law.go.kr 서비스 상태를 확인하세요")),
            WarpError::Io(f) => {
                let mut h = string_of("💡 해결 방법:\n");
                match f.kind {
                    IoErrorKind::PermissionDenied => {
                        push_str(&mut h, "• 파일 또는 디렉토리에 대한 권한이 없습니다\n");
                        push_str(&mut h, "• sudo 명령어를 사용하거나 권한을 확인하세요\n");
                    }
                    IoErrorKind::NotFound => {
                        push_str(&mut h, "• 파일 또는 디렉토리를 찾을 수 없습니다\n");
                        push_str(&mut h, "• 경로를 다시 확인해주세요\n");
                    }
                    IoErrorKind::Other => {
                        push_str(&mut h, "• 파일 시스템 오류가 발생했습니다\n");
                        push_str(&mut h, "• 디스크 공간과 권한을 확인하세요\n");
                    }
                }
                Some(h)
            }
            _ => None,
        }
    }

    /// Whether the error is worth retrying: network failures, timeouts,
    /// server errors and rate limiting.
    pub fn is_retryable(&self) -> (res: bool)
        ensures
            res == retryable(*self),
    {
        match self {
            WarpError::Network(_) | WarpError::Timeout(_) | WarpError::ServerError(_)
            | WarpError::RateLimit => true,
            _ => false,
        }
    }
}

} // verus!
