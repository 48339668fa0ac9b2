//! The closed set of outcomes that a handler can report, and the envelopes
//! in which they travel.
use vstd::prelude::*;
use vstd::string::StringSliceAdditionalSpecFns;

use crate::documentation::{schema1, HttpFieldType, HttpObjectStructure};
use crate::external::{decimal_text, json_number};
use crate::http::{FailResult, HttpFailResult, WebContentType};
use crate::json::{null_text, object_text, object_text2, write_null, write_object, write_object2};

verus! {

/// Outcome of a request as the API reports it. `Success` is the only one
/// that is no failure.
#[derive(Clone, Copy, Debug, PartialEq, Eq, Structural)]
pub enum ApiResultStatus {
    Success,
    TokenIsInvalid,
    AccessTokenExpired,
    InvalidUserNameOrPassword,
    UserExists,
    UserNotFound,
    OldPasswordIsWrong,
    WrongFileExtension,
    CryptoDepositIsNotSupported,
    PersonalDataNotValid,
    NotEnoughFunds,
    CountryIsRestricted,
    ExchangeQuoteIsExpired,
    NoLiquidity,
    RecaptchaVerificationFail,
    ExchangeBetweenAssetsIsDisabled,
    AccessClaimRequired,
    ForceUpdateIsRequired,
}

impl ApiResultStatus {
    /// The number that stands for the status on the wire: zero for success,
    /// a negative number of its own for each failure.
    pub open spec fn wire_code(self) -> int {
        match self {
            ApiResultStatus::Success => 0,
            ApiResultStatus::TokenIsInvalid => -1,
            ApiResultStatus::AccessTokenExpired => -2,
            ApiResultStatus::InvalidUserNameOrPassword => -3,
            ApiResultStatus::UserExists => -4,
            ApiResultStatus::UserNotFound => -5,
            ApiResultStatus::OldPasswordIsWrong => -6,
            ApiResultStatus::WrongFileExtension => -7,
            ApiResultStatus::CryptoDepositIsNotSupported => -8,
            ApiResultStatus::PersonalDataNotValid => -9,
            ApiResultStatus::NotEnoughFunds => -10,
            ApiResultStatus::CountryIsRestricted => -11,
            ApiResultStatus::ExchangeQuoteIsExpired => -12,
            ApiResultStatus::NoLiquidity => -13,
            ApiResultStatus::RecaptchaVerificationFail => -14,
            ApiResultStatus::ExchangeBetweenAssetsIsDisabled => -15,
            ApiResultStatus::AccessClaimRequired => -998,
            ApiResultStatus::ForceUpdateIsRequired => -999,
        }
    }

    /// The HTTP status under which the status travels: 401 where the caller
    /// could not be told apart, 403 where a claim is missing, 200 otherwise.
    pub open spec fn transport_code(self) -> int {
        if self == ApiResultStatus::AccessTokenExpired || self == ApiResultStatus::TokenIsInvalid
            || self == ApiResultStatus::RecaptchaVerificationFail {
            401
        } else if self == ApiResultStatus::AccessClaimRequired {
            403
        } else {
            200
        }
    }

    /// Whether the outcome is recorded in telemetry. Failures that callers
    /// cause every day are left out.
    pub open spec fn telemetry_visible(self) -> bool {
        self == ApiResultStatus::Success || self == ApiResultStatus::ExchangeBetweenAssetsIsDisabled
    }

    /// The words that describe the status to a reader of the API documentation.
    pub open spec fn described_as(self) -> Seq<char> {
        match self {
            ApiResultStatus::Success => "Operations was successful"@,
            ApiResultStatus::TokenIsInvalid => "AccessTokenInvalid"@,
            ApiResultStatus::AccessTokenExpired => "AccessTokenExpired"@,
            ApiResultStatus::InvalidUserNameOrPassword => "Invalid username or password"@,
            ApiResultStatus::UserExists => "User exists"@,
            ApiResultStatus::UserNotFound => "User not found"@,
            ApiResultStatus::OldPasswordIsWrong => "Old password is wrong"@,
            ApiResultStatus::WrongFileExtension => "Wrong file extension"@,
            ApiResultStatus::CryptoDepositIsNotSupported => "Crypto deposit is not supported"@,
            ApiResultStatus::PersonalDataNotValid => "Personal data is not valid"@,
            ApiResultStatus::NotEnoughFunds => "Not enough funds"@,
            ApiResultStatus::CountryIsRestricted => "CountryRestriction"@,
            ApiResultStatus::ExchangeQuoteIsExpired => "Exchange quote is expired"@,
            ApiResultStatus::NoLiquidity => "No liquidity"@,
            ApiResultStatus::RecaptchaVerificationFail => "Recaptcha verification fail"@,
            ApiResultStatus::ExchangeBetweenAssetsIsDisabled => "Exchange between assets is disabled"@,
            ApiResultStatus::AccessClaimRequired => "Access claim required"@,
            ApiResultStatus::ForceUpdateIsRequired => "Force Update required"@,
        }
    }

    /// The status that a wire code stands for, if any.
    pub open spec fn of_wire_code(code: int) -> Option<ApiResultStatus> {
        if exists|status: ApiResultStatus| status.wire_code() == code {
            Some(choose|status: ApiResultStatus| status.wire_code() == code)
        } else {
            None
        }
    }

    /// The wire code of the status.
    pub fn code(&self) -> (code: i16)
        ensures
            code == self.wire_code(),
    {
        match self {
            ApiResultStatus::Success => 0,
            ApiResultStatus::TokenIsInvalid => -1,
            ApiResultStatus::AccessTokenExpired => -2,
            ApiResultStatus::InvalidUserNameOrPassword => -3,
            ApiResultStatus::UserExists => -4,
            ApiResultStatus::UserNotFound => -5,
            ApiResultStatus::OldPasswordIsWrong => -6,
            ApiResultStatus::WrongFileExtension => -7,
            ApiResultStatus::CryptoDepositIsNotSupported => -8,
            ApiResultStatus::PersonalDataNotValid => -9,
            ApiResultStatus::NotEnoughFunds => -10,
            ApiResultStatus::CountryIsRestricted => -11,
            ApiResultStatus::ExchangeQuoteIsExpired => -12,
            ApiResultStatus::NoLiquidity => -13,
            ApiResultStatus::RecaptchaVerificationFail => -14,
            ApiResultStatus::ExchangeBetweenAssetsIsDisabled => -15,
            ApiResultStatus::AccessClaimRequired => -998,
            ApiResultStatus::ForceUpdateIsRequired => -999,
        }
    }

    /// The words that describe the status in the API documentation.
    pub fn description(&self) -> (text: &'static str)
        ensures
            text@ == self.described_as(),
    {
        match self {
            ApiResultStatus::Success => "Operations was successful",
            ApiResultStatus::TokenIsInvalid => "AccessTokenInvalid",
            ApiResultStatus::AccessTokenExpired => "AccessTokenExpired",
            ApiResultStatus::InvalidUserNameOrPassword => "Invalid username or password",
            ApiResultStatus::UserExists => "User exists",
            ApiResultStatus::UserNotFound => "User not found",
            ApiResultStatus::OldPasswordIsWrong => "Old password is wrong",
            ApiResultStatus::WrongFileExtension => "Wrong file extension",
            ApiResultStatus::CryptoDepositIsNotSupported => "Crypto deposit is not supported",
            ApiResultStatus::PersonalDataNotValid => "Personal data is not valid",
            ApiResultStatus::NotEnoughFunds => "Not enough funds",
            ApiResultStatus::CountryIsRestricted => "CountryRestriction",
            ApiResultStatus::ExchangeQuoteIsExpired => "Exchange quote is expired",
            ApiResultStatus::NoLiquidity => "No liquidity",
            ApiResultStatus::RecaptchaVerificationFail => "Recaptcha verification fail",
            ApiResultStatus::ExchangeBetweenAssetsIsDisabled => "Exchange between assets is disabled",
            ApiResultStatus::AccessClaimRequired => "Access claim required",
            ApiResultStatus::ForceUpdateIsRequired => "Force Update required",
        }
    }

    /// Reads a status back from its wire code.
    pub fn from_code(code: i16) -> (status: Option<ApiResultStatus>)
        ensures
            status == Self::of_wire_code(code as int),
            status matches Some(s) ==> s.wire_code() == code,
            status is None ==> forall|s: ApiResultStatus| s.wire_code() != code,
    {
        let status = match code {
            0 => Some(ApiResultStatus::Success),
            -1 => Some(ApiResultStatus::TokenIsInvalid),
            -2 => Some(ApiResultStatus::AccessTokenExpired),
            -3 => Some(ApiResultStatus::InvalidUserNameOrPassword),
            -4 => Some(ApiResultStatus::UserExists),
            -5 => Some(ApiResultStatus::UserNotFound),
            -6 => Some(ApiResultStatus::OldPasswordIsWrong),
            -7 => Some(ApiResultStatus::WrongFileExtension),
            -8 => Some(ApiResultStatus::CryptoDepositIsNotSupported),
            -9 => Some(ApiResultStatus::PersonalDataNotValid),
            -10 => Some(ApiResultStatus::NotEnoughFunds),
            -11 => Some(ApiResultStatus::CountryIsRestricted),
            -12 => Some(ApiResultStatus::ExchangeQuoteIsExpired),
            -13 => Some(ApiResultStatus::NoLiquidity),
            -14 => Some(ApiResultStatus::RecaptchaVerificationFail),
            -15 => Some(ApiResultStatus::ExchangeBetweenAssetsIsDisabled),
            -998 => Some(ApiResultStatus::AccessClaimRequired),
            -999 => Some(ApiResultStatus::ForceUpdateIsRequired),
            _ => None,
        };
        proof {
            match status {
                Some(s) => {
                    assert(s.wire_code() == code);
                    let chosen = choose|t: ApiResultStatus| t.wire_code() == code as int;
                    assert(chosen.wire_code() == s.wire_code());
                    lemma_wire_code_injective(chosen, s);
                },
                None => {
                    assert forall|s: ApiResultStatus| s.wire_code() != code by {}
                },
            }
        }
        status
    }

    /// The HTTP status under which the status travels.
    pub fn get_status_code(&self) -> (code: u16)
        ensures
            code == self.transport_code(),
    {
        match self {
            ApiResultStatus::Success => 200,
            ApiResultStatus::InvalidUserNameOrPassword => 200,
            ApiResultStatus::UserExists => 200,
            ApiResultStatus::UserNotFound => 200,
            ApiResultStatus::OldPasswordIsWrong => 200,
            ApiResultStatus::WrongFileExtension => 200,
            ApiResultStatus::PersonalDataNotValid => 200,
            ApiResultStatus::AccessTokenExpired => 401,
            ApiResultStatus::TokenIsInvalid => 401,
            ApiResultStatus::RecaptchaVerificationFail => 401,
            ApiResultStatus::CountryIsRestricted => 200,
            ApiResultStatus::ForceUpdateIsRequired => 200,
            ApiResultStatus::NotEnoughFunds => 200,
            ApiResultStatus::ExchangeQuoteIsExpired => 200,
            ApiResultStatus::NoLiquidity => 200,
            ApiResultStatus::AccessClaimRequired => 403,
            ApiResultStatus::CryptoDepositIsNotSupported => 200,
            ApiResultStatus::ExchangeBetweenAssetsIsDisabled => 200,
        }
    }

    /// The failure response that carries this status alone.
    pub fn into_fail_result(self) -> (result: HttpFailResult)
        ensures
            result@ == status_response(self, status_envelope(self)),
    {
        let status_code = self.get_status_code();
        let content = ApiHttpResult { status: self }.to_json();
        let write_to_telemetry = write_to_telemetry(&self);
        HttpFailResult::new(
            WebContentType::Json,
            status_code,
            content,
            write_to_telemetry,
            write_to_telemetry,
        )
    }
}

/// Two statuses with one wire code are the same status.
pub proof fn lemma_wire_code_injective(a: ApiResultStatus, b: ApiResultStatus)
    requires
        a.wire_code() == b.wire_code(),
    ensures
        a == b,
{
}

/// Every status has a wire code, a transport code and a telemetry decision,
/// each fixed by the status alone: success alone has code zero, every failure
/// a negative code that fits sixteen bits, the transport code is one of 200,
/// 401 and 403, and reading a wire code back gives the status it came from.
pub proof fn lemma_status_mapping_total(status: ApiResultStatus)
    ensures
        status.wire_code() == 0 <==> status == ApiResultStatus::Success,
        -999 <= status.wire_code() <= 0,
        status.transport_code() == 200 || status.transport_code() == 401
            || status.transport_code() == 403,
        status.telemetry_visible() ==> status.transport_code() == 200,
        ApiResultStatus::of_wire_code(status.wire_code()) == Some(status),
{
    let chosen = choose|t: ApiResultStatus| t.wire_code() == status.wire_code();
    lemma_wire_code_injective(chosen, status);
}

/// Whether an outcome is recorded in telemetry.
pub fn write_to_telemetry(from: &ApiResultStatus) -> (visible: bool)
    ensures
        visible == from.telemetry_visible(),
{
    match from {
        ApiResultStatus::Success => true,
        ApiResultStatus::InvalidUserNameOrPassword => false,
        ApiResultStatus::UserExists => false,
        ApiResultStatus::UserNotFound => false,
        ApiResultStatus::OldPasswordIsWrong => false,
        ApiResultStatus::WrongFileExtension => false,
        ApiResultStatus::PersonalDataNotValid => false,
        ApiResultStatus::AccessTokenExpired => false,
        ApiResultStatus::RecaptchaVerificationFail => false,
        ApiResultStatus::CountryIsRestricted => false,
        ApiResultStatus::ForceUpdateIsRequired => false,
        ApiResultStatus::NotEnoughFunds => false,
        ApiResultStatus::ExchangeQuoteIsExpired => false,
        ApiResultStatus::NoLiquidity => false,
        ApiResultStatus::AccessClaimRequired => false,
        ApiResultStatus::CryptoDepositIsNotSupported => false,
        ApiResultStatus::TokenIsInvalid => false,
        ApiResultStatus::ExchangeBetweenAssetsIsDisabled => true,
    }
}

/// The body `{"status":code}` of the bare envelope.
pub open spec fn status_envelope(status: ApiResultStatus) -> Seq<u8> {
    object_text("status".spec_bytes(), decimal_text(status.wire_code()))
}

/// The body `{"status":code,"data":payload}` of the envelope with data, where
/// an absent payload is written as `null`.
pub open spec fn status_data_envelope(status: ApiResultStatus, data: Option<Seq<u8>>) -> Seq<u8> {
    object_text2(
        "status".spec_bytes(),
        decimal_text(status.wire_code()),
        "data".spec_bytes(),
        match data {
            Some(payload) => payload,
            None => null_text(),
        },
    )
}

/// The JSON response that reports `status` with the given body: transport
/// code and telemetry decision are those of the status.
pub open spec fn status_response(status: ApiResultStatus, content: Seq<u8>) -> FailResult {
    FailResult {
        content_type: WebContentType::Json,
        status_code: status.transport_code(),
        content,
        write_telemetry: status.telemetry_visible(),
        write_to_log: status.telemetry_visible(),
    }
}

/// The bare envelope: a status and nothing else.
#[derive(Clone, Copy, Debug, PartialEq, Eq, Structural)]
pub struct ApiHttpResult {
    pub status: ApiResultStatus,
}

impl ApiHttpResult {
    /// The body of the envelope.
    pub fn to_json(&self) -> (text: Vec<u8>)
        ensures
            text@ == status_envelope(self.status),
    {
        let code = json_number(self.status.code());
        write_object("status", code.as_slice())
    }

    /// The failure response that carries the envelope.
    pub fn into_fail_result(self) -> (result: HttpFailResult)
        ensures
            result@ == status_response(self.status, status_envelope(self.status)),
    {
        self.status.into_fail_result()
    }

    /// The schema of the envelope.
    pub fn get_data_type() -> (schema: HttpObjectStructure)
        ensures
            schema@ == schema1("ApiHttpResult"@, "status"@, HttpFieldType::ResultStatus),
    {
        HttpObjectStructure::with_field("ApiHttpResult", "status", HttpFieldType::ResultStatus)
    }
}

/// The envelope for endpoints that return data beside a status. The payload
/// is held as the JSON text it was encoded to.
#[derive(Debug)]
pub struct ApiHttpResultWithData {
    pub status: ApiResultStatus,
    pub data: Option<Vec<u8>>,
}

impl ApiHttpResultWithData {
    /// The payload as a sequence of bytes, if there is one.
    pub open spec fn payload(&self) -> Option<Seq<u8>> {
        match self.data {
            Some(data) => Some(data@),
            None => None,
        }
    }

    /// The body of the envelope.
    pub fn to_json(&self) -> (text: Vec<u8>)
        ensures
            text@ == status_data_envelope(self.status, self.payload()),
    {
        let code = json_number(self.status.code());
        match &self.data {
            Some(data) => write_object2("status", code.as_slice(), "data", data.as_slice()),
            None => {
                let null = write_null();
                write_object2("status", code.as_slice(), "data", null.as_slice())
            },
        }
    }

    /// The failure response that carries the envelope.
    pub fn into_fail_result(self) -> (result: HttpFailResult)
        ensures
            result@ == status_response(
                self.status,
                status_data_envelope(self.status, self.payload()),
            ),
    {
        let status_code = self.status.get_status_code();
        let write_to_telemetry = write_to_telemetry(&self.status);
        let content = self.to_json();
        HttpFailResult::new(
            WebContentType::Json,
            status_code,
            content,
            write_to_telemetry,
            write_to_telemetry,
        )
    }
}

} // verus!
