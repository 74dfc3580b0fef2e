//! Account sign-up and sign-in results: the messages shown for a failed
//! request and the token set of a successful sign-in.

use crate::checksum::field_text;
use crate::text::{contains_text, mentions};
use vstd::prelude::*;
use vstd::string::StringSliceAdditionalSpecFns;

verus! {

/// A failed account request: a kind and a message for the user.
#[derive(Clone, Debug, PartialEq, Eq)]
pub struct CognitoError {
    pub error_type: String,
    pub message: String,
}

impl CognitoError {
    /// The kind and the message, as `kind: message`.
    pub fn describe(&self) -> (r: String)
        ensures
            r@ == self.error_type@ + ": "@ + self.message@,
    {
        let mut text = self.error_type.clone();
        text.append(": ");
        text.append(self.message.as_str());
        text
    }
}

#[derive(Clone, Debug, PartialEq, Eq)]
pub struct SignUpResponse {
    pub user_sub: String,
    pub code_delivery_medium: Option<String>,
    pub destination: Option<String>,
}

#[derive(Clone, Debug, PartialEq, Eq)]
pub struct SignInResponse {
    pub access_token: String,
    pub refresh_token: String,
    pub id_token: String,
    pub token_type: String,
    pub expires_in: i32,
}

#[derive(Clone, Debug, PartialEq, Eq)]
pub struct ConfirmSignUpResponse {
    pub success: bool,
    pub message: String,
}

impl ConfirmSignUpResponse {
    /// The response to a confirmation code that was accepted.
    pub fn confirmed() -> (r: ConfirmSignUpResponse)
        ensures
            r.success,
            r.message@ == "メール認証が完了しました。"@,
    {
        ConfirmSignUpResponse { success: true, message: String::from_str("メール認証が完了しました。") }
    }
}

/// The tokens of a successful authentication, each as the service gave it.
#[derive(Clone, Debug, PartialEq, Eq)]
pub struct AuthenticationTokens {
    pub access_token: Option<String>,
    pub refresh_token: Option<String>,
    pub id_token: Option<String>,
    pub token_type: Option<String>,
    pub expires_in: i32,
}

/// The message for a failed sign-up whose error reads `detail`.
pub open spec fn sign_up_message(detail: Seq<u8>) -> Seq<char> {
    if mentions(detail, "InvalidPasswordException".spec_bytes()) {
        "パスワードが要件を満たしていません。大文字、小文字、数字、特殊文字を含む8文字以上のパスワードを入力してください。"@
    } else if mentions(detail, "UsernameExistsException".spec_bytes()) {
        "このメールアドレスは既に登録されています。"@
    } else if mentions(detail, "InvalidParameterException".spec_bytes()) {
        "入力内容に問題があります。メールアドレスとパスワードを確認してください。"@
    } else {
        "ユーザー登録に失敗しました。しばらく時間をおいてから再度お試しください。"@
    }
}

/// The message for a failed confirmation whose error reads `detail`.
pub open spec fn confirm_sign_up_message(detail: Seq<u8>) -> Seq<char> {
    if mentions(detail, "CodeMismatchException".spec_bytes()) {
        "確認コードが正しくありません。もう一度確認してください。"@
    } else if mentions(detail, "ExpiredCodeException".spec_bytes()) {
        "確認コードの有効期限が切れています。新規登録からやり直してください。"@
    } else if mentions(detail, "UserNotFoundException".spec_bytes()) {
        "ユーザーが見つかりません。メールアドレスを確認してください。"@
    } else if mentions(detail, "LimitExceededException".spec_bytes()) {
        "試行回数が上限に達しました。しばらく時間をおいてから再度お試しください。"@
    } else {
        "メール認証に失敗しました。確認コードとメールアドレスを確認してください。"@
    }
}

/// The message for a failed sign-in whose error reads `detail`.
pub open spec fn sign_in_message(detail: Seq<u8>) -> Seq<char> {
    if mentions(detail, "UserNotConfirmedException".spec_bytes()) {
        "メール認証が完了していません。メールを確認して認証を完了してください。"@
    } else if mentions(detail, "NotAuthorizedException".spec_bytes()) {
        "メールアドレスまたはパスワードが正しくありません。"@
    } else if mentions(detail, "UserNotFoundException".spec_bytes()) {
        "このメールアドレスは登録されていません。"@
    } else if mentions(detail, "TooManyFailedAttemptsException".spec_bytes()) {
        "ログイン試行回数が上限に達しました。しばらく時間をおいてから再度お試しください。"@
    } else if mentions(detail, "Auth flow not enabled".spec_bytes()) || mentions(
        detail,
        "USER_PASSWORD_AUTH".spec_bytes(),
    ) {
        "認証設定に問題があります。AWS CognitoでALLOW_USER_PASSWORD_AUTHを有効にしてください。"@
    } else {
        "ログインに失敗しました。メールアドレスとパスワードを確認してください。"@
    }
}

/// The kind of a failed sign-in whose error reads `detail`.
pub open spec fn sign_in_kind(detail: Seq<u8>) -> Seq<char> {
    if mentions(detail, "UserNotConfirmedException".spec_bytes()) {
        "user_not_confirmed"@
    } else {
        "sign_in_error"@
    }
}

/// The error for a failed sign-up request whose error reads `detail`.
pub fn sign_up_failure(detail: &str) -> (r: CognitoError)
    ensures
        r.error_type@ == "sign_up_error"@,
        r.message@ == sign_up_message(detail.spec_bytes()),
{
    let message = if contains_text(detail, "InvalidPasswordException") {
        "パスワードが要件を満たしていません。大文字、小文字、数字、特殊文字を含む8文字以上のパスワードを入力してください。"
    } else if contains_text(detail, "UsernameExistsException") {
        "このメールアドレスは既に登録されています。"
    } else if contains_text(detail, "InvalidParameterException") {
        "入力内容に問題があります。メールアドレスとパスワードを確認してください。"
    } else {
        "ユーザー登録に失敗しました。しばらく時間をおいてから再度お試しください。"
    };
    CognitoError {
        error_type: String::from_str("sign_up_error"),
        message: String::from_str(message),
    }
}

/// The error for a failed confirmation request whose error reads `detail`.
pub fn confirm_sign_up_failure(detail: &str) -> (r: CognitoError)
    ensures
        r.error_type@ == "confirm_sign_up_error"@,
        r.message@ == confirm_sign_up_message(detail.spec_bytes()),
{
    let message = if contains_text(detail, "CodeMismatchException") {
        "確認コードが正しくありません。もう一度確認してください。"
    } else if contains_text(detail, "ExpiredCodeException") {
        "確認コードの有効期限が切れています。新規登録からやり直してください。"
    } else if contains_text(detail, "UserNotFoundException") {
        "ユーザーが見つかりません。メールアドレスを確認してください。"
    } else if contains_text(detail, "LimitExceededException") {
        "試行回数が上限に達しました。しばらく時間をおいてから再度お試しください。"
    } else {
        "メール認証に失敗しました。確認コードとメールアドレスを確認してください。"
    };
    CognitoError {
        error_type: String::from_str("confirm_sign_up_error"),
        message: String::from_str(message),
    }
}

/// The error for a failed sign-in request whose error reads `detail`.
pub fn sign_in_failure(detail: &str) -> (r: CognitoError)
    ensures
        r.error_type@ == sign_in_kind(detail.spec_bytes()),
        r.message@ == sign_in_message(detail.spec_bytes()),
{
    let unconfirmed = contains_text(detail, "UserNotConfirmedException");
    let message = if unconfirmed {
        "メール認証が完了していません。メールを確認して認証を完了してください。"
    } else if contains_text(detail, "NotAuthorizedException") {
        "メールアドレスまたはパスワードが正しくありません。"
    } else if contains_text(detail, "UserNotFoundException") {
        "このメールアドレスは登録されていません。"
    } else if contains_text(detail, "TooManyFailedAttemptsException") {
        "ログイン試行回数が上限に達しました。しばらく時間をおいてから再度お試しください。"
    } else if contains_text(detail, "Auth flow not enabled") || contains_text(
        detail,
        "USER_PASSWORD_AUTH",
    ) {
        "認証設定に問題があります。AWS CognitoでALLOW_USER_PASSWORD_AUTHを有効にしてください。"
    } else {
        "ログインに失敗しました。メールアドレスとパスワードを確認してください。"
    };
    let kind = if unconfirmed {
        "user_not_confirmed"
    } else {
        "sign_in_error"
    };
    CognitoError { error_type: String::from_str(kind), message: String::from_str(message) }
}

/// The kind and message of the error that a sign-in result calls for: no
/// authentication result, or a missing access, refresh or ID token, checked
/// in that order; `None` where every token is there.
pub open spec fn sign_in_gap(result: Option<AuthenticationTokens>) -> Option<
    (Seq<char>, Seq<char>),
> {
    match result {
        None => Some(("auth_result_error"@, "認証結果が取得できませんでした"@)),
        Some(tokens) => if tokens.access_token is None {
            Some(("token_error"@, "アクセストークンが取得できませんでした"@))
        } else if tokens.refresh_token is None {
            Some(("token_error"@, "リフレッシュトークンが取得できませんでした"@))
        } else if tokens.id_token is None {
            Some(("token_error"@, "IDトークンが取得できませんでした"@))
        } else {
            None
        },
    }
}

fn token_failure(kind: &str, message: &str) -> (r: CognitoError)
    ensures
        r.error_type@ == kind@,
        r.message@ == message@,
{
    CognitoError { error_type: String::from_str(kind), message: String::from_str(message) }
}

/// The response to a sign-in that the service accepted, built from its
/// authentication result; an absent token type reads as empty.
pub fn sign_in_response(result: Option<AuthenticationTokens>) -> (r: Result<
    SignInResponse,
    CognitoError,
>)
    ensures
        sign_in_gap(result) matches Some(gap) ==> (r matches Err(e) && e.error_type@ == gap.0
            && e.message@ == gap.1),
        sign_in_gap(result) is None ==> (r matches Ok(response) && {
            let tokens = result->0;
            &&& response.access_token == tokens.access_token->0
            &&& response.refresh_token == tokens.refresh_token->0
            &&& response.id_token == tokens.id_token->0
            &&& response.token_type@ == field_text(tokens.token_type)
            &&& response.expires_in == tokens.expires_in
        }),
{
    let tokens = match result {
        Some(tokens) => tokens,
        None => return Err(token_failure("auth_result_error", "認証結果が取得できませんでした")),
    };
    let access_token = match tokens.access_token {
        Some(t) => t,
        None => return Err(token_failure("token_error", "アクセストークンが取得できませんでした")),
    };
    let refresh_token = match tokens.refresh_token {
        Some(t) => t,
        None => return Err(
            token_failure("token_error", "リフレッシュトークンが取得できませんでした"),
        ),
    };
    let id_token = match tokens.id_token {
        Some(t) => t,
        None => return Err(token_failure("token_error", "IDトークンが取得できませんでした")),
    };
    let token_type = match tokens.token_type {
        Some(t) => t,
        None => String::new(),
    };
    Ok(
        SignInResponse {
            access_token,
            refresh_token,
            id_token,
            token_type,
            expires_in: tokens.expires_in,
        },
    )
}

} // verus!
