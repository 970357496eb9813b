//! The check for a new version: which address is asked, and what is done with the answer.

use vstd::prelude::*;
use vstd::string::*;

use crate::text;
use crate::urls;
use crate::urls::{UrlParts, UrlView};

verus! {

/// Where the check asks for the newest version.
#[derive(Debug)]
pub struct EndpointChoice {
    /// The address that the user has set; the built-in one is asked where there is none.
    pub endpoint: Option<String>,
    /// What is logged about an address that is no use.
    pub log: Option<String>,
}

/// The model of where the check asks.
#[verifier::ext_equal]
pub struct EndpointView {
    pub endpoint: Option<Seq<char>>,
    pub log: Option<Seq<char>>,
}

impl View for EndpointChoice {
    type V = EndpointView;

    open spec fn view(&self) -> EndpointView {
        EndpointView {
            endpoint: text::opt_text(self.endpoint),
            log: text::opt_text(self.log),
        }
    }
}

/// What is logged about an address that is no use.
pub open spec fn endpoint_error(endpoint: Seq<char>, reason: Seq<char>) -> Seq<char> {
    "[updater] 自定义 update_endpoint 无效,改用内置默认: "@ + endpoint + ": "@ + reason
}

/// Words what is logged about an address that is no use.
pub fn endpoint_message(endpoint: &str, reason: &str) -> (message: String)
    ensures
        message@ == endpoint_error(endpoint@, reason@),
{
    let mut message = "[updater] 自定义 update_endpoint 无效,改用内置默认: ".to_owned();
    message.append(endpoint);
    message.append(": ");
    message.append(reason);
    message
}

/// Where the check asks, given the address that the user has set and what it was parsed to. One
/// that is no address must not end the updates: the built-in address is asked in its place.
pub open spec fn chosen_endpoint(
    endpoint: Seq<char>,
    parsed: Result<UrlView, Seq<char>>,
) -> EndpointView {
    match parsed {
        Ok(url) => EndpointView { endpoint: Some(url.whole), log: None },
        Err(reason) => EndpointView {
            endpoint: None,
            log: Some(endpoint_error(endpoint, reason)),
        },
    }
}

/// Finds where the check asks from the address that the user has set and what it was parsed to.
pub fn choose_parsed(endpoint: &str, parsed: Result<UrlParts, String>) -> (choice: EndpointChoice)
    ensures
        choice@ == chosen_endpoint(endpoint@, urls::url_view(parsed)),
{
    match parsed {
        Ok(url) => EndpointChoice { endpoint: Some(url.whole), log: None },
        Err(reason) => EndpointChoice {
            endpoint: None,
            log: Some(endpoint_message(endpoint, reason.as_str())),
        },
    }
}

/// Finds where the check asks from the address that the user has set, where there is one.
pub fn choose_endpoint(configured: Option<&str>) -> (choice: EndpointChoice)
    ensures
        choice@ == match configured {
            Some(endpoint) => chosen_endpoint(endpoint@, urls::parsed_url(endpoint@)),
            None => (EndpointView { endpoint: None, log: None }),
        },
{
    match configured {
        Some(endpoint) => choose_parsed(endpoint, urls::parse_url(endpoint)),
        None => EndpointChoice { endpoint: None, log: None },
    }
}

/// Finds where the check asks in place of an address that it refused.
pub fn refuse_endpoint(endpoint: &str, reason: &str) -> (choice: EndpointChoice)
    ensures
        choice@ == (EndpointView {
            endpoint: None,
            log: Some(endpoint_error(endpoint@, reason@)),
        }),
{
    EndpointChoice { endpoint: None, log: Some(endpoint_message(endpoint, reason)) }
}

/// What came of the check.
#[derive(Debug)]
pub enum CheckOutcome {
    /// It could not be set up, for this reason.
    InitFailed(String),
    /// It failed, for this reason.
    CheckFailed(String),
    /// This is the newest version.
    UpToDate,
    /// There is a newer version.
    Found,
    /// There is a newer version, and the dialog could not be shown, for this reason.
    DialogFailed(String),
}

/// What is done after the check.
#[derive(Debug)]
pub enum CheckAction {
    /// Nothing: the user is not disturbed.
    Stay,
    /// Log this, and do nothing else.
    Log(String),
    /// Show the dialog.
    ShowDialog,
}

/// The model of what is done after the check.
#[verifier::ext_equal]
pub enum CheckActionView {
    Stay,
    Log(Seq<char>),
    ShowDialog,
}

impl View for CheckAction {
    type V = CheckActionView;

    open spec fn view(&self) -> CheckActionView {
        match self {
            CheckAction::Stay => CheckActionView::Stay,
            CheckAction::Log(message) => CheckActionView::Log(message@),
            CheckAction::ShowDialog => CheckActionView::ShowDialog,
        }
    }
}

/// What is done after the check came to `outcome`. The user is disturbed by nothing but a newer
/// version.
pub open spec fn after_check(outcome: CheckOutcome) -> CheckActionView {
    match outcome {
        CheckOutcome::InitFailed(reason) => CheckActionView::Log(
            "[updater] 初始化失败: "@ + reason@,
        ),
        CheckOutcome::CheckFailed(reason) => CheckActionView::Log(
            "[updater] 检查更新失败(忽略): "@ + reason@,
        ),
        CheckOutcome::UpToDate => CheckActionView::Stay,
        CheckOutcome::Found => CheckActionView::ShowDialog,
        CheckOutcome::DialogFailed(reason) => CheckActionView::Log(
            "[updater] 打开更新弹窗失败(忽略): "@ + reason@,
        ),
    }
}

/// Finds what is done after the check came to `outcome`.
pub fn check_for_update(outcome: CheckOutcome) -> (action: CheckAction)
    ensures
        action@ == after_check(outcome),
{
    let (prefix, reason) = match outcome {
        CheckOutcome::InitFailed(reason) => ("[updater] 初始化失败: ", reason),
        CheckOutcome::CheckFailed(reason) => ("[updater] 检查更新失败(忽略): ", reason),
        CheckOutcome::DialogFailed(reason) => ("[updater] 打开更新弹窗失败(忽略): ", reason),
        CheckOutcome::UpToDate => {
            return CheckAction::Stay;
        },
        CheckOutcome::Found => {
            return CheckAction::ShowDialog;
        },
    };
    let mut message = prefix.to_owned();
    message.append(reason.as_str());
    CheckAction::Log(message)
}

/// The dialog is shown where a newer version was found, and nowhere else.
pub proof fn law_only_a_newer_version_is_shown(outcome: CheckOutcome)
    ensures
        after_check(outcome) is ShowDialog <==> outcome is Found,
{
}

/// An address that cannot be used is logged, and the built-in one is asked.
pub proof fn law_a_wrong_endpoint_falls_back(endpoint: Seq<char>, reason: Seq<char>)
    ensures
        chosen_endpoint(endpoint, Err(reason)).endpoint is None,
        chosen_endpoint(endpoint, Err(reason)).log is Some,
{
}

/// An address that the user has set and that is one is asked, in its normal form, and nothing is
/// logged.
pub proof fn law_a_right_endpoint_is_asked(endpoint: Seq<char>, url: UrlView)
    ensures
        chosen_endpoint(endpoint, Ok(url)) == (EndpointView {
            endpoint: Some(url.whole),
            log: None,
        }),
{
}

/// What is logged about an address that is no use holds the address and the reason.
pub proof fn law_a_wrong_endpoint_is_explained(endpoint: Seq<char>, reason: Seq<char>)
    ensures
        chosen_endpoint(endpoint, Err(reason)).log == Some(
            "[updater] 自定义 update_endpoint 无效,改用内置默认: "@ + endpoint + ": "@ + reason,
        ),
        endpoint_error(endpoint, reason)
            == "[updater] 自定义 update_endpoint 无效,改用内置默认: "@ + endpoint + ": "@ + reason,
{
}

/// A check that fails is logged with its reason, whatever it failed at, and one that finds nothing
/// newer leaves no trace.
pub proof fn law_failed_check_is_logged(reason: String)
    ensures
        after_check(CheckOutcome::InitFailed(reason)) == CheckActionView::Log(
            "[updater] 初始化失败: "@ + reason@,
        ),
        after_check(CheckOutcome::CheckFailed(reason)) == CheckActionView::Log(
            "[updater] 检查更新失败(忽略): "@ + reason@,
        ),
        after_check(CheckOutcome::DialogFailed(reason)) == CheckActionView::Log(
            "[updater] 打开更新弹窗失败(忽略): "@ + reason@,
        ),
        after_check(CheckOutcome::UpToDate) == CheckActionView::Stay,
{
}

/// The models hold what the values hold.
pub proof fn law_models_of_a_check_are_complete(choice: EndpointChoice, action: CheckAction)
    ensures
        match choice.endpoint {
            Some(endpoint) => choice@.endpoint == Some(endpoint@),
            None => choice@.endpoint is None,
        },
        match choice.log {
            Some(log) => choice@.log == Some(log@),
            None => choice@.log is None,
        },
        match action {
            CheckAction::Stay => action@ == CheckActionView::Stay,
            CheckAction::Log(message) => action@ == CheckActionView::Log(message@),
            CheckAction::ShowDialog => action@ == CheckActionView::ShowDialog,
        },
{
}

} // verus!
