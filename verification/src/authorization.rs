//! The dialogue with TDLib that ends with an authorized client.
use crate::config;
use crate::config::Config;
use crate::failure::{Failure, FailureView};
use crate::json;
use crate::json::JsonTree;
use crate::paths::OsPath;
use crate::request::{Request, RequestView};
use crate::text;
use vstd::prelude::*;

verus! {

/// What the user is asked, over texts `T`.
#[derive(Debug, PartialEq, Eq)]
pub enum QuestionOf<T> {
    PhoneNumber,
    Code,
    Password { hint: T },
    EmailAddress,
    EmailCode,
    FirstName,
    /// Asked after the first name, which goes along.
    LastName { first_name: T },
}

pub type Question = QuestionOf<String>;

pub type QuestionView = QuestionOf<Seq<char>>;

impl View for Question {
    type V = QuestionView;

    open spec fn view(&self) -> QuestionView {
        match self {
            Question::PhoneNumber => QuestionView::PhoneNumber,
            Question::Code => QuestionView::Code,
            Question::Password { hint } => QuestionView::Password { hint: hint@ },
            Question::EmailAddress => QuestionView::EmailAddress,
            Question::EmailCode => QuestionView::EmailCode,
            Question::FirstName => QuestionView::FirstName,
            Question::LastName { first_name } => QuestionView::LastName { first_name: first_name@ },
        }
    }
}

/// What is written before an answer is read.
pub open spec fn question_label(question: QuestionView) -> Seq<char> {
    match question {
        QuestionView::PhoneNumber => "Phone number: "@,
        QuestionView::Code => "Telegram code: "@,
        QuestionView::Password { hint } => if hint.len() == 0 {
            "2FA password: "@
        } else {
            "2FA password ("@ + hint + "): "@
        },
        QuestionView::EmailAddress => "Email address: "@,
        QuestionView::EmailCode => "Email code: "@,
        QuestionView::FirstName => "First name: "@,
        QuestionView::LastName { .. } => "Last name (optional): "@,
    }
}

/// Whether the answer to a question is typed unseen.
pub open spec fn typed_unseen(question: QuestionView) -> bool {
    question is Code || question is Password || question is EmailCode
}

impl QuestionOf<String> {
    /// What is written before an answer is read.
    pub fn label(&self) -> (label: String)
        ensures
            label@ == question_label(self@),
    {
        match self {
            Question::PhoneNumber => "Phone number: ".to_owned(),
            Question::Code => "Telegram code: ".to_owned(),
            Question::Password { hint } => {
                if hint.as_str().is_empty() {
                    "2FA password: ".to_owned()
                } else {
                    let mut label = "2FA password (".to_owned();
                    label.append(hint.as_str());
                    label.append("): ");
                    label
                }
            },
            Question::EmailAddress => "Email address: ".to_owned(),
            Question::EmailCode => "Email code: ".to_owned(),
            Question::FirstName => "First name: ".to_owned(),
            Question::LastName { .. } => "Last name (optional): ".to_owned(),
        }
    }

    /// Whether the answer is typed unseen: codes and passwords are.
    pub fn is_secret(&self) -> (secret: bool)
        ensures
            secret == (self@ is Code || self@ is Password || self@ is EmailCode),
            secret == typed_unseen(self@),
    {
        match self {
            Question::Code | Question::Password { .. } | Question::EmailCode => true,
            _ => false,
        }
    }
}

/// What is to be done next, over paths `P` and texts `T`.
#[derive(Debug, PartialEq, Eq)]
pub enum AuthStepOf<P, T> {
    /// Wait for the next update.
    Listen,
    /// Send a request, then wait for the next update.
    Send(crate::request::RequestOf<P, T>),
    /// Show the user a line, then wait for the next update.
    Show(T),
    /// Ask the user, and go on with the answer.
    Ask(QuestionOf<T>),
    /// The client is authorized.
    Ready,
}

pub type AuthStep = AuthStepOf<OsPath, String>;

pub type AuthStepView = AuthStepOf<Seq<u8>, Seq<char>>;

impl View for AuthStep {
    type V = AuthStepView;

    open spec fn view(&self) -> AuthStepView {
        match self {
            AuthStep::Listen => AuthStepView::Listen,
            AuthStep::Send(request) => AuthStepView::Send(request@),
            AuthStep::Show(line) => AuthStepView::Show(line@),
            AuthStep::Ask(question) => AuthStepView::Ask(question@),
            AuthStep::Ready => AuthStepView::Ready,
        }
    }
}

/// The view of a step that may have failed.
pub open spec fn step_view(step: Result<AuthStep, Failure>) -> Result<AuthStepView, FailureView> {
    match step {
        Ok(step) => Ok(step@),
        Err(failure) => Err(failure@),
    }
}

/// Lets an interactive command go on; another fails with `message`.
pub fn ensure_interactive(interactive: bool, message: &str) -> (allowed: Result<(), Failure>)
    ensures
        match allowed {
            Ok(()) => interactive,
            Err(failure) => !interactive && failure@ == FailureView::SetupNeeded(message@),
        },
{
    if interactive {
        Ok(())
    } else {
        Err(Failure::SetupNeeded(message.to_owned()))
    }
}

/// What an update says of the authorization: nothing, a state, or what is wrong with it.
pub open spec fn reported_state(update: JsonTree) -> Result<Option<JsonTree>, FailureView> {
    let kind = json::named_type(update);
    if kind == Some("error"@) {
        Err(FailureView::TdlibError(json::error_message(update)))
    } else if kind != Some("updateAuthorizationState"@) {
        Ok(None)
    } else {
        match update.member("authorization_state"@) {
            None => Err(FailureView::NoAuthorizationState),
            Some(state) => if json::named_type(state) is None {
                Err(FailureView::UntypedAuthorizationState)
            } else {
                Ok(Some(state))
            },
        }
    }
}

/// The question where the command is interactive, and `advice` where it is not.
pub open spec fn asked(interactive: bool, question: QuestionView, advice: &str) -> Result<
    AuthStepView,
    FailureView,
> {
    if interactive {
        Ok(AuthStepView::Ask(question))
    } else {
        Err(FailureView::SetupNeeded(advice@))
    }
}

/// The parameters that TDLib asks for first, from the config.
pub open spec fn parameters(config: Config, system: Seq<char>) -> Result<AuthStepView, FailureView> {
    if config.has_credentials() {
        Ok(
            AuthStepView::Send(
                RequestView::SetTdlibParameters {
                    database_dir: config.database_dir@,
                    files_dir: config.files_dir@,
                    api_id: config.api_id->0,
                    api_hash: config::held_text(config.api_hash)->0,
                    system_version: system,
                },
            ),
        )
    } else {
        Err(FailureView::MissingCredentials)
    }
}

/// What is done about a state of the authorization.
pub open spec fn response(
    state: JsonTree,
    name: Seq<char>,
    config: Config,
    interactive: bool,
    system: Seq<char>,
) -> Result<AuthStepView, FailureView> {
    if name == "authorizationStateWaitTdlibParameters"@ {
        parameters(config, system)
    } else if name == "authorizationStateWaitEncryptionKey"@ {
        Ok(AuthStepView::Send(RequestView::CheckDatabaseEncryptionKey))
    } else if name == "authorizationStateReady"@ {
        Ok(AuthStepView::Ready)
    } else if name == "authorizationStateWaitOtherDeviceConfirmation"@ {
        if interactive {
            Ok(
                AuthStepView::Show(
                    "Confirm login in Telegram: "@ + match json::text_member(state, "link"@) {
                        Some(link) => link,
                        None => "<missing confirmation link>"@,
                    },
                ),
            )
        } else {
            Err(
                FailureView::SetupNeeded(
                    "run `tgdyk setup` to confirm login from another device"@,
                ),
            )
        }
    } else if name == "authorizationStateWaitPhoneNumber"@ {
        asked(
            interactive,
            QuestionView::PhoneNumber,
            "run `tgdyk setup` to enter the phone number",
        )
    } else if name == "authorizationStateWaitCode"@ {
        asked(
            interactive,
            QuestionView::Code,
            "run `tgdyk setup` to enter the Telegram code",
        )
    } else if name == "authorizationStateWaitPassword"@ {
        let hint = match json::text_member(state, "password_hint"@) {
            Some(hint) => hint,
            None => ""@,
        };
        asked(
            interactive,
            QuestionView::Password { hint },
            "run `tgdyk setup` to enter the 2FA password",
        )
    } else if name == "authorizationStateWaitEmailAddress"@ {
        asked(
            interactive,
            QuestionView::EmailAddress,
            "run `tgdyk setup` to enter the email address",
        )
    } else if name == "authorizationStateWaitEmailCode"@ {
        asked(
            interactive,
            QuestionView::EmailCode,
            "run `tgdyk setup` to enter the email code",
        )
    } else if name == "authorizationStateWaitRegistration"@ {
        asked(
            interactive,
            QuestionView::FirstName,
            "run `tgdyk setup` to finish registration",
        )
    } else if name == "authorizationStateLoggingOut"@ || name == "authorizationStateClosing"@
        || name == "authorizationStateClosed"@ {
        Err(FailureView::AuthorizationClosed)
    } else {
        Err(FailureView::UnsupportedState(name))
    }
}

/// What is done about an update.
pub open spec fn reaction(
    update: JsonTree,
    config: Config,
    interactive: bool,
    system: Seq<char>,
) -> Result<AuthStepView, FailureView> {
    match reported_state(update) {
        Err(failure) => Err(failure),
        Ok(None) => Ok(AuthStepView::Listen),
        Ok(Some(state)) => response(
            state,
            json::named_type(state)->0,
            config,
            interactive,
            system,
        ),
    }
}

/// The authorization state in an update.
fn authorization_state(update: &serde_json::Value) -> (found: Result<
    Option<(&serde_json::Value, &str)>,
    Failure,
>)
    ensures
        match found {
            Err(failure) => reported_state(json::json_tree(*update))
                == Err::<Option<JsonTree>, FailureView>(failure@),
            Ok(None) => reported_state(json::json_tree(*update)) == Ok::<
                Option<JsonTree>,
                FailureView,
            >(None),
            Ok(Some((state, name))) => {
                &&& reported_state(json::json_tree(*update)) == Ok::<Option<JsonTree>, FailureView>(
                    Some(json::json_tree(*state)),
                )
                &&& json::named_type(json::json_tree(*state)) == Some(name@)
            },
        },
{
    if json::has_type(update, "error") {
        return Err(Failure::TdlibError(json::tdlib_error_message(update)));
    }
    if !json::has_type(update, "updateAuthorizationState") {
        return Ok(None);
    }
    match json::member(update, "authorization_state") {
        None => Err(Failure::NoAuthorizationState),
        Some(state) => match json::tdlib_type_name(state) {
            None => Err(Failure::UntypedAuthorizationState),
            Some(name) => Ok(Some((state, name))),
        },
    }
}

/// Asks `question` where the command is interactive.
fn ask(interactive: bool, question: Question, advice: &str) -> (step: Result<AuthStep, Failure>)
    ensures
        step_view(step) == asked(interactive, question@, advice),
{
    match ensure_interactive(interactive, advice) {
        Ok(()) => Ok(AuthStep::Ask(question)),
        Err(failure) => Err(failure),
    }
}

/// Sends the parameters that TDLib asks for first.
fn send_parameters(config: &Config, system_version: &str) -> (step: Result<AuthStep, Failure>)
    ensures
        step_view(step) == parameters(*config, system_version@),
{
    match config::credentials(config) {
        Ok((api_id, api_hash)) => Ok(
            AuthStep::Send(
                Request::SetTdlibParameters {
                    database_dir: config.database_dir.duplicate(),
                    files_dir: config.files_dir.duplicate(),
                    api_id,
                    api_hash: api_hash.to_owned(),
                    system_version: system_version.to_owned(),
                },
            ),
        ),
        Err(failure) => Err(failure),
    }
}

/// What to do about an authorization state.
fn respond(
    state: &serde_json::Value,
    name: &str,
    config: &Config,
    interactive: bool,
    system_version: &str,
) -> (step: Result<AuthStep, Failure>)
    ensures
        step_view(step) == response(
            json::json_tree(*state),
            name@,
            *config,
            interactive,
            system_version@,
        ),
{
    if text::same_text(name, "authorizationStateWaitTdlibParameters") {
        send_parameters(config, system_version)
    } else if text::same_text(name, "authorizationStateWaitEncryptionKey") {
        Ok(AuthStep::Send(Request::CheckDatabaseEncryptionKey))
    } else if text::same_text(name, "authorizationStateReady") {
        Ok(AuthStep::Ready)
    } else if text::same_text(name, "authorizationStateWaitOtherDeviceConfirmation") {
        match ensure_interactive(
            interactive,
            "run `tgdyk setup` to confirm login from another device",
        ) {
            Ok(()) => {
                let link = match json::text_under(state, "link") {
                    Some(link) => link,
                    None => "<missing confirmation link>",
                };
                let mut line = "Confirm login in Telegram: ".to_owned();
                line.append(link);
                Ok(AuthStep::Show(line))
            },
            Err(failure) => Err(failure),
        }
    } else if text::same_text(name, "authorizationStateWaitPhoneNumber") {
        ask(
            interactive,
            Question::PhoneNumber,
            "run `tgdyk setup` to enter the phone number",
        )
    } else if text::same_text(name, "authorizationStateWaitCode") {
        ask(interactive, Question::Code, "run `tgdyk setup` to enter the Telegram code")
    } else if text::same_text(name, "authorizationStateWaitPassword") {
        let hint = match json::text_under(state, "password_hint") {
            Some(hint) => hint,
            None => "",
        };
        ask(
            interactive,
            Question::Password { hint: hint.to_owned() },
            "run `tgdyk setup` to enter the 2FA password",
        )
    } else if text::same_text(name, "authorizationStateWaitEmailAddress") {
        ask(
            interactive,
            Question::EmailAddress,
            "run `tgdyk setup` to enter the email address",
        )
    } else if text::same_text(name, "authorizationStateWaitEmailCode") {
        ask(interactive, Question::EmailCode, "run `tgdyk setup` to enter the email code")
    } else if text::same_text(name, "authorizationStateWaitRegistration") {
        ask(interactive, Question::FirstName, "run `tgdyk setup` to finish registration")
    } else if text::same_text(name, "authorizationStateLoggingOut") || text::same_text(
        name,
        "authorizationStateClosing",
    ) || text::same_text(name, "authorizationStateClosed") {
        Err(Failure::AuthorizationClosed)
    } else {
        Err(Failure::UnsupportedState(name.to_owned()))
    }
}

/// What to do about an update from TDLib.
pub fn react(
    update: &serde_json::Value,
    config: &Config,
    interactive: bool,
    system_version: &str,
) -> (step: Result<AuthStep, Failure>)
    ensures
        step_view(step) == reaction(
            json::json_tree(*update),
            *config,
            interactive,
            system_version@,
        ),
{
    match authorization_state(update) {
        Err(failure) => Err(failure),
        Ok(None) => Ok(AuthStep::Listen),
        Ok(Some((state, name))) => respond(state, name, config, interactive, system_version),
    }
}

/// What is done about the text that TDLib sent, or about its silence.
pub open spec fn next_step(
    raw: Option<Seq<char>>,
    config: Config,
    interactive: bool,
    system: Seq<char>,
) -> Result<AuthStepView, FailureView> {
    match raw {
        None => Ok(AuthStepView::Listen),
        Some(raw) => match json::json_document(raw) {
            Ok(update) => reaction(update, config, interactive, system),
            Err(cause) => Err(FailureView::InvalidJson(cause)),
        },
    }
}

/// What to do about the text that TDLib sent, or about its silence.
pub fn drive_authorization(
    raw: Option<&str>,
    config: &Config,
    interactive: bool,
    system_version: &str,
) -> (step: Result<AuthStep, Failure>)
    ensures
        step_view(step) == match raw {
            None => Ok(AuthStepView::Listen),
            Some(raw) => match json::json_document(raw@) {
                Ok(update) => reaction(update, *config, interactive, system_version@),
                Err(cause) => Err(FailureView::InvalidJson(cause)),
            },
        },
        step_view(step) == next_step(
            json::optional_text(raw),
            *config,
            interactive,
            system_version@,
        ),
{
    match raw {
        None => Ok(AuthStep::Listen),
        Some(raw) => match json::parse_json(raw) {
            Ok(update) => react(&update, config, interactive, system_version),
            Err(cause) => Err(Failure::InvalidJson(cause)),
        },
    }
}

/// What follows from the answer to a question.
pub open spec fn answered(question: QuestionView, answer: Seq<char>) -> AuthStepView {
    match question {
        QuestionView::PhoneNumber => AuthStepView::Send(RequestView::SetPhoneNumber(answer)),
        QuestionView::Code => AuthStepView::Send(RequestView::CheckCode(answer)),
        QuestionView::Password { .. } => AuthStepView::Send(RequestView::CheckPassword(answer)),
        QuestionView::EmailAddress => AuthStepView::Send(RequestView::SetEmailAddress(answer)),
        QuestionView::EmailCode => AuthStepView::Send(RequestView::CheckEmailCode(answer)),
        QuestionView::FirstName => AuthStepView::Ask(
            QuestionView::LastName { first_name: answer },
        ),
        QuestionView::LastName { first_name } => AuthStepView::Send(
            RequestView::RegisterUser { first_name, last_name: answer },
        ),
    }
}

/// What to do with the answer to a question.
pub fn answer(question: Question, given: String) -> (step: AuthStep)
    ensures
        step@ == answered(question@, given@),
{
    match question {
        Question::PhoneNumber => AuthStep::Send(Request::SetPhoneNumber(given)),
        Question::Code => AuthStep::Send(Request::CheckCode(given)),
        Question::Password { .. } => AuthStep::Send(Request::CheckPassword(given)),
        Question::EmailAddress => AuthStep::Send(Request::SetEmailAddress(given)),
        Question::EmailCode => AuthStep::Send(Request::CheckEmailCode(given)),
        Question::FirstName => AuthStep::Ask(Question::LastName { first_name: given }),
        Question::LastName { first_name } => AuthStep::Send(
            Request::RegisterUser { first_name, last_name: given },
        ),
    }
}

/// The name of the authorization state that an update reports, where it reports one.
pub open spec fn state_name(update: JsonTree) -> Option<Seq<char>> {
    match reported_state(update) {
        Ok(Some(state)) => json::named_type(state),
        _ => None,
    }
}

/// The name of the authorization state that the text from TDLib reports.
pub fn announced_state(raw: &str) -> (name: Option<String>)
    ensures
        config::held_text(name) == match json::json_document(raw@) {
            Ok(update) => state_name(update),
            Err(_) => None,
        },
{
    match json::parse_json(raw) {
        Ok(update) => match authorization_state(&update) {
            Ok(Some((_, name))) => Some(name.to_owned()),
            _ => None,
        },
        Err(_) => None,
    }
}

/// The dialogue ends well when TDLib reports that it is ready, and only then.
pub proof fn ready_is_what_tdlib_reports(
    update: JsonTree,
    config: Config,
    interactive: bool,
    system: Seq<char>,
)
    ensures
        reaction(update, config, interactive, system) == Ok::<AuthStepView, FailureView>(
            AuthStepView::Ready,
        ) <==> state_name(update) == Some("authorizationStateReady"@),
{
    reveal_strlit("authorizationStateWaitTdlibParameters");
    reveal_strlit("authorizationStateWaitEncryptionKey");
    reveal_strlit("authorizationStateReady");
    assert("authorizationStateWaitTdlibParameters"@.len() == 37);
    assert("authorizationStateWaitEncryptionKey"@.len() == 35);
    assert("authorizationStateReady"@.len() == 23);
}

/// A command that is not interactive asks the user nothing and shows the user nothing; all that
/// it sends is what resumes a session: the parameters and the database key.
pub proof fn background_only_resumes(update: JsonTree, config: Config, system: Seq<char>)
    ensures
        match reaction(update, config, false, system) {
            Ok(AuthStepView::Ask(_)) | Ok(AuthStepView::Show(_)) => false,
            Ok(AuthStepView::Send(request)) => request is SetTdlibParameters
                || request is CheckDatabaseEncryptionKey,
            Ok(AuthStepView::Listen) | Ok(AuthStepView::Ready) => true,
            Err(_) => true,
        },
{
}

/// Where an interactive command asks the user or shows a line, one that is not interactive
/// fails with advice to run the setup; in all else the two do the same.
pub proof fn setup_takes_over_where_background_stops(
    update: JsonTree,
    config: Config,
    system: Seq<char>,
)
    ensures
        match reaction(update, config, true, system) {
            Ok(AuthStepView::Ask(_)) | Ok(AuthStepView::Show(_)) => reaction(
                update,
                config,
                false,
                system,
            ) matches Err(failure) && failure is SetupNeeded,
            same => reaction(update, config, false, system) == same,
        },
{
}

/// The credentials leave the config for one purpose only: the parameters that TDLib asks for.
pub proof fn credentials_go_where_they_are_asked_for(
    update: JsonTree,
    config: Config,
    interactive: bool,
    system: Seq<char>,
    request: RequestView,
)
    requires
        reaction(update, config, interactive, system) == Ok::<AuthStepView, FailureView>(
            AuthStepView::Send(request),
        ),
        request is SetTdlibParameters,
    ensures
        state_name(update) == Some("authorizationStateWaitTdlibParameters"@),
        config.has_credentials(),
        request->api_id == config.api_id->0,
        Some(request->api_hash) == config::held_text(config.api_hash),
        request->database_dir == config.database_dir@,
        request->files_dir == config.files_dir@,
{
}

/// An update that neither is an error nor speaks of the authorization changes nothing.
pub proof fn other_updates_are_passed_over(
    update: JsonTree,
    config: Config,
    interactive: bool,
    system: Seq<char>,
)
    requires
        json::named_type(update) != Some("error"@),
        json::named_type(update) != Some("updateAuthorizationState"@),
    ensures
        reaction(update, config, interactive, system) == Ok::<AuthStepView, FailureView>(
            AuthStepView::Listen,
        ),
{
}

/// Every question comes to a request: at once, or after the one question that follows it.
pub proof fn answers_come_to_a_request(
    question: QuestionView,
    given: Seq<char>,
    given_next: Seq<char>,
)
    ensures
        match answered(question, given) {
            AuthStepView::Send(_) => true,
            AuthStepView::Ask(next) => answered(next, given_next) is Send,
            _ => false,
        },
{
}

/// What a dialogue without a user sends in answer to `updates`, up to the update that ends it.
pub open spec fn background_requests(
    updates: Seq<JsonTree>,
    config: Config,
    system: Seq<char>,
) -> Seq<RequestView>
    decreases updates.len(),
{
    if updates.len() == 0 {
        Seq::empty()
    } else {
        match reaction(updates.first(), config, false, system) {
            Err(_) | Ok(AuthStepView::Ready) => Seq::empty(),
            Ok(AuthStepView::Send(request)) => seq![request] + background_requests(
                updates.drop_first(),
                config,
                system,
            ),
            Ok(_) => background_requests(updates.drop_first(), config, system),
        }
    }
}

/// Whatever TDLib sends, a dialogue without a user answers with parameters and database keys
/// alone: it never logs anyone in.
pub proof fn background_never_logs_in(updates: Seq<JsonTree>, config: Config, system: Seq<char>)
    ensures
        forall|i: int|
            0 <= i < background_requests(updates, config, system).len() ==> {
                let request = #[trigger] background_requests(updates, config, system)[i];
                request is SetTdlibParameters || request is CheckDatabaseEncryptionKey
            },
    decreases updates.len(),
{
    if updates.len() > 0 {
        background_only_resumes(updates.first(), config, system);
        background_never_logs_in(updates.drop_first(), config, system);
        if let Ok(AuthStepView::Send(request)) = reaction(updates.first(), config, false, system) {
            let rest = background_requests(updates.drop_first(), config, system);
            let all = background_requests(updates, config, system);
            assert(all == seq![request] + rest);
            assert forall|i: int| 0 <= i < all.len() implies {
                let sent = #[trigger] all[i];
                sent is SetTdlibParameters || sent is CheckDatabaseEncryptionKey
            } by {
                if i > 0 {
                    assert(all[i] == rest[i - 1]);
                }
            }
        }
    }
}

/// Whether an update reports the authorization state `state`, whose name is `name`.
pub open spec fn reports(update: JsonTree, state: JsonTree, name: Seq<char>) -> bool {
    &&& json::named_type(update) == Some("updateAuthorizationState"@)
    &&& update.member("authorization_state"@) == Some(state)
    &&& json::named_type(state) == Some(name)
}

/// The names of the states differ from each other, and those of the two types of updates.
proof fn lemma_names_differ()
    ensures
        "authorizationStateWaitTdlibParameters"@.len() == 37,
        "authorizationStateWaitEncryptionKey"@.len() == 35,
        "authorizationStateReady"@.len() == 23,
        "authorizationStateWaitOtherDeviceConfirmation"@.len() == 45,
        "authorizationStateWaitPhoneNumber"@.len() == 33,
        "authorizationStateWaitCode"@.len() == 26,
        "authorizationStateWaitPassword"@.len() == 30,
        "authorizationStateWaitEmailAddress"@.len() == 34,
        "authorizationStateWaitEmailCode"@.len() == 31,
        "authorizationStateWaitRegistration"@.len() == 34,
        "authorizationStateLoggingOut"@.len() == 28,
        "authorizationStateClosing"@.len() == 25,
        "authorizationStateClosed"@.len() == 24,
        "authorizationStateWaitEmailAddress"@ != "authorizationStateWaitRegistration"@,
        "error"@ != "updateAuthorizationState"@,
{
    reveal_strlit("authorizationStateWaitTdlibParameters");
    reveal_strlit("authorizationStateWaitEncryptionKey");
    reveal_strlit("authorizationStateReady");
    reveal_strlit("authorizationStateWaitOtherDeviceConfirmation");
    reveal_strlit("authorizationStateWaitPhoneNumber");
    reveal_strlit("authorizationStateWaitCode");
    reveal_strlit("authorizationStateWaitPassword");
    reveal_strlit("authorizationStateWaitEmailAddress");
    reveal_strlit("authorizationStateWaitEmailCode");
    reveal_strlit("authorizationStateWaitRegistration");
    reveal_strlit("authorizationStateLoggingOut");
    reveal_strlit("authorizationStateClosing");
    reveal_strlit("authorizationStateClosed");
    reveal_strlit("error");
    reveal_strlit("updateAuthorizationState");
    assert("authorizationStateWaitEmailAddress"@[22] == 'E');
    assert("authorizationStateWaitRegistration"@[22] == 'R');
    assert("error"@.len() == 5);
    assert("updateAuthorizationState"@.len() == 24);
}

/// The name of the state alone decides what is done about it, whatever else the state and the
/// update hold: two updates that report states of one name are answered alike. The exceptions are
/// the hint of a password and the link of a confirmation, which are read from the state.
pub proof fn the_state_name_alone_decides(
    left: JsonTree,
    left_state: JsonTree,
    right: JsonTree,
    right_state: JsonTree,
    name: Seq<char>,
    config: Config,
    interactive: bool,
    system: Seq<char>,
)
    requires
        reports(left, left_state, name),
        reports(right, right_state, name),
        name == "authorizationStateWaitPassword"@ ==> left_state.member("password_hint"@)
            == right_state.member("password_hint"@),
        name == "authorizationStateWaitOtherDeviceConfirmation"@ ==> left_state.member("link"@)
            == right_state.member("link"@),
    ensures
        reaction(left, config, interactive, system) == reaction(right, config, interactive, system),
{
    lemma_names_differ();
}

/// Each waiting state has one question, and its answer one request: a user who is asked about a
/// state, and answers, has sent TDLib the very thing that this state waits for.
pub proof fn questions_fit_their_states(
    update: JsonTree,
    state: JsonTree,
    name: Seq<char>,
    config: Config,
    system: Seq<char>,
    given: Seq<char>,
    given_next: Seq<char>,
)
    requires
        reports(update, state, name),
    ensures
        match reaction(update, config, true, system) {
            Ok(AuthStepView::Ask(question)) => match answered(question, given) {
                AuthStepView::Send(RequestView::SetPhoneNumber(sent)) => sent == given && name
                    == "authorizationStateWaitPhoneNumber"@ && question is PhoneNumber,
                AuthStepView::Send(RequestView::CheckCode(sent)) => sent == given && name
                    == "authorizationStateWaitCode"@ && question is Code,
                AuthStepView::Send(RequestView::CheckPassword(sent)) => sent == given && name
                    == "authorizationStateWaitPassword"@ && question is Password,
                AuthStepView::Send(RequestView::SetEmailAddress(sent)) => sent == given && name
                    == "authorizationStateWaitEmailAddress"@ && question is EmailAddress,
                AuthStepView::Send(RequestView::CheckEmailCode(sent)) => sent == given && name
                    == "authorizationStateWaitEmailCode"@ && question is EmailCode,
                AuthStepView::Ask(QuestionView::LastName { first_name }) => first_name == given
                    && name == "authorizationStateWaitRegistration"@ && question is FirstName
                    && answered(QuestionView::LastName { first_name }, given_next)
                    == AuthStepView::Send(
                    RequestView::RegisterUser { first_name: given, last_name: given_next },
                ),
                _ => false,
            },
            _ => true,
        },
        name == "authorizationStateWaitPhoneNumber"@ || name == "authorizationStateWaitCode"@
            || name == "authorizationStateWaitPassword"@ || name
            == "authorizationStateWaitEmailAddress"@ || name == "authorizationStateWaitEmailCode"@
            || name == "authorizationStateWaitRegistration"@ <==> (reaction(
            update,
            config,
            true,
            system,
        ) matches Ok(AuthStepView::Ask(_))),
{
    lemma_names_differ();
}

/// The hint of a password is the one in the state, and none where the state holds none.
pub proof fn hints_come_from_the_state(
    update: JsonTree,
    state: JsonTree,
    config: Config,
    system: Seq<char>,
    hint: Seq<char>,
)
    requires
        reports(update, state, "authorizationStateWaitPassword"@),
    ensures
        state.member("password_hint"@) == Some(JsonTree::Text(hint)) ==> reaction(
            update,
            config,
            true,
            system,
        ) == Ok::<AuthStepView, FailureView>(AuthStepView::Ask(QuestionView::Password { hint })),
        !(state.member("password_hint"@) matches Some(JsonTree::Text(_))) ==> reaction(
            update,
            config,
            true,
            system,
        ) == Ok::<AuthStepView, FailureView>(
            AuthStepView::Ask(QuestionView::Password { hint: Seq::empty() }),
        ),
{
    lemma_names_differ();
    reveal_strlit("");
    assert(""@ =~= Seq::empty());
}

/// A confirmation shows the link in the state, in full, behind a fixed text; a line says so where
/// the state holds none. It is never shown in the background.
pub proof fn links_come_from_the_state(
    update: JsonTree,
    state: JsonTree,
    config: Config,
    system: Seq<char>,
    link: Seq<char>,
)
    requires
        reports(update, state, "authorizationStateWaitOtherDeviceConfirmation"@),
    ensures
        state.member("link"@) == Some(JsonTree::Text(link)) ==> reaction(
            update,
            config,
            true,
            system,
        ) == Ok::<AuthStepView, FailureView>(
            AuthStepView::Show("Confirm login in Telegram: "@ + link),
        ),
        !(state.member("link"@) matches Some(JsonTree::Text(_))) ==> reaction(
            update,
            config,
            true,
            system,
        ) == Ok::<AuthStepView, FailureView>(
            AuthStepView::Show("Confirm login in Telegram: "@ + "<missing confirmation link>"@),
        ),
        reaction(update, config, false, system) == Err::<AuthStepView, FailureView>(
            FailureView::SetupNeeded("run `tgdyk setup` to confirm login from another device"@),
        ),
{
    lemma_names_differ();
}

/// A command that is not interactive fails in each waiting state with the advice for that state,
/// whatever the state holds.
pub proof fn advice_fits_the_state(
    update: JsonTree,
    state: JsonTree,
    name: Seq<char>,
    config: Config,
    system: Seq<char>,
)
    requires
        reports(update, state, name),
    ensures
        ({
            let told = match reaction(update, config, false, system) {
                Err(FailureView::SetupNeeded(advice)) => Some(advice),
                _ => None,
            };
            &&& name == "authorizationStateWaitPhoneNumber"@ ==> told == Some(
                "run `tgdyk setup` to enter the phone number"@,
            )
            &&& name == "authorizationStateWaitCode"@ ==> told == Some(
                "run `tgdyk setup` to enter the Telegram code"@,
            )
            &&& name == "authorizationStateWaitPassword"@ ==> told == Some(
                "run `tgdyk setup` to enter the 2FA password"@,
            )
            &&& name == "authorizationStateWaitEmailAddress"@ ==> told == Some(
                "run `tgdyk setup` to enter the email address"@,
            )
            &&& name == "authorizationStateWaitEmailCode"@ ==> told == Some(
                "run `tgdyk setup` to enter the email code"@,
            )
            &&& name == "authorizationStateWaitRegistration"@ ==> told == Some(
                "run `tgdyk setup` to finish registration"@,
            )
        }),
{
    lemma_names_differ();
}

/// Parameters are sent when TDLib waits for them and the credentials are there: both directories,
/// both credentials and the system version, each as it is. For want of a credential the dialogue
/// fails, and whether a user is there does not matter.
pub proof fn parameters_are_those_of_the_config(
    update: JsonTree,
    state: JsonTree,
    config: Config,
    interactive: bool,
    system: Seq<char>,
)
    requires
        reports(update, state, "authorizationStateWaitTdlibParameters"@),
    ensures
        match (config.api_id, config.api_hash) {
            (Some(api_id), Some(api_hash)) if api_hash@.len() > 0 => reaction(
                update,
                config,
                interactive,
                system,
            ) == Ok::<AuthStepView, FailureView>(
                AuthStepView::Send(
                    RequestView::SetTdlibParameters {
                        database_dir: config.database_dir.bytes@,
                        files_dir: config.files_dir.bytes@,
                        api_id,
                        api_hash: api_hash@,
                        system_version: system,
                    },
                ),
            ),
            _ => reaction(update, config, interactive, system) == Err::<AuthStepView, FailureView>(
                FailureView::MissingCredentials,
            ),
        },
{
    lemma_names_differ();
}

/// The config and the system matter to nothing but the parameters.
pub proof fn the_config_matters_to_parameters_alone(
    update: JsonTree,
    left: Config,
    right: Config,
    interactive: bool,
    left_system: Seq<char>,
    right_system: Seq<char>,
)
    requires
        !exists|state: JsonTree| #[trigger]
            reports(update, state, "authorizationStateWaitTdlibParameters"@),
    ensures
        reaction(update, left, interactive, left_system) == reaction(
            update,
            right,
            interactive,
            right_system,
        ),
{
    if let Some(state) = update.member("authorization_state"@) {
        assert(!reports(update, state, "authorizationStateWaitTdlibParameters"@));
    }
}

/// The states that need no user come to the same end, or the same request, with one or without:
/// the database key is the empty one, a state of closing ends the dialogue, and so does a state
/// of any name that is not known, which is told.
pub proof fn states_without_a_user(
    update: JsonTree,
    state: JsonTree,
    name: Seq<char>,
    config: Config,
    interactive: bool,
    system: Seq<char>,
)
    requires
        reports(update, state, name),
    ensures
        ({
            let result = reaction(update, config, interactive, system);
            let known = seq![
                "authorizationStateWaitTdlibParameters"@,
                "authorizationStateWaitEncryptionKey"@,
                "authorizationStateReady"@,
                "authorizationStateWaitOtherDeviceConfirmation"@,
                "authorizationStateWaitPhoneNumber"@,
                "authorizationStateWaitCode"@,
                "authorizationStateWaitPassword"@,
                "authorizationStateWaitEmailAddress"@,
                "authorizationStateWaitEmailCode"@,
                "authorizationStateWaitRegistration"@,
                "authorizationStateLoggingOut"@,
                "authorizationStateClosing"@,
                "authorizationStateClosed"@,
            ];
            &&& name == "authorizationStateWaitEncryptionKey"@ <==> result == Ok::<
                AuthStepView,
                FailureView,
            >(AuthStepView::Send(RequestView::CheckDatabaseEncryptionKey))
            &&& name == "authorizationStateReady"@ <==> result == Ok::<AuthStepView, FailureView>(
                AuthStepView::Ready,
            )
            &&& name == "authorizationStateLoggingOut"@ || name == "authorizationStateClosing"@
                || name == "authorizationStateClosed"@ <==> result == Err::<
                AuthStepView,
                FailureView,
            >(FailureView::AuthorizationClosed)
            &&& !known.contains(name) ==> result == Err::<AuthStepView, FailureView>(
                FailureView::UnsupportedState(name),
            )
            &&& result matches Err(FailureView::UnsupportedState(told)) ==> told == name
                && !known.contains(name)
        }),
{
    lemma_names_differ();
    let known = seq![
        "authorizationStateWaitTdlibParameters"@,
        "authorizationStateWaitEncryptionKey"@,
        "authorizationStateReady"@,
        "authorizationStateWaitOtherDeviceConfirmation"@,
        "authorizationStateWaitPhoneNumber"@,
        "authorizationStateWaitCode"@,
        "authorizationStateWaitPassword"@,
        "authorizationStateWaitEmailAddress"@,
        "authorizationStateWaitEmailCode"@,
        "authorizationStateWaitRegistration"@,
        "authorizationStateLoggingOut"@,
        "authorizationStateClosing"@,
        "authorizationStateClosed"@,
    ];
    if !known.contains(name) {
        assert(known[0] != name && known[1] != name && known[2] != name && known[3] != name);
        assert(known[4] != name && known[5] != name && known[6] != name && known[7] != name);
        assert(known[8] != name && known[9] != name && known[10] != name && known[11] != name);
        assert(known[12] != name);
    }
}

/// An update that is an error ends the dialogue with what TDLib says, whatever else it holds; one
/// that reports no state, or one without a name, ends it too; and no update of another type is
/// taken for either.
pub proof fn faulty_updates_end_the_dialogue(
    update: JsonTree,
    config: Config,
    interactive: bool,
    system: Seq<char>,
)
    ensures
        ({
            let result = reaction(update, config, interactive, system);
            let authorization = json::named_type(update) == Some("updateAuthorizationState"@);
            let state = update.member("authorization_state"@);
            &&& json::named_type(update) == Some("error"@) <==> (result matches Err(
                FailureView::TdlibError(_),
            ))
            &&& result matches Err(FailureView::TdlibError(said)) ==> said == json::error_message(
                update,
            )
            &&& authorization && state is None <==> result == Err::<AuthStepView, FailureView>(
                FailureView::NoAuthorizationState,
            )
            &&& authorization && (state matches Some(held) && json::named_type(held) is None)
                <==> result == Err::<AuthStepView, FailureView>(
                FailureView::UntypedAuthorizationState,
            )
            &&& result == Ok::<AuthStepView, FailureView>(AuthStepView::Listen) <==> !authorization
                && json::named_type(update) != Some("error"@)
        }),
{
    lemma_names_differ();
}

/// The state that is announced is the one that the update reports.
pub proof fn announced_states_are_reported(update: JsonTree, name: Seq<char>)
    ensures
        state_name(update) == Some(name) <==> exists|state: JsonTree| #[trigger]
            reports(update, state, name),
{
    lemma_names_differ();
    if state_name(update) == Some(name) {
        assert(reports(update, update.member("authorization_state"@)->0, name));
    }
}

/// A question is asked with the same words each time, but for the hint of a password, which stands
/// in brackets behind the words where there is one.
pub proof fn labels_tell_the_question(hint: Seq<char>, first: Seq<char>)
    ensures
        question_label(QuestionView::PhoneNumber) == "Phone number: "@,
        question_label(QuestionView::Code) == "Telegram code: "@,
        question_label(QuestionView::EmailAddress) == "Email address: "@,
        question_label(QuestionView::EmailCode) == "Email code: "@,
        question_label(QuestionView::FirstName) == "First name: "@,
        question_label(QuestionView::LastName { first_name: first }) == "Last name (optional): "@,
        hint.len() == 0 ==> question_label(QuestionView::Password { hint }) == "2FA password: "@,
        hint.len() > 0 ==> question_label(QuestionView::Password { hint }) == "2FA password ("@ + hint
            + "): "@,
{
}

/// Questions and steps are seen as they are: with the texts and the requests that they hold.
pub proof fn steps_are_seen_as_they_are(question: Question, step: AuthStep)
    ensures
        match (question, question@) {
            (Question::PhoneNumber, QuestionView::PhoneNumber) => true,
            (Question::Code, QuestionView::Code) => true,
            (Question::Password { hint }, QuestionView::Password { hint: seen }) => seen == hint@,
            (Question::EmailAddress, QuestionView::EmailAddress) => true,
            (Question::EmailCode, QuestionView::EmailCode) => true,
            (Question::FirstName, QuestionView::FirstName) => true,
            (
                Question::LastName { first_name },
                QuestionView::LastName { first_name: seen },
            ) => seen == first_name@,
            _ => false,
        },
        match (step, step@) {
            (AuthStep::Listen, AuthStepView::Listen) => true,
            (AuthStep::Send(request), AuthStepView::Send(seen)) => seen == request@,
            (AuthStep::Show(line), AuthStepView::Show(seen)) => seen == line@,
            (AuthStep::Ask(asked), AuthStepView::Ask(seen)) => seen == asked@,
            (AuthStep::Ready, AuthStepView::Ready) => true,
            _ => false,
        },
        step_view(Ok(step)) == Ok::<AuthStepView, FailureView>(step@),
        forall|failure: Failure|
            step_view(Err(failure)) == Err::<AuthStepView, FailureView>(#[trigger] failure@),
{
}

/// Silence changes nothing; a text that is no JSON document ends the dialogue with what is wrong with
/// it; and of any other text nothing matters but the document in it.
pub proof fn dialogues_go_by_the_documents(
    raw: Seq<char>,
    other: Seq<char>,
    config: Config,
    interactive: bool,
    system: Seq<char>,
)
    ensures
        next_step(None, config, interactive, system) == Ok::<AuthStepView, FailureView>(
            AuthStepView::Listen,
        ),
        json::json_document(raw) matches Err(cause) ==> next_step(
            Some(raw),
            config,
            interactive,
            system,
        ) == Err::<AuthStepView, FailureView>(FailureView::InvalidJson(cause)),
        json::json_document(raw) matches Ok(update) ==> next_step(
            Some(raw),
            config,
            interactive,
            system,
        ) == reaction(update, config, interactive, system),
        json::json_document(raw) == json::json_document(other) ==> next_step(
            Some(raw),
            config,
            interactive,
            system,
        ) == next_step(Some(other), config, interactive, system),
{
}

/// Codes and passwords are typed unseen, whatever the hint is, and nothing else is.
pub proof fn codes_and_passwords_are_typed_unseen(hint: Seq<char>, first_name: Seq<char>)
    ensures
        typed_unseen(QuestionView::Code),
        typed_unseen(QuestionView::EmailCode),
        typed_unseen(QuestionView::Password { hint }),
        !typed_unseen(QuestionView::PhoneNumber),
        !typed_unseen(QuestionView::EmailAddress),
        !typed_unseen(QuestionView::FirstName),
        !typed_unseen(QuestionView::LastName { first_name }),
{
}

/// Each answer goes into the one request that its question is for, as it is; the first name goes
/// along with the last.
pub proof fn answers_go_into_their_requests(
    given: Seq<char>,
    hint: Seq<char>,
    first_name: Seq<char>,
)
    ensures
        answered(QuestionView::PhoneNumber, given) == AuthStepView::Send(
            RequestView::SetPhoneNumber(given),
        ),
        answered(QuestionView::Code, given) == AuthStepView::Send(RequestView::CheckCode(given)),
        answered(QuestionView::Password { hint }, given) == AuthStepView::Send(
            RequestView::CheckPassword(given),
        ),
        answered(QuestionView::EmailAddress, given) == AuthStepView::Send(
            RequestView::SetEmailAddress(given),
        ),
        answered(QuestionView::EmailCode, given) == AuthStepView::Send(
            RequestView::CheckEmailCode(given),
        ),
        answered(QuestionView::FirstName, given) == AuthStepView::Ask(
            QuestionView::LastName { first_name: given },
        ),
        answered(QuestionView::LastName { first_name }, given) == AuthStepView::Send(
            RequestView::RegisterUser { first_name, last_name: given },
        ),
{
}

} // verus!
