//! The engine that follows one player among those on the bus.
//!
//! The engine never talks to the bus itself. A notification is handed to
//! [`begin`], which answers with a [`Step`]: either a question for the bus,
//! together with what the engine has to remember while it waits, or the
//! action that ends the handling of the notification. The caller puts the
//! question to the bus and hands the answer to [`resume`], which answers with
//! the next step, until the action is reached.
//!
//! A notification of the followed player is completed by asking the player
//! for the half that the notification left out, and what is playing is shown.
//! A notification of another player, where the user asked for it, pauses the
//! followed player while the other one plays and lets it play otherwise, also
//! where the state of the other one cannot be made out. A followed player
//! that leaves the bus clears what is shown.
//!
//! Nothing is remembered from one notification to the next: the owner of the
//! followed player's name may change at any time and is looked up again for
//! each notification.

use crate::glob::{namespace, player_name};
use crate::message::{
    command_after, command_after_read, command_for, completed, get_property,
    handle_valid_mediaplayer_signal, is_followed, is_mediaplayer, matches_pattern,
    opposite_command, other_half, parse_message, parsed, pattern_matches, player_found,
    property_read, query_id, should_toggle_playback, text_view, Command, Contents, ContentsView,
    Media, MediaView, MessageError, NameOwnerChanged, NameOwnerChangedView,
};
use crate::options::{Arguments, ArgumentsView};
use crate::text::{chars_of, found_in, occurs_in, opt_view, string_from, trim_start};
use crate::value::{Argument, ArgumentView, Value, ValueView};
use vstd::prelude::*;

verus! {

/// What the bus tells of the players.
#[derive(Debug, Clone, PartialEq, Eq)]
pub enum NotificationEvent {
    /// A player announced one half of its state. `sender` is the unique name
    /// of its connection.
    PropertyChange { sender: String, payload: Contents },
    /// The name of a player got an owner, lost it, or passed to another.
    /// `advertised_name` is the player's own name, without the media player
    /// prefix.
    OwnershipChange {
        advertised_name: String,
        old_owner: Option<String>,
        new_owner: Option<String>,
    },
}

pub enum NotificationEventView {
    PropertyChange { sender: Seq<char>, payload: ContentsView },
    OwnershipChange {
        advertised_name: Seq<char>,
        old_owner: Option<Seq<char>>,
        new_owner: Option<Seq<char>>,
    },
}

impl View for NotificationEvent {
    type V = NotificationEventView;

    open spec fn view(&self) -> NotificationEventView {
        match self {
            NotificationEvent::PropertyChange { sender, payload } => {
                NotificationEventView::PropertyChange { sender: sender@, payload: payload@ }
            },
            NotificationEvent::OwnershipChange { advertised_name, old_owner, new_owner } => {
                NotificationEventView::OwnershipChange {
                    advertised_name: advertised_name@,
                    old_owner: opt_view(*old_owner),
                    new_owner: opt_view(*new_owner),
                }
            },
        }
    }
}

/// A question for the bus.
#[derive(Debug, Clone, PartialEq, Eq)]
pub enum Request {
    /// Which names are registered?
    ListNames,
    /// Which connection owns this name?
    GetNameOwner { name: String },
    /// What is this property of the player on this connection?
    GetProperty { owner: String, property: String },
}

pub enum RequestView {
    ListNames,
    GetNameOwner { name: Seq<char> },
    GetProperty { owner: Seq<char>, property: Seq<char> },
}

impl View for Request {
    type V = RequestView;

    open spec fn view(&self) -> RequestView {
        match self {
            Request::ListNames => RequestView::ListNames,
            Request::GetNameOwner { name } => RequestView::GetNameOwner { name: name@ },
            Request::GetProperty { owner, property } => RequestView::GetProperty {
                owner: owner@,
                property: property@,
            },
        }
    }
}

impl DeepView for Request {
    type V = RequestView;

    open spec fn deep_view(&self) -> RequestView {
        self@
    }
}

/// The answer of the bus to a question. `Failed` stands for no answer in
/// time, an error, or an answer that could not be read.
#[derive(Debug, Clone, PartialEq, Eq)]
pub enum Reply {
    Names(Vec<String>),
    Owner(String),
    Property(Value),
    Failed,
}

pub enum ReplyView {
    Names(Seq<Seq<char>>),
    Owner(Seq<char>),
    Property(ValueView),
    Failed,
}

impl View for Reply {
    type V = ReplyView;

    open spec fn view(&self) -> ReplyView {
        match self {
            Reply::Names(names) => ReplyView::Names(names.deep_view()),
            Reply::Owner(owner) => ReplyView::Owner(owner@),
            Reply::Property(value) => ReplyView::Property(value@),
            Reply::Failed => ReplyView::Failed,
        }
    }
}

impl DeepView for Reply {
    type V = ReplyView;

    open spec fn deep_view(&self) -> ReplyView {
        self@
    }
}

/// What handling a notification comes to.
#[derive(Debug, Clone, PartialEq, Eq)]
pub enum Action {
    /// There is nothing to do.
    Nothing,
    /// The notification is dropped, because the bus or the followed player
    /// did not answer as needed.
    Dropped(MessageError),
    /// What is playing is shown.
    Emit(Media),
    /// What is shown is cleared.
    Clear,
    /// A command goes to the player on the connection `owner`.
    Send { owner: String, command: Command },
}

pub enum ActionView {
    Nothing,
    Dropped(MessageError),
    Emit(MediaView),
    Clear,
    Send { owner: Seq<char>, command: Command },
}

impl View for Action {
    type V = ActionView;

    open spec fn view(&self) -> ActionView {
        match self {
            Action::Nothing => ActionView::Nothing,
            Action::Dropped(error) => ActionView::Dropped(*error),
            Action::Emit(media) => ActionView::Emit(media@),
            Action::Clear => ActionView::Clear,
            Action::Send { owner, command } => ActionView::Send {
                owner: owner@,
                command: *command,
            },
        }
    }
}

/// Why the followed player is looked for.
#[derive(Debug, Clone, PartialEq, Eq)]
pub enum Goal {
    /// A player sent a notification.
    Notified { sender: String, payload: Contents },
    /// Another player appeared on the bus, on the connection `new_owner`.
    Appeared { new_owner: String },
}

pub enum GoalView {
    Notified { sender: Seq<char>, payload: ContentsView },
    Appeared { new_owner: Seq<char> },
}

impl View for Goal {
    type V = GoalView;

    open spec fn view(&self) -> GoalView {
        match self {
            Goal::Notified { sender, payload } => GoalView::Notified {
                sender: sender@,
                payload: payload@,
            },
            Goal::Appeared { new_owner } => GoalView::Appeared { new_owner: new_owner@ },
        }
    }
}

/// What the engine remembers while a question is with the bus.
#[derive(Debug, Clone, PartialEq, Eq)]
pub enum Pending {
    /// The names on the bus were asked for.
    Listing { goal: Goal },
    /// The owner of the followed player's name was asked for.
    Locating { goal: Goal },
    /// The followed player, on the connection `owner`, was asked for the half
    /// that its notification `known` left out.
    Completing { owner: String, known: Contents },
    /// Another player, on the connection `other`, was asked for its playback
    /// status. `followed` is the connection of the followed player.
    Probing { other: String, followed: String },
}

pub enum PendingView {
    Listing { goal: GoalView },
    Locating { goal: GoalView },
    Completing { owner: Seq<char>, known: ContentsView },
    Probing { other: Seq<char>, followed: Seq<char> },
}

impl View for Pending {
    type V = PendingView;

    open spec fn view(&self) -> PendingView {
        match self {
            Pending::Listing { goal } => PendingView::Listing { goal: goal@ },
            Pending::Locating { goal } => PendingView::Locating { goal: goal@ },
            Pending::Completing { owner, known } => PendingView::Completing {
                owner: owner@,
                known: known@,
            },
            Pending::Probing { other, followed } => PendingView::Probing {
                other: other@,
                followed: followed@,
            },
        }
    }
}

/// One step of the handling of a notification.
#[derive(Debug, Clone, PartialEq, Eq)]
pub enum Step {
    /// The bus is to be asked, and the answer handed to [`resume`] together
    /// with `pending`.
    Ask { request: Request, pending: Pending },
    /// The handling is over.
    Done { action: Action },
}

pub enum StepView {
    Ask { request: RequestView, pending: PendingView },
    Done { action: ActionView },
}

impl View for Step {
    type V = StepView;

    open spec fn view(&self) -> StepView {
        match self {
            Step::Ask { request, pending } => StepView::Ask {
                request: request@,
                pending: pending@,
            },
            Step::Done { action } => StepView::Done { action: action@ },
        }
    }
}

/// An owner as the bus words it: the empty name stands for none.
pub open spec fn owner_named(name: Seq<char>) -> Option<Seq<char>> {
    if name.len() == 0 {
        None
    } else {
        Some(name)
    }
}

/// Whether a name is one that the bus gave to a connection. Such names, and
/// no others, begin with a colon.
pub open spec fn is_unique_name(name: Seq<char>) -> bool {
    name.len() > 0 && name[0] == ':'
}

/// The notification that a change of owner amounts to: none unless the name
/// is one that a program chose and holds the media player prefix; else the
/// change for the player's own name.
pub open spec fn ownership_change(change: NameOwnerChangedView) -> Option<NotificationEventView> {
    if !is_unique_name(change.name) && occurs_in(change.name, namespace()) {
        Some(
            NotificationEventView::OwnershipChange {
                advertised_name: player_name(change.name),
                old_owner: owner_named(change._old_name),
                new_owner: owner_named(change.new_name),
            },
        )
    } else {
        None
    }
}

fn named_owner(name: &String) -> (r: Option<String>)
    ensures
        opt_view(r) == owner_named(name@),
{
    let text = chars_of(name.as_str());
    if text.len() == 0 {
        None
    } else {
        Some(name.clone())
    }
}

/// Turns a change of the owner of a name into a notification for the
/// engine, where the name is that of a media player.
pub fn ownership_event(change: &NameOwnerChanged) -> (r: Option<NotificationEvent>)
    ensures
        match ownership_change(change@) {
            Some(event) => r is Some && r->0@ == event,
            None => r is None,
        },
{
    let name = chars_of(change.name.as_str());
    let prefix = chars_of("org.mpris.MediaPlayer2.");
    if name.len() > 0 && name[0] == ':' {
        return None;
    }
    if !found_in(&name, &prefix) {
        return None;
    }
    let at = trim_start(&name, &prefix);
    Some(
        NotificationEvent::OwnershipChange {
            advertised_name: string_from(&name, at),
            old_owner: named_owner(&change._old_name),
            new_owner: named_owner(&change.new_name),
        },
    )
}

/// The notification that a message of changed properties amounts to: the
/// contents of the message, with its sender. A message that is not
/// understood is no notification.
pub open spec fn property_change(sender: Seq<char>, args: Seq<ArgumentView>) -> Result<
    NotificationEventView,
    MessageError,
> {
    match parsed(args) {
        Ok(payload) => Ok(NotificationEventView::PropertyChange { sender, payload }),
        Err(error) => Err(error),
    }
}

/// Turns a message of changed properties, with the unique name of its
/// sender, into a notification for the engine.
pub fn property_event(sender: String, args: &Vec<Argument>) -> (r: Result<
    NotificationEvent,
    MessageError,
>)
    ensures
        match property_change(sender@, args.deep_view()) {
            Ok(event) => r is Ok && r->Ok_0@ == event,
            Err(error) => r == Err::<NotificationEvent, MessageError>(error),
        },
{
    match parse_message(args) {
        Ok(payload) => Ok(NotificationEvent::PropertyChange { sender, payload }),
        Err(error) => Err(error),
    }
}

/// The question for the names on the bus, asked to find the followed player.
pub open spec fn look_for(goal: GoalView) -> StepView {
    StepView::Ask { request: RequestView::ListNames, pending: PendingView::Listing { goal } }
}

/// The question to the player on `owner` for the half that `known` leaves
/// out.
pub open spec fn complete(owner: Seq<char>, known: ContentsView) -> StepView {
    StepView::Ask {
        request: RequestView::GetProperty { owner, property: other_half(known) },
        pending: PendingView::Completing { owner, known },
    }
}

/// The question to another player for its playback status.
pub open spec fn probe(other: Seq<char>, followed: Seq<char>) -> StepView {
    StepView::Ask {
        request: RequestView::GetProperty { owner: other, property: "PlaybackStatus"@ },
        pending: PendingView::Probing { other, followed },
    }
}

/// The end of the handling where there is nothing to do.
pub open spec fn nothing() -> StepView {
    StepView::Done { action: ActionView::Nothing }
}

/// The end of the handling where an answer was not as needed.
pub open spec fn dropped(error: MessageError) -> StepView {
    StepView::Done { action: ActionView::Dropped(error) }
}

/// The first step on a notification.
///
/// A notification of a player, with the empty selector: the sender is the
/// followed player, and is asked for the other half. With any other
/// selector the followed player is looked for first.
///
/// A change of owner, with the empty selector: nothing. Else, where a name
/// that the selector matches lost its owner, what is shown is cleared; where
/// a name that the selector does not match got its first owner and the user
/// asked for it, the followed player is looked for, to pause it or let it
/// play; and in every other case nothing.
pub open spec fn begin_spec(options: ArgumentsView, event: NotificationEventView) -> StepView {
    match event {
        NotificationEventView::PropertyChange { sender, payload } => {
            if options.mediaplayer.len() == 0 {
                complete(sender, payload)
            } else {
                look_for(GoalView::Notified { sender, payload })
            }
        },
        NotificationEventView::OwnershipChange { advertised_name, old_owner, new_owner } => {
            if options.mediaplayer.len() == 0 {
                nothing()
            } else {
                let matched = pattern_matches(options.mediaplayer, advertised_name);
                if old_owner is Some && new_owner is None && matched {
                    StepView::Done { action: ActionView::Clear }
                } else if old_owner is None && new_owner is Some && !matched
                    && options.autotoggle {
                    look_for(GoalView::Appeared { new_owner: new_owner->0 })
                } else {
                    nothing()
                }
            }
        },
    }
}

/// The names that an answer holds; any other answer counts as a call that
/// failed.
pub open spec fn reply_names(reply: ReplyView) -> Result<Seq<Seq<char>>, MessageError> {
    match reply {
        ReplyView::Names(names) => Ok(names),
        _ => Err(MessageError::MethodCall),
    }
}

/// The owner that an answer holds; any other answer says that there is
/// none.
pub open spec fn reply_owner(reply: ReplyView) -> Result<Seq<char>, MessageError> {
    match reply {
        ReplyView::Owner(owner) => Ok(owner),
        _ => Err(MessageError::NotFound),
    }
}

/// The value that an answer holds, if it is the value of a property.
pub open spec fn reply_value(reply: ReplyView) -> Option<ValueView> {
    match reply {
        ReplyView::Property(value) => Some(value),
        _ => None,
    }
}

/// The step once the names on the bus are known: the owner of the first
/// player that the selector matches is asked for. The notification is
/// dropped with `MethodCall` where the answer is no list of names, and with
/// `NotFound` where the selector matches none of them.
pub open spec fn listed(options: ArgumentsView, goal: GoalView, reply: ReplyView) -> StepView {
    match reply_names(reply) {
        Ok(names) => match player_found(names, options.mediaplayer) {
            Ok(name) => StepView::Ask {
                request: RequestView::GetNameOwner { name },
                pending: PendingView::Locating { goal },
            },
            Err(error) => dropped(error),
        },
        Err(error) => dropped(error),
    }
}

/// The step once the owner of the followed player's name is known, or
/// known to be missing.
///
/// After a notification: the sender that is the followed player is asked
/// for the other half. Without an owner the notification is dropped with
/// `NotFound`. Another sender, where the user asked for it, decides by its
/// playback status, which it is asked for where its notification spoke of
/// metadata; where the user did not ask for it, there is nothing to do.
///
/// After another player appeared: it is asked for its playback status,
/// unless the followed player has no owner.
pub open spec fn located(
    options: ArgumentsView,
    goal: GoalView,
    owner: Result<Seq<char>, MessageError>,
) -> StepView {
    match goal {
        GoalView::Notified { sender, payload } => {
            if is_followed(Some(sender), options.mediaplayer, owner) {
                complete(sender, payload)
            } else {
                match owner {
                    Ok(followed) => if options.autotoggle {
                        match payload {
                            ContentsView::PlaybackStatus(status) => StepView::Done {
                                action: ActionView::Send {
                                    owner: followed,
                                    command: command_for(status),
                                },
                            },
                            ContentsView::Metadata { .. } => probe(sender, followed),
                        }
                    } else {
                        nothing()
                    },
                    Err(error) => dropped(error),
                }
            }
        },
        GoalView::Appeared { new_owner } => match owner {
            Ok(followed) => probe(new_owner, followed),
            Err(error) => dropped(error),
        },
    }
}

/// The end once the followed player has answered: what is playing is
/// shown. The notification is dropped with `MethodCall` where no answer
/// came, and with `GetProperty` where the answer does not hold the other
/// half.
pub open spec fn answered(owner: Seq<char>, known: ContentsView, reply: ReplyView) -> StepView {
    match property_read(Some(owner), other_half(known), reply_value(reply)) {
        Ok(fetched) => match completed(Ok(known), Ok(fetched)) {
            Some(media) => StepView::Done { action: ActionView::Emit(media) },
            None => dropped(MessageError::GetProperty),
        },
        Err(error) => dropped(error),
    }
}

/// The end once another player was asked for its playback status: the
/// followed player is paused while the other plays, and plays otherwise,
/// also where the other did not answer or its answer holds no status.
pub open spec fn probed(other: Seq<char>, followed: Seq<char>, reply: ReplyView) -> StepView {
    StepView::Done {
        action: ActionView::Send {
            owner: followed,
            command: command_after(
                property_read(Some(other), "PlaybackStatus"@, reply_value(reply)),
            ),
        },
    }
}

/// The step that follows an answer of the bus.
pub open spec fn resume_spec(
    options: ArgumentsView,
    pending: PendingView,
    reply: ReplyView,
) -> StepView {
    match pending {
        PendingView::Listing { goal } => listed(options, goal, reply),
        PendingView::Locating { goal } => located(options, goal, reply_owner(reply)),
        PendingView::Completing { owner, known } => answered(owner, known, reply),
        PendingView::Probing { other, followed } => probed(other, followed, reply),
    }
}

fn ask_for_names(goal: Goal) -> (r: Step)
    ensures
        r@ == look_for(goal@),
{
    Step::Ask { request: Request::ListNames, pending: Pending::Listing { goal } }
}

fn ask_for_other_half(owner: String, known: Contents) -> (r: Step)
    ensures
        r@ == complete(owner@, known@),
{
    let property = String::from_str(known.missing());
    Step::Ask {
        request: Request::GetProperty { owner: owner.clone(), property },
        pending: Pending::Completing { owner, known },
    }
}

fn ask_for_status(other: String, followed: String) -> (r: Step)
    ensures
        r@ == probe(other@, followed@),
{
    Step::Ask {
        request: Request::GetProperty {
            owner: other.clone(),
            property: String::from_str("PlaybackStatus"),
        },
        pending: Pending::Probing { other, followed },
    }
}

/// Takes a notification and says what to do first.
pub fn begin(options: &Arguments, event: NotificationEvent) -> (r: Step)
    ensures
        r@ == begin_spec(options@, event@),
{
    let selector = chars_of(options.mediaplayer.as_str());
    match event {
        NotificationEvent::PropertyChange { sender, payload } => {
            if selector.len() == 0 {
                ask_for_other_half(sender, payload)
            } else {
                ask_for_names(Goal::Notified { sender, payload })
            }
        },
        NotificationEvent::OwnershipChange { advertised_name, old_owner, new_owner } => {
            if selector.len() == 0 {
                return Step::Done { action: Action::Nothing };
            }
            let matched = matches_pattern(options.mediaplayer.as_str(), advertised_name.as_str());
            match (old_owner, new_owner) {
                (Some(_), None) => {
                    if matched {
                        Step::Done { action: Action::Clear }
                    } else {
                        Step::Done { action: Action::Nothing }
                    }
                },
                (None, Some(new_owner)) => {
                    if !matched && options.autotoggle {
                        ask_for_names(Goal::Appeared { new_owner })
                    } else {
                        Step::Done { action: Action::Nothing }
                    }
                },
                _ => Step::Done { action: Action::Nothing },
            }
        },
    }
}

fn after_listing(options: &Arguments, goal: Goal, reply: &Reply) -> (r: Step)
    ensures
        r@ == listed(options@, goal@, reply@),
{
    match reply {
        Reply::Names(names) => match query_id(names, options.mediaplayer.as_str()) {
            Ok(name) => Step::Ask {
                request: Request::GetNameOwner { name },
                pending: Pending::Locating { goal },
            },
            Err(error) => Step::Done { action: Action::Dropped(error) },
        },
        _ => Step::Done { action: Action::Dropped(MessageError::MethodCall) },
    }
}

fn after_locating(options: &Arguments, goal: Goal, owner: Result<String, MessageError>) -> (r:
    Step)
    ensures
        r@ == located(options@, goal@, text_view(owner)),
{
    match goal {
        Goal::Notified { sender, payload } => {
            if is_mediaplayer(Some(sender.as_str()), options.mediaplayer.as_str(), &owner) {
                return ask_for_other_half(sender, payload);
            }
            let toggle = should_toggle_playback(&owner, options);
            match owner {
                Ok(followed) => {
                    if toggle {
                        match payload {
                            Contents::PlaybackStatus(status) => Step::Done {
                                action: Action::Send {
                                    owner: followed,
                                    command: opposite_command(status.as_str()),
                                },
                            },
                            Contents::Metadata { .. } => ask_for_status(sender, followed),
                        }
                    } else {
                        Step::Done { action: Action::Nothing }
                    }
                },
                Err(error) => Step::Done { action: Action::Dropped(error) },
            }
        },
        Goal::Appeared { new_owner } => match owner {
            Ok(followed) => ask_for_status(new_owner, followed),
            Err(error) => Step::Done { action: Action::Dropped(error) },
        },
    }
}

fn value_of(reply: &Reply) -> (r: Option<&Value>)
    ensures
        match reply_value(reply@) {
            Some(value) => r is Some && r->0@ == value,
            None => r is None,
        },
{
    match reply {
        Reply::Property(value) => Some(value),
        _ => None,
    }
}

fn after_completing(owner: String, known: Contents, reply: &Reply) -> (r: Step)
    ensures
        r@ == answered(owner@, known@, reply@),
{
    match get_property(Some(owner.as_str()), known.missing(), value_of(reply)) {
        Ok(fetched) => match handle_valid_mediaplayer_signal(Ok(known), Ok(fetched)) {
            Some(media) => Step::Done { action: Action::Emit(media) },
            None => Step::Done { action: Action::Dropped(MessageError::GetProperty) },
        },
        Err(error) => Step::Done { action: Action::Dropped(error) },
    }
}

fn after_probing(other: String, followed: String, reply: &Reply) -> (r: Step)
    ensures
        r@ == probed(other@, followed@, reply@),
{
    let status = get_property(Some(other.as_str()), "PlaybackStatus", value_of(reply));
    Step::Done { action: Action::Send { owner: followed, command: command_after_read(&status) } }
}

/// Takes the answer of the bus to the question that was pending and says
/// what to do next.
pub fn resume(options: &Arguments, pending: Pending, reply: &Reply) -> (r: Step)
    ensures
        r@ == resume_spec(options@, pending@, reply@),
{
    match pending {
        Pending::Listing { goal } => after_listing(options, goal, reply),
        Pending::Locating { goal } => {
            let owner = match reply {
                Reply::Owner(owner) => Ok(owner.clone()),
                _ => Err(MessageError::NotFound),
            };
            after_locating(options, goal, owner)
        },
        Pending::Completing { owner, known } => after_completing(owner, known, reply),
        Pending::Probing { other, followed } => after_probing(other, followed, reply),
    }
}

/// What the handling of one notification came to: the questions that were
/// put to the bus, in order, and the action, unless the answers ran out
/// before it was reached.
#[derive(Debug, Clone, PartialEq, Eq)]
pub struct Trace {
    pub requests: Vec<Request>,
    pub action: Option<Action>,
}

pub struct TraceView {
    pub requests: Seq<RequestView>,
    pub action: Option<ActionView>,
}

impl View for Trace {
    type V = TraceView;

    open spec fn view(&self) -> TraceView {
        TraceView {
            requests: self.requests.deep_view(),
            action: match self.action {
                Some(action) => Some(action@),
                None => None,
            },
        }
    }
}

/// The handling from `step` on, with `replies` as the answers of the bus,
/// each to the question before it. Answers that are left over once the
/// action is reached are not looked at.
pub open spec fn follow(
    options: ArgumentsView,
    step: StepView,
    replies: Seq<ReplyView>,
) -> TraceView
    decreases replies.len(),
{
    match step {
        StepView::Done { action } => TraceView { requests: Seq::empty(), action: Some(action) },
        StepView::Ask { request, pending } => {
            if replies.len() == 0 {
                TraceView { requests: seq![request], action: None }
            } else {
                let rest = follow(
                    options,
                    resume_spec(options, pending, replies[0]),
                    replies.skip(1),
                );
                TraceView { requests: seq![request] + rest.requests, action: rest.action }
            }
        },
    }
}

/// The handling of a notification, with `replies` as the answers of the
/// bus.
pub open spec fn run(
    options: ArgumentsView,
    event: NotificationEventView,
    replies: Seq<ReplyView>,
) -> TraceView {
    follow(options, begin_spec(options, event), replies)
}

/// Handles a notification against a bus that is played back: `replies` are
/// its answers, in the order in which the questions come.
pub fn replay(options: &Arguments, event: NotificationEvent, replies: &Vec<Reply>) -> (r: Trace)
    ensures
        r@ == run(options@, event@, replies.deep_view()),
{
    let ghost all = replies.deep_view();
    let ghost notified = event@;
    let ghost whole = run(options@, notified, all);
    let mut requests: Vec<Request> = Vec::new();
    let mut step = begin(options, event);
    let mut i: usize = 0;
    assert(all.skip(0) =~= all);
    loop
        invariant
            i <= replies.len(),
            all == replies.deep_view(),
            notified == event@,
            whole == run(options@, notified, all),
            whole.requests == requests.deep_view() + follow(
                options@,
                step@,
                all.skip(i as int),
            ).requests,
            whole.action == follow(options@, step@, all.skip(i as int)).action,
        decreases replies.len() - i,
    {
        let ghost rest = all.skip(i as int);
        let ghost asked = requests.deep_view();
        match step {
            Step::Done { action } => {
                return Trace { requests, action: Some(action) };
            },
            Step::Ask { request, pending } => {
                let ghost question = request@;
                requests.push(request);
                assert(requests.deep_view() =~= asked + seq![question]);
                if i == replies.len() {
                    return Trace { requests, action: None };
                }
                step = resume(options, pending, &replies[i]);
                i += 1;
                assert(rest.skip(1) =~= all.skip(i as int));
            },
        }
    }
}

/// The action does not depend on what the followed player does next: a
/// notification is never answered by showing something at once, and what is
/// shown after an answer is what the notification and the answer of the
/// followed player, asked for the other half, put together.
pub proof fn lemma_shown_is_completed(
    options: ArgumentsView,
    event: NotificationEventView,
    pending: PendingView,
    reply: ReplyView,
)
    ensures
        !(begin_spec(options, event) matches StepView::Done { action: ActionView::Emit(_) }),
        resume_spec(options, pending, reply) matches StepView::Done {
            action: ActionView::Emit(media),
        } ==> pending matches PendingView::Completing { owner, known } && completed(
            Ok(known),
            property_read(Some(owner), other_half(known), reply_value(reply)),
        ) == Some(media),
{
}

/// Whatever the bus answers, what is shown at the end of the handling of a
/// notification is the notification of the followed player, completed by
/// that player's answer to the question for the other half: the first answer
/// where the selector is empty, the third where the followed player was
/// looked for first. With a selector, the sender is the connection that the
/// bus gave as the owner of the selected player's name.
pub proof fn lemma_run_shows_completed(
    options: ArgumentsView,
    event: NotificationEventView,
    replies: Seq<ReplyView>,
)
    ensures
        run(options, event, replies).action matches Some(ActionView::Emit(media)) ==> {
            let asked: int = if options.mediaplayer.len() == 0 {
                0
            } else {
                2
            };
            &&& event matches NotificationEventView::PropertyChange { sender, payload }
            &&& asked < replies.len()
            &&& options.mediaplayer.len() > 0 ==> replies[1] == ReplyView::Owner(sender)
            &&& completed(
                Ok(payload),
                property_read(Some(sender), other_half(payload), reply_value(replies[asked])),
            ) == Some(media)
        },
{
    reveal_with_fuel(follow, 5);
}

/// A notification of the followed player is shown where the bus and the
/// player answer: with a selector that picks a player among `names`, whose
/// name is owned by the sender, and an answer of the sender that holds the
/// other half, the handling ends, after three questions, with what the two
/// halves put together.
pub proof fn lemma_followed_is_shown(
    options: ArgumentsView,
    sender: Seq<char>,
    payload: ContentsView,
    names: Seq<Seq<char>>,
    value: ValueView,
)
    requires
        options.mediaplayer.len() > 0,
        player_found(names, options.mediaplayer) is Ok,
        property_read(Some(sender), other_half(payload), Some(value)) is Ok,
    ensures
        completed(
            Ok(payload),
            property_read(Some(sender), other_half(payload), Some(value)),
        ) is Some,
        run(
            options,
            NotificationEventView::PropertyChange { sender, payload },
            seq![ReplyView::Names(names), ReplyView::Owner(sender), ReplyView::Property(value)],
        ) == (TraceView {
            requests: seq![
                RequestView::ListNames,
                RequestView::GetNameOwner { name: player_found(names, options.mediaplayer)->Ok_0 },
                RequestView::GetProperty { owner: sender, property: other_half(payload) },
            ],
            action: Some(
                ActionView::Emit(
                    completed(
                        Ok(payload),
                        property_read(Some(sender), other_half(payload), Some(value)),
                    )->0,
                ),
            ),
        }),
{
    reveal_with_fuel(follow, 5);
    let replies = seq![
        ReplyView::Names(names),
        ReplyView::Owner(sender),
        ReplyView::Property(value),
    ];
    let event = NotificationEventView::PropertyChange { sender, payload };
    lemma_other_half_differs();
    let trace = run(options, event, replies);
    assert(trace.requests =~= seq![
        RequestView::ListNames,
        RequestView::GetNameOwner { name: player_found(names, options.mediaplayer)->Ok_0 },
        RequestView::GetProperty { owner: sender, property: other_half(payload) },
    ]);
}

/// The names of the two properties differ.
proof fn lemma_other_half_differs()
    ensures
        "PlaybackStatus"@ != "Metadata"@,
{
    reveal_strlit("PlaybackStatus");
    reveal_strlit("Metadata");
    assert("PlaybackStatus"@.len() != "Metadata"@.len());
}

/// A player that appears on the bus decides over the followed player by
/// its playback status: with a selector that does not match the new name but
/// picks a player among `names`, whose name is owned by `followed`, and where
/// the user asked for it, the new player is asked for its status, and the
/// handling ends with the command for that status, addressed to `followed`.
pub proof fn lemma_appearing_player_decides(
    options: ArgumentsView,
    advertised_name: Seq<char>,
    new_owner: Seq<char>,
    names: Seq<Seq<char>>,
    followed: Seq<char>,
    status: Seq<char>,
)
    requires
        options.autotoggle,
        options.mediaplayer.len() > 0,
        !pattern_matches(options.mediaplayer, advertised_name),
        player_found(names, options.mediaplayer) is Ok,
    ensures
        run(
            options,
            NotificationEventView::OwnershipChange {
                advertised_name,
                old_owner: None,
                new_owner: Some(new_owner),
            },
            seq![
                ReplyView::Names(names),
                ReplyView::Owner(followed),
                ReplyView::Property(ValueView::Text(status)),
            ],
        ) == (TraceView {
            requests: seq![
                RequestView::ListNames,
                RequestView::GetNameOwner { name: player_found(names, options.mediaplayer)->Ok_0 },
                RequestView::GetProperty { owner: new_owner, property: "PlaybackStatus"@ },
            ],
            action: Some(ActionView::Send { owner: followed, command: command_for(status) }),
        }),
{
    reveal_with_fuel(follow, 5);
    let replies = seq![
        ReplyView::Names(names),
        ReplyView::Owner(followed),
        ReplyView::Property(ValueView::Text(status)),
    ];
    let event = NotificationEventView::OwnershipChange {
        advertised_name,
        old_owner: None,
        new_owner: Some(new_owner),
    };
    let trace = run(options, event, replies);
    assert(trace.requests =~= seq![
        RequestView::ListNames,
        RequestView::GetNameOwner { name: player_found(names, options.mediaplayer)->Ok_0 },
        RequestView::GetProperty { owner: new_owner, property: "PlaybackStatus"@ },
    ]);
}

/// Another player whose state cannot be made out counts as one that does
/// not play: where it does not answer the question for its playback status,
/// or answers with anything but a text, the followed player is told to play.
pub proof fn lemma_unresolved_state_lets_play(
    options: ArgumentsView,
    other: Seq<char>,
    followed: Seq<char>,
    reply: ReplyView,
)
    requires
        !(reply matches ReplyView::Property(ValueView::Text(_))),
    ensures
        resume_spec(options, PendingView::Probing { other, followed }, reply) == (StepView::Done {
            action: ActionView::Send { owner: followed, command: Command::Play },
        }),
{
}

/// A command goes to the followed player and to nobody else, and only
/// where the user asked for it: whatever the bus answers, a command at the
/// end of the handling is addressed to the connection that the bus gave as
/// the owner of the selected player's name, and the sender of the
/// notification that led to it is another connection.
pub proof fn lemma_command_goes_to_followed(
    options: ArgumentsView,
    event: NotificationEventView,
    replies: Seq<ReplyView>,
)
    ensures
        run(options, event, replies).action matches Some(ActionView::Send { owner, command })
            ==> {
            &&& options.autotoggle
            &&& options.mediaplayer.len() > 0
            &&& replies.len() >= 2
            &&& replies[1] == ReplyView::Owner(owner)
            &&& event matches NotificationEventView::PropertyChange { sender, .. } ==> sender
                != owner
        },
{
    reveal_with_fuel(follow, 5);
}

/// What is shown is cleared in one case only: a name that the selector,
/// which is not empty, matches has lost its owner.
pub proof fn lemma_clear_means_followed_left(
    options: ArgumentsView,
    event: NotificationEventView,
    replies: Seq<ReplyView>,
)
    ensures
        run(options, event, replies).action == Some(ActionView::Clear) <==> {
            &&& options.mediaplayer.len() > 0
            &&& event matches NotificationEventView::OwnershipChange {
                advertised_name,
                old_owner,
                new_owner,
            }
            &&& old_owner is Some
            &&& new_owner is None
            &&& pattern_matches(options.mediaplayer, advertised_name)
        },
{
    reveal_with_fuel(follow, 5);
}

/// A notification that another player plays pauses the followed player,
/// and nobody else: with a selector that picks a player among `names`, whose
/// name is owned by `followed`, the notification of any other sender ends,
/// after the two questions that find the followed player, with the one
/// command `Pause`, addressed to `followed`.
pub proof fn lemma_other_player_pauses_followed(
    options: ArgumentsView,
    sender: Seq<char>,
    names: Seq<Seq<char>>,
    followed: Seq<char>,
)
    requires
        options.autotoggle,
        options.mediaplayer.len() > 0,
        player_found(names, options.mediaplayer) is Ok,
        sender != followed,
    ensures
        run(
            options,
            NotificationEventView::PropertyChange {
                sender,
                payload: ContentsView::PlaybackStatus("Playing"@),
            },
            seq![ReplyView::Names(names), ReplyView::Owner(followed)],
        ) == (TraceView {
            requests: seq![
                RequestView::ListNames,
                RequestView::GetNameOwner { name: player_found(names, options.mediaplayer)->Ok_0 },
            ],
            action: Some(ActionView::Send { owner: followed, command: Command::Pause }),
        }),
{
    reveal_with_fuel(follow, 4);
    let replies = seq![ReplyView::Names(names), ReplyView::Owner(followed)];
    let event = NotificationEventView::PropertyChange {
        sender,
        payload: ContentsView::PlaybackStatus("Playing"@),
    };
    let trace = run(options, event, replies);
    assert(trace.requests =~= seq![
        RequestView::ListNames,
        RequestView::GetNameOwner { name: player_found(names, options.mediaplayer)->Ok_0 },
    ]);
}

/// A player that the selector matches and that leaves the bus clears what
/// is shown, at once and without a question to the bus.
pub proof fn lemma_exit_of_followed_clears(
    options: ArgumentsView,
    advertised_name: Seq<char>,
    old_owner: Seq<char>,
    replies: Seq<ReplyView>,
)
    requires
        options.mediaplayer.len() > 0,
        pattern_matches(options.mediaplayer, advertised_name),
    ensures
        run(
            options,
            NotificationEventView::OwnershipChange {
                advertised_name,
                old_owner: Some(old_owner),
                new_owner: None,
            },
            replies,
        ) == (TraceView { requests: Seq::empty(), action: Some(ActionView::Clear) }),
{
}

/// With the empty selector no change of owner does anything: a player that
/// leaves does not clear what another one may still be showing.
pub proof fn lemma_exit_ignored_without_selector(
    options: ArgumentsView,
    advertised_name: Seq<char>,
    old_owner: Option<Seq<char>>,
    new_owner: Option<Seq<char>>,
    replies: Seq<ReplyView>,
)
    requires
        options.mediaplayer.len() == 0,
    ensures
        run(
            options,
            NotificationEventView::OwnershipChange { advertised_name, old_owner, new_owner },
            replies,
        ) == (TraceView { requests: Seq::empty(), action: Some(ActionView::Nothing) }),
{
}

} // verus!
