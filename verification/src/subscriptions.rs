//! Subscriptions to authors, series and readers: the subscribe button's
//! state, what pressing it asks the server to do, and what state follows.
use vstd::prelude::*;

use crate::auth::ServerError;
use crate::entities::{Author, Reader, Series};

verus! {

/// What a user can subscribe to.
#[derive(Clone, Debug, PartialEq, Eq)]
pub enum SubscriptionType {
    ToAuthor(Author),
    ToSeries(Series),
    ToReader(Reader),
}

/// A user's subscription.
#[derive(Clone, Debug, PartialEq, Eq)]
pub struct Subscription {
    pub user_id: i64,
    pub subscription_type: SubscriptionType,
}

/// Whether the subscription shown by the panel exists.
#[derive(Clone, Copy, Debug, PartialEq, Eq, Structural)]
pub enum SubscriptionExists {
    Unknown,
    Yes,
    No,
}

/// The subscription the panel is about: present only when a user is logged
/// in and the page lists something one can subscribe to.
pub fn panel_subscription(user_id: Option<i64>, sub_type: Option<SubscriptionType>) -> (r: Option<
    Subscription,
>)
    ensures
        r is Some <==> (user_id is Some && sub_type is Some),
        r matches Some(s) ==> s.user_id == user_id->0 && s.subscription_type == sub_type->0,
{
    match (user_id, sub_type) {
        (Some(id), Some(t)) => Some(Subscription { user_id: id, subscription_type: t }),
        _ => None,
    }
}

/// The state the panel shows after asking whether `subscription` exists;
/// `found` is the database's answer, asked only when there is one.
pub fn existence_answer(has_subscription: bool, found: bool) -> (r: SubscriptionExists)
    ensures
        !has_subscription ==> r == SubscriptionExists::Unknown,
        has_subscription && found ==> r == SubscriptionExists::Yes,
        has_subscription && !found ==> r == SubscriptionExists::No,
{
    if !has_subscription {
        SubscriptionExists::Unknown
    } else if found {
        SubscriptionExists::Yes
    } else {
        SubscriptionExists::No
    }
}

/// The text of the subscribe button.
pub open spec fn button_text(s: SubscriptionExists) -> Seq<char> {
    match s {
        SubscriptionExists::Unknown => "Loading..."@,
        SubscriptionExists::Yes => "Unsubscribe"@,
        SubscriptionExists::No => "Subscribe"@,
    }
}

/// The text of the subscribe button in state `s`.
pub fn subscription_button_text(s: SubscriptionExists) -> (r: String)
    ensures
        r@ == button_text(s),
{
    match s {
        SubscriptionExists::Unknown => "Loading...".to_string(),
        SubscriptionExists::Yes => "Unsubscribe".to_string(),
        SubscriptionExists::No => "Subscribe".to_string(),
    }
}

/// What pressing the subscribe button asks the server to do.
#[derive(Clone, Copy, Debug, PartialEq, Eq, Structural)]
pub enum SubscriptionStep {
    /// There is nothing to subscribe to: answer `Unknown`.
    AnswerUnknown,
    /// The state is unknown: refuse.
    Refuse,
    /// Delete the existing subscription, then answer `No`.
    Delete,
    /// Add the subscription, then answer `Yes`.
    Add,
}

/// The server's decision when the button is pressed in state `current`,
/// `has_subscription` telling whether the panel names a subscription.
pub fn subscription_step(current: SubscriptionExists, has_subscription: bool) -> (r: SubscriptionStep)
    ensures
        !has_subscription ==> r == SubscriptionStep::AnswerUnknown,
        has_subscription && current == SubscriptionExists::Unknown ==> r == SubscriptionStep::Refuse,
        has_subscription && current == SubscriptionExists::Yes ==> r == SubscriptionStep::Delete,
        has_subscription && current == SubscriptionExists::No ==> r == SubscriptionStep::Add,
{
    if !has_subscription {
        SubscriptionStep::AnswerUnknown
    } else {
        match current {
            SubscriptionExists::Unknown => SubscriptionStep::Refuse,
            SubscriptionExists::Yes => SubscriptionStep::Delete,
            SubscriptionExists::No => SubscriptionStep::Add,
        }
    }
}

/// The answer once the step was carried out (the database succeeded).
pub open spec fn step_answer(step: SubscriptionStep) -> Result<SubscriptionExists, ServerError> {
    match step {
        SubscriptionStep::AnswerUnknown => Ok(SubscriptionExists::Unknown),
        SubscriptionStep::Refuse => Err(ServerError::UnknownSubscriptionState),
        SubscriptionStep::Delete => Ok(SubscriptionExists::No),
        SubscriptionStep::Add => Ok(SubscriptionExists::Yes),
    }
}

/// The server's answer once `step` was carried out.
pub fn subscription_step_answer(step: SubscriptionStep) -> (r: Result<SubscriptionExists, ServerError>)
    ensures
        r == step_answer(step),
{
    match step {
        SubscriptionStep::AnswerUnknown => Ok(SubscriptionExists::Unknown),
        SubscriptionStep::Refuse => Err(ServerError::UnknownSubscriptionState),
        SubscriptionStep::Delete => Ok(SubscriptionExists::No),
        SubscriptionStep::Add => Ok(SubscriptionExists::Yes),
    }
}

/// The panel's state after one press of the button, when every step
/// succeeds; a refused press leaves the state as it was.
pub open spec fn after_press(current: SubscriptionExists, has_subscription: bool) -> SubscriptionExists {
    let step = if !has_subscription {
        SubscriptionStep::AnswerUnknown
    } else {
        match current {
            SubscriptionExists::Unknown => SubscriptionStep::Refuse,
            SubscriptionExists::Yes => SubscriptionStep::Delete,
            SubscriptionExists::No => SubscriptionStep::Add,
        }
    };
    match step_answer(step) {
        Ok(s) => s,
        Err(_) => current,
    }
}

/// Pressing the button flips a known state, and pressing it twice gives the
/// state back; an unknown state stays unknown.
pub proof fn lemma_press_twice(current: SubscriptionExists)
    ensures
        current != SubscriptionExists::Unknown ==> after_press(current, true) != current,
        after_press(after_press(current, true), true) == current,
{
}

} // verus!
