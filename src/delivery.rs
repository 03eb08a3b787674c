//! The decisions of sending a notification: whether the caller waits for the
//! user's answer, and what a send returns for each outcome of posting it.
//! Posting and waiting themselves are done by the native bridge outside the
//! library.

use vstd::prelude::*;
use crate::options::NotificationOptions;
use crate::protocol::{is_synchronous, pair_views};
use crate::response::{decoded, NotificationResponse, ResponseView};

verus! {

/// Why a notification could not be delivered.
#[derive(Debug, PartialEq, Eq, Structural)]
pub enum DeliveryError {
    /// The native layer could not register or post the notification.
    BridgeRejected,
}

/// What the native bridge reported after it was handed a notification.
pub enum BridgeOutcome {
    /// The notification could not be registered or posted.
    Rejected,
    /// The notification was posted or scheduled; no answer was awaited.
    Posted,
    /// The user answered; the activation event as key-value entries.
    Activated(Vec<(String, String)>),
}

/// True iff sending waits for the user: a synchronous delivery date and a main button.
pub open spec fn waits(o: NotificationOptions) -> bool {
    is_synchronous(o.delivery_date) && o.main_button.is_some()
}

/// The response that a send reports for an outcome of the bridge.
pub open spec fn send_result(o: NotificationOptions, outcome: BridgeOutcome) -> Result<ResponseView, DeliveryError> {
    match outcome {
        BridgeOutcome::Rejected => Err(DeliveryError::BridgeRejected),
        BridgeOutcome::Activated(e) => if waits(o) {
            Ok(decoded(pair_views(e@)))
        } else {
            Ok(ResponseView::NoInteraction)
        },
        BridgeOutcome::Posted => Ok(ResponseView::NoInteraction),
    }
}

/// The view of a send's result.
pub open spec fn result_view(r: Result<NotificationResponse, DeliveryError>) -> Result<ResponseView, DeliveryError> {
    match r {
        Ok(v) => Ok(v@),
        Err(e) => Err(e),
    }
}

impl<'a> NotificationOptions<'a> {
    /// Whether sending these options blocks until the user answers.
    pub fn waits_for_response(&self) -> (r: bool)
        ensures
            r == waits(*self),
    {
        let synchronous = match self.delivery_date {
            Some((_, s)) => s,
            None => false,
        };
        synchronous && self.main_button.is_some()
    }

    /// The result of a send, once the bridge has reported `outcome`.
    pub fn response_from(&self, outcome: BridgeOutcome) -> (r: Result<NotificationResponse, DeliveryError>)
        ensures
            result_view(r) == send_result(*self, outcome),
    {
        match outcome {
            BridgeOutcome::Rejected => Err(DeliveryError::BridgeRejected),
            BridgeOutcome::Posted => Ok(NotificationResponse::NoInteraction),
            BridgeOutcome::Activated(e) => {
                if self.waits_for_response() {
                    Ok(NotificationResponse::from_dictionary(&e))
                } else {
                    Ok(NotificationResponse::NoInteraction)
                }
            },
        }
    }
}

} // verus!
