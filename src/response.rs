//! The user's answer to a notification, decoded from the activation event
//! that the native notification center reports.

use vstd::prelude::*;
use crate::protocol::pair_views;

verus! {

/// Response from the notification.
pub enum NotificationResponse {
    /// No interaction has occurred.
    NoInteraction,
    /// User clicked on an action button with the given name.
    ActionButton(String),
    /// User clicked on the close button with the given name.
    CloseButton(String),
    /// User clicked the notification directly.
    Click,
    /// User submitted text to the input text field.
    Reply(String),
}

/// The mathematical form of a response: its variant and text.
pub enum ResponseView {
    NoInteraction,
    ActionButton(Seq<char>),
    CloseButton(Seq<char>),
    Click,
    Reply(Seq<char>),
}

impl View for NotificationResponse {
    type V = ResponseView;

    open spec fn view(&self) -> ResponseView {
        match self {
            NotificationResponse::NoInteraction => ResponseView::NoInteraction,
            NotificationResponse::ActionButton(s) => ResponseView::ActionButton(s@),
            NotificationResponse::CloseButton(s) => ResponseView::CloseButton(s@),
            NotificationResponse::Click => ResponseView::Click,
            NotificationResponse::Reply(s) => ResponseView::Reply(s@),
        }
    }
}

/// The value of the first entry with the given key, if any.
pub open spec fn lookup(entries: Seq<(Seq<char>, Seq<char>)>, key: Seq<char>) -> Option<Seq<char>>
    decreases entries.len(),
{
    if entries.len() == 0 {
        None
    } else if entries[0].0 == key {
        Some(entries[0].1)
    } else {
        lookup(entries.drop_first(), key)
    }
}

/// The activation value of an event, empty when absent.
pub open spec fn activation_value(entries: Seq<(Seq<char>, Seq<char>)>) -> Seq<char> {
    match lookup(entries, "activationValue"@) {
        Some(v) => v,
        None => Seq::empty(),
    }
}

/// The response that an activation event describes.
pub open spec fn decoded(entries: Seq<(Seq<char>, Seq<char>)>) -> ResponseView {
    let kind = lookup(entries, "activationType"@);
    if kind == Some("actionClicked"@) {
        ResponseView::ActionButton(activation_value(entries))
    } else if kind == Some("closeClicked"@) {
        ResponseView::CloseButton(activation_value(entries))
    } else if kind == Some("replied"@) {
        ResponseView::Reply(activation_value(entries))
    } else if kind == Some("contentsClicked"@) {
        ResponseView::Click
    } else {
        ResponseView::NoInteraction
    }
}

/// Finds the value of the first entry whose key is `key`.
pub fn find_value(entries: &Vec<(String, String)>, key: &str) -> (r: Option<String>)
    ensures
        match r {
            Some(v) => lookup(pair_views(entries@), key@) == Some(v@),
            None => lookup(pair_views(entries@), key@).is_none(),
        },
{
    let target = key.to_owned();
    let ghost all = pair_views(entries@);
    let mut i: usize = 0;
    assert(all.subrange(0, all.len() as int) =~= all);
    while i < entries.len()
        invariant
            i <= entries@.len(),
            all == pair_views(entries@),
            target@ == key@,
            lookup(all, key@) == lookup(all.subrange(i as int, all.len() as int), key@),
        decreases entries@.len() - i,
    {
        let ghost rest = all.subrange(i as int, all.len() as int);
        assert(rest[0] == (entries@[i as int].0@, entries@[i as int].1@));
        if entries[i].0 == target {
            return Some(entries[i].1.clone());
        }
        assert(rest.drop_first() =~= all.subrange(i as int + 1, all.len() as int));
        i = i + 1;
    }
    None
}

fn text_or_empty(v: Option<String>) -> (r: String)
    ensures
        r@ == match v {
            Some(s) => s@,
            None => Seq::<char>::empty(),
        },
{
    match v {
        Some(s) => s,
        None => String::new(),
    }
}

fn is_text(s: &String, lit: &str) -> (r: bool)
    ensures
        r == (s@ == lit@),
{
    *s == lit.to_owned()
}

impl NotificationResponse {
    /// Decodes an activation event, given as its key-value entries. An
    /// unknown or missing activation type gives `None`.
    pub fn from_dictionary(dictionary: &Vec<(String, String)>) -> (r: Self)
        ensures
            r@ == decoded(pair_views(dictionary@)),
    {
        let kind = find_value(dictionary, "activationType");
        match kind {
            Some(k) => {
                if is_text(&k, "actionClicked") {
                    let v = text_or_empty(find_value(dictionary, "activationValue"));
                    NotificationResponse::ActionButton(v)
                } else if is_text(&k, "closeClicked") {
                    let v = text_or_empty(find_value(dictionary, "activationValue"));
                    NotificationResponse::CloseButton(v)
                } else if is_text(&k, "replied") {
                    let v = text_or_empty(find_value(dictionary, "activationValue"));
                    NotificationResponse::Reply(v)
                } else if is_text(&k, "contentsClicked") {
                    NotificationResponse::Click
                } else {
                    NotificationResponse::NoInteraction
                }
            },
            None => NotificationResponse::NoInteraction,
        }
    }
}

} // verus!
