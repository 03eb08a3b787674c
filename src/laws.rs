//! Properties that hold across the encoder, the decoder and the delivery
//! decisions, stated over their spec functions.

use vstd::prelude::*;
use crate::delivery::{send_result, waits, BridgeOutcome, DeliveryError};
use crate::options::{MainButton, NotificationOptions};
use crate::protocol::{encoding, pair_views};
use crate::response::{decoded, lookup, ResponseView};
use crate::text::{comma_joined, decimal_of, str_views};

verus! {

/// Encoding is deterministic: equal options and equal known sounds give
/// equal protocol mappings.
pub proof fn lemma_encoding_deterministic(
    a: NotificationOptions,
    b: NotificationOptions,
    known_a: Seq<Seq<char>>,
    known_b: Seq<Seq<char>>,
)
    requires
        a == b,
        known_a == known_b,
    ensures
        encoding(a, known_a) == encoding(b, known_b),
{
}

/// A single action's label is sent as the main button label, and an
/// "actionClicked" event that carries that label back decodes to a click of
/// that action.
pub proof fn lemma_single_action_round_trip(
    o: NotificationOptions,
    label: &str,
    known: Seq<Seq<char>>,
    event: Seq<(Seq<char>, Seq<char>)>,
)
    requires
        o.main_button == Some(MainButton::SingleAction(label)),
        lookup(event, "activationType"@) == Some("actionClicked"@),
        lookup(event, "activationValue"@) == Some(encoding(o, known)[0].1),
    ensures
        encoding(o, known)[0] == ("mainButtonLabel"@, label@),
        decoded(event) == ResponseView::ActionButton(label@),
{
}

/// A dropdown sends its title as the label and its actions comma-joined; a
/// text field sends its placeholder as the label and flags the response.
pub proof fn lemma_main_button_fields(o: NotificationOptions, known: Seq<Seq<char>>)
    ensures
        o.main_button matches Some(MainButton::DropdownActions(l, a)) ==> {
            &&& encoding(o, known)[0].1 == l@
            &&& encoding(o, known)[1].1 == comma_joined(str_views(a@))
            &&& encoding(o, known)[6].1 == Seq::<char>::empty()
        },
        o.main_button matches Some(MainButton::Response(p)) ==> {
            &&& encoding(o, known)[0].1 == p@
            &&& encoding(o, known)[1].1 == Seq::<char>::empty()
            &&& encoding(o, known)[6].1 == "yes"@
        },
{
}

/// An unknown sound is replaced by `"_mute"`; a known one is sent unchanged.
pub proof fn lemma_sound_fallback(o: NotificationOptions, name: &str, known: Seq<Seq<char>>)
    requires
        o.sound == Some(name),
    ensures
        !known.contains(name@) ==> encoding(o, known)[9] == ("sound"@, "_mute"@),
        known.contains(name@) ==> encoding(o, known)[9] == ("sound"@, name@),
{
}

/// A delivery date is sent in decimal, with the synchronous flag `"yes"` when
/// asked; without one both fields are empty.
pub proof fn lemma_delivery_date_fields(o: NotificationOptions, known: Seq<Seq<char>>)
    ensures
        o.delivery_date matches Some((t, s)) ==> {
            &&& encoding(o, known)[7] == ("deliveryDate"@, decimal_of(t as int))
            &&& s ==> encoding(o, known)[8] == ("synchronous"@, "yes"@)
            &&& !s ==> encoding(o, known)[8] == ("synchronous"@, Seq::<char>::empty())
        },
        o.delivery_date.is_none() ==> {
            &&& encoding(o, known)[7] == ("deliveryDate"@, Seq::<char>::empty())
            &&& encoding(o, known)[8] == ("synchronous"@, Seq::<char>::empty())
        },
{
}

/// An event whose activation type is missing or none of the four known ones
/// decodes to no interaction.
pub proof fn lemma_decoder_total(event: Seq<(Seq<char>, Seq<char>)>)
    requires
        lookup(event, "activationType"@) != Some("actionClicked"@),
        lookup(event, "activationType"@) != Some("closeClicked"@),
        lookup(event, "activationType"@) != Some("replied"@),
        lookup(event, "activationType"@) != Some("contentsClicked"@),
    ensures
        decoded(event) == ResponseView::NoInteraction,
{
}

/// Options with every attribute absent encode every field as empty, except
/// the sound, which is `"_mute"`.
pub proof fn lemma_default_encoding(o: NotificationOptions, known: Seq<Seq<char>>)
    requires
        o.is_empty(),
    ensures
        encoding(o, known).len() == 10,
        forall|i: int| 0 <= i < 9 ==> #[trigger] encoding(o, known)[i].1 == Seq::<char>::empty(),
        encoding(o, known)[9].1 == "_mute"@,
{
    assert forall|i: int| 0 <= i < 9 implies #[trigger] encoding(o, known)[i].1
        == Seq::<char>::empty() by {
        assert(comma_joined(Seq::empty()) == Seq::<char>::empty());
    }
}

/// Sending waits exactly when a synchronous delivery date and a main button
/// are both set; otherwise a send that was posted returns no interaction,
/// whatever the bridge reported.
pub proof fn lemma_wait_gating(o: NotificationOptions, outcome: BridgeOutcome)
    ensures
        waits(o) <==> (o.delivery_date matches Some((_, true)) && o.main_button.is_some()),
        !waits(o) && !(outcome is Rejected) ==> send_result(o, outcome) == Ok::<ResponseView, DeliveryError>(ResponseView::NoInteraction),
        waits(o) ==> (outcome matches BridgeOutcome::Activated(e) ==> send_result(o, outcome)
            == Ok::<ResponseView, DeliveryError>(decoded(pair_views(e@)))),
{
}

} // verus!
