//! The flat protocol mapping handed to the native notification center: ten
//! fixed keys in a fixed order, every value a string.

use vstd::prelude::*;
use crate::options::{MainButton, NotificationOptions};
use crate::text::{
    comma_joined, decimal_of, decimal_string, join_with_commas, str_views, string_views,
};

verus! {

/// The views of the keys and values of a mapping, in order.
pub open spec fn pair_views(entries: Seq<(String, String)>) -> Seq<(Seq<char>, Seq<char>)> {
    entries.map_values(|p: (String, String)| (p.0@, p.1@))
}

/// True iff `name` is one of the known sound names.
pub open spec fn sound_is_known(name: Seq<char>, known: Seq<Seq<char>>) -> bool {
    known.contains(name)
}

/// The text of an optional attribute, empty when absent.
pub open spec fn text_or_empty(s: Option<&str>) -> Seq<char> {
    match s {
        Some(v) => v@,
        None => Seq::empty(),
    }
}

/// `"yes"` for true, empty for false.
pub open spec fn flag_text(b: bool) -> Seq<char> {
    if b { "yes"@ } else { Seq::empty() }
}

/// The main button's label, or the placeholder of a text field.
pub open spec fn main_button_label(mb: Option<MainButton>) -> Seq<char> {
    match mb {
        Some(MainButton::SingleAction(l)) => l@,
        Some(MainButton::DropdownActions(l, _)) => l@,
        Some(MainButton::Response(p)) => p@,
        None => Seq::empty(),
    }
}

/// The dropdown's actions joined by commas; empty for the other buttons.
pub open spec fn actions_text(mb: Option<MainButton>) -> Seq<char> {
    match mb {
        Some(MainButton::DropdownActions(_, a)) => comma_joined(str_views(a@)),
        _ => Seq::empty(),
    }
}

/// True iff the main button is a text field.
pub open spec fn is_response(mb: Option<MainButton>) -> bool {
    mb matches Some(MainButton::Response(_))
}

/// The delivery date in decimal, or empty.
pub open spec fn delivery_text(d: Option<(i64, bool)>) -> Seq<char> {
    match d {
        Some((t, _)) => decimal_of(t as int),
        None => Seq::empty(),
    }
}

/// True iff a delivery date is set and asks for a synchronous wait.
pub open spec fn is_synchronous(d: Option<(i64, bool)>) -> bool {
    d matches Some((_, true))
}

/// The sound to play: the chosen one if it is known, else `"_mute"`.
pub open spec fn sound_text(s: Option<&str>, known: Seq<Seq<char>>) -> Seq<char> {
    match s {
        Some(v) => if sound_is_known(v@, known) { v@ } else { "_mute"@ },
        None => "_mute"@,
    }
}

/// The protocol mapping of a set of options, given the known sound names.
pub open spec fn encoding(o: NotificationOptions, known: Seq<Seq<char>>) -> Seq<(Seq<char>, Seq<char>)> {
    seq![
        ("mainButtonLabel"@, main_button_label(o.main_button)),
        ("actions"@, actions_text(o.main_button)),
        ("closeButtonLabel"@, text_or_empty(o.close_button)),
        ("appIcon"@, text_or_empty(o.app_icon)),
        ("contentImage"@, text_or_empty(o.content_image)),
        ("groupID"@, text_or_empty(o.group_id)),
        ("response"@, flag_text(is_response(o.main_button))),
        ("deliveryDate"@, delivery_text(o.delivery_date)),
        ("synchronous"@, flag_text(is_synchronous(o.delivery_date))),
        ("sound"@, sound_text(o.sound, known)),
    ]
}

/// Checks a sound name against the known system sound names.
pub fn is_known_sound(name: &str, known: &Vec<String>) -> (r: bool)
    ensures
        r == sound_is_known(name@, string_views(known@)),
{
    let target = name.to_owned();
    let mut i: usize = 0;
    while i < known.len()
        invariant
            i <= known@.len(),
            target@ == name@,
            forall|j: int| 0 <= j < i ==> known@[j]@ != name@,
        decreases known@.len() - i,
    {
        if known[i] == target {
            assert(string_views(known@)[i as int] == name@);
            return true;
        }
        i = i + 1;
    }
    proof {
        if string_views(known@).contains(name@) {
            let j = choose|j: int| 0 <= j < string_views(known@).len() && string_views(known@)[j] == name@;
            assert(known@[j]@ == name@);
        }
    }
    false
}

fn text_of(s: Option<&str>) -> (r: String)
    ensures
        r@ == text_or_empty(s),
{
    match s {
        Some(v) => v.to_owned(),
        None => String::new(),
    }
}

fn flag_string(b: bool) -> (r: String)
    ensures
        r@ == flag_text(b),
{
    if b { "yes".to_owned() } else { String::new() }
}

fn key(k: &str) -> (r: String)
    ensures
        r@ == k@,
{
    k.to_owned()
}

impl<'a> NotificationOptions<'a> {
    /// Flattens the options into the protocol mapping, in its fixed key order.
    /// `known_sounds` are the names of the sounds the system can play.
    pub fn to_dictionary(&self, known_sounds: &Vec<String>) -> (r: Vec<(String, String)>)
        ensures
            pair_views(r@) == encoding(*self, string_views(known_sounds@)),
    {
        let (label, actions, response): (&str, String, bool) = match &self.main_button {
            Some(MainButton::SingleAction(l)) => (l, String::new(), false),
            Some(MainButton::DropdownActions(l, a)) => (l, join_with_commas(a), false),
            Some(MainButton::Response(p)) => (p, String::new(), true),
            None => ("", String::new(), false),
        };
        assert(label@ == main_button_label(self.main_button)) by {
            reveal_strlit("");
        }
        assert(actions@ == actions_text(self.main_button));
        assert(response == is_response(self.main_button));
        let date = match self.delivery_date {
            Some((t, _)) => decimal_string(t),
            None => String::new(),
        };
        let synchronous = match self.delivery_date {
            Some((_, true)) => true,
            _ => false,
        };
        let sound = match self.sound {
            Some(s) => if is_known_sound(s, known_sounds) { s.to_owned() } else { "_mute".to_owned() },
            None => "_mute".to_owned(),
        };
        assert(date@ == delivery_text(self.delivery_date));
        assert(synchronous == is_synchronous(self.delivery_date));
        assert(sound@ == sound_text(self.sound, string_views(known_sounds@)));
        let r = vec![
            (key("mainButtonLabel"), label.to_owned()),
            (key("actions"), actions),
            (key("closeButtonLabel"), text_of(self.close_button)),
            (key("appIcon"), text_of(self.app_icon)),
            (key("contentImage"), text_of(self.content_image)),
            (key("groupID"), text_of(self.group_id)),
            (key("response"), flag_string(response)),
            (key("deliveryDate"), date),
            (key("synchronous"), flag_string(synchronous)),
            (key("sound"), sound),
        ];
        assert(pair_views(r@) =~= encoding(*self, string_views(known_sounds@)));
        r
    }
}

} // verus!
