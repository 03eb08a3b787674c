//! The configuration of one notification: an optional main button and a
//! handful of optional attributes, filled in through chained setters.

use vstd::prelude::*;

verus! {

/// Possible actions accessible through the main button of the notification.
pub enum MainButton<'a> {
    /// Display a single action with the given name.
    SingleAction(&'a str),
    /// Display a dropdown with the given title, with a list of actions with given names.
    DropdownActions(&'a str, &'a [&'a str]),
    /// Display a text input field with the given placeholder.
    Response(&'a str),
}

/// Options to further customize the notification.
///
/// `delivery_date` holds the scheduled time in whole seconds since the Unix
/// epoch, and whether sending should wait for the user's answer.
pub struct NotificationOptions<'a> {
    pub main_button: Option<MainButton<'a>>,
    pub close_button: Option<&'a str>,
    pub app_icon: Option<&'a str>,
    pub content_image: Option<&'a str>,
    pub group_id: Option<&'a str>,
    pub delivery_date: Option<(i64, bool)>,
    pub sound: Option<&'a str>,
}

impl<'a> NotificationOptions<'a> {
    /// True when no attribute is set.
    pub open spec fn is_empty(&self) -> bool {
        &&& self.main_button.is_none()
        &&& self.close_button.is_none()
        &&& self.app_icon.is_none()
        &&& self.content_image.is_none()
        &&& self.group_id.is_none()
        &&& self.delivery_date.is_none()
        &&& self.sound.is_none()
    }

    /// Create a NotificationOptions with every attribute absent.
    pub fn new() -> (r: NotificationOptions<'a>)
        ensures
            r.is_empty(),
    {
        NotificationOptions {
            main_button: None,
            close_button: None,
            app_icon: None,
            content_image: None,
            group_id: None,
            delivery_date: None,
            sound: None,
        }
    }

    /// Allow actions through a main button.
    pub fn main_button(&mut self, main_button: MainButton<'a>) -> (r: &mut Self)
        ensures
            *r == (NotificationOptions { main_button: Some(main_button), ..*old(self) }),
            *final(self) == *final(r),
    {
        self.main_button = Some(main_button);
        self
    }

    /// Display a close button with the given name.
    pub fn close_button(&mut self, close_button: &'a str) -> (r: &mut Self)
        ensures
            *r == (NotificationOptions { close_button: Some(close_button), ..*old(self) }),
            *final(self) == *final(r),
    {
        self.close_button = Some(close_button);
        self
    }

    /// Display an icon on the left side of the notification.
    pub fn app_icon(&mut self, app_icon: &'a str) -> (r: &mut Self)
        ensures
            *r == (NotificationOptions { app_icon: Some(app_icon), ..*old(self) }),
            *final(self) == *final(r),
    {
        self.app_icon = Some(app_icon);
        self
    }

    /// Display an image on the right side of the notification.
    pub fn content_image(&mut self, content_image: &'a str) -> (r: &mut Self)
        ensures
            *r == (NotificationOptions { content_image: Some(content_image), ..*old(self) }),
            *final(self) == *final(r),
    {
        self.content_image = Some(content_image);
        self
    }

    /// Set an identifier to group notifications: those of one group replace
    /// each other, so only the latest is displayed.
    pub fn group_id(&mut self, group_id: &'a str) -> (r: &mut Self)
        ensures
            *r == (NotificationOptions { group_id: Some(group_id), ..*old(self) }),
            *final(self) == *final(r),
    {
        self.group_id = Some(group_id);
        self
    }

    /// Schedule the notification at `delivery_date` (seconds since the Unix
    /// epoch); with `synchronous`, sending waits for the user's answer.
    pub fn delivery_date(&mut self, delivery_date: i64, synchronous: bool) -> (r: &mut Self)
        ensures
            *r == (NotificationOptions {
                delivery_date: Some((delivery_date, synchronous)),
                ..*old(self)
            }),
            *final(self) == *final(r),
    {
        self.delivery_date = Some((delivery_date, synchronous));
        self
    }

    /// Play a system sound when the notification is delivered.
    pub fn sound(&mut self, sound: &'a str) -> (r: &mut Self)
        ensures
            *r == (NotificationOptions { sound: Some(sound), ..*old(self) }),
            *final(self) == *final(r),
    {
        self.sound = Some(sound);
        self
    }
}

} // verus!
