//! The texts of a row that are translated.
use vstd::prelude::*;

verus! {

/// The translated texts. `{}` stands for what is filled in.
#[derive(Debug)]
pub struct Catalog {
    pub edited: String,
    pub max: String,
    pub high: String,
    pub medium: String,
    pub low: String,
    pub min: String,
    pub invalid: String,
    pub priority: String,
    pub unread_notification: String,
    pub seen_notification: String,
    pub delete_notification: String,
    pub tags: String,
    pub go_to: String,
    pub send_http: String,
    pub broadcast_only: String,
}

impl Catalog {
    /// The texts before translation, by which their translations are found.
    pub fn untranslated() -> (catalog: Catalog)
        ensures
            catalog.edited@ == "Edited"@,
            catalog.max@ == "Max"@,
            catalog.high@ == "High"@,
            catalog.medium@ == "Medium"@,
            catalog.low@ == "Low"@,
            catalog.min@ == "Min"@,
            catalog.invalid@ == "Invalid"@,
            catalog.priority@ == "Priority: {}"@,
            catalog.unread_notification@ == "Unread notification"@,
            catalog.seen_notification@ == "Seen notification"@,
            catalog.delete_notification@ == "Delete notification"@,
            catalog.tags@ == "tags: "@,
            catalog.go_to@ == "Go to {}"@,
            catalog.send_http@ == "Send HTTP {} to {}"@,
            catalog.broadcast_only@ == "Broadcast action only available on Android"@,
    {
        Catalog {
            edited: "Edited".to_owned(),
            max: "Max".to_owned(),
            high: "High".to_owned(),
            medium: "Medium".to_owned(),
            low: "Low".to_owned(),
            min: "Min".to_owned(),
            invalid: "Invalid".to_owned(),
            priority: "Priority: {}".to_owned(),
            unread_notification: "Unread notification".to_owned(),
            seen_notification: "Seen notification".to_owned(),
            delete_notification: "Delete notification".to_owned(),
            tags: "tags: ".to_owned(),
            go_to: "Go to {}".to_owned(),
            send_http: "Send HTTP {} to {}".to_owned(),
            broadcast_only: "Broadcast action only available on Android".to_owned(),
        }
    }
}

} // verus!
