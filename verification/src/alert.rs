//! Alerts: the one notice that a page may carry, and the flash message that
//! it is made from.

use vstd::prelude::*;
use vstd::std_specs::convert::FromSpecImpl;

verus! {

/// The category of an alert.
#[derive(Clone, Copy, Debug, PartialEq, Eq, Structural)]
pub enum AlertType {
    Primary,
    Secondary,
    Success,
    Warning,
    Error,
    Info,
    Dark,
    Light,
}

/// The category that the name of a flash message stands for. The name is
/// read letter by letter; a name that is none of the known ones stands for
/// `Light`.
pub open spec fn category_of(name: Seq<char>) -> AlertType {
    if name == "primary"@ {
        AlertType::Primary
    } else if name == "secondary"@ {
        AlertType::Secondary
    } else if name == "success"@ {
        AlertType::Success
    } else if name == "warning"@ {
        AlertType::Warning
    } else if name == "error"@ {
        AlertType::Error
    } else if name == "info"@ {
        AlertType::Info
    } else if name == "dark"@ {
        AlertType::Dark
    } else {
        AlertType::Light
    }
}

/// The token under which a category is written for a renderer. `Error` is
/// written `danger`; every other category is written as it is named.
pub open spec fn token_of(category: AlertType) -> Seq<char> {
    match category {
        AlertType::Primary => "primary"@,
        AlertType::Secondary => "secondary"@,
        AlertType::Success => "success"@,
        AlertType::Warning => "warning"@,
        AlertType::Error => "danger"@,
        AlertType::Info => "info"@,
        AlertType::Dark => "dark"@,
        AlertType::Light => "light"@,
    }
}

/// The category that a token was written for, if it is the token of one.
pub open spec fn category_of_token(token: Seq<char>) -> Option<AlertType> {
    if token == "primary"@ {
        Some(AlertType::Primary)
    } else if token == "secondary"@ {
        Some(AlertType::Secondary)
    } else if token == "success"@ {
        Some(AlertType::Success)
    } else if token == "warning"@ {
        Some(AlertType::Warning)
    } else if token == "danger"@ {
        Some(AlertType::Error)
    } else if token == "info"@ {
        Some(AlertType::Info)
    } else if token == "dark"@ {
        Some(AlertType::Dark)
    } else if token == "light"@ {
        Some(AlertType::Light)
    } else {
        None
    }
}

/// The first letter and the length of each name that is known here.
proof fn lemma_known_names()
    ensures
        "primary"@.len() == 7 && "primary"@[0] == 'p',
        "secondary"@.len() == 9 && "secondary"@[0] == 's',
        "success"@.len() == 7 && "success"@[0] == 's',
        "warning"@.len() == 7 && "warning"@[0] == 'w',
        "danger"@.len() == 6 && "danger"@[0] == 'd',
        "error"@.len() == 5 && "error"@[0] == 'e',
        "info"@.len() == 4 && "info"@[0] == 'i',
        "dark"@.len() == 4 && "dark"@[0] == 'd',
        "light"@.len() == 5 && "light"@[0] == 'l',
{
    reveal_strlit("primary");
    reveal_strlit("secondary");
    reveal_strlit("success");
    reveal_strlit("warning");
    reveal_strlit("danger");
    reveal_strlit("error");
    reveal_strlit("info");
    reveal_strlit("dark");
    reveal_strlit("light");
}

/// Two categories that are written under the same token are the same
/// category.
pub proof fn lemma_tokens_differ(a: AlertType, b: AlertType)
    ensures
        token_of(a) == token_of(b) ==> a == b,
{
    lemma_known_names();
}

/// A category is read back from the token that it was written under.
pub proof fn lemma_token_round_trip(category: AlertType)
    ensures
        category_of_token(token_of(category)) == Some(category),
{
    lemma_known_names();
}

/// The name of a flash message stands for the category that is written
/// under that name, for every category but `Error`: that one is written
/// `danger`, and a flash message of that name stands for `Light`.
pub proof fn lemma_flash_name_of_token(category: AlertType)
    ensures
        category != AlertType::Error ==> category_of(token_of(category)) == category,
        category_of(token_of(AlertType::Error)) == AlertType::Light,
{
    lemma_known_names();
}

impl AlertType {
    /// The category that the name of a flash message stands for.
    pub fn from_name(name: &str) -> (category: AlertType)
        ensures
            category == category_of(name@),
    {
        if *name == *"primary" {
            AlertType::Primary
        } else if *name == *"secondary" {
            AlertType::Secondary
        } else if *name == *"success" {
            AlertType::Success
        } else if *name == *"warning" {
            AlertType::Warning
        } else if *name == *"error" {
            AlertType::Error
        } else if *name == *"info" {
            AlertType::Info
        } else if *name == *"dark" {
            AlertType::Dark
        } else {
            AlertType::Light
        }
    }

    /// The token under which the category is written for a renderer.
    pub fn token(&self) -> (token: &'static str)
        ensures
            token@ == token_of(*self),
    {
        match self {
            AlertType::Primary => "primary",
            AlertType::Secondary => "secondary",
            AlertType::Success => "success",
            AlertType::Warning => "warning",
            AlertType::Error => "danger",
            AlertType::Info => "info",
            AlertType::Dark => "dark",
            AlertType::Light => "light",
        }
    }

    /// The category that a token was written for, if it is the token of one.
    pub fn from_token(token: &str) -> (category: Option<AlertType>)
        ensures
            category == category_of_token(token@),
    {
        if *token == *"primary" {
            Some(AlertType::Primary)
        } else if *token == *"secondary" {
            Some(AlertType::Secondary)
        } else if *token == *"success" {
            Some(AlertType::Success)
        } else if *token == *"warning" {
            Some(AlertType::Warning)
        } else if *token == *"danger" {
            Some(AlertType::Error)
        } else if *token == *"info" {
            Some(AlertType::Info)
        } else if *token == *"dark" {
            Some(AlertType::Dark)
        } else if *token == *"light" {
            Some(AlertType::Light)
        } else {
            None
        }
    }
}

impl<'a> From<&'a str> for AlertType {
    fn from(name: &'a str) -> (category: AlertType) {
        AlertType::from_name(name)
    }
}

impl<'a> FromSpecImpl<&'a str> for AlertType {
    open spec fn obeys_from_spec() -> bool {
        true
    }

    open spec fn from_spec(name: &'a str) -> AlertType {
        category_of(name@)
    }
}

/// A one-shot message that the handling of one request left for the next
/// page: a name, which stands for a category, and the text.
#[derive(Clone, Debug, PartialEq, Eq)]
pub struct Flash {
    name: String,
    msg: String,
}

/// What a flash message is.
pub struct FlashView {
    pub name: Seq<char>,
    pub msg: Seq<char>,
}

impl View for Flash {
    type V = FlashView;

    closed spec fn view(&self) -> FlashView {
        FlashView { name: self.name@, msg: self.msg@ }
    }
}

impl Flash {
    /// A flash message with the given name and text.
    pub fn new(name: &str, msg: &str) -> (flash: Flash)
        ensures
            flash@ == (FlashView { name: name@, msg: msg@ }),
    {
        Flash { name: name.to_owned(), msg: msg.to_owned() }
    }

    /// The name.
    pub fn name(&self) -> (name: &str)
        ensures
            name@ == self@.name,
    {
        self.name.as_str()
    }

    /// The text.
    pub fn msg(&self) -> (msg: &str)
        ensures
            msg@ == self@.msg,
    {
        self.msg.as_str()
    }
}

/// What an alert is.
pub struct AlertView {
    pub category: AlertType,
    pub header: Option<Seq<char>>,
    pub msg: Seq<char>,
    pub strong: Option<Seq<char>>,
    pub dismissible: bool,
    pub raw: bool,
}

/// The text of an optional string.
pub open spec fn text_of(text: Option<String>) -> Option<Seq<char>> {
    match text {
        Some(text) => Some(text@),
        None => None,
    }
}

/// The alert that a flash message becomes: its category is the one that the
/// name stands for, its message is the text as it came, it has no header and
/// no emphasized text, it cannot be dismissed, and its message is plain text.
pub open spec fn flash_alert(flash: FlashView) -> AlertView {
    AlertView {
        category: category_of(flash.name),
        header: None,
        msg: flash.msg,
        strong: None,
        dismissible: false,
        raw: false,
    }
}

/// A notice shown on a page.
#[derive(Clone, Debug, PartialEq, Eq)]
pub struct Alert {
    category: AlertType,
    header: Option<String>,
    msg: String,
    strong: Option<String>,
    dismissible: bool,
    raw: bool,
}

impl View for Alert {
    type V = AlertView;

    closed spec fn view(&self) -> AlertView {
        AlertView {
            category: self.category,
            header: text_of(self.header),
            msg: self.msg@,
            strong: text_of(self.strong),
            dismissible: self.dismissible,
            raw: self.raw,
        }
    }
}

impl Alert {
    /// An alert that holds what is given.
    pub fn new(
        category: AlertType,
        header: Option<String>,
        msg: String,
        strong: Option<String>,
        dismissible: bool,
        raw: bool,
    ) -> (alert: Alert)
        ensures
            alert@ == (AlertView {
                category,
                header: text_of(header),
                msg: msg@,
                strong: text_of(strong),
                dismissible,
                raw,
            }),
    {
        Alert { category, header, msg, strong, dismissible, raw }
    }

    /// The category.
    pub fn category(&self) -> (category: AlertType)
        ensures
            category == self@.category,
    {
        self.category
    }

    /// The header, if the alert has one.
    pub fn header(&self) -> (header: Option<&str>)
        ensures
            match header {
                Some(text) => self@.header == Some(text@),
                None => self@.header is None,
            },
    {
        match &self.header {
            Some(text) => Some(text.as_str()),
            None => None,
        }
    }

    /// The message.
    pub fn msg(&self) -> (msg: &str)
        ensures
            msg@ == self@.msg,
    {
        self.msg.as_str()
    }

    /// The emphasized text, if the alert has one.
    pub fn strong(&self) -> (strong: Option<&str>)
        ensures
            match strong {
                Some(text) => self@.strong == Some(text@),
                None => self@.strong is None,
            },
    {
        match &self.strong {
            Some(text) => Some(text.as_str()),
            None => None,
        }
    }

    /// Whether the reader can dismiss the alert.
    pub fn dismissible(&self) -> (dismissible: bool)
        ensures
            dismissible == self@.dismissible,
    {
        self.dismissible
    }

    /// Whether the message is markup that is shown as it is, not plain text
    /// that is escaped first.
    pub fn raw(&self) -> (raw: bool)
        ensures
            raw == self@.raw,
    {
        self.raw
    }
}

/// The alert that a flash message becomes.
pub fn lookup_flash_message(flash: Flash) -> (alert: Alert)
    ensures
        alert@ == flash_alert(flash@),
        alert == alert_of(flash),
{
    Alert {
        category: AlertType::from_name(flash.name.as_str()),
        header: None,
        msg: flash.msg,
        strong: None,
        dismissible: false,
        raw: false,
    }
}

/// The alert that a flash message becomes, as a value.
pub closed spec fn alert_of(flash: Flash) -> Alert {
    Alert {
        category: category_of(flash.name@),
        header: None,
        msg: flash.msg,
        strong: None,
        dismissible: false,
        raw: false,
    }
}

/// The value that a flash message becomes is the alert that `flash_alert`
/// describes.
pub proof fn lemma_alert_of(flash: Flash)
    ensures
        alert_of(flash)@ == flash_alert(flash@),
{
}

impl From<Flash> for Alert {
    fn from(flash: Flash) -> (alert: Alert) {
        lookup_flash_message(flash)
    }
}

impl FromSpecImpl<Flash> for Alert {
    open spec fn obeys_from_spec() -> bool {
        true
    }

    open spec fn from_spec(flash: Flash) -> Alert {
        alert_of(flash)
    }
}

} // verus!
