//! Why a variable was rejected.

use vstd::prelude::*;
use vstd::string::StringExecFns;

verus! {

/// The kinds of rejection.
#[derive(Clone, Copy, Debug, PartialEq, Eq, Structural)]
pub enum ErrorKind {
    /// The variable is not set, and the field has no default.
    MissingRequired,
    /// The text is not written as a value of the field's type.
    MalformedValue,
    /// The text is a value of the field's type that the field does not
    /// admit.
    OutOfRange,
}

/// A rejected variable: which one, what it held and why that was refused.
#[derive(Debug, PartialEq, Eq)]
pub struct ConfigError {
    pub kind: ErrorKind,
    /// The name of the variable.
    pub variable: String,
    /// The text that was rejected: that of the variable, or the default
    /// that was read because it was not set. `None` where there was
    /// neither.
    pub raw: Option<String>,
}

/// A `ConfigError` with its texts as sequences of characters.
pub struct ConfigErrorView {
    pub kind: ErrorKind,
    pub variable: Seq<char>,
    pub raw: Option<Seq<char>>,
}

impl View for ConfigError {
    type V = ConfigErrorView;

    open spec fn view(&self) -> ConfigErrorView {
        ConfigErrorView {
            kind: self.kind,
            variable: self.variable@,
            raw: match self.raw {
                Some(text) => Some(text@),
                None => None,
            },
        }
    }
}

/// The words for a rejection: the variable, what it held and what is wrong
/// with that.
pub open spec fn message_text(e: ConfigErrorView) -> Seq<char> {
    let held = match e.raw {
        Some(text) => text,
        None => Seq::empty(),
    };
    match e.kind {
        ErrorKind::MissingRequired => e.variable + " is not set"@,
        ErrorKind::MalformedValue => "invalid value for "@ + e.variable + ": `"@ + held
            + "` is malformed"@,
        ErrorKind::OutOfRange => "invalid value for "@ + e.variable + ": `"@ + held
            + "` is out of range"@,
    }
}

impl Clone for ConfigError {
    fn clone(&self) -> (r: Self)
        ensures
            r@ == self@,
    {
        ConfigError {
            kind: self.kind,
            variable: self.variable.clone(),
            raw: match &self.raw {
                Some(text) => Some(text.clone()),
                None => None,
            },
        }
    }
}

impl ConfigError {
    /// The rejection of `text`, held by `variable`, for the reason `kind`.
    pub fn rejected(kind: ErrorKind, variable: &str, text: &str) -> (e: ConfigError)
        ensures
            e@ == (ConfigErrorView { kind, variable: variable@, raw: Some(text@) }),
    {
        ConfigError { kind, variable: variable.to_owned(), raw: Some(text.to_owned()) }
    }

    /// The rejection in words, for whoever has to set the variable right.
    pub fn message(&self) -> (text: String)
        ensures
            text@ == message_text(self@),
    {
        let held = match &self.raw {
            Some(text) => text.as_str(),
            None => "",
        };
        proof {
            reveal_strlit("");
            assert(""@ =~= Seq::<char>::empty());
        }
        match self.kind {
            ErrorKind::MissingRequired => {
                let mut text = self.variable.clone();
                text.append(" is not set");
                text
            },
            ErrorKind::MalformedValue => {
                let mut text = String::from_str("invalid value for ");
                text.append(self.variable.as_str());
                text.append(": `");
                text.append(held);
                text.append("` is malformed");
                text
            },
            ErrorKind::OutOfRange => {
                let mut text = String::from_str("invalid value for ");
                text.append(self.variable.as_str());
                text.append(": `");
                text.append(held);
                text.append("` is out of range");
                text
            },
        }
    }

    /// The rejection of `variable` because it is not set.
    pub fn missing(variable: &str) -> (e: ConfigError)
        ensures
            e@ == (ConfigErrorView {
                kind: ErrorKind::MissingRequired,
                variable: variable@,
                raw: None,
            }),
    {
        ConfigError { kind: ErrorKind::MissingRequired, variable: variable.to_owned(), raw: None }
    }
}

} // verus!
