use vstd::prelude::*;
use crate::text::joined;

verus! {

/// A setting that the process needs is missing.
pub struct ConfigException {
    pub message: String,
}

impl ConfigException {
    pub fn new(message: &str) -> (r: ConfigException)
        ensures
            r.message@ == message@,
    {
        ConfigException { message: message.to_string() }
    }

    /// A message made of `context` followed by the text of what caused it.
    pub fn caused_by(context: &str, cause: &str) -> (r: ConfigException)
        ensures
            r.message@ == context@ + cause@,
    {
        ConfigException { message: joined(context, cause) }
    }

    /// The message, for display.
    pub fn message(&self) -> (r: &str)
        ensures
            r@ == self.message@,
    {
        self.message.as_str()
    }

    /// The message, as a description of the failure.
    pub fn description(&self) -> (r: &str)
        ensures
            r@ == self.message@,
    {
        self.message.as_str()
    }

    /// The message as an owned string.
    pub fn to_string(&self) -> (r: String)
        ensures
            r@ == self.message@,
    {
        self.message.clone()
    }
}

/// The remote storage client could not be built or used.
pub struct MegaException {
    pub message: String,
}

impl MegaException {
    pub fn new(message: &str) -> (r: MegaException)
        ensures
            r.message@ == message@,
    {
        MegaException { message: message.to_string() }
    }

    /// A message made of `context` followed by the text of what caused it.
    pub fn caused_by(context: &str, cause: &str) -> (r: MegaException)
        ensures
            r.message@ == context@ + cause@,
    {
        MegaException { message: joined(context, cause) }
    }

    /// The message, for display.
    pub fn message(&self) -> (r: &str)
        ensures
            r@ == self.message@,
    {
        self.message.as_str()
    }

    /// The message, as a description of the failure.
    pub fn description(&self) -> (r: &str)
        ensures
            r@ == self.message@,
    {
        self.message.as_str()
    }

    /// The message as an owned string.
    pub fn to_string(&self) -> (r: String)
        ensures
            r@ == self.message@,
    {
        self.message.clone()
    }
}

/// A step of archiving a video failed.
pub struct OutsaverException {
    pub message: String,
}

impl OutsaverException {
    pub fn new(message: &str) -> (r: OutsaverException)
        ensures
            r.message@ == message@,
    {
        OutsaverException { message: message.to_string() }
    }

    /// A message made of `context` followed by the text of what caused it.
    pub fn caused_by(context: &str, cause: &str) -> (r: OutsaverException)
        ensures
            r.message@ == context@ + cause@,
    {
        OutsaverException { message: joined(context, cause) }
    }

    /// The message, for display.
    pub fn message(&self) -> (r: &str)
        ensures
            r@ == self.message@,
    {
        self.message.as_str()
    }

    /// The message, as a description of the failure.
    pub fn description(&self) -> (r: &str)
        ensures
            r@ == self.message@,
    {
        self.message.as_str()
    }

    /// The message as an owned string.
    pub fn to_string(&self) -> (r: String)
        ensures
            r@ == self.message@,
    {
        self.message.clone()
    }
}

} // verus!
