use vstd::prelude::*;
use crate::payload::{check_text, text_problem, text_view, MAX_TEXT_LENGTH};
use crate::timestamp::Timestamp;

verus! {

/// A call (page) to submit. Its text is at most 80 characters long.
#[derive(Debug)]
pub struct OutgoingCall {
    text: String,
    recipients: Vec<String>,
    transmitter_groups: Vec<String>,
    emergency: bool,
}

/// What an [`OutgoingCall`] holds.
pub struct OutgoingCallView {
    pub text: Seq<char>,
    pub recipients: Seq<Seq<char>>,
    pub transmitter_groups: Seq<Seq<char>>,
    pub emergency: bool,
}

impl View for OutgoingCall {
    type V = OutgoingCallView;

    closed spec fn view(&self) -> OutgoingCallView {
        OutgoingCallView {
            text: self.text@,
            recipients: self.recipients.deep_view(),
            transmitter_groups: self.transmitter_groups.deep_view(),
            emergency: self.emergency,
        }
    }
}

/// Error of building an [`OutgoingCall`].
#[derive(Debug, Clone, PartialEq, Eq)]
pub enum OutgoingCallBuilderError {
    /// A field without a default was not set.
    UninitializedField(&'static str),
    /// The text is missing or too long.
    ValidationError(String),
}

impl OutgoingCall {
    #[verifier::type_invariant]
    spec fn inv(&self) -> bool {
        self.text@.len() <= MAX_TEXT_LENGTH
    }

    /// A call that is not an emergency; refused if `text` is longer than 80 characters.
    pub fn new(text: String, recipients: Vec<String>, transmitter_groups: Vec<String>) -> (r: Result<
        OutgoingCall,
        OutgoingCallBuilderError,
    >)
        ensures
            r is Ok <==> text@.len() <= MAX_TEXT_LENGTH,
            r is Ok ==> r->Ok_0@ == (OutgoingCallView {
                text: text@,
                recipients: recipients.deep_view(),
                transmitter_groups: transmitter_groups.deep_view(),
                emergency: false,
            }),
            r is Err ==> (r->Err_0 matches OutgoingCallBuilderError::ValidationError(m) && m@
                == "Text must be 80 characters or less"@),
    {
        OutgoingCallBuilder::default().text(text).recipients(recipients).transmitter_groups(
            transmitter_groups,
        ).build()
    }

    /// Message text of the call.
    pub fn text(&self) -> (r: &String)
        ensures
            r@ == self@.text,
            r@.len() <= MAX_TEXT_LENGTH,
    {
        proof {
            use_type_invariant(self);
        }
        &self.text
    }

    /// Call signs of the recipients.
    pub fn recipients(&self) -> (r: &Vec<String>)
        ensures
            r.deep_view() == self@.recipients,
    {
        &self.recipients
    }

    /// Names of the transmitter groups that carry the call.
    pub fn transmitter_groups(&self) -> (r: &Vec<String>)
        ensures
            r.deep_view() == self@.transmitter_groups,
    {
        &self.transmitter_groups
    }

    /// Whether the call is sent with high priority.
    pub fn emergency(&self) -> (r: bool)
        ensures
            r == self@.emergency,
    {
        self.emergency
    }
}

/// Incremental construction of an [`OutgoingCall`], checked by `build`.
#[derive(Debug, Clone)]
pub struct OutgoingCallBuilder {
    pub text: Option<String>,
    pub recipients: Option<Vec<String>>,
    pub transmitter_groups: Option<Vec<String>>,
    pub emergency: Option<bool>,
}

impl Default for OutgoingCallBuilder {
    fn default() -> (r: Self)
        ensures
            r.text is None,
            r.recipients is None,
            r.transmitter_groups is None,
            r.emergency is None,
    {
        OutgoingCallBuilder { text: None, recipients: None, transmitter_groups: None, emergency: None }
    }
}

impl OutgoingCallBuilder {
    pub fn text(self, value: String) -> (r: Self)
        ensures
            r == (OutgoingCallBuilder { text: Some(value), ..self }),
    {
        OutgoingCallBuilder { text: Some(value), ..self }
    }

    pub fn recipients(self, value: Vec<String>) -> (r: Self)
        ensures
            r == (OutgoingCallBuilder { recipients: Some(value), ..self }),
    {
        OutgoingCallBuilder { recipients: Some(value), ..self }
    }

    pub fn transmitter_groups(self, value: Vec<String>) -> (r: Self)
        ensures
            r == (OutgoingCallBuilder { transmitter_groups: Some(value), ..self }),
    {
        OutgoingCallBuilder { transmitter_groups: Some(value), ..self }
    }

    pub fn emergency(self, value: bool) -> (r: Self)
        ensures
            r == (OutgoingCallBuilder { emergency: Some(value), ..self }),
    {
        OutgoingCallBuilder { emergency: Some(value), ..self }
    }

    /// Checks the text: it must be set and at most 80 characters long.
    pub fn validate(&self) -> (r: Result<(), String>)
        ensures
            r is Ok <==> text_problem(text_view(self.text)) is None,
            r is Err ==> text_problem(text_view(self.text)) == Some(r->Err_0@),
    {
        check_text(&self.text)
    }

    /// Builds the call. The text is checked first; then recipients and
    /// transmitter groups must be set; `emergency` defaults to false.
    pub fn build(self) -> (r: Result<OutgoingCall, OutgoingCallBuilderError>)
        ensures
            ({
                let problem = text_problem(text_view(self.text));
                match r {
                    Ok(call) => {
                        &&& problem is None
                        &&& self.recipients is Some
                        &&& self.transmitter_groups is Some
                        &&& call@ == (OutgoingCallView {
                            text: self.text->0@,
                            recipients: self.recipients->0.deep_view(),
                            transmitter_groups: self.transmitter_groups->0.deep_view(),
                            emergency: match self.emergency {
                                Some(e) => e,
                                None => false,
                            },
                        })
                    },
                    Err(OutgoingCallBuilderError::ValidationError(m)) => problem == Some(m@),
                    Err(OutgoingCallBuilderError::UninitializedField(f)) => {
                        &&& problem is None
                        &&& if self.recipients is None {
                            f@ == "recipients"@
                        } else {
                            self.transmitter_groups is None && f@ == "transmitter_groups"@
                        }
                    },
                }
            }),
    {
        match self.validate() {
            Err(m) => {
                return Err(OutgoingCallBuilderError::ValidationError(m));
            },
            Ok(()) => {},
        }
        let text = match self.text {
            Some(t) => t,
            None => {
                return Err(OutgoingCallBuilderError::ValidationError(String::new()));
            },
        };
        let recipients = match self.recipients {
            Some(v) => v,
            None => {
                return Err(OutgoingCallBuilderError::UninitializedField("recipients"));
            },
        };
        let transmitter_groups = match self.transmitter_groups {
            Some(v) => v,
            None => {
                return Err(OutgoingCallBuilderError::UninitializedField("transmitter_groups"));
            },
        };
        let emergency = match self.emergency {
            Some(e) => e,
            None => false,
        };
        Ok(OutgoingCall { text, recipients, transmitter_groups, emergency })
    }
}

/// A call as the server reports it.
#[derive(Debug, Clone)]
pub struct Call {
    /// Message text of the call.
    pub text: String,
    /// Time at which the call was sent.
    pub timestamp: Timestamp,
    /// User who submitted the call.
    pub sender: String,
    /// Call signs of the recipients.
    pub recipients: Vec<String>,
    /// Names of the transmitter groups used to transmit the call.
    pub transmitter_groups: Vec<String>,
    /// Whether the call was sent with high priority.
    pub emergency: bool,
}

} // verus!
