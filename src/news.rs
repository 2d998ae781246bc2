use vstd::prelude::*;
use crate::payload::{check_text, text_problem, text_view, MAX_TEXT_LENGTH};
use crate::timestamp::Timestamp;

verus! {

/// Position a news item takes when none is given.
pub const DEFAULT_NEWS_NUMBER: i8 = 1;

/// A news item to submit to a rubric. Its text is at most 80 characters long.
#[derive(Debug)]
pub struct OutgoingNews {
    rubric: String,
    text: String,
    number: i8,
}

/// What an [`OutgoingNews`] holds.
pub struct OutgoingNewsView {
    pub rubric: Seq<char>,
    pub text: Seq<char>,
    pub number: i8,
}

impl View for OutgoingNews {
    type V = OutgoingNewsView;

    closed spec fn view(&self) -> OutgoingNewsView {
        OutgoingNewsView { rubric: self.rubric@, text: self.text@, number: self.number }
    }
}

/// Error of building an [`OutgoingNews`].
#[derive(Debug, Clone, PartialEq, Eq)]
pub enum OutgoingNewsBuilderError {
    /// A field without a default was not set.
    UninitializedField(&'static str),
    /// The text is missing or too long.
    ValidationError(String),
}

impl OutgoingNews {
    #[verifier::type_invariant]
    spec fn inv(&self) -> bool {
        self.text@.len() <= MAX_TEXT_LENGTH
    }

    /// A news item at position 1; refused if `text` is longer than 80 characters.
    pub fn new(rubric: String, text: String) -> (r: Result<OutgoingNews, OutgoingNewsBuilderError>)
        ensures
            r is Ok <==> text@.len() <= MAX_TEXT_LENGTH,
            r is Ok ==> r->Ok_0@ == (OutgoingNewsView {
                rubric: rubric@,
                text: text@,
                number: DEFAULT_NEWS_NUMBER,
            }),
            r is Err ==> (r->Err_0 matches OutgoingNewsBuilderError::ValidationError(m) && m@
                == "Text must be 80 characters or less"@),
    {
        OutgoingNewsBuilder::default().rubric(rubric).text(text).build()
    }

    /// Name of the rubric the item goes to.
    pub fn rubric(&self) -> (r: &String)
        ensures
            r@ == self@.rubric,
    {
        &self.rubric
    }

    /// Message text of the item.
    pub fn text(&self) -> (r: &String)
        ensures
            r@ == self@.text,
            r@.len() <= MAX_TEXT_LENGTH,
    {
        proof {
            use_type_invariant(self);
        }
        &self.text
    }

    /// Position of the item (1 to 10 on Skyper pagers).
    pub fn number(&self) -> (r: i8)
        ensures
            r == self@.number,
    {
        self.number
    }
}

/// Incremental construction of an [`OutgoingNews`], checked by `build`.
#[derive(Debug, Clone)]
pub struct OutgoingNewsBuilder {
    pub rubric: Option<String>,
    pub text: Option<String>,
    pub number: Option<i8>,
}

impl Default for OutgoingNewsBuilder {
    fn default() -> (r: Self)
        ensures
            r.rubric is None,
            r.text is None,
            r.number is None,
    {
        OutgoingNewsBuilder { rubric: None, text: None, number: None }
    }
}

impl OutgoingNewsBuilder {
    pub fn rubric(self, value: String) -> (r: Self)
        ensures
            r == (OutgoingNewsBuilder { rubric: Some(value), ..self }),
    {
        OutgoingNewsBuilder { rubric: Some(value), ..self }
    }

    pub fn text(self, value: String) -> (r: Self)
        ensures
            r == (OutgoingNewsBuilder { text: Some(value), ..self }),
    {
        OutgoingNewsBuilder { text: Some(value), ..self }
    }

    pub fn number(self, value: i8) -> (r: Self)
        ensures
            r == (OutgoingNewsBuilder { number: Some(value), ..self }),
    {
        OutgoingNewsBuilder { number: Some(value), ..self }
    }

    /// Checks the text: it must be set and at most 80 characters long.
    pub fn validate(&self) -> (r: Result<(), String>)
        ensures
            r is Ok <==> text_problem(text_view(self.text)) is None,
            r is Err ==> text_problem(text_view(self.text)) == Some(r->Err_0@),
    {
        check_text(&self.text)
    }

    /// Builds the news item. The text is checked first; then the rubric must be
    /// set; `number` defaults to 1.
    pub fn build(self) -> (r: Result<OutgoingNews, OutgoingNewsBuilderError>)
        ensures
            ({
                let problem = text_problem(text_view(self.text));
                match r {
                    Ok(news) => {
                        &&& problem is None
                        &&& self.rubric is Some
                        &&& news@ == (OutgoingNewsView {
                            rubric: self.rubric->0@,
                            text: self.text->0@,
                            number: match self.number {
                                Some(n) => n,
                                None => DEFAULT_NEWS_NUMBER,
                            },
                        })
                    },
                    Err(OutgoingNewsBuilderError::ValidationError(m)) => problem == Some(m@),
                    Err(OutgoingNewsBuilderError::UninitializedField(f)) => {
                        &&& problem is None
                        &&& self.rubric is None
                        &&& f@ == "rubric"@
                    },
                }
            }),
    {
        match self.validate() {
            Err(m) => {
                return Err(OutgoingNewsBuilderError::ValidationError(m));
            },
            Ok(()) => {},
        }
        let text = match self.text {
            Some(t) => t,
            None => {
                return Err(OutgoingNewsBuilderError::ValidationError(String::new()));
            },
        };
        let rubric = match self.rubric {
            Some(v) => v,
            None => {
                return Err(OutgoingNewsBuilderError::UninitializedField("rubric"));
            },
        };
        let number = match self.number {
            Some(n) => n,
            None => DEFAULT_NEWS_NUMBER,
        };
        Ok(OutgoingNews { rubric, text, number })
    }
}

/// A news item as the server reports it.
#[derive(Debug, Clone)]
pub struct News {
    /// Name of the rubric the item was sent to.
    pub rubric: String,
    /// Message text of the item.
    pub text: String,
    /// Position of the item (1 to 10 on Skyper pagers).
    pub number: Option<i8>,
    /// Time at which the item was sent.
    pub timestamp: Timestamp,
    /// User who submitted the item.
    pub sender: String,
}

} // verus!
