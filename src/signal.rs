use vstd::prelude::*;

verus! {

/// Why the text of a field could not be turned into a value.
#[derive(Clone, Debug, PartialEq, Eq)]
pub enum FormError {
    /// The text does not parse; the parser's own message is kept.
    Parse { message: String },
}

impl FormError {
    /// Tags a parser's message as a parse failure.
    pub fn parse(message: String) -> (r: FormError)
        ensures
            r == (FormError::Parse { message }),
    {
        FormError::Parse { message }
    }

    /// The message that the parser gave.
    pub fn message(&self) -> (r: &String)
        ensures
            r == match self {
                FormError::Parse { message } => message,
            },
    {
        match self {
            FormError::Parse { message } => message,
        }
    }
}

/// The state of one text input: the current raw text, the baseline text the
/// field counts as unmodified, and the error of the last commit.
#[derive(Clone, Debug)]
pub struct FormFieldSignal {
    pub value: String,
    pub initial: Option<String>,
    pub error: Option<FormError>,
}

/// The text that a field seeded from `initial` starts with.
pub open spec fn seeded_text(initial: Option<String>) -> Seq<char> {
    match initial {
        Some(text) => text@,
        None => Seq::empty(),
    }
}

/// The text held by an optional string.
pub open spec fn view_opt(o: Option<String>) -> Option<Seq<char>> {
    match o {
        Some(s) => Some(s@),
        None => None,
    }
}

/// Whether a commit on this text validates it: an optional field at empty
/// text is exempt.
pub open spec fn commit_validates(text: Seq<char>, is_optional: bool) -> bool {
    !is_optional || text.len() != 0
}

impl FormFieldSignal {
    /// The field after its current text became the baseline.
    pub open spec fn with_baseline_reset(self) -> FormFieldSignal {
        FormFieldSignal { initial: Some(self.value), ..self }
    }

    /// A field holding `value`, with `initial` as its baseline and no error.
    pub fn new(value: String, initial: Option<String>) -> (r: FormFieldSignal)
        ensures
            r.value == value,
            r.initial == initial,
            r.error is None,
    {
        FormFieldSignal { value, initial, error: None }
    }

    /// A field whose text and baseline both come from `initial`; the text is
    /// empty where there is no initial text.
    pub fn new_with_default_value(initial: Option<String>) -> (r: FormFieldSignal)
        ensures
            r.value@ == seeded_text(initial),
            r.initial == initial,
            r.error is None,
    {
        let value = match &initial {
            Some(text) => text.clone(),
            None => String::new(),
        };
        FormFieldSignal { value, initial, error: None }
    }

    /// Whether the field holds its default value, the empty text.
    pub fn is_default_value(&self) -> (r: bool)
        ensures
            r == (self.value@.len() == 0),
    {
        self.value.unicode_len() == 0
    }

    /// Makes the current text the new baseline.
    pub fn reset_initial_value(&mut self)
        ensures
            *final(self) == old(self).with_baseline_reset(),
    {
        let current = self.value.clone();
        self.initial = Some(current);
    }

    /// An input event: the raw text is replaced as it is, with no validation.
    pub fn input(&mut self, text: String)
        ensures
            final(self).value == text,
            final(self).initial == old(self).initial,
            final(self).error == old(self).error,
    {
        self.value = text;
    }

    /// The error of the last commit, if any.
    pub fn with_error(&self) -> (r: Option<&FormError>)
        ensures
            r == match &self.error {
                Some(e) => Some(e),
                None => None::<&FormError>,
            },
    {
        match &self.error {
            Some(e) => Some(e),
            None => None,
        }
    }

    /// Walks the field's nested fields; a text field has none.
    pub fn recurse(&self) {
    }

    /// Whether a commit on this field runs validation.
    pub fn needs_validation(&self, is_optional: bool) -> (r: bool)
        ensures
            r == commit_validates(self.value@, is_optional),
    {
        !is_optional || !self.is_default_value()
    }

    /// Records the outcome of a commit: a failed parse sets its error, any
    /// other outcome clears the error.
    pub fn settle<T>(&mut self, outcome: Option<Result<T, FormError>>)
        ensures
            final(self).value == old(self).value,
            final(self).initial == old(self).initial,
            final(self).error == match outcome {
                Some(Err(e)) => Some(e),
                _ => None::<FormError>,
            },
    {
        match outcome {
            Some(Err(e)) => {
                self.error = Some(e);
            },
            _ => {
                self.error = None;
            },
        }
    }
}

/// Resetting the baseline twice with no edit between leaves the baseline
/// equal to the current text after each reset, and the second reset changes
/// nothing.
pub proof fn reset_initial_value_idempotent(signal: FormFieldSignal)
    ensures
        signal.with_baseline_reset().initial == Some(signal.value),
        signal.with_baseline_reset().with_baseline_reset().initial == Some(
            signal.with_baseline_reset().value,
        ),
        signal.with_baseline_reset().with_baseline_reset() == signal.with_baseline_reset(),
{
}

} // verus!
