//! What the command line shows for the result of a run: a headline that
//! says how the script answered, and the text of the answer.

use vstd::prelude::*;

verus! {

/// A JSON document as `serde_json::Value` holds it. Nothing is known here
/// of what one holds: it is carried from the reading to the writing below.
#[verifier::external_type_specification]
#[verifier::external_body]
pub struct ExJsonValue(serde_json::Value);

/// Reads `text` as JSON, by `serde_json::from_str` at the type of a JSON
/// value. A value comes back exactly when the text is a JSON document.
#[verifier::external_body]
fn json_parse(text: &str) -> (out: Option<serde_json::Value>)
    ensures
        out is Some <==> json_document(text@),
{
    serde_json::from_str::<serde_json::Value>(text).ok()
}

/// The text of a JSON value that is a string, by `Value::as_str`. `None`
/// when the value is anything else.
#[verifier::external_body]
fn json_as_text(value: &serde_json::Value) -> (out: Option<String>) {
    value.as_str().map(str::to_string)
}

/// A JSON value laid out over several lines, by
/// `serde_json::to_string_pretty`. The layout always comes back: the call
/// fails only where a value's own serialisation decides to fail or a map
/// has keys that are no strings, and a JSON value does neither.
#[verifier::external_body]
fn json_pretty(value: &serde_json::Value) -> (out: Option<String>)
    ensures
        out is Some,
{
    serde_json::to_string_pretty(value).ok()
}

/// What reading an answer as JSON came to.
#[derive(Debug)]
pub enum Parsed {
    /// The answer is no JSON document.
    NotJson,
    /// The answer is a JSON string; this is the string's text.
    Text(String),
    /// The answer is any other JSON value; this is its layout over lines.
    Pretty(String),
    /// The answer is JSON, but could not be laid out.
    Unprintable,
}

/// A reading, as the contracts see it.
pub enum Reading {
    NotJson,
    Text(Seq<char>),
    Pretty(Seq<char>),
    Unprintable,
}

impl View for Parsed {
    type V = Reading;

    open spec fn view(&self) -> Reading {
        match self {
            Parsed::NotJson => Reading::NotJson,
            Parsed::Text(text) => Reading::Text(text@),
            Parsed::Pretty(text) => Reading::Pretty(text@),
            Parsed::Unprintable => Reading::Unprintable,
        }
    }
}

/// Which way the script answered.
#[derive(Clone, Copy, Debug, PartialEq, Eq, Structural)]
pub enum Tag {
    /// The script answered.
    Answered,
    /// The script refused.
    Refused,
}

/// What was done to the answer before it is shown.
#[derive(Clone, Copy, Debug, PartialEq, Eq, Structural)]
pub enum Note {
    /// The answer is shown as it is.
    Plain,
    /// The answer was read as JSON and is shown laid out.
    Pretty,
    /// The answer should have been read as JSON, but could not be.
    PrettyFailed,
}

/// What is shown for one result.
#[derive(Debug)]
pub struct Report {
    pub tag: Tag,
    pub note: Note,
    pub body: Option<String>,
}

/// A report, as the contracts see it.
pub struct Shown {
    pub tag: Tag,
    pub note: Note,
    pub body: Option<Seq<char>>,
}

impl View for Report {
    type V = Shown;

    open spec fn view(&self) -> Shown {
        Shown {
            tag: self.tag,
            note: self.note,
            body: match self.body {
                Some(text) => Some(text@),
                None => None,
            },
        }
    }
}

/// The texts of a result.
pub open spec fn result_text(result: Result<String, String>) -> Result<Seq<char>, Seq<char>> {
    match result {
        Ok(text) => Ok(text@),
        Err(reason) => Err(reason@),
    }
}

/// The report for a result.
///
/// A rejection is shown with its reason. A success is shown as it is,
/// unless it is to be read as JSON: then a JSON string is shown as its
/// text, any other JSON value laid out, and an answer that cannot be read
/// or laid out is not shown at all.
pub open spec fn reported(
    result: Result<Seq<char>, Seq<char>>,
    parse_json: bool,
    reading: Reading,
) -> Shown {
    match result {
        Err(reason) => Shown { tag: Tag::Refused, note: Note::Plain, body: Some(reason) },
        Ok(output) => if !parse_json {
            Shown { tag: Tag::Answered, note: Note::Plain, body: Some(output) }
        } else {
            match reading {
                Reading::Text(text) => Shown {
                    tag: Tag::Answered,
                    note: Note::Pretty,
                    body: Some(text),
                },
                Reading::Pretty(text) => Shown {
                    tag: Tag::Answered,
                    note: Note::Pretty,
                    body: Some(text),
                },
                _ => Shown { tag: Tag::Answered, note: Note::PrettyFailed, body: None },
            }
        },
    }
}

/// The words that begin every headline.
pub open spec fn lead_text() -> Seq<char> {
    "Script is compiled and run successfully:"@
}

/// The words of a tag in a headline.
pub open spec fn tag_text(tag: Tag) -> Seq<char> {
    match tag {
        Tag::Answered => "Ok()"@,
        Tag::Refused => "Err()"@,
    }
}

/// The words of a note in a headline; none for a plain answer.
pub open spec fn note_text(note: Note) -> Option<Seq<char>> {
    match note {
        Note::Plain => None,
        Note::Pretty => Some("-> Parsed & Pretty"@),
        Note::PrettyFailed => Some("->  Parsed & Pretty failed"@),
    }
}

/// The headline of a report: the lead, the tag and the note, a space
/// between each two.
pub open spec fn headline(shown: Shown) -> Seq<char> {
    let start = lead_text() + " "@ + tag_text(shown.tag);
    match note_text(shown.note) {
        Some(note) => start + " "@ + note,
        None => start,
    }
}

/// The lines of a report: the headline, then the body if there is one.
pub open spec fn lines_of(shown: Shown) -> Seq<Seq<char>> {
    match shown.body {
        Some(body) => seq![headline(shown), body],
        None => seq![headline(shown)],
    }
}

impl Tag {
    /// The words of this tag in a headline.
    pub fn label(&self) -> (label: &'static str)
        ensures
            label@ == tag_text(*self),
    {
        match self {
            Tag::Answered => "Ok()",
            Tag::Refused => "Err()",
        }
    }
}

impl Note {
    /// The words of this note in a headline; none for a plain answer.
    pub fn label(&self) -> (label: Option<&'static str>)
        ensures
            match label {
                Some(text) => note_text(*self) == Some(text@),
                None => note_text(*self) is None,
            },
    {
        match self {
            Note::Plain => None,
            Note::Pretty => Some("-> Parsed & Pretty"),
            Note::PrettyFailed => Some("->  Parsed & Pretty failed"),
        }
    }
}

impl Report {
    /// The words that begin every headline.
    pub fn lead() -> (lead: &'static str)
        ensures
            lead@ == lead_text(),
    {
        "Script is compiled and run successfully:"
    }

    /// The headline of this report.
    pub fn headline(&self) -> (line: String)
        ensures
            line@ == headline(self@),
    {
        let mut line = String::from_str(Report::lead());
        line.append(" ");
        line.append(self.tag.label());
        match self.note.label() {
            Some(note) => {
                line.append(" ");
                line.append(note);
            },
            None => {},
        }
        line
    }

    /// The lines of this report, top to bottom.
    pub fn lines(&self) -> (lines: Vec<String>)
        ensures
            lines@.map_values(|line: String| line@) == lines_of(self@),
    {
        let mut lines: Vec<String> = Vec::new();
        lines.push(self.headline());
        if let Some(body) = &self.body {
            lines.push(body.clone());
        }
        lines
    }
}

/// The report for `result`, given what reading it as JSON came to.
pub fn report_for(result: &Result<String, String>, parse_json: bool, parsed: Parsed) -> (report:
    Report)
    ensures
        report@ == reported(result_text(*result), parse_json, parsed@),
{
    match result {
        Err(reason) => Report { tag: Tag::Refused, note: Note::Plain, body: Some(reason.clone()) },
        Ok(output) => {
            if !parse_json {
                Report { tag: Tag::Answered, note: Note::Plain, body: Some(output.clone()) }
            } else {
                match parsed {
                    Parsed::Text(text) => Report {
                        tag: Tag::Answered,
                        note: Note::Pretty,
                        body: Some(text),
                    },
                    Parsed::Pretty(text) => Report {
                        tag: Tag::Answered,
                        note: Note::Pretty,
                        body: Some(text),
                    },
                    _ => Report { tag: Tag::Answered, note: Note::PrettyFailed, body: None },
                }
            }
        },
    }
}

/// Reads `output` as JSON: a JSON string gives its text, any other JSON
/// value its layout over lines, and only what is no JSON document gives none.
pub fn parse_output(output: &str) -> (parsed: Parsed)
    ensures
        parsed@ is NotJson <==> !json_document(output@),
        json_document(output@) ==> parsed@ is Text || parsed@ is Pretty,
{
    match json_parse(output) {
        None => Parsed::NotJson,
        Some(value) => match json_as_text(&value) {
            Some(text) => Parsed::Text(text),
            None => match json_pretty(&value) {
                Some(text) => Parsed::Pretty(text),
                None => Parsed::Unprintable,
            },
        },
    }
}

/// The report to show for `result`. The answer of a success is read as JSON
/// only where `parse_json` asks for it; where it does not, and for every
/// rejection, the report shows the text as it is. An answer that is read
/// and is a JSON document is shown as a string's text or laid out; one that
/// is no JSON document is not shown.
pub fn format_result_output(result: &Result<String, String>, parse_json: bool) -> (report: Report)
    ensures
        result is Err || !parse_json ==> report@ == reported(
            result_text(*result),
            parse_json,
            Reading::NotJson,
        ),
        result matches Ok(output) && parse_json && !json_document(output@) ==> report@
            == reported(result_text(*result), true, Reading::NotJson),
        result matches Ok(output) && parse_json && json_document(output@) ==> exists|
            reading: Reading,
        |
            (reading is Text || reading is Pretty) && report@ == reported(
                result_text(*result),
                true,
                reading,
            ),
{
    match result {
        Ok(output) => {
            if parse_json {
                report_for(result, parse_json, parse_output(output.as_str()))
            } else {
                report_for(result, parse_json, Parsed::NotJson)
            }
        },
        Err(_) => report_for(result, parse_json, Parsed::NotJson),
    }
}

/// Whether `serde_json::from_str` accepts `text` as a JSON document. What
/// it accepts is decided by the text alone.
pub uninterp spec fn json_document(text: Seq<char>) -> bool;

} // verus!
