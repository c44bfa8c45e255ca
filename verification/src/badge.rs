//! The status badge of the published documentation: what it says, and
//! its two files.

use vstd::prelude::*;
use vstd::string::*;
use vstd::utf8::encode_utf8;

verus! {

/// What a badge says, and in which colour.
#[derive(Debug, PartialEq, Eq)]
pub struct Badge {
    pub status: String,
    pub color: String,
}

pub struct BadgeView {
    pub status: Seq<char>,
    pub color: Seq<char>,
}

impl View for Badge {
    type V = BadgeView;

    open spec fn view(&self) -> BadgeView {
        BadgeView { status: self.status@, color: self.color@ }
    }
}

/// The badge of a publication: the version in the colour of success
/// where the version could be read and the documentation was copied,
/// "no builds" in the colour of failure otherwise.
pub open spec fn badge_for(version: Option<Seq<char>>, copied: bool) -> BadgeView {
    match version {
        Some(text) => if copied {
            BadgeView { status: text, color: "#4d76ae"@ }
        } else {
            BadgeView { status: "no builds"@, color: "#e05d44"@ }
        },
        None => BadgeView { status: "no builds"@, color: "#e05d44"@ },
    }
}

/// The longest subject or status that a badge is drawn with, in bytes.
pub const MAX_BADGE_TEXT: usize = 1024;

/// Whether a badge can be drawn with `text` on one of its sides.
pub open spec fn drawable(text: Seq<char>) -> bool {
    0 < text.len() && encode_utf8(text).len() <= MAX_BADGE_TEXT
}

/// The JSON text of an object whose members are the pairs of
/// `text_keys` and `text_values`, as strings, and those of `number_keys`
/// and `number_values`, as numbers.
pub uninterp spec fn json_object_text(
    text_keys: Seq<Seq<char>>,
    text_values: Seq<Seq<char>>,
    number_keys: Seq<Seq<char>>,
    number_values: Seq<u64>,
) -> Seq<char>;

/// Builds a `serde_json::Map` of the given members, strings first, and
/// writes it with `serde_json::Value`'s `Display` (`to_string`), which is
/// the compact form. The text depends on the members alone;
/// `json_object_text` names it.
#[verifier::external_body]
fn json_object(
    text_keys: &Vec<String>,
    text_values: &Vec<String>,
    number_keys: &Vec<String>,
    number_values: &Vec<u64>,
) -> (text: String)
    ensures
        text@ == json_object_text(
            text_keys.deep_view(),
            text_values.deep_view(),
            number_keys.deep_view(),
            number_values@,
        ),
{
    let mut object = serde_json::Map::new();
    for (key, value) in text_keys.iter().zip(text_values.iter()) {
        object.insert(key.clone(), serde_json::Value::String(value.clone()));
    }
    for (key, value) in number_keys.iter().zip(number_values.iter()) {
        object.insert(key.clone(), serde_json::Value::Number(serde_json::Number::from(*value)));
    }
    serde_json::Value::Object(object).to_string()
}

/// The picture that `badge::Badge::to_svg` draws of a subject, a status
/// and a colour.
pub uninterp spec fn badge_svg(subject: Seq<char>, status: Seq<char>, color: Seq<char>) -> Seq<char>;

/// Draws a badge with `badge::Badge::new` and `badge::Badge::to_svg`.
/// `new` refuses an empty subject or status and nothing else; the
/// drawing measures the two texts in 32-bit numbers, so both are kept
/// short. The picture depends on the three texts alone; `badge_svg` names
/// it.
#[verifier::external_body]
fn draw(subject: &str, status: &str, color: &str) -> (svg: Result<String, String>)
    requires
        drawable(subject@),
        drawable(status@),
    ensures
        svg is Ok,
        svg->Ok_0@ == badge_svg(subject@, status@, color@),
{
    let options = badge::BadgeOptions {
        subject: subject.to_owned(),
        status: status.to_owned(),
        color: color.to_owned(),
    };
    match badge::Badge::new(options) {
        Ok(drawn) => Ok(drawn.to_svg()),
        Err(reason) => Err(reason),
    }
}

impl BadgeView {
    /// The status record: schema version 1, the label "docs", the status
    /// as the message, and the colour.
    pub open spec fn record(self) -> Seq<char> {
        json_object_text(
            seq!["label"@, "message"@, "color"@],
            seq!["docs"@, self.status, self.color],
            seq!["schemaVersion"@],
            seq![1u64],
        )
    }

    /// The picture of the badge, where it can be drawn.
    pub open spec fn picture(self) -> Option<Seq<char>> {
        if drawable(self.status) {
            Some(badge_svg("docs"@, self.status, self.color))
        } else {
            None
        }
    }
}

fn can_draw(text: &str) -> (yes: bool)
    ensures
        yes == drawable(text@),
{
    !text.is_empty() && text.as_bytes().len() <= MAX_BADGE_TEXT
}

impl Badge {
    /// The badge of a publication.
    pub fn new(version: Option<String>, copied: bool) -> (badge: Badge)
        ensures
            badge@ == badge_for(version.deep_view(), copied),
    {
        match version {
            Some(text) => {
                if copied {
                    Badge { status: text, color: "#4d76ae".to_owned() }
                } else {
                    Badge { status: "no builds".to_owned(), color: "#e05d44".to_owned() }
                }
            },
            None => Badge { status: "no builds".to_owned(), color: "#e05d44".to_owned() },
        }
    }

    /// The status record of the badge, as JSON text.
    pub fn json(&self) -> (text: String)
        ensures
            text@ == self@.record(),
    {
        let mut text_keys: Vec<String> = Vec::new();
        text_keys.push("label".to_owned());
        text_keys.push("message".to_owned());
        text_keys.push("color".to_owned());
        let mut text_values: Vec<String> = Vec::new();
        text_values.push("docs".to_owned());
        text_values.push(self.status.clone());
        text_values.push(self.color.clone());
        let mut number_keys: Vec<String> = Vec::new();
        number_keys.push("schemaVersion".to_owned());
        let mut number_values: Vec<u64> = Vec::new();
        number_values.push(1);
        proof {
            assert(text_keys.deep_view() =~= seq!["label"@, "message"@, "color"@]);
            assert(text_values.deep_view() =~= seq!["docs"@, self.status@, self.color@]);
            assert(number_keys.deep_view() =~= seq!["schemaVersion"@]);
            assert(number_values@ =~= seq![1u64]);
        }
        json_object(&text_keys, &text_values, &number_keys, &number_values)
    }

    /// The picture of the badge, as SVG text: `None` where the status is
    /// empty or too long to draw.
    pub fn svg(&self) -> (picture: Option<String>)
        ensures
            picture.deep_view() == self@.picture(),
    {
        if can_draw(self.status.as_str()) {
            proof {
                lemma_subject_drawable();
            }
            match draw("docs", self.status.as_str(), self.color.as_str()) {
                Ok(text) => Some(text),
                Err(_) => None,
            }
        } else {
            None
        }
    }
}

/// The badge's subject can be drawn.
proof fn lemma_subject_drawable()
    ensures
        drawable("docs"@),
{
    reveal_strlit("docs");
    let text = "docs"@;
    assert(text =~= seq!['d', 'o', 'c', 's']);
    assert(vstd::utf8::is_ascii_chars(text));
    vstd::utf8::is_ascii_chars_encode_utf8(text);
}

/// The badge shows the version in the colour of success exactly where
/// the version was read and the documentation copied; without a version
/// it shows "no builds" in the colour of failure, whether or not the
/// documentation was copied.
pub proof fn lemma_badge_round_trip(version: Seq<char>, copied: bool)
    ensures
        badge_for(Some(version), true) == (BadgeView { status: version, color: "#4d76ae"@ }),
        badge_for(None, copied) == (BadgeView { status: "no builds"@, color: "#e05d44"@ }),
        badge_for(Some(version), false) == badge_for(None, copied),
{
}

} // verus!
