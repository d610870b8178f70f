//! Message cards and the rendering of a launch as one.

use vstd::prelude::*;
use vstd::string::*;
use crate::launch::{LaunchModel, LaunchRecord};
use crate::text::{
    decimal, i64_to_decimal, lemma_signed_decimal_round_trip, signed_decimal,
    signed_decimal_value, trim, trimmed, u64_to_decimal,
};

verus! {

/// The origin against which the details path of a launch is resolved.
pub const ORIGIN: &'static str = "https://nextspaceflight.com";

/// The accent colour of every card: pure white.
pub const ACCENT_COLOR: u32 = 0xFFFFFF;

/// The attribution in the footer of every card.
pub const FOOTER: &'static str = "Via NextSpaceflight";

/// The label of the field that holds the scheduled time.
pub const TIME_LABEL: &'static str = "Time";

/// The label of the field that holds the launch site.
pub const SITE_LABEL: &'static str = "Launch Site";

/// A labelled field of a card.
#[derive(Debug, Clone, PartialEq, Eq)]
pub struct CardField {
    pub name: String,
    pub value: String,
    /// Whether the field may share a row with others.
    pub inline: bool,
}

/// A structured message: title, link, accent colour, footer and fields.
#[derive(Debug, Clone, PartialEq, Eq)]
pub struct Card {
    pub title: String,
    pub url: String,
    pub color: u32,
    pub footer: String,
    pub fields: Vec<CardField>,
}

/// What a `CardField` stands for.
pub struct CardFieldModel {
    pub name: Seq<char>,
    pub value: Seq<char>,
    pub inline: bool,
}

/// What a `Card` stands for.
pub struct CardModel {
    pub title: Seq<char>,
    pub url: Seq<char>,
    pub color: u32,
    pub footer: Seq<char>,
    pub fields: Seq<CardFieldModel>,
}

impl View for CardField {
    type V = CardFieldModel;

    open spec fn view(&self) -> CardFieldModel {
        CardFieldModel { name: self.name@, value: self.value@, inline: self.inline }
    }
}

impl DeepView for CardField {
    type V = CardFieldModel;

    open spec fn deep_view(&self) -> CardFieldModel {
        self@
    }
}

impl View for Card {
    type V = CardModel;

    open spec fn view(&self) -> CardModel {
        CardModel {
            title: self.title@,
            url: self.url@,
            color: self.color,
            footer: self.footer@,
            fields: self.fields.deep_view(),
        }
    }
}

impl DeepView for Card {
    type V = CardModel;

    open spec fn deep_view(&self) -> CardModel {
        self@
    }
}

/// The timestamp token of the chat platform for an instant: `<t:`, the
/// seconds since the UNIX epoch in decimal, `:F>`. The client shows it in
/// the viewer's own locale.
pub open spec fn time_token(seconds: int) -> Seq<char> {
    "<t:"@ + signed_decimal(seconds) + ":F>"@
}

/// The instant that a timestamp token names.
pub open spec fn token_seconds(token: Seq<char>) -> int {
    signed_decimal_value(token.subrange(3, token.len() - 3))
}

/// The title of the card at the one-based position `index`.
pub open spec fn title_of(index: nat, name: Seq<char>) -> Seq<char> {
    "#"@ + decimal(index) + " | "@ + trimmed(name)
}

/// The card for `record` at the one-based position `index`.
pub open spec fn rendered(record: LaunchModel, index: nat) -> CardModel {
    CardModel {
        title: title_of(index, record.name),
        url: ORIGIN@ + record.details_path,
        color: ACCENT_COLOR,
        footer: FOOTER@,
        fields: seq![
            CardFieldModel {
                name: TIME_LABEL@,
                value: time_token(record.scheduled_at),
                inline: false,
            },
            CardFieldModel { name: SITE_LABEL@, value: record.site, inline: false },
        ],
    }
}

/// The cards for `launches`, numbered from one in their order.
pub open spec fn rendered_all(launches: Seq<LaunchModel>) -> Seq<CardModel> {
    Seq::new(launches.len(), |i: int| rendered(launches[i], (i + 1) as nat))
}

impl LaunchRecord {
    /// The scheduled time as a timestamp token of the chat platform.
    pub fn formatted_time(&self) -> (token: String)
        ensures
            token@ == time_token(self.scheduled_at as int),
    {
        let mut token = String::from_str("<t:");
        let seconds = i64_to_decimal(self.scheduled_at);
        token.append(seconds.as_str());
        token.append(":F>");
        token
    }
}

impl CardField {
    /// A copy of the field.
    pub fn duplicate(&self) -> (copy: CardField)
        ensures
            copy@ == self@,
    {
        CardField { name: self.name.clone(), value: self.value.clone(), inline: self.inline }
    }
}

impl Card {
    /// A copy of the card.
    pub fn duplicate(&self) -> (copy: Card)
        ensures
            copy@ == self@,
    {
        let mut fields: Vec<CardField> = Vec::new();
        let mut i: usize = 0;
        while i < self.fields.len()
            invariant
                i <= self.fields.len(),
                fields.len() == i,
                forall|k: int| 0 <= k < i ==> (#[trigger] fields[k])@ == self.fields[k]@,
            decreases self.fields.len() - i,
        {
            fields.push(self.fields[i].duplicate());
            i = i + 1;
        }
        assert(fields.deep_view() =~= self.fields.deep_view());
        Card {
            title: self.title.clone(),
            url: self.url.clone(),
            color: self.color,
            footer: self.footer.clone(),
            fields,
        }
    }
}

/// Renders `record` as the card at the one-based position `index`: the title
/// numbers the card and names the launch without surrounding white space,
/// the link resolves the details path against the upstream origin, and the
/// two fields, both full width, hold the time token and the site as it is.
pub fn render(record: &LaunchRecord, index: usize) -> (card: Card)
    ensures
        card@ == rendered(record@, index as nat),
{
    let mut title = String::from_str("#");
    let number = u64_to_decimal(index as u64);
    title.append(number.as_str());
    title.append(" | ");
    let name = trim(record.name.as_str());
    title.append(name.as_str());
    let mut url = String::from_str(ORIGIN);
    url.append(record.details_path.as_str());
    let mut fields: Vec<CardField> = Vec::new();
    fields.push(
        CardField {
            name: String::from_str(TIME_LABEL),
            value: record.formatted_time(),
            inline: false,
        },
    );
    fields.push(
        CardField { name: String::from_str(SITE_LABEL), value: record.site.clone(), inline: false },
    );
    assert(fields.deep_view() =~= rendered(record@, index as nat).fields);
    Card { title, url, color: ACCENT_COLOR, footer: String::from_str(FOOTER), fields }
}

/// Renders every launch, numbering the cards from one in the order of
/// `launches`.
pub fn render_all(launches: &Vec<LaunchRecord>) -> (cards: Vec<Card>)
    ensures
        cards.deep_view() == rendered_all(launches.deep_view()),
{
    let mut cards: Vec<Card> = Vec::new();
    let mut i: usize = 0;
    while i < launches.len()
        invariant
            i <= launches.len(),
            cards.len() == i,
            forall|k: int|
                0 <= k < i ==> (#[trigger] cards[k])@ == rendered(launches[k]@, (k + 1) as nat),
        decreases launches.len() - i,
    {
        cards.push(render(&launches[i], i + 1));
        i = i + 1;
    }
    cards
}

/// The time token of a card names the instant it was made from: reading the
/// seconds back out of the token gives the scheduled instant.
pub proof fn lemma_time_token_round_trip(seconds: int)
    ensures
        token_seconds(time_token(seconds)) == seconds,
{
    reveal_strlit("<t:");
    reveal_strlit(":F>");
    let token = time_token(seconds);
    assert(token.subrange(3, token.len() - 3) =~= signed_decimal(seconds));
    lemma_signed_decimal_round_trip(seconds);
}

} // verus!
