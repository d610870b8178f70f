//! From the HTML of the launch listing to launch records.
//!
//! Each element that `CARD_SELECTOR` matches stands for one launch. What the
//! page holds for it is first read into a `CardParts`, a plain value; the
//! rule that decides which cards become launches works on that value alone.
//!
//! The order of the launches is the order of the cards on the page, as
//! `document_matches` gives it: the order in which the parser met them.

use vstd::prelude::*;
use vstd::string::*;
use crate::dom::{
    attribute_of, children_of, document_matches, element_attribute, element_children,
    element_matches, element_text, parse_document, parse_selector, parsed_document,
    parsed_selector, select_in_document, select_in_element, text_of,
};
use crate::error::FetchError;
use crate::launch::{parse_time, scheduled_seconds, LaunchModel, LaunchRecord};

verus! {

/// The address of the launch listing.
pub const UPSTREAM_URL: &'static str = "https://nextspaceflight.com/launches/";

/// Matches the element that holds one launch.
pub const CARD_SELECTOR: &'static str = ".mdl-card";

/// Matches, below a card, the heading that holds the name.
pub const NAME_SELECTOR: &'static str = "h5.header-style";

/// Matches, below a card, the block whose text runs hold time and site.
pub const SUPPORTING_TEXT_SELECTOR: &'static str = ".mdl-card__supporting-text";

/// Matches, below a card, the button that links to the details page.
pub const DETAILS_SELECTOR: &'static str = ".mdc-button";

/// The attribute of the details button that holds the path.
pub const DETAILS_ATTRIBUTE: &'static str = "href";

/// The number of text runs that the supporting text of a launch holds.
pub const TEXT_RUNS: usize = 4;

/// The text run that holds the scheduled time.
pub const TIME_RUN: usize = 1;

/// The text run that holds the launch site.
pub const SITE_RUN: usize = 3;

/// What the page holds for one card, before any of it is judged.
#[derive(Debug, Clone, PartialEq, Eq)]
pub struct CardParts {
    /// The first text node of the first heading, if there is one.
    pub name: Option<String>,
    /// The text runs of the first supporting-text block, if there is one:
    /// the text nodes that are children of the block itself.
    pub text_runs: Option<Vec<String>>,
    /// The link of the first details button, if there is one.
    pub details_path: Option<String>,
}

/// What a `CardParts` stands for.
pub struct CardPartsModel {
    pub name: Option<Seq<char>>,
    pub text_runs: Option<Seq<Seq<char>>>,
    pub details_path: Option<Seq<char>>,
}

impl View for CardParts {
    type V = CardPartsModel;

    open spec fn view(&self) -> CardPartsModel {
        CardPartsModel {
            name: self.name.deep_view(),
            text_runs: self.text_runs.deep_view(),
            details_path: self.details_path.deep_view(),
        }
    }
}

impl DeepView for CardParts {
    type V = CardPartsModel;

    open spec fn deep_view(&self) -> CardPartsModel {
        self@
    }
}

/// Whether a card yields a launch: its supporting text has exactly four
/// runs, the second of them reads as a time, and name and link are there.
pub open spec fn accepted(parts: CardPartsModel) -> bool {
    &&& parts.text_runs matches Some(runs)
    &&& runs.len() == TEXT_RUNS
    &&& scheduled_seconds(runs[TIME_RUN as int]) is Some
    &&& parts.name is Some
    &&& parts.details_path is Some
}

/// The launch that an accepted card yields.
pub open spec fn launch_of(parts: CardPartsModel) -> LaunchModel {
    LaunchModel {
        name: parts.name->0,
        scheduled_at: scheduled_seconds(parts.text_runs->0[TIME_RUN as int])->0 as int,
        site: parts.text_runs->0[SITE_RUN as int],
        details_path: parts.details_path->0,
    }
}

/// The launches that a sequence of cards yields: one for each accepted card,
/// in the order of the cards.
pub open spec fn launches_of(cards: Seq<CardPartsModel>) -> Seq<LaunchModel>
    decreases cards.len(),
{
    if cards.len() == 0 {
        Seq::empty()
    } else if accepted(cards.last()) {
        launches_of(cards.drop_last()).push(launch_of(cards.last()))
    } else {
        launches_of(cards.drop_last())
    }
}

/// Whether `launch` is what one of the accepted cards among `cards` yields.
pub open spec fn yielded_by(cards: Seq<CardPartsModel>, launch: LaunchModel) -> bool {
    exists|k: int| 0 <= k < cards.len() && #[trigger] accepted(cards[k]) && launch == launch_of(cards[k])
}

/// A card whose supporting text is missing or has not exactly four runs, or
/// whose time string does not read, yields no launch.
pub proof fn lemma_malformed_card_rejected(parts: CardPartsModel)
    requires
        parts.text_runs is None || parts.text_runs->0.len() != TEXT_RUNS || scheduled_seconds(
            parts.text_runs->0[TIME_RUN as int],
        ) is None,
    ensures
        !accepted(parts),
{
}

/// The launches are the accepted cards, each turned into its launch, in the
/// order of the cards: nothing is added, reordered or repeated.
pub proof fn lemma_launches_are_accepted_cards(cards: Seq<CardPartsModel>)
    ensures
        launches_of(cards) == cards.filter(|parts: CardPartsModel| accepted(parts)).map_values(
            |parts: CardPartsModel| launch_of(parts),
        ),
    decreases cards.len(),
{
    reveal(Seq::filter);
    if cards.len() > 0 {
        lemma_launches_are_accepted_cards(cards.drop_last());
    }
}

/// Every launch comes from an accepted card: from a card whose supporting
/// text has exactly four runs and whose time string reads. No card without
/// them is ever among the launches.
pub proof fn lemma_launches_come_from_accepted_cards(cards: Seq<CardPartsModel>, i: int)
    requires
        0 <= i < launches_of(cards).len(),
    ensures
        yielded_by(cards, launches_of(cards)[i]),
    decreases cards.len(),
{
    if cards.len() > 0 {
        let before = cards.drop_last();
        if accepted(cards.last()) && i == launches_of(before).len() {
            assert(accepted(cards[cards.len() - 1]));
        } else {
            lemma_launches_come_from_accepted_cards(before, i);
            let k = choose|k: int|
                0 <= k < before.len() && #[trigger] accepted(before[k]) && launches_of(before)[i]
                    == launch_of(before[k]);
            assert(accepted(cards[k]));
        }
    }
}

/// Judges one card: the launch it yields, or `None` where any piece is
/// missing, the supporting text has not exactly four runs, or the time does
/// not read.
pub fn launch_from_parts(parts: &CardParts) -> (launch: Option<LaunchRecord>)
    ensures
        launch is Some <==> accepted(parts@),
        launch matches Some(record) ==> record@ == launch_of(parts@),
{
    let runs = match &parts.text_runs {
        Some(runs) => runs,
        None => {
            return None;
        },
    };
    if runs.len() != TEXT_RUNS {
        return None;
    }
    let scheduled_at = match parse_time(runs[TIME_RUN].as_str()) {
        Some(seconds) => seconds,
        None => {
            return None;
        },
    };
    let name = match &parts.name {
        Some(name) => name.clone(),
        None => {
            return None;
        },
    };
    let details_path = match &parts.details_path {
        Some(path) => path.clone(),
        None => {
            return None;
        },
    };
    Some(LaunchRecord { name, scheduled_at, site: runs[SITE_RUN].clone(), details_path })
}

/// Keeps the launches among `cards`, in their order.
pub fn select_launches(cards: &Vec<CardParts>) -> (launches: Vec<LaunchRecord>)
    ensures
        launches.deep_view() == launches_of(cards.deep_view()),
{
    let mut launches: Vec<LaunchRecord> = Vec::new();
    let mut i: usize = 0;
    while i < cards.len()
        invariant
            i <= cards.len(),
            launches.deep_view() == launches_of(cards.deep_view().take(i as int)),
        decreases cards.len() - i,
    {
        assert(cards.deep_view().take(i as int + 1).drop_last() =~= cards.deep_view().take(
            i as int,
        ));
        match launch_from_parts(&cards[i]) {
            Some(record) => {
                launches.push(record);
            },
            None => {},
        }
        i = i + 1;
    }
    assert(cards.deep_view().take(i as int) =~= cards.deep_view());
    launches
}

/// The text runs among the children of an element: the text of each child
/// that is a text node, in the order of the children.
pub open spec fn text_runs_of(children: Seq<Option<Seq<char>>>) -> Seq<Seq<char>>
    decreases children.len(),
{
    if children.len() == 0 {
        Seq::empty()
    } else if children.last() is Some {
        text_runs_of(children.drop_last()).push(children.last()->0)
    } else {
        text_runs_of(children.drop_last())
    }
}

/// Keeps the text runs among the children of an element.
pub fn text_runs(children: &Vec<Option<String>>) -> (runs: Vec<String>)
    ensures
        runs.deep_view() == text_runs_of(children.deep_view()),
{
    let mut runs: Vec<String> = Vec::new();
    let mut i: usize = 0;
    while i < children.len()
        invariant
            i <= children.len(),
            runs.deep_view() == text_runs_of(children.deep_view().take(i as int)),
        decreases children.len() - i,
    {
        assert(children.deep_view().take(i as int + 1).drop_last() =~= children.deep_view().take(
            i as int,
        ));
        match &children[i] {
            Some(text) => {
                runs.push(text.clone());
            },
            None => {},
        }
        i = i + 1;
    }
    assert(children.deep_view().take(i as int) =~= children.deep_view());
    runs
}

/// The four selectors that locate a launch on the page, parsed.
pub struct Selectors {
    pub card: scraper::Selector,
    pub name: scraper::Selector,
    pub supporting_text: scraper::Selector,
    pub details: scraper::Selector,
}

/// The selectors as the constants of this module give them, or `None` where
/// one of the constants is not accepted as CSS.
pub open spec fn standard_selectors() -> Option<Selectors> {
    match (
        parsed_selector(CARD_SELECTOR@),
        parsed_selector(NAME_SELECTOR@),
        parsed_selector(SUPPORTING_TEXT_SELECTOR@),
        parsed_selector(DETAILS_SELECTOR@),
    ) {
        (Some(card), Some(name), Some(supporting_text), Some(details)) => Some(
            Selectors { card, name, supporting_text, details },
        ),
        _ => None,
    }
}

impl Selectors {
    /// Parses the four selector constants.
    pub fn standard() -> (selectors: Option<Selectors>)
        ensures
            selectors == standard_selectors(),
    {
        let card = match parse_selector(CARD_SELECTOR) {
            Some(selector) => selector,
            None => {
                return None;
            },
        };
        let name = match parse_selector(NAME_SELECTOR) {
            Some(selector) => selector,
            None => {
                return None;
            },
        };
        let supporting_text = match parse_selector(SUPPORTING_TEXT_SELECTOR) {
            Some(selector) => selector,
            None => {
                return None;
            },
        };
        let details = match parse_selector(DETAILS_SELECTOR) {
            Some(selector) => selector,
            None => {
                return None;
            },
        };
        Some(Selectors { card, name, supporting_text, details })
    }
}

/// What the page holds for the card `element`: of each selector the first
/// match below the card counts; of the heading its first text node, at any
/// depth; of the supporting text the text nodes that are its own children.
pub open spec fn card_parts(
    element: scraper::ElementRef<'static>,
    selectors: Selectors,
) -> CardPartsModel {
    let headings = element_matches(element, selectors.name);
    let blocks = element_matches(element, selectors.supporting_text);
    let buttons = element_matches(element, selectors.details);
    CardPartsModel {
        name: if headings.len() > 0 && element_text(headings[0]).len() > 0 {
            Some(element_text(headings[0])[0])
        } else {
            None
        },
        text_runs: if blocks.len() > 0 {
            Some(text_runs_of(element_children(blocks[0])))
        } else {
            None
        },
        details_path: if buttons.len() > 0 {
            element_attribute(buttons[0], DETAILS_ATTRIBUTE@)
        } else {
            None
        },
    }
}

/// The cards of a document, in the order of the page.
pub open spec fn document_cards(document: scraper::Html, selectors: Selectors) -> Seq<
    CardPartsModel,
> {
    document_matches(document, selectors.card).map_values(
        |element: scraper::ElementRef<'static>| card_parts(element, selectors),
    )
}

/// The launches that the page `html` lists, in the order of the page;
/// `None` where the selector constants are not accepted as CSS.
pub open spec fn page_launches(html: Seq<char>) -> Option<Seq<LaunchModel>> {
    match standard_selectors() {
        Some(selectors) => Some(launches_of(document_cards(parsed_document(html), selectors))),
        None => None,
    }
}

/// Reads the pieces of one card off the page.
pub fn read_card(element: scraper::ElementRef<'_>, selectors: &Selectors) -> (parts: CardParts)
    ensures
        parts@ == card_parts(element, *selectors),
{
    let headings = select_in_element(element, &selectors.name);
    let name = if headings.len() > 0 {
        let runs = text_of(headings[0]);
        if runs.len() > 0 {
            Some(runs[0].clone())
        } else {
            None
        }
    } else {
        None
    };
    let blocks = select_in_element(element, &selectors.supporting_text);
    let text_runs = if blocks.len() > 0 {
        Some(text_runs(&children_of(blocks[0])))
    } else {
        None
    };
    let buttons = select_in_element(element, &selectors.details);
    let details_path = if buttons.len() > 0 {
        attribute_of(buttons[0], DETAILS_ATTRIBUTE)
    } else {
        None
    };
    CardParts { name, text_runs, details_path }
}

/// Reads the pieces of every card of `document`, in the order of the page.
pub fn read_cards(document: &scraper::Html, selectors: &Selectors) -> (cards: Vec<CardParts>)
    ensures
        cards.deep_view() == document_cards(*document, *selectors),
{
    let elements = select_in_document(document, &selectors.card);
    let mut cards: Vec<CardParts> = Vec::new();
    let mut i: usize = 0;
    while i < elements.len()
        invariant
            i <= elements.len(),
            elements@ == document_matches(*document, selectors.card),
            cards.len() == i,
            forall|k: int| 0 <= k < i ==> (#[trigger] cards[k])@ == card_parts(elements[k], *selectors),
        decreases elements.len() - i,
    {
        let parts = read_card(elements[i], selectors);
        cards.push(parts);
        i = i + 1;
    }
    cards
}

/// Reads the launches off the page `html`: one for each card whose
/// supporting text has exactly four runs, whose time reads, and whose name
/// and link are there, in the order of the page. Fails only where the selector
/// constants are not accepted as CSS.
pub fn extract_launches(html: &str) -> (launches: Result<Vec<LaunchRecord>, FetchError>)
    ensures
        match page_launches(html@) {
            Some(listed) => launches matches Ok(found) && found.deep_view() == listed,
            None => launches == Err::<Vec<LaunchRecord>, FetchError>(FetchError::Selectors),
        },
{
    let selectors = match Selectors::standard() {
        Some(selectors) => selectors,
        None => {
            return Err(FetchError::Selectors);
        },
    };
    let document = parse_document(html);
    let cards = read_cards(&document, &selectors);
    Ok(select_launches(&cards))
}

} // verus!
