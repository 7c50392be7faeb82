//! Display records and their construction from raw API items.
//!
//! A fetched item carries a title, an optional description and a link; the
//! display record always carries a description, a fixed placeholder standing
//! in for a missing one.

use vstd::prelude::*;

verus! {

/// A single headline entry, ready for display.
pub struct NewsCardData {
    pub title: String,
    pub desc: String,
    pub url: String,
}

/// The mathematical content of a display record.
#[verifier::ext_equal]
pub ghost struct CardView {
    pub title: Seq<char>,
    pub desc: Seq<char>,
    pub url: Seq<char>,
}

impl View for NewsCardData {
    type V = CardView;

    open spec fn view(&self) -> CardView {
        CardView { title: self.title@, desc: self.desc@, url: self.url@ }
    }
}

/// One item of an API response as handed to the library: a title, an
/// optional description, and a link.
pub struct RawArticle {
    pub title: String,
    pub desc: Option<String>,
    pub url: String,
}

/// The mathematical content of a raw item.
#[verifier::ext_equal]
pub ghost struct RawArticleView {
    pub title: Seq<char>,
    pub desc: Option<Seq<char>>,
    pub url: Seq<char>,
}

impl View for RawArticle {
    type V = RawArticleView;

    open spec fn view(&self) -> RawArticleView {
        RawArticleView {
            title: self.title@,
            desc: match self.desc {
                Some(d) => Some(d@),
                None => None,
            },
            url: self.url@,
        }
    }
}

/// The text shown for an item that came without a description.
pub open spec fn placeholder_text() -> Seq<char> {
    "..."@
}

/// The placeholder description as an owned string.
pub fn placeholder() -> (s: String)
    ensures
        s@ == placeholder_text(),
{
    String::from_str("...")
}

/// The display record that a raw item turns into: the title and link are
/// kept, a missing description becomes the placeholder.
pub open spec fn card_of(a: RawArticleView) -> CardView {
    CardView {
        title: a.title,
        desc: match a.desc {
            Some(d) => d,
            None => placeholder_text(),
        },
        url: a.url,
    }
}

/// Builds one display record from one raw item.
pub fn make_card(a: RawArticle) -> (c: NewsCardData)
    ensures
        c@ == card_of(a@),
{
    let desc = match a.desc {
        Some(d) => d,
        None => placeholder(),
    };
    NewsCardData { title: a.title, desc, url: a.url }
}

/// Builds the display records for a whole response, in response order.
pub fn build_cards(items: &Vec<RawArticle>) -> (cards: Vec<NewsCardData>)
    ensures
        cards@.len() == items@.len(),
        forall|i: int| 0 <= i < items@.len() ==> #[trigger] cards@[i]@ == card_of(items@[i]@),
{
    let mut cards: Vec<NewsCardData> = Vec::new();
    let n = items.len();
    let mut k: usize = 0;
    while k < n
        invariant
            n == items@.len(),
            k <= n,
            cards@.len() == k,
            forall|i: int| 0 <= i < k ==> #[trigger] cards@[i]@ == card_of(items@[i]@),
        decreases n - k,
    {
        let a = clone_raw(&items[k]);
        cards.push(make_card(a));
        k = k + 1;
    }
    cards
}

/// A field-for-field copy of a raw item.
fn clone_raw(a: &RawArticle) -> (b: RawArticle)
    ensures
        b@ == a@,
{
    RawArticle {
        title: a.title.clone(),
        desc: match &a.desc {
            Some(d) => Some(d.clone()),
            None => None,
        },
        url: a.url.clone(),
    }
}

} // verus!
