//! From a provider's JSON answer to the articles that mention the asset asked
//! for.
//!
//! The work has two steps. Extraction reads the article list out of the JSON
//! value as plain [`RawArticle`] items. Selection keeps the items whose title
//! contains the query, without regard to case, and turns each of them into a
//! [`NewsArticle`]. Both steps keep the order of the provider's list.

use crate::json::{elements, json_view, json_views, member, text, JsonView};
use crate::models::{article_of, ArticleView, NewsArticle, RawArticle, RawArticleView};
use crate::text::{chars_of, contains_chars, is_substring, lowercase, to_lowercase};
use vstd::prelude::*;

verus! {

/// The text stored under `key` in a JSON object; `None` where the value is no
/// object, has no such key, or holds something other than a string there.
pub open spec fn text_field(item: JsonView, key: Seq<char>) -> Option<Seq<char>> {
    match item.member(key) {
        Some(value) => value.text(),
        None => None,
    }
}

/// The raw article that an element of the provider's list denotes.
pub open spec fn raw_article_of(item: JsonView) -> RawArticleView {
    RawArticleView {
        title: text_field(item, "title"@),
        source: text_field(item, "source"@),
        updated_at: text_field(item, "updated_at"@),
        description: text_field(item, "description"@),
        url: text_field(item, "url"@),
    }
}

/// The elements of the array stored under `data`; `None` where the answer
/// has no such key or holds something other than an array there.
pub open spec fn data_items(root: JsonView) -> Option<Seq<JsonView>> {
    match root.member("data"@) {
        Some(data) => data.elements(),
        None => None,
    }
}

/// The raw articles of a provider's answer, in the order of its list.
pub open spec fn raw_articles(root: JsonView) -> Option<Seq<RawArticleView>> {
    match data_items(root) {
        Some(items) => Some(items.map_values(|item: JsonView| raw_article_of(item))),
        None => None,
    }
}

/// A title matches a query when it is present and its lowercase form contains
/// the lowercase form of the query.
pub open spec fn title_matches(title: Option<Seq<char>>, query: Seq<char>) -> bool {
    match title {
        Some(title) => is_substring(lowercase(query), lowercase(title)),
        None => false,
    }
}

/// The record that a raw article contributes to the result for `query`, if
/// any. The title is tested before a record is built, so an item without a
/// title never contributes.
pub open spec fn selected(raw: RawArticleView, query: Seq<char>) -> Option<ArticleView> {
    if title_matches(raw.title, query) {
        Some(article_of(raw))
    } else {
        None
    }
}

/// The records of all raw articles that match `query`, in the order of the
/// raw articles.
pub open spec fn select_all(raws: Seq<RawArticleView>, query: Seq<char>) -> Seq<ArticleView> {
    raws.filter_map(|raw: RawArticleView| selected(raw, query))
}

/// The result of normalizing a provider's answer for `query`. An answer
/// without an article list gives no records.
pub open spec fn normalized(root: JsonView, query: Seq<char>) -> Seq<ArticleView> {
    match raw_articles(root) {
        Some(raws) => select_all(raws, query),
        None => Seq::empty(),
    }
}

/// The positions of the raw articles that match `query`, in rising order.
pub open spec fn matching_indices(raws: Seq<RawArticleView>, query: Seq<char>) -> Seq<int>
    decreases raws.len(),
{
    if raws.len() == 0 {
        Seq::empty()
    } else {
        let earlier = matching_indices(raws.drop_last(), query);
        if title_matches(raws.last().title, query) {
            earlier.push(raws.len() - 1)
        } else {
            earlier
        }
    }
}

/// A raw article is among the selected ones if and only if it has a title
/// whose lowercase form contains the lowercase form of the query.
pub proof fn lemma_included_iff_title_matches(
    raws: Seq<RawArticleView>,
    query: Seq<char>,
    i: int,
)
    requires
        0 <= i < raws.len(),
    ensures
        matching_indices(raws, query).contains(i) <==> (raws[i].title matches Some(title)
            && is_substring(lowercase(query), lowercase(title))),
    decreases raws.len(),
{
    let earlier = matching_indices(raws.drop_last(), query);
    let last = raws.len() - 1;
    lemma_indices_in_range(raws.drop_last(), query);
    if i < last {
        lemma_included_iff_title_matches(raws.drop_last(), query, i);
        if title_matches(raws.last().title, query) {
            if earlier.contains(i) {
                let k = earlier.index_of(i);
                assert(earlier.push(last)[k] == i);
            }
        }
    } else {
        if title_matches(raws.last().title, query) {
            assert(earlier.push(last)[earlier.len() as int] == last);
        }
    }
}

/// A raw article without a title is never among the selected ones, whatever
/// the query.
pub proof fn lemma_untitled_excluded(raws: Seq<RawArticleView>, query: Seq<char>, i: int)
    requires
        0 <= i < raws.len(),
        raws[i].title is None,
    ensures
        !matching_indices(raws, query).contains(i),
{
    lemma_included_iff_title_matches(raws, query, i);
}

/// Every matching position lies within the list.
pub proof fn lemma_indices_in_range(raws: Seq<RawArticleView>, query: Seq<char>)
    ensures
        forall|k: int|
            0 <= k < matching_indices(raws, query).len() ==> 0 <= #[trigger] matching_indices(
                raws,
                query,
            )[k] < raws.len(),
    decreases raws.len(),
{
    if raws.len() > 0 {
        let earlier = matching_indices(raws.drop_last(), query);
        lemma_indices_in_range(raws.drop_last(), query);
        assert forall|k: int| 0 <= k < matching_indices(raws, query).len() implies 0
            <= #[trigger] matching_indices(raws, query)[k] < raws.len() by {
            if k < earlier.len() {
                assert(matching_indices(raws, query)[k] == earlier[k]);
            }
        }
    }
}

/// Selection keeps the order of the list: the matching positions rise
/// strictly, and the records come out in the order of these positions.
pub proof fn lemma_order_preserved(raws: Seq<RawArticleView>, query: Seq<char>)
    ensures
        forall|a: int, b: int|
            0 <= a < b < matching_indices(raws, query).len() ==> matching_indices(raws, query)[a]
                < matching_indices(raws, query)[b],
        select_all(raws, query).len() == matching_indices(raws, query).len(),
        forall|k: int|
            0 <= k < matching_indices(raws, query).len() ==> #[trigger] select_all(raws, query)[k]
                == article_of(raws[matching_indices(raws, query)[k]]),
    decreases raws.len(),
{
    if raws.len() > 0 {
        lemma_order_preserved(raws.drop_last(), query);
        lemma_indices_in_range(raws.drop_last(), query);
    }
}

/// A selected record holds the raw article's own title and carries every
/// other field over as it is: what is absent stays absent.
pub proof fn lemma_fields_carried_over(raw: RawArticleView, query: Seq<char>)
    requires
        selected(raw, query) is Some,
    ensures
        raw.title == Some(selected(raw, query)->0.title),
        selected(raw, query)->0.source == raw.source,
        selected(raw, query)->0.date == raw.updated_at,
        selected(raw, query)->0.summary == raw.description,
        selected(raw, query)->0.link == raw.url,
{
}

/// The records of an answer, told from its article list: an element is kept
/// if and only if the text under its `title` matches the query, and the
/// records of the kept elements come out in the order of the list.
pub proof fn lemma_normalized_from_items(root: JsonView, query: Seq<char>)
    requires
        data_items(root) is Some,
    ensures
        ({
            let items = data_items(root)->0;
            let kept = matching_indices(raw_articles(root)->0, query);
            &&& normalized(root, query).len() == kept.len()
            &&& forall|i: int|
                0 <= i < items.len() ==> (#[trigger] kept.contains(i) <==> title_matches(
                    text_field(items[i], "title"@),
                    query,
                ))
            &&& forall|a: int, b: int| 0 <= a < b < kept.len() ==> kept[a] < kept[b]
            &&& forall|k: int|
                0 <= k < kept.len() ==> 0 <= kept[k] < items.len() && #[trigger] normalized(
                    root,
                    query,
                )[k] == article_of(raw_article_of(items[kept[k]]))
        }),
{
    let items = data_items(root)->0;
    let raws = raw_articles(root)->0;
    let kept = matching_indices(raws, query);
    lemma_order_preserved(raws, query);
    lemma_indices_in_range(raws, query);
    assert forall|i: int| 0 <= i < items.len() implies (#[trigger] kept.contains(i)
        <==> title_matches(text_field(items[i], "title"@), query)) by {
        lemma_included_iff_title_matches(raws, query, i);
    }
}

/// An answer without an article list gives no records, whatever the query.
pub proof fn lemma_no_list_no_records(root: JsonView, query: Seq<char>)
    requires
        data_items(root) is None,
    ensures
        normalized(root, query) == Seq::<ArticleView>::empty(),
{
}

/// Reads the text stored under `key` in a JSON object.
fn read_text_field(item: &serde_json::Value, key: &str) -> (found: Option<String>)
    ensures
        found.deep_view() == text_field(json_view(*item), key@),
{
    match member(item, key) {
        Some(value) => match text(value) {
            Some(characters) => Some(String::from_str(characters)),
            None => None,
        },
        None => None,
    }
}

/// Reads one element of the provider's list as a raw article.
pub fn read_article(item: &serde_json::Value) -> (raw: RawArticle)
    ensures
        raw@ == raw_article_of(json_view(*item)),
{
    RawArticle {
        title: read_text_field(item, "title"),
        source: read_text_field(item, "source"),
        updated_at: read_text_field(item, "updated_at"),
        description: read_text_field(item, "description"),
        url: read_text_field(item, "url"),
    }
}

/// Reads the article list out of a provider's answer.
///
/// Returns `None` exactly where the answer holds no array under `data`, so
/// that a caller can tell an answer without a list from an empty list.
pub fn extract_articles(root: &serde_json::Value) -> (raws: Option<Vec<RawArticle>>)
    ensures
        raws.deep_view() == raw_articles(json_view(*root)),
{
    let data = match member(root, "data") {
        Some(data) => data,
        None => {
            return None;
        },
    };
    let items = match elements(data) {
        Some(items) => items,
        None => {
            return None;
        },
    };
    let mut raws: Vec<RawArticle> = Vec::new();
    let mut i: usize = 0;
    while i < items.len()
        invariant
            i <= items.len(),
            raws.len() == i,
            forall|k: int| 0 <= k < i ==> raws@[k]@ == raw_article_of(json_view(items@[k])),
        decreases items.len() - i,
    {
        let raw = read_article(&items[i]);
        raws.push(raw);
        i += 1;
    }
    assert(raws.deep_view() =~= json_views(items@).map_values(
        |item: JsonView| raw_article_of(item),
    ));
    Some(raws)
}

/// Tells whether a title matches a query that is already lowercase and split
/// into characters.
fn title_contains(title: &Option<String>, lowered_query: &Vec<char>) -> (found: bool)
    ensures
        found == match title.deep_view() {
            Some(title) => is_substring(lowered_query@, lowercase(title)),
            None => false,
        },
{
    match title {
        Some(title) => {
            let lowered = to_lowercase(title.as_str());
            let haystack = chars_of(lowered.as_str());
            contains_chars(&haystack, lowered_query)
        },
        None => false,
    }
}

/// Keeps the raw articles whose title matches `crypto` and builds their
/// records.
pub fn select_articles(raws: Vec<RawArticle>, crypto: &str) -> (articles: Vec<NewsArticle>)
    ensures
        articles.deep_view() == select_all(raws.deep_view(), crypto@),
{
    let lowered = to_lowercase(crypto);
    let needle = chars_of(lowered.as_str());
    let ghost all = raws.deep_view();
    let mut articles: Vec<NewsArticle> = Vec::new();
    for raw in it: raws
        invariant
            it.seq().len() == all.len(),
            forall|k: int| 0 <= k < all.len() ==> (#[trigger] it.seq()[k])@ == all[k],
            needle@ == lowercase(crypto@),
            articles.deep_view() == select_all(all.take(it.index() as int), crypto@),
    {
        proof {
            all.lemma_filter_map_take_succ(
                |raw: RawArticleView| selected(raw, crypto@),
                it.index() as int,
            );
        }
        if title_contains(&raw.title, &needle) {
            let article = NewsArticle::from_raw(raw);
            articles.push(article);
        }
    }
    assert(all.take(all.len() as int) == all);
    articles
}

/// Normalizes a provider's answer: the records of the listed articles whose
/// title contains `crypto` without regard to case, in the order of the list.
/// An answer without a list under `data` gives no records; that is no error.
pub fn normalize(root: &serde_json::Value, crypto: &str) -> (articles: Vec<NewsArticle>)
    ensures
        articles.deep_view() == normalized(json_view(*root), crypto@),
        data_items(json_view(*root)) is None ==> articles@.len() == 0,
{
    match extract_articles(root) {
        Some(raws) => select_articles(raws, crypto),
        None => Vec::new(),
    }
}

} // verus!
